//! One-level flattening of nested containers: `Option<Option<_>>` and
//! `Result<Result<_, _>, _>` collapse to their singly-nested equivalents.
//!
//! Exactly one level of nesting is removed per call; a triply nested value
//! flattens to a doubly nested one.

use vstd::prelude::*;

verus! {

/// Collapses one level of nesting from a doubly nested fallible value.
pub trait ResultFlatten: Sized {
    type Success;

    type Failure;

    /// What flattening returns, as a mathematical value.
    spec fn flatted_spec(self) -> Result<Self::Success, Self::Failure>;

    /// Removes exactly one level of nesting.
    fn flatted(self) -> (r: Result<Self::Success, Self::Failure>)
        ensures
            r == self.flatted_spec(),
    ;
}

/// Collapses one level of nesting from a doubly nested optional value.
pub trait OptionFlatten: Sized {
    type Value;

    /// What flattening returns, as a mathematical value.
    spec fn flatted_spec(self) -> Option<Self::Value>;

    /// Removes exactly one level of nesting.
    fn flatted(self) -> (r: Option<Self::Value>)
        ensures
            r == self.flatted_spec(),
    ;
}

impl<Value> OptionFlatten for Option<Option<Value>> {
    type Value = Value;

    /// The outer `None` stays `None`; a present inner value is returned as is.
    open spec fn flatted_spec(self) -> Option<Value> {
        match self {
            None => None,
            Some(inner) => inner,
        }
    }

    /// Convert `Option<Option<Value>>` to `Option<Value>`.
    fn flatted(self) -> (r: Option<Value>) {
        match self {
            None => None,
            Some(inner) => inner,
        }
    }
}

impl<Success, Failure> ResultFlatten for Result<Result<Success, Failure>, Failure> {
    type Success = Success;

    type Failure = Failure;

    /// An outer failure takes precedence; an outer success yields the inner
    /// value, success or failure.
    open spec fn flatted_spec(self) -> Result<Success, Failure> {
        match self {
            Err(e) => Err(e),
            Ok(inner) => inner,
        }
    }

    /// Convert `Result<Result<Success, Failure>, Failure>` to `Result<Success, Failure>`.
    fn flatted(self) -> (r: Result<Success, Failure>) {
        match self {
            Err(e) => Err(e),
            Ok(inner) => inner,
        }
    }
}

} // verus!
