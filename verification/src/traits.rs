//! Small capability traits: producing a value from a type alone, and reading
//! the length of a fixed-size array type without a value of it.

use vstd::prelude::*;

verus! {

/// Get something.
pub trait Get<T> {
    /// Get something.
    fn get() -> T;
}

/// Get the length of a static array only from its type.
pub trait LengthOfArray {
    /// How many elements the array type holds.
    const LENGTH: usize;
}

impl<T, const LENGTH: usize> LengthOfArray for [T; LENGTH] {
    const LENGTH: usize = LENGTH;
}

} // verus!
