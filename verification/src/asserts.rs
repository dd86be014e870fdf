//! Panic-free extraction helpers for `Result` and `Option` values.
//!
//! Each helper requires, as a precondition, the shape it extracts from, so a
//! verified caller can never reach the failure report the helper would
//! otherwise owe.

use vstd::prelude::*;

verus! {

/// Extracts the success value of a `Result` known to be `Ok`.
pub fn assert_ok<T, E>(result: Result<T, E>) -> (value: T)
    requires
        result is Ok,
    ensures
        value == result->Ok_0,
{
    match result {
        Ok(value) => value,
        Err(_) => vstd::pervasive::unreached(),
    }
}

/// Extracts the success value of a `Result` known to hold the expected value.
pub fn assert_ok_eq<T, E>(result: Result<T, E>, expected: T) -> (value: T)
    requires
        result == Ok::<T, E>(expected),
    ensures
        value == expected,
{
    match result {
        Ok(value) => value,
        Err(_) => vstd::pervasive::unreached(),
    }
}

/// Extracts the error value of a `Result` known to be `Err`.
pub fn assert_err<T, E>(result: Result<T, E>) -> (error: E)
    requires
        result is Err,
    ensures
        error == result->Err_0,
{
    match result {
        Ok(_) => vstd::pervasive::unreached(),
        Err(error) => error,
    }
}

/// Checks that a `Result` holds exactly the expected error.
pub fn assert_err_eq<T, E>(result: Result<T, E>, expected: E)
    requires
        result == Err::<T, E>(expected),
{
}

/// Extracts the value of an `Option` known to be `Some`.
pub fn assert_some<T>(option: Option<T>) -> (value: T)
    requires
        option is Some,
    ensures
        value == option->0,
{
    match option {
        Some(value) => value,
        None => vstd::pervasive::unreached(),
    }
}

/// Turns a condition into a `Result`: `Ok(())` when the condition holds,
/// the given error otherwise.
pub fn ensure<E>(condition: bool, error: E) -> (r: Result<(), E>)
    ensures
        r == (if condition {
            Ok::<(), E>(())
        } else {
            Err::<(), E>(error)
        }),
{
    if condition {
        Ok(())
    } else {
        Err(error)
    }
}

} // verus!
