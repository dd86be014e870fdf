//! Small foundational utilities: a nominal newtype wrapper with controlled
//! access to its inner value, panic-free extraction helpers for `Result` and
//! `Option`, one-level flattening of nested containers, and a few capability
//! traits.

pub mod abstraction;
pub mod asserts;
pub mod extend;
pub mod traits;
