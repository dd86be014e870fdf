//! A nominal newtype wrapper around a single inner value.
//!
//! `Wrapper<Tag, T>` holds exactly one value of type `T`. The `Tag` parameter
//! carries no data: it only makes wrappers with different tags distinct types,
//! so two wrappers of the same inner type can never be interchanged, nor can a
//! wrapper stand in for its inner type. All conversions are explicit, through
//! [`Wrapper::construct`], [`Wrapper::read`], [`Wrapper::read_mut`] and
//! [`Wrapper::consume`].

use core::marker::PhantomData;
use vstd::prelude::*;
use vstd::std_specs::cmp::PartialEqSpec;
use vstd::std_specs::cmp::PartialOrdSpec;

verus! {

/// A distinct nominal type holding exactly one value of type `T`.
///
/// Equality, ordering, hashing, cloning and debug formatting all delegate to
/// the inner value; the tag takes no part in any of them.
#[derive(Debug, Hash)]
pub struct Wrapper<Tag, T> {
    inner: T,
    tag: PhantomData<Tag>,
}

impl<Tag, T: Clone> Clone for Wrapper<Tag, T> {
    /// Clones the inner value; the tag carries nothing to clone.
    fn clone(&self) -> (r: Self)
        ensures
            vstd::pervasive::cloned::<T>(self@, r@),
    {
        Wrapper { inner: self.inner.clone(), tag: PhantomData }
    }
}

impl<Tag, T: Copy> Copy for Wrapper<Tag, T> {
}

/// Recovers the inner type of a wrapper from the wrapper type alone.
pub trait Inner {
    /// The type of the wrapped value.
    type InnerType;
}

impl<Tag, T> Inner for Wrapper<Tag, T> {
    type InnerType = T;
}

impl<Tag, T> View for Wrapper<Tag, T> {
    type V = T;

    closed spec fn view(&self) -> T {
        self.inner
    }
}

impl<Tag, T> Wrapper<Tag, T> {
    /// The wrapper whose inner value is `inner`, as a mathematical value.
    pub closed spec fn spec_construct(inner: T) -> Self {
        Wrapper { inner, tag: PhantomData }
    }

    /// Wraps an inner value. Never fails; the value is moved in unchanged.
    pub fn construct(inner: T) -> (w: Self)
        ensures
            w == Self::spec_construct(inner),
            w@ == inner,
    {
        Wrapper { inner, tag: PhantomData }
    }

    /// Borrows the inner value. No copy is made; the borrow lives exactly as
    /// long as the borrow of the wrapper.
    pub fn read(&self) -> (r: &T)
        ensures
            *r == self@,
    {
        &self.inner
    }

    /// Exclusively borrows the inner value. Any mutation legal on the inner
    /// type is legal through the returned borrow; the wrapper afterwards holds
    /// whatever value the caller left behind it.
    pub fn read_mut(&mut self) -> (r: &mut T)
        ensures
            *r == old(self)@,
            final(self)@ == *final(r),
    {
        &mut self.inner
    }

    /// Consumes the wrapper and returns the inner value as is.
    pub fn consume(self) -> (inner: T)
        ensures
            inner == self@,
    {
        self.inner
    }
}

impl<Tag, T: PartialEq> PartialEq for Wrapper<Tag, T> {
    /// Wrapper equality is exactly inner-value equality.
    fn eq(&self, other: &Self) -> bool {
        self.inner == other.inner
    }
}

impl<Tag, T: PartialEq> vstd::std_specs::cmp::PartialEqSpecImpl for Wrapper<Tag, T> {
    open spec fn obeys_eq_spec() -> bool {
        T::obeys_eq_spec()
    }

    open spec fn eq_spec(&self, other: &Self) -> bool {
        self@.eq_spec(&other@)
    }
}

impl<Tag, T: Eq> Eq for Wrapper<Tag, T> {
}

impl<Tag, T: PartialOrd> PartialOrd for Wrapper<Tag, T> {
    /// Wrapper ordering is exactly inner-value ordering.
    fn partial_cmp(&self, other: &Self) -> Option<core::cmp::Ordering> {
        self.inner.partial_cmp(&other.inner)
    }
}

impl<Tag, T: PartialOrd> vstd::std_specs::cmp::PartialOrdSpecImpl for Wrapper<Tag, T> {
    open spec fn obeys_partial_cmp_spec() -> bool {
        T::obeys_partial_cmp_spec()
    }

    open spec fn partial_cmp_spec(&self, other: &Self) -> Option<core::cmp::Ordering> {
        self@.partial_cmp_spec(&other@)
    }
}

/// When equality is available for the inner type, two constructed wrappers
/// are equal exactly when the wrapped values are: `construct(a) ==
/// construct(b)` iff `a == b`.
pub proof fn lemma_eq_is_inner_eq<Tag, T: PartialEq>(a: T, b: T)
    ensures
        Wrapper::<Tag, T>::spec_construct(a).eq_spec(&Wrapper::<Tag, T>::spec_construct(b))
            == a.eq_spec(&b),
{
}

/// Constructing a wrapper and taking its inner value back, whether by
/// [`Wrapper::read`] or [`Wrapper::consume`], yields the value that went in:
/// the view of a constructed wrapper is exactly the constructed value.
pub proof fn lemma_construct_view<Tag, T>(inner: T)
    ensures
        Wrapper::<Tag, T>::spec_construct(inner)@ == inner,
{
}

} // verus!
