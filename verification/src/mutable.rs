//! The mutable variant of the container: `replace` overwrites the stored
//! value in place.

use vstd::prelude::*;

verus! {

/// A container for one value that can be read at any time and overwritten
/// through [`DirtyStatic::replace`]. Exclusive access to the container is
/// required for the overwrite, so a reference obtained from
/// [`DirtyStatic::read`] can never be held across a replacement.
pub struct DirtyStatic<T> {
    value: T,
}

impl<T> View for DirtyStatic<T> {
    type V = T;

    closed spec fn view(&self) -> T {
        self.value
    }
}

impl<T> DirtyStatic<T> {
    /// The container that construction from `v` yields.
    pub closed spec fn construct_spec(v: T) -> Self {
        DirtyStatic { value: v }
    }

    /// The container after a replacement with `v`: the old value is gone and
    /// `v` stands in its place.
    pub closed spec fn replace_spec(self, v: T) -> Self {
        DirtyStatic { value: v }
    }

    /// Create a new container holding `t`.
    pub fn new(t: T) -> (result: Self)
        ensures
            result == Self::construct_spec(t),
            result@ == t,
    {
        DirtyStatic { value: t }
    }

    /// Borrow the currently stored value.
    pub fn read(&self) -> (r: &T)
        ensures
            *r == self@,
    {
        &self.value
    }

    /// Replace the stored value with `t`; the old value is dropped.
    pub fn replace(&mut self, t: T)
        ensures
            *final(self) == old(self).replace_spec(t),
            final(self)@ == t,
    {
        self.value = t;
    }
}

/// Construction identity: a container built from `v` reads back as `v`.
pub proof fn lemma_construct_identity<T>(v: T)
    ensures
        DirtyStatic::<T>::construct_spec(v)@ == v,
{
}

/// Replacement overwrites: after building a container from `v1` and
/// replacing with `v2`, the container reads back as `v2`.
pub proof fn lemma_replace_overwrites<T>(v1: T, v2: T)
    ensures
        DirtyStatic::<T>::construct_spec(v1).replace_spec(v2)@ == v2,
{
}

} // verus!
