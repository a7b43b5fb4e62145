//! The frozen variant of the container: `replace` leaves the stored value
//! untouched, counts the attempt, and emits a diagnostic warning line.

use std::io::Write;
use vstd::prelude::*;

verus! {

/// A container for one value that is fixed at construction. Its
/// [`DirtyStatic::replace`] keeps the surface of the mutable variant but
/// performs no mutation of the value: it records the attempt in a warning
/// counter and writes one diagnostic line to the standard error stream.
pub struct DirtyStatic<T> {
    value: T,
    warnings: u64,
}

impl<T> View for DirtyStatic<T> {
    type V = T;

    closed spec fn view(&self) -> T {
        self.value
    }
}

/// Relies on std::io::stderr, through the writeln macro: prints one warning
/// line to the standard error stream.
#[verifier::external_body]
fn log_replace_disabled() {
    let _ = writeln!(std::io::stderr(), "WARNING: Can't replace in frozen mode!");
}

impl<T> DirtyStatic<T> {
    /// The container that construction from `v` yields: it holds `v` and has
    /// warned of nothing yet.
    pub closed spec fn construct_spec(v: T) -> Self {
        DirtyStatic { value: v, warnings: 0u64 }
    }

    /// The container after a replacement attempt: the value is unchanged and
    /// one more warning has been recorded. The offered value plays no part.
    pub closed spec fn replace_spec(self, v: T) -> Self {
        DirtyStatic { value: self.value, warnings: (self.warnings + 1) as u64 }
    }

    /// How many replacement attempts the container has warned about, one
    /// warning line each.
    pub closed spec fn warnings_logged(&self) -> u64 {
        self.warnings
    }

    /// Create a new container holding `t`.
    pub fn new(t: T) -> (result: Self)
        ensures
            result == Self::construct_spec(t),
            result@ == t,
            result.warnings_logged() == 0,
    {
        DirtyStatic { value: t, warnings: 0 }
    }

    /// Borrow the stored value.
    pub fn read(&self) -> (r: &T)
        ensures
            *r == self@,
    {
        &self.value
    }

    /// Attempt to replace the stored value: the value stays as it is, the
    /// warning counter grows by one, and one warning line is emitted.
    pub fn replace(&mut self, t: T)
        requires
            old(self).warnings_logged() < u64::MAX,
        ensures
            *final(self) == old(self).replace_spec(t),
            final(self)@ == old(self)@,
            final(self).warnings_logged() == old(self).warnings_logged() + 1,
    {
        let _ = t;
        log_replace_disabled();
        self.warnings = self.warnings + 1;
    }

    /// Read the warning counter.
    pub fn warnings(&self) -> (n: u64)
        ensures
            n == self.warnings_logged(),
    {
        self.warnings
    }
}

/// Construction identity: a container built from `v` reads back as `v`, with
/// no warning recorded.
pub proof fn lemma_construct_identity<T>(v: T)
    ensures
        DirtyStatic::<T>::construct_spec(v)@ == v,
        DirtyStatic::<T>::construct_spec(v).warnings_logged() == 0,
{
}

/// Replacement is inert: after building a container from `v1` and attempting
/// a replacement with `v2`, the container still reads back as `v1`, and
/// exactly one warning has been recorded.
pub proof fn lemma_replace_is_inert<T>(v1: T, v2: T)
    ensures
        DirtyStatic::<T>::construct_spec(v1).replace_spec(v2)@ == v1,
        DirtyStatic::<T>::construct_spec(v1).replace_spec(v2).warnings_logged() == 1,
{
}

} // verus!
