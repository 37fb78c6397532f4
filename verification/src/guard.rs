//! The shared resource guard: mutual exclusion over one shared value.
//!
//! One database connection serves every request, so access to it is
//! serialized: at most one holder at a time, acquisition only while free,
//! and the guarded value can only be touched by the current holder.
//! Acquisition is explicit and so is release, which makes the protocol
//! itself checkable: code that forgets to release, or that touches the
//! value without holding the guard, does not verify.

use vstd::prelude::*;

verus! {

/// Serializes access to a single shared value.
pub struct ResourceGuard<T> {
    value: T,
    held: bool,
}

impl<T> ResourceGuard<T> {
    /// Whether some holder currently owns the guarded value.
    pub closed spec fn spec_held(&self) -> bool {
        self.held
    }

    /// The guarded value.
    pub closed spec fn spec_value(&self) -> T {
        self.value
    }

    /// A fresh guard is free.
    pub fn new(value: T) -> (g: Self)
        ensures
            !g.spec_held(),
            g.spec_value() == value,
    {
        ResourceGuard { value, held: false }
    }

    pub fn is_held(&self) -> (b: bool)
        ensures
            b == self.spec_held(),
    {
        self.held
    }

    /// Take exclusive ownership.  At most one request may hold the guard,
    /// so acquisition demands that it be free; the value is untouched.
    pub fn acquire(&mut self)
        requires
            !old(self).spec_held(),
        ensures
            final(self).spec_held(),
            final(self).spec_value() == old(self).spec_value(),
    {
        self.held = true;
    }

    /// Give the guard back.  Every exit path of a critical section must
    /// end here; the value is untouched.
    pub fn release(&mut self)
        requires
            old(self).spec_held(),
        ensures
            !final(self).spec_held(),
            final(self).spec_value() == old(self).spec_value(),
    {
        self.held = false;
    }

    /// Exchange the guarded value: the one write the protocol permits,
    /// and only for the current holder.
    pub fn replace(&mut self, value: T) -> (prev: T)
        requires
            old(self).spec_held(),
        ensures
            final(self).spec_held(),
            final(self).spec_value() == value,
            prev == old(self).spec_value(),
    {
        let mut v = value;
        core::mem::swap(&mut self.value, &mut v);
        v
    }

    /// Read the guarded value; only the current holder may.
    pub fn borrow_value(&self) -> (v: &T)
        requires
            self.spec_held(),
        ensures
            v == self.spec_value(),
    {
        &self.value
    }
}

} // verus!
