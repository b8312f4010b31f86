use crate::finalizer::Guard;
use crate::guard::MutGuard;
use std::ops::Deref;
use std::ops::DerefMut;
use vstd::prelude::*;

verus! {

/// A value together with a closure that serves as its finalizer: the [`Guard`]
/// that [`MutGuard::wrap`] builds. It reads and writes as the value does; only
/// `finish` goes to the closure.
pub struct MutGuardWrapper<T, F: FnMut(&mut T)> {
    inner: T,
    f: F,
}

impl<T, F: FnMut(&mut T)> MutGuardWrapper<T, F> {
    /// The wrapped value.
    pub closed spec fn view(&self) -> T {
        self.inner
    }

    /// The closure that finalizes the value.
    pub closed spec fn callback(&self) -> F {
        self.f
    }

    /// Pairs `inner` with the closure `f`.
    pub fn new(inner: T, f: F) -> (wrapper: MutGuardWrapper<T, F>)
        ensures
            wrapper@ == inner,
            wrapper.callback() == f,
    {
        MutGuardWrapper { inner, f }
    }
}

impl<T, F: FnMut(&mut T)> Guard for MutGuardWrapper<T, F> {
    /// The wrapper accepts the states in which the closure may be called with
    /// the wrapped value.
    open spec fn accepts(&self) -> bool {
        forall|r: &mut T| *r == self@ ==> #[trigger] call_requires(self.callback(), (r,))
    }

    /// Calls the closure once, with the wrapped value and nothing else. What the
    /// closure leaves is the wrapped value afterwards; the closure itself stays
    /// as it was.
    fn finish(&mut self)
        ensures
            final(self).callback() == old(self).callback(),
            exists|r: &mut T| #[trigger]
                call_ensures(old(self).callback(), (r,), ()) && *r == old(self)@ && *final(r)
                    == final(self)@,
    {
        assert(self.f == old(self).callback() && self.inner == old(self)@);
        (self.f)(&mut self.inner);
    }
}

impl<T, F: FnMut(&mut T)> Deref for MutGuardWrapper<T, F> {
    type Target = T;

    /// Read access to the wrapped value.
    fn deref(&self) -> (value: &T)
        ensures
            *value == self@,
    {
        &self.inner
    }
}

impl<T, F: FnMut(&mut T)> DerefMut for MutGuardWrapper<T, F> {
    /// Write access to the wrapped value. The closure is not called and stays
    /// as it was.
    fn deref_mut(&mut self) -> (value: &mut T)
        ensures
            *value == old(self)@,
            final(self)@ == *final(value),
            final(self).callback() == old(self).callback(),
    {
        &mut self.inner
    }
}

impl<T, F: FnMut(&mut T)> MutGuard<MutGuardWrapper<T, F>> {
    /// Puts `inner` under guard with the closure `f` as its finalizer: `f` is
    /// called with the value each time a scope is released.
    pub fn wrap(inner: T, f: F) -> (guarded: MutGuard<MutGuardWrapper<T, F>>)
        ensures
            guarded@@ == inner,
            guarded@.callback() == f,
            guarded.finalized() == Seq::<MutGuardWrapper<T, F>>::empty(),
    {
        let wrapper = MutGuardWrapper::new(inner, f);
        MutGuard::new(wrapper)
    }
}

} // verus!
