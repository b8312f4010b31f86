use crate::finalizer::finalizes;
use crate::finalizer::Guard;
use std::ops::Deref;
use std::ops::DerefMut;
use vstd::prelude::*;

verus! {

/// Owns a value and lets it be read, but changed only through the scope that
/// [`MutGuard::guard`] opens.
///
/// Besides the value the container keeps, as ghost state, the record of the
/// finalizer's runs: the state in which each run left the value, oldest first.
pub struct MutGuard<T> {
    inner: T,
    record: Ghost<Seq<T>>,
}

/// A scope of mutable access to the value of a [`MutGuard`]. While it lives it
/// holds the container exclusively, so nothing else can read the value or open
/// a second scope. [`MutGuardBorrow::release`] ends the scope and runs the
/// finalizer.
///
/// A scope that is dropped without `release` is abandoned: what was written
/// stays, no finalizer has run, and no contract speaks of the container
/// afterwards.
#[must_use]
pub struct MutGuardBorrow<'a, T: 'a + Guard> {
    inner: &'a mut MutGuard<T>,
}

/// `after` is what one released scope makes of `before`: the finalizer has run
/// once more, and what it left is the value of `after`.
pub open spec fn one_scope<T>(before: MutGuard<T>, after: MutGuard<T>) -> bool {
    after.finalized() == before.finalized().push(after@)
}

impl<T> MutGuard<T> {
    /// The value that the container holds.
    pub closed spec fn view(&self) -> T {
        self.inner
    }

    /// The states in which the finalizer left the value, one for each scope
    /// released on this container, in the order of release.
    pub closed spec fn finalized(&self) -> Seq<T> {
        self.record@
    }
}

impl<T> Deref for MutGuard<T> {
    type Target = T;

    /// Read access to the value. The container is borrowed shared: no scope
    /// opens and no finalizer runs.
    fn deref(&self) -> (value: &T)
        ensures
            *value == self@,
    {
        &self.inner
    }
}

impl<T: Guard> MutGuard<T> {
    /// Puts `inner` under guard. No finalizer has run.
    pub fn new(inner: T) -> (guarded: MutGuard<T>)
        ensures
            guarded@ == inner,
            guarded.finalized() == Seq::<T>::empty(),
    {
        MutGuard { inner, record: Ghost(Seq::empty()) }
    }

    /// Opens a scope of mutable access. Nothing runs yet: the scope starts from
    /// the container as it is, and the container will be exactly what the scope
    /// leaves of it.
    pub fn guard(&mut self) -> (scope: MutGuardBorrow<'_, T>)
        ensures
            *scope.target() == *old(self),
            *final(self) == *final(scope.target()),
    {
        MutGuardBorrow { inner: self }
    }

    /// Ends the container and gives the value back as it is. No finalizer runs.
    pub fn into_inner(self) -> (value: T)
        ensures
            value == self@,
    {
        self.inner
    }
}

impl<'a, T: Guard> MutGuardBorrow<'a, T> {
    /// The exclusive reference to the container that the scope holds.
    pub closed spec fn target(&self) -> &mut MutGuard<T> {
        self.inner
    }

    /// The value as the scope sees it now.
    pub open spec fn view(&self) -> T {
        self.target()@
    }

    /// Ends the scope. The finalizer runs once, on the value as the scope leaves
    /// it; the container then holds what the finalizer left, and its record has
    /// that state as its newest entry.
    pub fn release(self)
        requires
            self@.accepts(),
        ensures
            exists|r: &mut T| #[trigger]
                finalizes(r) && *r == self@ && *final(r) == final(self.target())@,
            one_scope(*self.target(), *final(self.target())),
    {
        self.inner.inner.finish();
        proof {
            self.inner.record@ = self.inner.record@.push(self.inner.inner);
        }
    }
}

impl<'a, T: Guard> Deref for MutGuardBorrow<'a, T> {
    type Target = T;

    /// Read access to the value inside the scope.
    fn deref(&self) -> (value: &T)
        ensures
            *value == self@,
    {
        &self.inner.inner
    }
}

impl<'a, T: Guard> DerefMut for MutGuardBorrow<'a, T> {
    /// Write access to the value inside the scope. What is written through the
    /// reference is the scope's value afterwards. No finalizer runs, and the
    /// scope stays bound to the same container.
    fn deref_mut(&mut self) -> (value: &mut T)
        ensures
            *value == old(self)@,
            final(self)@ == *final(value),
            final(self).target().finalized() == old(self).target().finalized(),
            *final(final(self).target()) == *final(old(self).target()),
    {
        &mut self.inner.inner
    }
}

} // verus!
