use vstd::prelude::*;

verus! {

/// The finalizer of a guarded value: the routine that runs each time a scope of
/// mutable access to the value is released.
pub trait Guard {
    /// The states of the value on which the finalizer runs to completion. A
    /// finalizer that checks an invariant accepts the states that satisfy it.
    /// One that only observes accepts every state, which is the default.
    open spec fn accepts(&self) -> bool {
        true
    }

    /// Runs the finalizer. It has the value exclusively and may change it
    /// further. What it leaves is whatever the implementation ensures;
    /// [`finalizes`] speaks of that for every implementation.
    fn finish(&mut self)
        requires
            old(self).accepts(),
    ;
}

/// One run of the finalizer of `T` through the reference `r`: the run found `*r`
/// and left `*final(r)`.
#[verifier::inline]
pub open spec fn finalizes<T: Guard>(r: &mut T) -> bool {
    call_ensures(T::finish, (r,), ())
}

} // verus!
