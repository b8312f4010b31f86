use crate::finalizer::finalizes;
use crate::finalizer::Guard;
use crate::guard::one_scope;
use crate::guard::MutGuard;
use crate::wrapper::MutGuardWrapper;
use vstd::prelude::*;

verus! {

/// `states` are the states of one container between scopes: each but the first
/// is what one released scope made of the state before it.
pub open spec fn scopes_in_turn<T>(states: Seq<MutGuard<T>>) -> bool {
    forall|i: int| 0 <= i < states.len() - 1 ==> one_scope(#[trigger] states[i], states[i + 1])
}

/// The state in which a released scope leaves the container is the last state
/// that the finalizer left: a read that follows sees just that.
pub proof fn lemma_release_leaves_finalized_value<T>(before: MutGuard<T>, after: MutGuard<T>)
    requires
        one_scope(before, after),
    ensures
        after.finalized().len() == before.finalized().len() + 1,
        after.finalized().last() == after@,
{
}

/// The values that the scopes left, one for each state of `states` but the
/// first, in order.
pub open spec fn values_left<T>(states: Seq<MutGuard<T>>) -> Seq<T> {
    Seq::new((states.len() - 1) as nat, |k: int| states[k + 1]@)
}

/// Scopes released one after the other run the finalizer once each, in the order
/// of release: the record after them is the record before them, followed by the
/// value that each scope left.
pub proof fn lemma_one_finalization_per_scope<T>(states: Seq<MutGuard<T>>)
    requires
        states.len() > 0,
        scopes_in_turn(states),
    ensures
        states.last().finalized() == states[0].finalized() + values_left(states),
        states.last().finalized().len() == states[0].finalized().len() + states.len() - 1,
    decreases states.len(),
{
    if states.len() > 1 {
        let earlier = states.drop_last();
        assert forall|i: int| 0 <= i < earlier.len() - 1 implies one_scope(
            #[trigger] earlier[i],
            earlier[i + 1],
        ) by {
            assert(one_scope(states[i], states[i + 1]));
        }
        lemma_one_finalization_per_scope(earlier);
        assert(one_scope(states[states.len() - 2], states.last()));
        assert(values_left(states) == values_left(earlier).push(states.last()@));
    }
}

/// The finalizer runs for released scopes and for nothing else: a container
/// whose record is as long as it was has had no scope released in between. A
/// container that was only read, which leaves it the very value it was, is such
/// a container.
pub proof fn lemma_no_finalization_without_scope<T>(states: Seq<MutGuard<T>>)
    requires
        states.len() > 0,
        scopes_in_turn(states),
    ensures
        states.last().finalized().len() == states[0].finalized().len() <==> states.len() == 1,
{
    lemma_one_finalization_per_scope(states);
}

/// The wrapper accepts a state exactly when its closure may be called with the
/// wrapped value.
pub proof fn lemma_wrapper_accepts<T, F: FnMut(&mut T)>(wrapper: MutGuardWrapper<T, F>)
    ensures
        wrapper.accepts() <==> forall|r: &mut T|
            *r == wrapper@ ==> #[trigger] call_requires(wrapper.callback(), (r,)),
{
}

/// A run of the wrapper's finalizer is one call of its closure: the closure got
/// the wrapped value as it was before the run, what the closure left is the
/// wrapped value after it, and the closure itself is unchanged. So a value under
/// guard with a closure behaves as a type whose own `finish` does what the
/// closure does.
pub proof fn lemma_wrapper_finalizes<T, F: FnMut(&mut T)>(
    before: MutGuardWrapper<T, F>,
    after: MutGuardWrapper<T, F>,
)
    requires
        exists|w: &mut MutGuardWrapper<T, F>| #[trigger]
            finalizes(w) && *w == before && *final(w) == after,
    ensures
        after.callback() == before.callback(),
        exists|r: &mut T| #[trigger]
            call_ensures(before.callback(), (r,), ()) && *r == before@ && *final(r) == after@,
{
}

} // verus!
