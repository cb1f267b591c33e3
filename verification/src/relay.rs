use crate::options::total;
use crate::signal::UseRwSignal;
use std::cell::Cell;
use vstd::laws_eq::obeys_concrete_eq;
use vstd::prelude::*;
use vstd::std_specs::cmp::PartialEqSpec;

verus! {

/// The comparison that guards every write: does the destination, which holds
/// `held`, already have the value `candidate`? It is the destination's own
/// `==`, with the held value on the left.
pub open spec fn same<D: PartialEq>(held: D, candidate: D) -> bool {
    held.eq_spec(&candidate)
}

/// On a type whose `==` is equality of values, [`same`] is equality.
pub proof fn lemma_same_is_equal<D: PartialEq>(held: D, candidate: D)
    requires
        obeys_concrete_eq::<D>(),
    ensures
        same(held, candidate) <==> held == candidate,
{
    reveal(obeys_concrete_eq);
}

/// What an observer writes into its destination: `candidate`, unless the
/// destination already holds a value equal to it, or holds none at all.
pub open spec fn spec_pending_write<D: PartialEq>(candidate: D, current: Option<D>) -> Option<D> {
    match current {
        Some(held) => if same(held, candidate) {
            None
        } else {
            Some(candidate)
        },
        None => None,
    }
}

/// Decides what an observer writes. `candidate` is the source's value after
/// the transform, `current` what the destination holds (`None`: the host no
/// longer has it). A write that would not change the destination is left out,
/// so that it cannot set off the observer of the opposite direction.
pub fn pending_write<D: PartialEq>(candidate: D, current: &Option<D>) -> (write: Option<D>)
    ensures
        current is None ==> write is None,
        write matches Some(value) ==> value == candidate,
        D::obeys_eq_spec() ==> write == spec_pending_write(candidate, *current),
{
    match current {
        Some(held) => if *held != candidate {
            Some(candidate)
        } else {
            None
        },
        None => None,
    }
}

/// std's `Cell`. Opaque here: what it holds changes behind a shared
/// reference.
#[verifier::external_type_specification]
#[verifier::external_body]
#[verifier::reject_recursive_types(T)]
pub struct ExCell<T: ?Sized>(Cell<T>);

/// `std::cell::Cell::new`: a flag that is down.
#[verifier::external_body]
pub(crate) fn new_flag() -> Cell<bool> {
    Cell::new(false)
}

/// `std::cell::Cell::replace`: raises the flag and tells whether it was up
/// already. What a flag holds is state behind a shared reference, so the
/// contract is silent on the answer.
#[verifier::external_body]
fn raise(flag: &Cell<bool>) -> bool {
    flag.replace(true)
}

/// `std::cell::Cell::set`: lowers the flag.
#[verifier::external_body]
fn lower(flag: &Cell<bool>) {
    flag.set(false)
}

/// The flag answered `up` when it was raised.
pub closed spec fn raised(flag: Cell<bool>, up: bool) -> bool {
    call_ensures(raise, (&flag,), up)
}

/// The flag has been lowered.
pub closed spec fn lowered(flag: Cell<bool>) -> bool {
    call_ensures(lower, (&flag,), ())
}

/// How one run of an observer ended.
pub enum Relayed {
    /// The source is gone: there was nothing to carry over.
    NoSource,
    /// An observer of this link was in the middle of its run, so this run
    /// was set off by that one's write and did nothing.
    Busy,
    /// The destination holds the value already, or is gone.
    Kept,
    /// The value was handed to the destination.
    Written,
}

/// What links a run that was not cut short to its inputs: the transform made
/// `candidate` of the source's value, the destination answered `current` to
/// a read without tracking, and `candidate` was stored where
/// [`spec_pending_write`] says so, and nothing else ever.
pub open spec fn carried_over<S, D: Clone + PartialEq, F: Fn(&S) -> D>(
    seen: S,
    transform: F,
    destination: UseRwSignal<D>,
    candidate: D,
    current: Option<D>,
    outcome: Relayed,
) -> bool {
    &&& call_ensures(transform, (&seen,), candidate)
    &&& destination.read_untracked(current)
    &&& outcome is Kept || outcome is Written
    &&& outcome is Written ==> destination.stored(candidate, true)
    &&& D::obeys_eq_spec() ==> (spec_pending_write(candidate, current) is None ==> outcome is Kept)
    &&& D::obeys_eq_spec() ==> (spec_pending_write(candidate, current) is Some ==> exists|
        applied: bool,
    | #[trigger]
        destination.stored(candidate, applied) && (outcome is Written <==> applied))
}

/// One run of an observer: `value` is what its source shows, `destination`
/// the signal of the other side, `running` the flag of the link.
///
/// The flag is up for the length of the run. A write reports to the observer
/// of the other direction before it returns; that observer finds the flag up
/// and leaves at once, so that its write cannot come back into this run.
pub(crate) fn relay<S, D: Clone + PartialEq, F: Fn(&S) -> D>(
    value: &Option<S>,
    transform: &F,
    destination: &UseRwSignal<D>,
    running: &Cell<bool>,
) -> (outcome: Relayed)
    requires
        total(*transform),
    ensures
        value is None <==> outcome is NoSource,
        outcome is Busy ==> raised(*running, true),
        value matches Some(seen) ==> outcome is Busy || {
            &&& raised(*running, false)
            &&& lowered(*running)
            &&& exists|candidate: D, current: Option<D>| #[trigger]
                carried_over(*seen, *transform, *destination, candidate, current, outcome)
        },
{
    match value {
        None => Relayed::NoSource,
        Some(seen) => {
            if raise(running) {
                Relayed::Busy
            } else {
                let candidate = transform(seen);
                let current = destination.get_untracked();
                let ghost wanted = candidate;
                let outcome = match pending_write(candidate, &current) {
                    Some(new_value) => {
                        let applied = destination.store(new_value);
                        assert(destination.stored(wanted, applied));
                        if applied {
                            Relayed::Written
                        } else {
                            Relayed::Kept
                        }
                    },
                    None => Relayed::Kept,
                };
                lower(running);
                assert(carried_over(*seen, *transform, *destination, wanted, current, outcome));
                outcome
            }
        },
    }
}

} // verus!
