//! What follows for a linked pair, proved of the [model](crate::model).
//!
//! Where a law speaks of values being equal it asks that `==` on the value
//! type is equality of values (`obeys_concrete_eq`): an observer compares
//! with the type's own `==` and knows no other equality.

use crate::direction::SyncDirection;
use crate::model::{established, Link, Pair, Side};
use crate::options::identity;
use crate::relay::{lemma_same_is_equal, same};
use vstd::laws_eq::obeys_concrete_eq;
use vstd::prelude::*;

verus! {

/// Setting up a link in both directions with `immediate`: the right signal
/// gets what the left value turns into, and then the left signal what that
/// turns into in its turn. Each signal is written once at most, and only
/// where it differed.
pub proof fn law_link_is_set_up_from_the_left<L: PartialEq, R: PartialEq>(
    left: L,
    right: R,
    transform_ltr: spec_fn(L) -> R,
    transform_rtl: spec_fn(R) -> L,
)
    requires
        obeys_concrete_eq::<L>(),
        obeys_concrete_eq::<R>(),
    ensures
        ({
            let end = established(
                left,
                right,
                SyncDirection::Both,
                true,
                transform_ltr,
                transform_rtl,
            );
            let there = transform_ltr(left);
            &&& end.right == there
            &&& end.left == transform_rtl(there)
            &&& end.writes_right == if right == there {
                0nat
            } else {
                1nat
            }
            &&& end.writes_left == if left == transform_rtl(there) {
                0nat
            } else {
                1nat
            }
        }),
{
    lemma_same_is_equal(right, transform_ltr(left));
    lemma_same_is_equal(left, transform_rtl(transform_ltr(left)));
}

/// Left wins: two signals of one type linked in both directions, with the
/// default transforms and with `immediate`, both hold the left signal's
/// value once the link stands, and the left signal has not been written.
pub proof fn law_left_wins<T: PartialEq>(left: T, right: T)
    requires
        obeys_concrete_eq::<T>(),
    ensures
        ({
            let end = established(
                left,
                right,
                SyncDirection::Both,
                true,
                identity::<T>(),
                identity::<T>(),
            );
            &&& end.left == left
            &&& end.right == left
            &&& end.writes_left == 0
        }),
{
    law_link_is_set_up_from_the_left(left, right, identity::<T>(), identity::<T>());
}

/// A link in one direction copies at once: set up with `immediate`, it
/// leaves the source as it was and the destination with what the source's
/// value turns into, whatever the transforms are.
pub proof fn law_one_way_link_copies_at_once<L: PartialEq, R: PartialEq>(
    left: L,
    right: R,
    direction: SyncDirection,
    transform_ltr: spec_fn(L) -> R,
    transform_rtl: spec_fn(R) -> L,
)
    requires
        obeys_concrete_eq::<L>(),
        obeys_concrete_eq::<R>(),
        direction != SyncDirection::Both,
    ensures
        ({
            let end = established(left, right, direction, true, transform_ltr, transform_rtl);
            &&& direction == SyncDirection::LeftToRight ==> end.left == left && end.right
                == transform_ltr(left) && end.writes_left == 0
            &&& direction == SyncDirection::RightToLeft ==> end.right == right && end.left
                == transform_rtl(right) && end.writes_right == 0
        }),
{
    lemma_same_is_equal(right, transform_ltr(left));
    lemma_same_is_equal(left, transform_rtl(right));
}

/// Without `immediate`, setting up a link writes nothing.
pub proof fn law_nothing_moves_without_immediate<L: PartialEq, R: PartialEq>(
    left: L,
    right: R,
    direction: SyncDirection,
    transform_ltr: spec_fn(L) -> R,
    transform_rtl: spec_fn(R) -> L,
)
    ensures
        established(left, right, direction, false, transform_ltr, transform_rtl) == Pair::at_rest(
            left,
            right,
        ),
{
}

/// Nothing is written where nothing differs: if each signal already holds
/// what the other one's value turns into, installing the observers with
/// `immediate` set writes neither signal.
pub proof fn law_equal_values_are_left_alone<L: PartialEq, R: PartialEq>(
    left: L,
    right: R,
    direction: SyncDirection,
    transform_ltr: spec_fn(L) -> R,
    transform_rtl: spec_fn(R) -> L,
)
    requires
        direction.left_to_right() ==> same(right, transform_ltr(left)),
        direction.right_to_left() ==> same(left, transform_rtl(right)),
    ensures
        established(left, right, direction, true, transform_ltr, transform_rtl) == Pair::at_rest(
            left,
            right,
        ),
{
}

/// A write into the right signal reaches the left one: where an observer on
/// the right signal is live, the left signal ends up with what `value` turns
/// into, and the right signal keeps `value`. Where the left signal held that
/// already, nothing is written at all.
pub proof fn law_right_write_reaches_left<L: PartialEq, R: PartialEq>(
    link: Link<L, R>,
    pair: Pair<L, R>,
    value: R,
)
    requires
        obeys_concrete_eq::<L>(),
        link.right_to_left,
    ensures
        ({
            let there = (link.transform_rtl)(value);
            let end = link.set_right(pair, value);
            &&& end.left == there
            &&& end.right == value
            &&& end.writes_right == 0
            &&& end.writes_left == if pair.left == there {
                0nat
            } else {
                1nat
            }
        }),
{
    lemma_same_is_equal(pair.left, (link.transform_rtl)(value));
}

/// A write into the left signal reaches the right one: where an observer on
/// the left signal is live, the right signal ends up with what `value` turns
/// into, and the left signal keeps `value`. Where the right signal held that
/// already, nothing is written at all.
pub proof fn law_left_write_reaches_right<L: PartialEq, R: PartialEq>(
    link: Link<L, R>,
    pair: Pair<L, R>,
    value: L,
)
    requires
        obeys_concrete_eq::<R>(),
        link.left_to_right,
    ensures
        ({
            let there = (link.transform_ltr)(value);
            let end = link.set_left(pair, value);
            &&& end.right == there
            &&& end.left == value
            &&& end.writes_left == 0
            &&& end.writes_right == if pair.right == there {
                0nat
            } else {
                1nat
            }
        }),
{
    lemma_same_is_equal(pair.right, (link.transform_ltr)(value));
}

/// One direction keeps the other side out: without an observer on the right
/// signal, a write into the right signal changes nothing else, whatever the
/// transforms are.
pub proof fn law_left_to_right_ignores_right<L: PartialEq, R: PartialEq>(
    link: Link<L, R>,
    pair: Pair<L, R>,
    value: R,
)
    requires
        !link.right_to_left,
    ensures
        link.set_right(pair, value) == Pair::at_rest(pair.left, value),
{
}

/// Without an observer on the left signal, a write into the left signal
/// changes nothing else, whatever the transforms are.
pub proof fn law_right_to_left_ignores_left<L: PartialEq, R: PartialEq>(
    link: Link<L, R>,
    pair: Pair<L, R>,
    value: L,
)
    requires
        !link.left_to_right,
    ensures
        link.set_left(pair, value) == Pair::at_rest(value, pair.right),
{
}

/// Disposal stops propagation: after the disposer has been called, a write
/// into either signal changes nothing else. Calling the disposer again
/// changes nothing.
pub proof fn law_disposed_link_is_inert<L: PartialEq, R: PartialEq>(
    link: Link<L, R>,
    pair: Pair<L, R>,
    left: L,
    right: R,
)
    ensures
        link.disposed().disposed() == link.disposed(),
        link.disposed().set_left(pair, left) == Pair::at_rest(left, pair.right),
        link.disposed().set_right(pair, right) == Pair::at_rest(pair.left, right),
{
}

/// No cascade: one write from outside makes the observers write once at
/// most, and never the signal that was written from outside, whatever the
/// transforms and the directions are.
pub proof fn law_one_write_at_most<L: PartialEq, R: PartialEq>(
    link: Link<L, R>,
    pair: Pair<L, R>,
    left: L,
    right: R,
)
    ensures
        link.set_left(pair, left).writes_left == 0,
        link.set_left(pair, left).writes_right <= 1,
        link.set_left(pair, left).left == left,
        link.set_right(pair, right).writes_right == 0,
        link.set_right(pair, right).writes_left <= 1,
        link.set_right(pair, right).right == right,
{
}

/// The way there and back leaves every value as it is, as far as the
/// signals' own `==` can tell.
pub open spec fn round_trips_are_stable<L: PartialEq, R: PartialEq>(link: Link<L, R>) -> bool {
    &&& forall|right: R| #[trigger]
        same(right, (link.transform_ltr)((link.transform_rtl)(right)))
    &&& forall|left: L| #[trigger] same(left, (link.transform_rtl)((link.transform_ltr)(left)))
}

/// The run that the flag leaves out would have written nothing: where the
/// round trips are stable and an observer has written, the report of that
/// write to the observer of the other direction changes nothing. This holds
/// after a write from outside into either signal and after setting up the
/// link with `immediate`.
pub proof fn law_suppressed_run_writes_nothing<L: PartialEq, R: PartialEq>(
    link: Link<L, R>,
    pair: Pair<L, R>,
    left: L,
    right: R,
)
    requires
        round_trips_are_stable(link),
    ensures
        link.set_right(pair, right).writes_left == 1 ==> link.report(
            link.set_right(pair, right),
            Side::Left,
        ) == link.set_right(pair, right),
        link.set_left(pair, left).writes_right == 1 ==> link.report(
            link.set_left(pair, left),
            Side::Right,
        ) == link.set_left(pair, left),
        ({
            let end = link.report(link.report(Pair::at_rest(left, right), Side::Left), Side::Right);
            end.writes_left == 1 ==> link.report(end, Side::Left) == end
        }),
{
    let wrote = link.set_right(pair, right);
    if wrote.writes_left == 1 {
        assert(same(right, (link.transform_ltr)((link.transform_rtl)(right))));
    }
    let wrote = link.set_left(pair, left);
    if wrote.writes_right == 1 {
        assert(same(left, (link.transform_rtl)((link.transform_ltr)(left))));
    }
    let first = link.report(Pair::at_rest(left, right), Side::Left);
    let end = link.report(first, Side::Right);
    if end.writes_left == 1 {
        assert(same(first.right, (link.transform_ltr)((link.transform_rtl)(first.right))));
    }
}

} // verus!
