//! How a linked pair of signals behaves on Leptos, outside a batch.
//!
//! Nothing here runs. The model takes the decisions of this crate as they are
//! ([`spec_pending_write`], the directions of [`SyncDirection`], the flag
//! under which an observer runs, the order in which
//! [`establish`](crate::establish) installs its observers) and adds the
//! host's part: it holds the two values, and it reports a write to the
//! observer of the signal that was written before the write returns.
//!
//! So the report of an observer's own write finds that observer still
//! running, with the flag of the link up, and the observer of the opposite
//! direction leaves at once. One write from outside is therefore followed by
//! one run of one observer, and by one write at most.
//!
//! The run that is left out would have compared and, where the values
//! differed, written back. Where the way there and back leaves a value as it
//! is, it would have written nothing, and leaving it out changes nothing
//! (`law_suppressed_run_writes_nothing`). For other transforms the link stops
//! one write short: with doubling to the right and halving to the left, 31
//! written to the right signal leaves 15 and 31, not 15 and 30.

use crate::direction::SyncDirection;
use crate::relay::spec_pending_write;
use vstd::prelude::*;

verus! {

/// One of the two signals.
pub enum Side {
    Left,
    Right,
}

/// The observers of one link, and the transforms they apply.
#[verifier::reject_recursive_types(L)]
#[verifier::reject_recursive_types(R)]
pub struct Link<L, R> {
    /// An observer on the left signal is installed and has not been stopped.
    pub left_to_right: bool,
    /// An observer on the right signal is installed and has not been stopped.
    pub right_to_left: bool,
    /// What the left-to-right observer makes of a left value.
    pub transform_ltr: spec_fn(L) -> R,
    /// What the right-to-left observer makes of a right value.
    pub transform_rtl: spec_fn(R) -> L,
}

/// The two signals, as the host holds them.
pub struct Pair<L, R> {
    /// The value of the left signal.
    pub left: L,
    /// The value of the right signal.
    pub right: R,
    /// How many times an observer has written the left signal since the last
    /// write from outside.
    pub writes_left: nat,
    /// How many times an observer has written the right signal since the
    /// last write from outside.
    pub writes_right: nat,
}

impl<L, R> Pair<L, R> {
    /// Two signals that no observer has written.
    pub open spec fn at_rest(left: L, right: R) -> Self {
        Pair { left, right, writes_left: 0, writes_right: 0 }
    }
}

impl<L: PartialEq, R: PartialEq> Link<L, R> {
    /// The link that `direction` asks for.
    pub open spec fn of(
        direction: SyncDirection,
        transform_ltr: spec_fn(L) -> R,
        transform_rtl: spec_fn(R) -> L,
    ) -> Self {
        Link {
            left_to_right: direction.left_to_right(),
            right_to_left: direction.right_to_left(),
            transform_ltr,
            transform_rtl,
        }
    }

    /// The link after its disposer has been called.
    pub open spec fn disposed(self) -> Self {
        Link { left_to_right: false, right_to_left: false, ..self }
    }

    /// The host reports a change of `side`: the observer of that signal runs,
    /// if there is one, and writes what [`spec_pending_write`] says. The
    /// report of that write reaches the other observer while this one is
    /// running, and is left unanswered.
    pub open spec fn report(self, pair: Pair<L, R>, side: Side) -> Pair<L, R> {
        match side {
            Side::Left => if self.left_to_right {
                match spec_pending_write((self.transform_ltr)(pair.left), Some(pair.right)) {
                    Some(value) => Pair {
                        right: value,
                        writes_right: pair.writes_right + 1,
                        ..pair
                    },
                    None => pair,
                }
            } else {
                pair
            },
            Side::Right => if self.right_to_left {
                match spec_pending_write((self.transform_rtl)(pair.right), Some(pair.left)) {
                    Some(value) => Pair {
                        left: value,
                        writes_left: pair.writes_left + 1,
                        ..pair
                    },
                    None => pair,
                }
            } else {
                pair
            },
        }
    }

    /// Somebody outside the link sets the left signal to `value`. The host
    /// reports every such write, also one that repeats the old value.
    pub open spec fn set_left(self, pair: Pair<L, R>, value: L) -> Pair<L, R> {
        self.report(Pair::at_rest(value, pair.right), Side::Left)
    }

    /// Somebody outside the link sets the right signal to `value`.
    pub open spec fn set_right(self, pair: Pair<L, R>, value: R) -> Pair<L, R> {
        self.report(Pair::at_rest(pair.left, value), Side::Right)
    }
}

/// The pair when [`establish`](crate::establish) returns, on signals that
/// held `left` and `right`.
///
/// Without `immediate` no observer has run. With it, the observer on the left
/// signal has run while it was the only one; then the observer on the right
/// signal was installed and has run.
pub open spec fn established<L: PartialEq, R: PartialEq>(
    left: L,
    right: R,
    direction: SyncDirection,
    immediate: bool,
    transform_ltr: spec_fn(L) -> R,
    transform_rtl: spec_fn(R) -> L,
) -> Pair<L, R> {
    if immediate {
        let link = Link::of(direction, transform_ltr, transform_rtl);
        link.report(link.report(Pair::at_rest(left, right), Side::Left), Side::Right)
    } else {
        Pair::at_rest(left, right)
    }
}

} // verus!
