use vstd::prelude::*;
use vstd::std_specs::convert::IntoSpec;

verus! {

/// Leptos's read-only signal wrapper. Opaque here: a handle into Leptos's
/// reactive runtime, which owns the value.
#[verifier::external_type_specification]
#[verifier::external_body]
#[verifier::reject_recursive_types(T)]
pub struct ExSignal<T: 'static>(leptos::Signal<T>);

/// Leptos's setter half of a signal. Opaque here.
#[verifier::external_type_specification]
#[verifier::external_body]
#[verifier::reject_recursive_types(T)]
pub struct ExWriteSignal<T: 'static>(leptos::WriteSignal<T>);

/// Leptos's combined read-write signal. Opaque here.
#[verifier::external_type_specification]
#[verifier::external_body]
#[verifier::reject_recursive_types(T)]
pub struct ExRwSignal<T: 'static>(leptos::RwSignal<T>);

/// A signal that can be read and written, whichever way the caller holds it:
/// as a getter with its setter, or as one read-write signal.
///
/// It is a handle: the value lives in Leptos's reactive runtime, so nothing
/// here says what a read returns.
#[verifier::reject_recursive_types(T)]
pub enum UseRwSignal<T: 'static> {
    /// A getter and the setter that belongs to it.
    Separate(leptos::Signal<T>, leptos::WriteSignal<T>),
    /// One signal for both.
    Combined(leptos::RwSignal<T>),
}

impl<T> Clone for UseRwSignal<T> {
    fn clone(&self) -> (copy: Self)
        ensures
            copy == *self,
    {
        *self
    }
}

impl<T> Copy for UseRwSignal<T> {

}

impl<T> From<leptos::RwSignal<T>> for UseRwSignal<T> {
    fn from(cell: leptos::RwSignal<T>) -> (handle: Self) {
        UseRwSignal::Combined(cell)
    }
}

impl<T> vstd::std_specs::convert::FromSpecImpl<leptos::RwSignal<T>> for UseRwSignal<T> {
    open spec fn obeys_from_spec() -> bool {
        true
    }

    open spec fn from_spec(cell: leptos::RwSignal<T>) -> Self {
        UseRwSignal::Combined(cell)
    }
}

impl<T, RS: Into<leptos::Signal<T>>> From<(RS, leptos::WriteSignal<T>)> for UseRwSignal<T> {
    fn from(pair: (RS, leptos::WriteSignal<T>)) -> (handle: Self)
        ensures
            handle matches UseRwSignal::Separate(_, setter) && setter == pair.1,
    {
        UseRwSignal::Separate(pair.0.into(), pair.1)
    }
}

impl<T, RS: Into<leptos::Signal<T>>> vstd::std_specs::convert::FromSpecImpl<(RS, leptos::WriteSignal<T>)> for UseRwSignal<T> {
    open spec fn obeys_from_spec() -> bool {
        RS::obeys_into_spec()
    }

    open spec fn from_spec(pair: (RS, leptos::WriteSignal<T>)) -> Self {
        UseRwSignal::Separate(pair.0.into_spec(), pair.1)
    }
}

/// `leptos::SignalGet::try_get` on a `Signal`: a clone of the value the
/// runtime holds, or `None` where the runtime no longer has the signal; for
/// a derived signal, what the function it was derived with returns. The read
/// subscribes the running observer. The value is the runtime's, so the
/// contract is silent on it.
#[verifier::external_body]
fn signal_try_get<T: Clone>(getter: &leptos::Signal<T>) -> Option<T> {
    leptos::SignalGet::try_get(getter)
}

/// `leptos::SignalGet::try_get` on an `RwSignal`: as on a `Signal`.
#[verifier::external_body]
fn rw_signal_try_get<T: Clone>(cell: &leptos::RwSignal<T>) -> Option<T> {
    leptos::SignalGet::try_get(cell)
}

/// `leptos::SignalGetUntracked::try_get_untracked` on a `Signal`: a clone of
/// the value the runtime holds, or `None` where the runtime no longer has the
/// signal; for a derived signal, what the function it was derived with
/// returns. Nothing is subscribed. For a derived signal Leptos goes through
/// its `untrack`, which panics where the runtime is gone from this thread.
#[verifier::external_body]
fn signal_try_get_untracked<T: Clone>(getter: &leptos::Signal<T>) -> Option<T> {
    leptos::SignalGetUntracked::try_get_untracked(getter)
}

/// `leptos::SignalGetUntracked::try_get_untracked` on an `RwSignal`: as on a
/// `Signal`.
#[verifier::external_body]
fn rw_signal_try_get_untracked<T: Clone>(cell: &leptos::RwSignal<T>) -> Option<T> {
    leptos::SignalGetUntracked::try_get_untracked(cell)
}

/// `leptos::SignalUpdate::try_update` on a `WriteSignal`: runs `mutate` on
/// the stored value and then notifies the signal's subscribers, whose effects
/// run before the call returns unless Leptos is batching; `false`, and
/// `mutate` is not run, where the runtime no longer has the signal. What the
/// effects do is theirs: Leptos panics where a write of theirs comes back to
/// an observer that is still running. The observers of one link keep each
/// other from that with the link's flag.
#[verifier::external_body]
fn write_signal_try_update<T, M: FnOnce(&mut T)>(setter: &leptos::WriteSignal<T>, mutate: M) -> bool
    requires
        forall|slot: &mut T| call_requires(mutate, (slot,)),
{
    leptos::SignalUpdate::try_update(setter, mutate).is_some()
}

/// `leptos::SignalUpdate::try_update` on an `RwSignal`: as on a
/// `WriteSignal`.
#[verifier::external_body]
fn rw_signal_try_update<T, M: FnOnce(&mut T)>(cell: &leptos::RwSignal<T>, mutate: M) -> bool
    requires
        forall|slot: &mut T| call_requires(mutate, (slot,)),
{
    leptos::SignalUpdate::try_update(cell, mutate).is_some()
}

/// `value` is what Leptos answered when `getter` was read with tracking. The
/// answer is the runtime's: of two reads of one signal each has its own.
pub closed spec fn getter_answered<T: Clone>(getter: leptos::Signal<T>, value: Option<T>) -> bool {
    call_ensures(signal_try_get::<T>, (&getter,), value)
}

/// `value` is what Leptos answered when `cell` was read with tracking.
pub closed spec fn cell_answered<T: Clone>(cell: leptos::RwSignal<T>, value: Option<T>) -> bool {
    call_ensures(rw_signal_try_get::<T>, (&cell,), value)
}

/// `value` is what Leptos answered when `getter` was read without tracking.
pub closed spec fn getter_answered_untracked<T: Clone>(
    getter: leptos::Signal<T>,
    value: Option<T>,
) -> bool {
    call_ensures(signal_try_get_untracked::<T>, (&getter,), value)
}

/// `value` is what Leptos answered when `cell` was read without tracking.
pub closed spec fn cell_answered_untracked<T: Clone>(
    cell: leptos::RwSignal<T>,
    value: Option<T>,
) -> bool {
    call_ensures(rw_signal_try_get_untracked::<T>, (&cell,), value)
}

/// `applied` is what Leptos answered when it was asked to run `mutate` on the
/// value behind `setter`.
pub closed spec fn setter_applied<T, M: FnOnce(&mut T)>(
    setter: leptos::WriteSignal<T>,
    mutate: M,
    applied: bool,
) -> bool {
    call_ensures(write_signal_try_update::<T, M>, (&setter, mutate), applied)
}

/// `applied` is what Leptos answered when it was asked to run `mutate` on the
/// value behind `cell`.
pub closed spec fn cell_applied<T, M: FnOnce(&mut T)>(
    cell: leptos::RwSignal<T>,
    mutate: M,
    applied: bool,
) -> bool {
    call_ensures(rw_signal_try_update::<T, M>, (&cell, mutate), applied)
}

/// The change that puts `value` in the place of what a signal holds.
pub fn overwrite_with<T>(value: T) -> (mutate: impl FnOnce(&mut T))
    ensures
        forall|slot: &mut T| call_requires(mutate, (slot,)),
        forall|slot: &mut T| #[trigger] call_ensures(mutate, (slot,), ()) ==> *final(slot) == value,
{
    move |slot: &mut T| ensures *final(slot) == value { *slot = value; }
}

impl<T> UseRwSignal<T> {
    /// `value` is an answer to a read with tracking: a pair is read through
    /// its getter, a read-write signal through itself.
    pub open spec fn read(self, value: Option<T>) -> bool where T: Clone {
        match self {
            UseRwSignal::Separate(getter, _) => getter_answered(getter, value),
            UseRwSignal::Combined(cell) => cell_answered(cell, value),
        }
    }

    /// `value` is an answer to a read without tracking: a pair is read
    /// through its getter, a read-write signal through itself.
    pub open spec fn read_untracked(self, value: Option<T>) -> bool where T: Clone {
        match self {
            UseRwSignal::Separate(getter, _) => getter_answered_untracked(getter, value),
            UseRwSignal::Combined(cell) => cell_answered_untracked(cell, value),
        }
    }

    /// `applied` is the answer to an update with `mutate`: a pair is written
    /// through its setter, a read-write signal through itself.
    pub open spec fn updated<M: FnOnce(&mut T)>(self, mutate: M, applied: bool) -> bool {
        match self {
            UseRwSignal::Separate(_, setter) => setter_applied(setter, mutate, applied),
            UseRwSignal::Combined(cell) => cell_applied(cell, mutate, applied),
        }
    }

    /// `applied` is the answer to an update with the change that
    /// [`overwrite_with`] makes of `value`.
    pub open spec fn stored(self, value: T, applied: bool) -> bool {
        exists|mutate|
            call_ensures(overwrite_with::<T>, (value,), mutate) && #[trigger] self.updated(
                mutate,
                applied,
            )
    }

    /// Reads the current value and makes the running observer depend on this
    /// signal. `None` where the runtime no longer has the signal. For a
    /// getter that was derived from other signals Leptos runs the function
    /// it was derived with, and the answer is whatever that function makes
    /// of signals that are gone.
    ///
    /// The value is Leptos's answer, handed on as it came.
    pub fn get(&self) -> (value: Option<T>) where T: Clone
        ensures
            self.read(value),
    {
        match self {
            UseRwSignal::Separate(getter, _) => signal_try_get(getter),
            UseRwSignal::Combined(cell) => rw_signal_try_get(cell),
        }
    }

    /// Reads the current value without creating a dependency. `None` where
    /// the runtime no longer has the signal. For a getter that was derived
    /// from other signals Leptos runs the function it was derived with, and
    /// the answer is whatever that function makes of signals that are gone.
    ///
    /// The value is Leptos's answer, handed on as it came.
    pub fn get_untracked(&self) -> (value: Option<T>) where T: Clone
        ensures
            self.read_untracked(value),
    {
        match self {
            UseRwSignal::Separate(getter, _) => signal_try_get_untracked(getter),
            UseRwSignal::Combined(cell) => rw_signal_try_get_untracked(cell),
        }
    }

    /// Runs `mutate` on the stored value, which notifies everything that
    /// depends on this signal. `false` where the runtime no longer has the
    /// signal; `mutate` is then not run.
    ///
    /// `mutate` goes to Leptos as it is, and the answer is Leptos's.
    pub fn update<M: FnOnce(&mut T)>(&self, mutate: M) -> (applied: bool)
        requires
            forall|slot: &mut T| call_requires(mutate, (slot,)),
        ensures
            self.updated(mutate, applied),
    {
        match self {
            UseRwSignal::Separate(_, setter) => write_signal_try_update(setter, mutate),
            UseRwSignal::Combined(cell) => rw_signal_try_update(cell, mutate),
        }
    }

    /// Puts `value` in the place of what the signal holds, which notifies
    /// everything that depends on this signal. `false` where the runtime no
    /// longer has the signal.
    pub fn store(&self, value: T) -> (applied: bool)
        ensures
            self.stored(value, applied),
    {
        let mutate = overwrite_with(value);
        self.update(mutate)
    }
}

} // verus!
