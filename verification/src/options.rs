use crate::direction::SyncDirection;
use std::marker::PhantomData;
use vstd::prelude::*;

verus! {

/// Options for [`sync_signal_with_options`](crate::sync_signal_with_options).
///
/// `L` and `R` are the value types of the left and the right signal, `F` and
/// `G` the two transforms between them.
pub struct SyncSignalOptions<L, R, F, G> {
    immediate: bool,
    direction: SyncDirection,
    transform_ltr: F,
    transform_rtl: G,
    values: PhantomData<(L, R)>,
}

/// What a [`SyncSignalOptions`] holds.
pub struct SyncSignalOptionsView<F, G> {
    /// If `true`, each observer runs once when it is installed.
    pub immediate: bool,
    /// Which observers are installed.
    pub direction: SyncDirection,
    /// Turns a value of the left signal into one for the right signal.
    pub transform_ltr: F,
    /// Turns a value of the right signal into one for the left signal.
    pub transform_rtl: G,
}

impl<L, R, F, G> View for SyncSignalOptions<L, R, F, G> {
    type V = SyncSignalOptionsView<F, G>;

    closed spec fn view(&self) -> SyncSignalOptionsView<F, G> {
        SyncSignalOptionsView {
            immediate: self.immediate,
            direction: self.direction,
            transform_ltr: self.transform_ltr,
            transform_rtl: self.transform_rtl,
        }
    }
}

/// The transform `f` can be called on every value.
pub open spec fn total<A, B, F: Fn(&A) -> B>(f: F) -> bool {
    forall|x: A| #[trigger] call_requires(f, (&x,))
}

/// The transform that hands its argument on.
pub open spec fn identity<T>() -> spec_fn(T) -> T {
    |value: T| value
}

/// The transform `f` computes `model`: it can be called on every value, and
/// what it returns for a value is what `model` gives for it.
pub open spec fn computes<A, B, F: Fn(&A) -> B>(f: F, model: spec_fn(A) -> B) -> bool {
    &&& total(f)
    &&& forall|x: A, y: B| #[trigger] call_ensures(f, (&x,), y) ==> y == model(x)
}

/// The transform `f` can be called on every value and hands back a clone of
/// its argument.
pub open spec fn clones_its_argument<T: Clone, F: Fn(&T) -> T>(f: F) -> bool {
    &&& total(f)
    &&& forall|x: T, y: T| #[trigger] call_ensures(f, (&x,), y) ==> cloned(x, y)
}

/// On a type whose clones equal what they were cloned from, a transform that
/// clones computes the identity.
pub proof fn lemma_cloning_computes_identity<T: Clone, F: Fn(&T) -> T>(f: F)
    requires
        clones_its_argument(f),
        forall|x: T, y: T| cloned(x, y) ==> x == y,
    ensures
        computes(f, identity::<T>()),
{
}

/// The transform of the defaults: a clone of the value.
pub fn clone_value<T: Clone>(value: &T) -> (copy: T)
    ensures
        cloned(*value, copy),
{
    value.clone()
}

impl<T: Clone> SyncSignalOptions<T, T, (), ()> {
    /// The defaults: observers in both directions, each run once when it is
    /// installed, and values carried over unchanged, by [`clone_value`].
    ///
    /// It is written on the unit transforms so that
    /// `SyncSignalOptions::default()` names this one function; what it hands
    /// back holds the two transforms that clone.
    pub fn default() -> (options: SyncSignalOptions<
        T,
        T,
        impl Fn(&T) -> T + Clone,
        impl Fn(&T) -> T + Clone,
    >)
        ensures
            options@.immediate,
            options@.direction == SyncDirection::Both,
            clones_its_argument(options@.transform_ltr),
            clones_its_argument(options@.transform_rtl),
    {
        SyncSignalOptions::with_transforms(clone_value::<T>, clone_value::<T>)
    }
}

impl<L, R, F: Fn(&L) -> R, G: Fn(&R) -> L> SyncSignalOptions<L, R, F, G> {
    /// The defaults but for the transforms, which two signals of different
    /// value types cannot do without.
    pub fn with_transforms(transform_ltr: F, transform_rtl: G) -> (options: Self)
        ensures
            options@ == (SyncSignalOptionsView {
                immediate: true,
                direction: SyncDirection::Both,
                transform_ltr,
                transform_rtl,
            }),
    {
        SyncSignalOptions {
            immediate: true,
            direction: SyncDirection::Both,
            transform_ltr,
            transform_rtl,
            values: PhantomData,
        }
    }
}

impl<L, R, F, G> SyncSignalOptions<L, R, F, G> {
    /// If `true`, the signals are synced as soon as the observers are
    /// installed. If `false`, a signal is only updated when the other one
    /// changes.
    pub fn immediate(self, value: bool) -> (options: Self)
        ensures
            options@ == (SyncSignalOptionsView { immediate: value, ..self@ }),
    {
        SyncSignalOptions { immediate: value, ..self }
    }

    /// Direction of syncing.
    pub fn direction(self, value: SyncDirection) -> (options: Self)
        ensures
            options@ == (SyncSignalOptionsView { direction: value, ..self@ }),
    {
        SyncSignalOptions { direction: value, ..self }
    }

    /// Transforms the left signal into the right signal.
    pub fn transform_ltr<F2: Fn(&L) -> R + 'static>(self, transform_ltr: F2) -> (options:
        SyncSignalOptions<L, R, F2, G>)
        ensures
            options@ == (SyncSignalOptionsView {
                immediate: self@.immediate,
                direction: self@.direction,
                transform_ltr,
                transform_rtl: self@.transform_rtl,
            }),
    {
        SyncSignalOptions {
            immediate: self.immediate,
            direction: self.direction,
            transform_ltr,
            transform_rtl: self.transform_rtl,
            values: PhantomData,
        }
    }

    /// Transforms the right signal into the left signal.
    pub fn transform_rtl<G2: Fn(&R) -> L + 'static>(self, transform_rtl: G2) -> (options:
        SyncSignalOptions<L, R, F, G2>)
        ensures
            options@ == (SyncSignalOptionsView {
                immediate: self@.immediate,
                direction: self@.direction,
                transform_ltr: self@.transform_ltr,
                transform_rtl,
            }),
    {
        SyncSignalOptions {
            immediate: self.immediate,
            direction: self.direction,
            transform_ltr: self.transform_ltr,
            transform_rtl,
            values: PhantomData,
        }
    }

    /// Whether each observer runs once when it is installed.
    pub fn is_immediate(&self) -> (value: bool)
        ensures
            value == self@.immediate,
    {
        self.immediate
    }

    /// Which observers are installed.
    pub fn sync_direction(&self) -> (value: SyncDirection)
        ensures
            value == self@.direction,
    {
        self.direction
    }

    /// Gives up the options for their two transforms, left-to-right first.
    pub fn into_transforms(self) -> (transforms: (F, G))
        ensures
            transforms.0 == self@.transform_ltr,
            transforms.1 == self@.transform_rtl,
    {
        (self.transform_ltr, self.transform_rtl)
    }
}

} // verus!
