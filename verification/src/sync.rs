use crate::direction::SyncDirection;
use crate::options::{clone_value, total, SyncSignalOptions};
use crate::relay::{new_flag, relay};
use crate::signal::UseRwSignal;
use std::cell::Cell;
use std::rc::Rc;
use vstd::prelude::*;

verus! {

/// The function that `leptos::watch` hands back to stop one observer. Its
/// type has no name in Leptos, and Verus takes no `dyn Fn`, so it is kept
/// behind this opaque struct.
#[verifier::external_body]
pub struct StopWatch {
    stop: Box<dyn Fn()>,
}

/// `leptos::watch`: installs an observer that reads `source` with tracking
/// and, each time Leptos reports a change of it (and once before `watch`
/// returns, where `immediate` is set), runs [`relay`] towards `destination`
/// under the flag `running`. What comes back stops the observer.
///
/// `earlier` is the observer that stands on the link already. Leptos is not
/// told of it: it is taken so that what this call was handed shows the order
/// in which the observers were installed.
///
/// Nothing is claimed of the result: what the observer has done is not
/// visible in it. Leptos needs its reactive runtime to be alive on this
/// thread and panics where it is not; that is a state of the host, which no
/// condition on the arguments can express.
#[verifier::external_body]
fn watch_source<S, D, F>(
    source: UseRwSignal<S>,
    destination: UseRwSignal<D>,
    transform: F,
    immediate: bool,
    running: Rc<Cell<bool>>,
    earlier: &Option<StopWatch>,
) -> StopWatch where
    S: Clone + 'static,
    D: Clone + PartialEq + 'static,
    F: Fn(&S) -> D + 'static,

    requires
        total(transform),
{
    let transform = Rc::new(transform);
    let stop = leptos::watch(
        move || source.get(),
        move |value, _, _| relay(value, &*transform, &destination, &*running),
        immediate,
    );
    StopWatch { stop: Box::new(stop) }
}

/// Calls the function that `leptos::watch` handed back: it removes the
/// observer's node from the runtime, so that Leptos reports to it no more.
/// Calling it again finds no node and does nothing. Leptos panics where its
/// runtime is gone from this thread.
#[verifier::external_body]
fn stop_watch(stop: &StopWatch) {
    (stop.stop)()
}

/// Stops the observers that one call of [`establish`] installed.
pub struct Disposer {
    running: Rc<Cell<bool>>,
    stop_watch_left: Option<StopWatch>,
    stop_watch_right: Option<StopWatch>,
}

impl Disposer {
    /// Whether an observer on the left signal was installed.
    pub closed spec fn spec_watches_left(&self) -> bool {
        self.stop_watch_left is Some
    }

    /// Whether an observer on the right signal was installed.
    pub closed spec fn spec_watches_right(&self) -> bool {
        self.stop_watch_right is Some
    }

    /// The observer on the left signal is what `leptos::watch` installed when
    /// it was handed `left` as the source, `right` as the destination,
    /// `transform` and `immediate`, with no observer on the link before it.
    pub closed spec fn left_installed<L, R, F>(
        &self,
        left: UseRwSignal<L>,
        right: UseRwSignal<R>,
        transform: F,
        immediate: bool,
    ) -> bool where
        L: Clone + 'static,
        R: Clone + PartialEq + 'static,
        F: Fn(&L) -> R + 'static,
     {
        self.stop_watch_left matches Some(stop) && call_ensures(
            watch_source::<L, R, F>,
            (left, right, transform, immediate, self.running, &None),
            stop,
        )
    }

    /// The observer on the right signal is what `leptos::watch` installed
    /// when it was handed `right` as the source, `left` as the destination,
    /// `transform` and `immediate`, with the observer on the left signal, if
    /// there is one, standing already.
    pub closed spec fn right_installed<L, R, G>(
        &self,
        left: UseRwSignal<L>,
        right: UseRwSignal<R>,
        transform: G,
        immediate: bool,
    ) -> bool where
        L: Clone + PartialEq + 'static,
        R: Clone + 'static,
        G: Fn(&R) -> L + 'static,
     {
        self.stop_watch_right matches Some(stop) && call_ensures(
            watch_source::<R, L, G>,
            (right, left, transform, immediate, self.running, &self.stop_watch_left),
            stop,
        )
    }

    /// This disposer belongs to the link of `left` and `right` that the
    /// options ask for: it holds an observer for exactly the directions
    /// named, each installed on its own source with its own transform and
    /// with `immediate`, the one on the left signal first.
    pub open spec fn serves<L, R, F, G>(
        &self,
        left: UseRwSignal<L>,
        right: UseRwSignal<R>,
        direction: SyncDirection,
        immediate: bool,
        transform_ltr: F,
        transform_rtl: G,
    ) -> bool where
        L: Clone + PartialEq + 'static,
        R: Clone + PartialEq + 'static,
        F: Fn(&L) -> R + 'static,
        G: Fn(&R) -> L + 'static,
     {
        &&& self.spec_watches_left() == direction.left_to_right()
        &&& self.spec_watches_right() == direction.right_to_left()
        &&& direction.left_to_right() ==> self.left_installed(left, right, transform_ltr, immediate)
        &&& direction.right_to_left() ==> self.right_installed(
            left,
            right,
            transform_rtl,
            immediate,
        )
    }

    /// The stop function of each observer held has been called.
    ///
    /// This is a fact about calls once made, and it comes from
    /// [`dispose`](Self::dispose) alone. It does not say that nothing was
    /// stopped before, nor that the observers held are all that were ever
    /// installed on the two signals.
    pub closed spec fn all_stopped(&self) -> bool {
        &&& self.stop_watch_left matches Some(stop) ==> call_ensures(stop_watch, (&stop,), ())
        &&& self.stop_watch_right matches Some(stop) ==> call_ensures(stop_watch, (&stop,), ())
    }

    /// Whether an observer on the left signal was installed.
    #[verifier::when_used_as_spec(spec_watches_left)]
    pub fn watches_left(&self) -> (yes: bool)
        ensures
            yes == self.spec_watches_left(),
    {
        self.stop_watch_left.is_some()
    }

    /// Whether an observer on the right signal was installed.
    #[verifier::when_used_as_spec(spec_watches_right)]
    pub fn watches_right(&self) -> (yes: bool)
        ensures
            yes == self.spec_watches_right(),
    {
        self.stop_watch_right.is_some()
    }

    /// Stops both observers, the left one first. Stopping again does nothing
    /// more.
    pub fn dispose(&self)
        ensures
            self.all_stopped(),
    {
        if let Some(stop_watch_left) = &self.stop_watch_left {
            stop_watch(stop_watch_left);
        }
        if let Some(stop_watch_right) = &self.stop_watch_right {
            stop_watch(stop_watch_right);
        }
    }
}

/// Links `left` and `right`: installs the observer of each direction that
/// `options` names, the one on `left` first, and hands back what stops them.
///
/// With `immediate` set, the observer on `left` has run, and written, before
/// the one on `right` is installed: where the two signals disagree at the
/// start, the left one wins. [`established`](crate::model::established) is
/// this function in the model.
///
/// The two observers share one flag, which is up while either of them runs.
/// What an observer writes is reported to the other one at once, which finds
/// the flag up and does nothing: a write from outside is carried over once
/// and never carried back, whatever the transforms are.
///
/// The contract says which observers the disposer holds and what each was
/// installed with. It cannot say that no other observer was installed, nor
/// that none of them has been stopped already: neither leaves a trace in a
/// value. `left` and `right` are meant to be two signals. With one signal on
/// both sides, `immediate` and a transform that changes the value, the
/// observer writes its own source, and Leptos panics when it enters a
/// running observer again; handles are opaque, so no condition on them can
/// rule that out.
pub fn establish<L, R, F, G>(
    left: UseRwSignal<L>,
    right: UseRwSignal<R>,
    options: SyncSignalOptions<L, R, F, G>,
) -> (disposer: Disposer) where
    L: Clone + PartialEq + 'static,
    R: Clone + PartialEq + 'static,
    F: Fn(&L) -> R + 'static,
    G: Fn(&R) -> L + 'static,

    requires
        total(options@.transform_ltr),
        total(options@.transform_rtl),
    ensures
        disposer.serves(
            left,
            right,
            options@.direction,
            options@.immediate,
            options@.transform_ltr,
            options@.transform_rtl,
        ),
        disposer.watches_left() || disposer.watches_right(),
{
    let immediate = options.is_immediate();
    let direction = options.sync_direction();
    let (transform_ltr, transform_rtl) = options.into_transforms();
    let running = Rc::new(new_flag());

    let mut stop_watch_left = None;
    let mut stop_watch_right = None;

    if direction.left_to_right() {
        stop_watch_left = Some(
            watch_source(left, right, transform_ltr, immediate, Rc::clone(&running), &None),
        );
    }
    if direction.right_to_left() {
        stop_watch_right = Some(
            watch_source(
                right,
                left,
                transform_rtl,
                immediate,
                Rc::clone(&running),
                &stop_watch_left,
            ),
        );
    }
    Disposer { running, stop_watch_left, stop_watch_right }
}

/// Version of [`sync_signal`] that takes a `SyncSignalOptions`.
///
/// The function handed back stops the synchronisation; it may be called more
/// than once. The contract says what was installed, and that a call of the
/// function handed back has called the stop function of each observer; it
/// cannot say that none was stopped before that call.
pub fn sync_signal_with_options<L, R, F, G>(
    left: impl Into<UseRwSignal<L>>,
    right: impl Into<UseRwSignal<R>>,
    options: SyncSignalOptions<L, R, F, G>,
) -> (stop: impl Fn() + Clone) where
    L: Clone + PartialEq + 'static,
    R: Clone + PartialEq + 'static,
    F: Fn(&L) -> R + 'static,
    G: Fn(&R) -> L + 'static,

    requires
        total(options@.transform_ltr),
        total(options@.transform_rtl),
    ensures
        call_requires(stop, ()),
        exists|disposer: Disposer, from: UseRwSignal<L>, to: UseRwSignal<R>|
            {
                &&& call_ensures(Into::into, (left,), from)
                &&& call_ensures(Into::into, (right,), to)
                &&& #[trigger] disposer.serves(
                    from,
                    to,
                    options@.direction,
                    options@.immediate,
                    options@.transform_ltr,
                    options@.transform_rtl,
                )
                &&& forall|unit: ()| #[trigger]
                    call_ensures(stop, (), unit) ==> disposer.all_stopped()
            },
{
    let from = left.into();
    let to = right.into();
    let installed = establish(from, to, options);
    let ghost held = installed;
    let disposer = Rc::new(installed);
    let stop = move || -> (unit: ())
        ensures
            disposer.all_stopped(),
        { disposer.dispose() };
    proof {
        assert(held.serves(
            from,
            to,
            options@.direction,
            options@.immediate,
            options@.transform_ltr,
            options@.transform_rtl,
        ));
        assert forall|unit: ()| #[trigger] call_ensures(stop, (), unit) implies held.all_stopped() by {}
    }
    stop
}

/// Two-way synchronisation of two signals of one value type: a change of
/// either is carried over to the other, and, as both observers run once when
/// they are installed and the left one first, the right signal starts out with
/// the left one's value.
///
/// It is [`sync_signal_with_options`] with the defaults: both directions,
/// `immediate`, and [`clone_value`] as the transform of either direction.
pub fn sync_signal<T>(
    left: impl Into<UseRwSignal<T>>,
    right: impl Into<UseRwSignal<T>>,
) -> (stop: impl Fn() + Clone) where T: Clone + PartialEq + 'static
    ensures
        call_requires(stop, ()),
        exists|disposer: Disposer, from: UseRwSignal<T>, to: UseRwSignal<T>|
            {
                &&& call_ensures(Into::into, (left,), from)
                &&& call_ensures(Into::into, (right,), to)
                &&& #[trigger] disposer.serves(
                    from,
                    to,
                    SyncDirection::Both,
                    true,
                    clone_value::<T>,
                    clone_value::<T>,
                )
                &&& forall|unit: ()| #[trigger]
                    call_ensures(stop, (), unit) ==> disposer.all_stopped()
            },
{
    sync_signal_with_options(
        left,
        right,
        SyncSignalOptions::with_transforms(clone_value::<T>, clone_value::<T>),
    )
}

} // verus!
