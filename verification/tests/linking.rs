use leptos::{
    batch, create_runtime, create_rw_signal, create_signal, watch, ReadSignal, SignalGet,
    SignalGetUntracked, SignalSet,
};
use std::cell::Cell;
use std::rc::Rc;
use sync_signal::{sync_signal, sync_signal_with_options, SyncDirection, SyncSignalOptions};

/// Counts how often Leptos reports a change of `signal`.
fn count_reports<T: Clone + 'static>(signal: ReadSignal<T>) -> Rc<Cell<u32>> {
    let counter = Rc::new(Cell::new(0));
    let seen = Rc::clone(&counter);
    let _ = watch(move || signal.get(), move |_, _, _| seen.set(seen.get() + 1), false);
    counter
}

#[test]
fn left_wins_when_the_signals_differ() {
    let runtime = create_runtime();
    let (a, set_a) = create_signal(1);
    let (b, set_b) = create_signal(2);

    let stop = sync_signal((a, set_a), (b, set_b));
    assert_eq!(a.get_untracked(), 1);
    assert_eq!(b.get_untracked(), 1);

    stop();
    runtime.dispose();
}

#[test]
fn left_wins_for_strings_too() {
    let runtime = create_runtime();
    let (a, set_a) = create_signal(String::from("left"));
    let (b, set_b) = create_signal(String::from("right"));

    let stop = sync_signal((a, set_a), (b, set_b));
    assert_eq!(a.get_untracked(), "left");
    assert_eq!(b.get_untracked(), "left");

    stop();
    runtime.dispose();
}

#[test]
fn writes_travel_both_ways() {
    let runtime = create_runtime();
    let (a, set_a) = create_signal(1);
    let (b, set_b) = create_signal(2);

    let stop = sync_signal((a, set_a), (b, set_b));

    set_b.set(3);
    assert_eq!(a.get_untracked(), 3);
    assert_eq!(b.get_untracked(), 3);

    set_a.set(4);
    assert_eq!(a.get_untracked(), 4);
    assert_eq!(b.get_untracked(), 4);

    stop();
    runtime.dispose();
}

#[test]
fn equal_values_are_not_written() {
    let runtime = create_runtime();
    let (a, set_a) = create_signal(5);
    let (b, set_b) = create_signal(5);
    let reports_a = count_reports(a);
    let reports_b = count_reports(b);

    let stop = sync_signal((a, set_a), (b, set_b));
    assert_eq!(reports_a.get(), 0);
    assert_eq!(reports_b.get(), 0);
    assert_eq!(a.get_untracked(), 5);
    assert_eq!(b.get_untracked(), 5);

    stop();
    runtime.dispose();
}

#[test]
fn transformed_equal_values_are_not_written() {
    let runtime = create_runtime();
    let (a, set_a) = create_signal(10);
    let (b, set_b) = create_signal(20);
    let reports_a = count_reports(a);
    let reports_b = count_reports(b);

    let stop = sync_signal_with_options(
        (a, set_a),
        (b, set_b),
        SyncSignalOptions::default()
            .transform_ltr(|left: &i32| *left * 2)
            .transform_rtl(|right: &i32| *right / 2),
    );
    assert_eq!(reports_a.get(), 0);
    assert_eq!(reports_b.get(), 0);
    assert_eq!(a.get_untracked(), 10);
    assert_eq!(b.get_untracked(), 20);

    stop();
    runtime.dispose();
}

#[test]
fn only_the_right_signal_is_written_at_the_start() {
    let runtime = create_runtime();
    let (a, set_a) = create_signal(1);
    let (b, set_b) = create_signal(2);
    let reports_a = count_reports(a);
    let reports_b = count_reports(b);

    let stop = sync_signal((a, set_a), (b, set_b));
    assert_eq!(reports_a.get(), 0);
    assert_eq!(reports_b.get(), 1);

    stop();
    runtime.dispose();
}

#[test]
fn one_write_induces_one_write() {
    let runtime = create_runtime();
    let (a, set_a) = create_signal(1);
    let (b, set_b) = create_signal(1);
    let stop = sync_signal((a, set_a), (b, set_b));
    let reports_a = count_reports(a);
    let reports_b = count_reports(b);

    set_b.set(3);
    assert_eq!(reports_b.get(), 1);
    assert_eq!(reports_a.get(), 1);
    assert_eq!(a.get_untracked(), 3);

    set_a.set(8);
    assert_eq!(reports_a.get(), 2);
    assert_eq!(reports_b.get(), 2);
    assert_eq!(b.get_untracked(), 8);

    stop();
    runtime.dispose();
}

#[test]
fn a_write_of_the_value_already_there_goes_no_further() {
    let runtime = create_runtime();
    let (a, set_a) = create_signal(1);
    let (b, set_b) = create_signal(1);
    let stop = sync_signal((a, set_a), (b, set_b));
    let reports_a = count_reports(a);
    let reports_b = count_reports(b);

    set_a.set(1);
    assert_eq!(reports_a.get(), 1);
    assert_eq!(reports_b.get(), 0);
    assert_eq!(b.get_untracked(), 1);

    stop();
    runtime.dispose();
}

#[test]
fn left_to_right_ignores_writes_to_the_right() {
    let runtime = create_runtime();
    let (a, set_a) = create_signal(1);
    let (b, set_b) = create_signal(2);
    let reports_a = count_reports(a);

    let stop = sync_signal_with_options(
        (a, set_a),
        (b, set_b),
        SyncSignalOptions::default().direction(SyncDirection::LeftToRight),
    );
    assert_eq!(a.get_untracked(), 1);
    assert_eq!(b.get_untracked(), 1);

    set_b.set(3);
    assert_eq!(a.get_untracked(), 1);
    assert_eq!(b.get_untracked(), 3);
    assert_eq!(reports_a.get(), 0);

    set_a.set(4);
    assert_eq!(a.get_untracked(), 4);
    assert_eq!(b.get_untracked(), 4);

    stop();
    runtime.dispose();
}

#[test]
fn right_to_left_ignores_writes_to_the_left() {
    let runtime = create_runtime();
    let (a, set_a) = create_signal(1);
    let (b, set_b) = create_signal(2);
    let reports_b = count_reports(b);

    let stop = sync_signal_with_options(
        (a, set_a),
        (b, set_b),
        SyncSignalOptions::default().direction(SyncDirection::RightToLeft),
    );
    assert_eq!(a.get_untracked(), 2);
    assert_eq!(b.get_untracked(), 2);

    set_a.set(7);
    assert_eq!(a.get_untracked(), 7);
    assert_eq!(b.get_untracked(), 2);
    assert_eq!(reports_b.get(), 0);

    set_b.set(9);
    assert_eq!(a.get_untracked(), 9);
    assert_eq!(b.get_untracked(), 9);

    stop();
    runtime.dispose();
}

#[test]
fn transforms_are_applied_in_each_direction() {
    let runtime = create_runtime();
    let (a, set_a) = create_signal(10);
    let (b, set_b) = create_signal(2);

    let stop = sync_signal_with_options(
        (a, set_a),
        (b, set_b),
        SyncSignalOptions::default()
            .transform_ltr(|left: &i32| *left * 2)
            .transform_rtl(|right: &i32| *right / 2),
    );
    assert_eq!(a.get_untracked(), 10);
    assert_eq!(b.get_untracked(), 20);

    set_b.set(30);
    assert_eq!(a.get_untracked(), 15);
    assert_eq!(b.get_untracked(), 30);

    set_a.set(4);
    assert_eq!(a.get_untracked(), 4);
    assert_eq!(b.get_untracked(), 8);

    stop();
    runtime.dispose();
}

#[test]
fn a_write_that_does_not_survive_the_way_back_is_not_written_back() {
    let runtime = create_runtime();
    let (a, set_a) = create_signal(10);
    let (b, set_b) = create_signal(2);
    let stop = sync_signal_with_options(
        (a, set_a),
        (b, set_b),
        SyncSignalOptions::default()
            .transform_ltr(|left: &i32| *left * 2)
            .transform_rtl(|right: &i32| *right / 2),
    );
    let reports_a = count_reports(a);
    let reports_b = count_reports(b);

    set_b.set(31);
    assert_eq!(a.get_untracked(), 15);
    assert_eq!(b.get_untracked(), 31);
    assert_eq!(reports_a.get(), 1);
    assert_eq!(reports_b.get(), 1);

    set_a.set(7);
    assert_eq!(a.get_untracked(), 7);
    assert_eq!(b.get_untracked(), 14);

    stop();
    runtime.dispose();
}

#[test]
fn transforms_that_never_agree_write_each_signal_once_at_the_start() {
    let runtime = create_runtime();
    let (a, set_a) = create_signal(0);
    let (b, set_b) = create_signal(0);
    let reports_a = count_reports(a);
    let reports_b = count_reports(b);

    let stop = sync_signal_with_options(
        (a, set_a),
        (b, set_b),
        SyncSignalOptions::default()
            .transform_ltr(|left: &i32| *left + 1)
            .transform_rtl(|right: &i32| *right + 1),
    );
    assert_eq!(b.get_untracked(), 1);
    assert_eq!(a.get_untracked(), 2);
    assert_eq!(reports_a.get(), 1);
    assert_eq!(reports_b.get(), 1);

    set_b.set(10);
    assert_eq!(a.get_untracked(), 11);
    assert_eq!(b.get_untracked(), 10);
    assert_eq!(reports_a.get(), 2);
    assert_eq!(reports_b.get(), 2);

    set_a.set(20);
    assert_eq!(a.get_untracked(), 20);
    assert_eq!(b.get_untracked(), 21);

    stop();
    set_a.set(30);
    assert_eq!(b.get_untracked(), 21);
    runtime.dispose();
}

#[test]
fn transforms_between_two_types() {
    let runtime = create_runtime();
    let (a, set_a) = create_signal(7u32);
    let (b, set_b) = create_signal(String::from("x"));

    let stop = sync_signal_with_options(
        (a, set_a),
        (b, set_b),
        SyncSignalOptions::with_transforms(
            |left: &u32| left.to_string(),
            |right: &String| right.parse::<u32>().unwrap_or(0),
        ),
    );
    assert_eq!(a.get_untracked(), 7);
    assert_eq!(b.get_untracked(), "7");

    set_b.set(String::from("12"));
    assert_eq!(a.get_untracked(), 12);
    assert_eq!(b.get_untracked(), "12");

    set_a.set(40);
    assert_eq!(b.get_untracked(), "40");

    stop();
    runtime.dispose();
}

#[test]
fn without_immediate_nothing_happens_until_a_write() {
    let runtime = create_runtime();
    let (a, set_a) = create_signal(1);
    let (b, set_b) = create_signal(2);

    let stop = sync_signal_with_options(
        (a, set_a),
        (b, set_b),
        SyncSignalOptions::default().immediate(false),
    );
    assert_eq!(a.get_untracked(), 1);
    assert_eq!(b.get_untracked(), 2);

    set_b.set(2);
    assert_eq!(a.get_untracked(), 2);
    assert_eq!(b.get_untracked(), 2);

    stop();
    runtime.dispose();
}

#[test]
fn stopping_ends_the_propagation() {
    let runtime = create_runtime();
    let (a, set_a) = create_signal(1);
    let (b, set_b) = create_signal(2);

    let stop = sync_signal((a, set_a), (b, set_b));
    stop();

    set_a.set(5);
    assert_eq!(a.get_untracked(), 5);
    assert_eq!(b.get_untracked(), 1);

    set_b.set(6);
    assert_eq!(a.get_untracked(), 5);
    assert_eq!(b.get_untracked(), 6);

    runtime.dispose();
}

#[test]
fn stopping_twice_is_harmless() {
    let runtime = create_runtime();
    let (a, set_a) = create_signal(1);
    let (b, set_b) = create_signal(2);

    let stop = sync_signal((a, set_a), (b, set_b));
    let again = stop.clone();
    stop();
    stop();
    again();

    set_a.set(5);
    assert_eq!(b.get_untracked(), 1);

    runtime.dispose();
}

#[test]
fn never_stopping_is_harmless() {
    let runtime = create_runtime();
    let (a, set_a) = create_signal(1);
    let (b, set_b) = create_signal(2);

    let _ = sync_signal((a, set_a), (b, set_b));
    set_a.set(5);
    assert_eq!(b.get_untracked(), 5);

    runtime.dispose();
}

#[test]
fn rw_signals_and_pairs_mix() {
    let runtime = create_runtime();
    let (a, set_a) = create_signal(1);
    let (b, set_b) = create_signal(2);
    let c_rw = create_rw_signal(3);
    let d_rw = create_rw_signal(4);

    let _ = sync_signal((a, set_a), c_rw);
    assert_eq!(c_rw.get_untracked(), 1);
    let _ = sync_signal(d_rw, (b, set_b));
    assert_eq!(b.get_untracked(), 4);
    let _ = sync_signal(c_rw, d_rw);
    assert_eq!(a.get_untracked(), 1);
    assert_eq!(b.get_untracked(), 1);
    assert_eq!(c_rw.get_untracked(), 1);
    assert_eq!(d_rw.get_untracked(), 1);

    set_a.set(7);
    assert_eq!(b.get_untracked(), 7);
    assert_eq!(c_rw.get_untracked(), 7);
    assert_eq!(d_rw.get_untracked(), 7);

    set_b.set(9);
    assert_eq!(a.get_untracked(), 9);

    runtime.dispose();
}

#[test]
fn a_disposed_destination_is_left_alone() {
    let runtime = create_runtime();
    let (a, set_a) = create_signal(1);
    let b_rw = create_rw_signal(2);

    let stop = sync_signal((a, set_a), b_rw);
    assert_eq!(b_rw.get_untracked(), 1);

    leptos::SignalDispose::dispose(b_rw);
    set_a.set(3);
    assert_eq!(a.get_untracked(), 3);
    assert_eq!(b_rw.try_get_untracked(), None);

    stop();
    runtime.dispose();
}

#[test]
fn two_writes_in_one_batch_leave_the_signals_in_step() {
    let runtime = create_runtime();
    let (a, set_a) = create_signal(0);
    let (b, set_b) = create_signal(0);
    let stop = sync_signal((a, set_a), (b, set_b));

    batch(move || {
        set_a.set(1);
        set_b.set(5);
    });
    assert_eq!(a.get_untracked(), b.get_untracked());

    set_b.set(9);
    assert_eq!(a.get_untracked(), 9);

    stop();
    runtime.dispose();
}
