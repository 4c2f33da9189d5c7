use std::sync::atomic::{AtomicUsize, Ordering};
use std::sync::Arc;
use std::task::{Context, Wake, Waker};

use keyboard_system_status::signal::Wakeup;
use keyboard_system_status::state::battery::notify_battery_state_changed;
use keyboard_system_status::state::layer::{
    current_layer_state, poll_layer_state_changed, try_take_layer_state_changed,
    update_layer_state, LayerState, LayerStateSnapshot,
};

struct CountingWaker {
    wakes: AtomicUsize,
}

impl Wake for CountingWaker {
    fn wake(self: Arc<Self>) {
        self.wakes.fetch_add(1, Ordering::SeqCst);
    }
}

#[test]
fn layer_snapshot_reports_default_and_all_active_layers() {
    let mut layers = [false; 256];
    layers[1] = true;
    layers[17] = true;
    layers[255] = true;

    let state = LayerStateSnapshot::from_keymap(3, &layers);

    assert_eq!(state.default_layer(), 3);
    assert_eq!(state.layer_count(), 256);
    assert!(state.is_active(1));
    assert!(state.is_active(3));
    assert!(state.is_active(17));
    assert!(state.is_active(255));
    assert!(!state.is_active(2));
}

#[test]
fn unchanged_layer_snapshot_does_not_signal() {
    let mut state = LayerState::new();
    while try_take_layer_state_changed(&mut state).is_some() {}

    update_layer_state(&mut state, 0, &[false, false]);
    try_take_layer_state_changed(&mut state);
    update_layer_state(&mut state, 0, &[false, false]);
    assert!(try_take_layer_state_changed(&mut state).is_none());

    update_layer_state(&mut state, 1, &[false, false]);
    assert!(try_take_layer_state_changed(&mut state).is_some());
}

#[test]
fn new_layer_state_is_empty_and_not_signaled() {
    let mut state = LayerState::new();
    let snapshot = current_layer_state(&state);

    assert_eq!(snapshot, LayerStateSnapshot::empty());
    assert_eq!(snapshot.default_layer(), 0);
    assert_eq!(snapshot.layer_count(), 0);
    assert!(!snapshot.is_active(0));
    assert_eq!(snapshot.active_bitmap(), &[0u8; 32]);
    assert!(try_take_layer_state_changed(&mut state).is_none());
}

#[test]
fn update_publishes_the_snapshot() {
    let mut state = LayerState::new();
    update_layer_state(&mut state, 1, &[true, false, false]);

    let snapshot = current_layer_state(&state);
    assert_eq!(snapshot, LayerStateSnapshot::from_keymap(1, &[true, false, false]));
    assert_eq!(snapshot.default_layer(), 1);
    assert_eq!(snapshot.layer_count(), 3);
    assert!(snapshot.is_active(0));
    assert!(snapshot.is_active(1));
    assert!(!snapshot.is_active(2));
    assert!(!snapshot.is_active(3));
    assert!(try_take_layer_state_changed(&mut state).is_some());
    assert!(try_take_layer_state_changed(&mut state).is_none());
}

#[test]
fn pending_wakeup_survives_a_silent_update() {
    let mut state = LayerState::new();
    update_layer_state(&mut state, 0, &[false]);
    update_layer_state(&mut state, 0, &[false]);
    assert!(try_take_layer_state_changed(&mut state).is_some());
}

#[test]
fn flag_of_the_default_layer_makes_no_difference() {
    assert_eq!(
        LayerStateSnapshot::from_keymap(1, &[false, false]),
        LayerStateSnapshot::from_keymap(1, &[false, true])
    );
    let mut state = LayerState::new();
    update_layer_state(&mut state, 1, &[false, false]);
    assert!(try_take_layer_state_changed(&mut state).is_some());
    update_layer_state(&mut state, 1, &[false, true]);
    assert!(try_take_layer_state_changed(&mut state).is_none());
}

#[test]
fn snapshots_differ_in_each_part() {
    let base = LayerStateSnapshot::from_keymap(0, &[false, false, false]);
    assert_eq!(base, LayerStateSnapshot::from_keymap(0, &[true, false, false]));
    assert_ne!(base, LayerStateSnapshot::from_keymap(0, &[false, true, false]));
    assert_ne!(base, LayerStateSnapshot::from_keymap(1, &[true, false, false]));
    assert_ne!(base, LayerStateSnapshot::from_keymap(0, &[false, false]));
}

#[test]
fn bitmap_sets_one_bit_per_active_layer() {
    let mut layers = [false; 256];
    layers[0] = true;
    layers[7] = true;
    layers[8] = true;
    layers[255] = true;

    let state = LayerStateSnapshot::from_keymap(9, &layers);
    let mut expected = [0u8; 32];
    expected[0] = 0x81;
    expected[1] = 0x03;
    expected[31] = 0x80;
    assert_eq!(state.active_bitmap(), &expected);
}

#[test]
fn single_layer_keymap_is_accepted() {
    let state = LayerStateSnapshot::from_keymap(0, &[false]);
    assert_eq!(state.layer_count(), 1);
    assert!(state.is_active(0));
    assert!(!state.is_active(1));
}

#[test]
fn waiting_task_is_woken_by_a_change_only() {
    let counter = Arc::new(CountingWaker { wakes: AtomicUsize::new(0) });
    let waker = Waker::from(counter.clone());
    let mut cx = Context::from_waker(&waker);

    let mut state = LayerState::new();
    update_layer_state(&mut state, 0, &[false, false]);
    assert!(poll_layer_state_changed(&mut state, &mut cx));
    assert!(!poll_layer_state_changed(&mut state, &mut cx));
    assert_eq!(counter.wakes.load(Ordering::SeqCst), 0);

    update_layer_state(&mut state, 0, &[false, false]);
    assert_eq!(counter.wakes.load(Ordering::SeqCst), 0);

    update_layer_state(&mut state, 0, &[false, true]);
    assert_eq!(counter.wakes.load(Ordering::SeqCst), 1);
    assert!(poll_layer_state_changed(&mut state, &mut cx));
    assert!(!poll_layer_state_changed(&mut state, &mut cx));
}

#[test]
fn battery_wakeup_is_raised_until_taken() {
    let mut changed = Wakeup::new();
    assert!(changed.try_take().is_none());

    notify_battery_state_changed(&mut changed);
    notify_battery_state_changed(&mut changed);
    assert_eq!(changed.try_take(), Some(()));
    assert_eq!(changed.try_take(), None);
}

#[test]
fn waiting_task_survives_a_take_and_a_silent_update() {
    let counter = Arc::new(CountingWaker { wakes: AtomicUsize::new(0) });
    let waker = Waker::from(counter.clone());
    let mut cx = Context::from_waker(&waker);

    let mut state = LayerState::new();
    update_layer_state(&mut state, 0, &[false, false]);
    assert!(try_take_layer_state_changed(&mut state).is_some());
    assert!(!poll_layer_state_changed(&mut state, &mut cx));

    assert!(try_take_layer_state_changed(&mut state).is_none());
    update_layer_state(&mut state, 0, &[true, false]);
    assert_eq!(counter.wakes.load(Ordering::SeqCst), 0);
    update_layer_state(&mut state, 1, &[true, false]);
    assert_eq!(counter.wakes.load(Ordering::SeqCst), 1);
}

#[test]
fn battery_wakeup_wakes_the_waiting_task() {
    let counter = Arc::new(CountingWaker { wakes: AtomicUsize::new(0) });
    let waker = Waker::from(counter.clone());
    let mut cx = Context::from_waker(&waker);

    let mut changed = Wakeup::new();
    assert!(!changed.poll_wait(&mut cx));
    notify_battery_state_changed(&mut changed);
    assert_eq!(counter.wakes.load(Ordering::SeqCst), 1);
    assert!(changed.poll_wait(&mut cx));

    notify_battery_state_changed(&mut changed);
    assert_eq!(counter.wakes.load(Ordering::SeqCst), 1);
}
