use obs_gpmdp::bridge::{execute_main_render_callback, BridgeState, RenderCallback};
use std::cell::Cell;
use std::rc::Rc;

#[test]
fn task_runs_in_the_first_frame_and_hands_out_its_result_once() {
    let runs = Rc::new(Cell::new(0));
    let counter = runs.clone();
    let mut bridge = execute_main_render_callback(move |cx: u32, cy: u32| {
        counter.set(counter.get() + 1);
        cx * 10 + cy
    });
    assert_eq!(bridge.current(), BridgeState::Pending);
    assert!(bridge.is_registered());
    assert_eq!(bridge.poll(), None);
    assert_eq!(bridge.current(), BridgeState::Pending);

    bridge.execute(3, 4);
    assert_eq!(runs.get(), 1);
    assert_eq!(bridge.current(), BridgeState::Executed);
    assert!(bridge.is_registered());

    assert_eq!(bridge.poll(), Some(34));
    assert_eq!(bridge.current(), BridgeState::Completed);
    assert!(!bridge.is_registered());
    assert_eq!(bridge.poll(), None);
}

#[test]
fn task_runs_at_most_once() {
    let runs = Rc::new(Cell::new(0));
    let counter = runs.clone();
    let mut bridge = execute_main_render_callback(move |_: u32, _: u32| {
        counter.set(counter.get() + 1);
    });
    bridge.execute(1, 1);
    bridge.execute(2, 2);
    bridge.execute(3, 3);
    assert_eq!(runs.get(), 1);
    assert_eq!(bridge.poll(), Some(()));
    bridge.execute(4, 4);
    assert_eq!(runs.get(), 1);
    assert_eq!(bridge.current(), BridgeState::Completed);
}

#[test]
fn canceled_task_never_runs_and_is_no_longer_registered() {
    let runs = Rc::new(Cell::new(0));
    let counter = runs.clone();
    let mut bridge = execute_main_render_callback(move |_: u32, _: u32| {
        counter.set(counter.get() + 1);
        7u8
    });
    bridge.cancel();
    assert_eq!(bridge.current(), BridgeState::Canceled);
    assert!(!bridge.is_registered());
    // The closure is gone with the cancellation: nothing else holds the counter.
    assert_eq!(Rc::strong_count(&runs), 1);
    bridge.execute(640, 480);
    assert_eq!(runs.get(), 0);
    assert_eq!(bridge.poll(), None);
    assert_eq!(bridge.current(), BridgeState::Canceled);
    bridge.cancel();
    assert_eq!(bridge.current(), BridgeState::Canceled);
}

#[test]
fn result_that_nobody_waits_for_is_dropped() {
    let mut bridge = execute_main_render_callback(|cx: u32, _: u32| cx);
    bridge.execute(5, 6);
    bridge.cancel();
    assert_eq!(bridge.current(), BridgeState::Canceled);
    assert!(!bridge.is_registered());
    assert_eq!(bridge.poll(), None);
}

#[test]
fn cancel_after_completion_changes_nothing() {
    let mut bridge = execute_main_render_callback(|cx: u32, cy: u32| -> Result<u32, String> { Ok(cx + cy) });
    bridge.execute(5, 6);
    assert_eq!(bridge.poll(), Some(Ok(11)));
    bridge.cancel();
    assert_eq!(bridge.current(), BridgeState::Completed);
}
