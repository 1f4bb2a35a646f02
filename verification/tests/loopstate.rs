//! The presentation loop's state machine, frame pacing and the input
//! latch, driven over concrete event sequences.

use retro_launcher::latch::{
    HostKey, InputLatch, InputSource, PadKey, PadSnapshot, map_keyboard_key, sync_controller,
};
use retro_launcher::audio::{MAX_BUFFER_BYTES, should_drop_queue};
use retro_launcher::pacing::{PaceAction, frame_interval_nanos, pace_action};
use retro_launcher::present::{
    AcquireOutcome, FrameDirective, FutureSlot, PresentLoop, PresentModeKind, SubmitOutcome,
    present_mode_rank,
};

#[test]
fn out_of_date_acquire_skips_core_and_recreates() {
    let mut state = PresentLoop::new();
    let recreated = state.begin_iteration();
    assert!(!recreated);
    let directive = state.handle_acquire(AcquireOutcome::OutOfDate);
    assert_eq!(directive, FrameDirective::SkipFrame);
    // The core was not advanced for this iteration.
    assert_eq!(state.core_frames, 0);
    assert!(state.recreate_swapchain);
    // The next iteration recreates the swapchain before its acquire.
    let recreated = state.begin_iteration();
    assert!(recreated);
    assert!(!state.recreate_swapchain);
    let directive = state.handle_acquire(AcquireOutcome::Success { image_index: 0, suboptimal: false });
    assert_eq!(directive, FrameDirective::Render { image_index: 0 });
    assert_eq!(state.core_frames, 1);
}

#[test]
fn suboptimal_acquire_renders_then_flags_recreation() {
    let mut state = PresentLoop::new();
    state.begin_iteration();
    let directive = state.handle_acquire(AcquireOutcome::Success { image_index: 2, suboptimal: true });
    assert_eq!(directive, FrameDirective::Render { image_index: 2 });
    assert_eq!(state.core_frames, 1);
    assert!(state.recreate_swapchain);
}

#[test]
fn acquire_failure_is_fatal_and_changes_nothing() {
    let mut state = PresentLoop::new();
    let directive = state.handle_acquire(AcquireOutcome::Failure);
    assert_eq!(directive, FrameDirective::FatalError);
    assert_eq!(state, PresentLoop::new());
}

#[test]
fn future_baton_moves_one_serial_per_presented_frame() {
    let mut state = PresentLoop::new();
    assert_eq!(state.in_flight, FutureSlot::Placeholder);
    state.handle_submit(SubmitOutcome::Completed);
    assert_eq!(state.in_flight, FutureSlot::Chained { serial: 1 });
    assert_eq!(state.frames_presented, 1);
    state.handle_submit(SubmitOutcome::Completed);
    assert_eq!(state.in_flight, FutureSlot::Chained { serial: 2 });
    // An out-of-date present drops back to the placeholder and flags
    // recreation.
    state.handle_submit(SubmitOutcome::OutOfDate);
    assert_eq!(state.in_flight, FutureSlot::Placeholder);
    assert!(state.recreate_swapchain);
}

#[test]
fn resize_only_marks_recreation() {
    let mut state = PresentLoop::new();
    state.note_resize();
    assert!(state.recreate_swapchain);
    assert_eq!(state.core_frames, 0);
    assert_eq!(state.in_flight, FutureSlot::Placeholder);
}

#[test]
fn pacing_decisions() {
    let interval = frame_interval_nanos(59_500);
    assert_eq!(interval, 16_806_722);
    assert_eq!(pace_action(false, 0, interval), PaceAction::Proceed);
    assert_eq!(pace_action(true, interval, interval), PaceAction::Proceed);
    assert_eq!(pace_action(true, interval + 5, interval), PaceAction::Proceed);
    assert_eq!(
        pace_action(true, 0, interval),
        PaceAction::SleepCoarse { nanos: interval - 1_000_000 }
    );
    assert_eq!(pace_action(true, interval - 1_000, interval), PaceAction::SpinBriefly);
}

#[test]
fn latch_reports_only_edges() {
    let mut latch = InputLatch::new();
    assert_eq!(latch.set(InputSource::Keyboard, PadKey::Cross, true), Some(true));
    // The controller pressing the same key is not an edge of the merged
    // state.
    assert_eq!(latch.set(InputSource::Controller, PadKey::Cross, true), None);
    // Releasing only the keyboard is not an edge either: the controller
    // still holds the key.
    assert_eq!(latch.set(InputSource::Keyboard, PadKey::Cross, false), None);
    assert_eq!(latch.set(InputSource::Controller, PadKey::Cross, false), Some(false));
    // Re-releasing is not an edge.
    assert_eq!(latch.set(InputSource::Controller, PadKey::Cross, false), None);
}

#[test]
fn focus_loss_releases_exactly_the_keyboard_held_keys() {
    let mut latch = InputLatch::new();
    latch.set(InputSource::Keyboard, PadKey::Up, true);
    latch.set(InputSource::Keyboard, PadKey::Cross, true);
    latch.set(InputSource::Controller, PadKey::Cross, true);
    let released = latch.clear_source(InputSource::Keyboard);
    // Up was keyboard-only and is released; Cross stays held by the
    // controller, so the core hears nothing about it.
    assert_eq!(released, vec![(PadKey::Up, false)]);
}

#[test]
fn controller_snapshot_sync_notifies_changes_once() {
    let mut latch = InputLatch::new();
    let idle = PadSnapshot {
        start: false,
        select: false,
        up: false,
        down: false,
        left: false,
        right: false,
        cross: false,
        circle: false,
        square: false,
        triangle: false,
        l1: false,
        r1: false,
        l2: false,
        r2: false,
    };
    assert_eq!(sync_controller(&mut latch, &idle), vec![]);
    let pressing = PadSnapshot { start: true, l2: true, ..idle };
    let notes = sync_controller(&mut latch, &pressing);
    assert_eq!(notes, vec![(PadKey::Start, true), (PadKey::L2, true)]);
    // Repeating the same snapshot produces no further notifications.
    assert_eq!(sync_controller(&mut latch, &pressing), vec![]);
    let releasing = PadSnapshot { ..idle };
    let notes = sync_controller(&mut latch, &releasing);
    assert_eq!(notes, vec![(PadKey::Start, false), (PadKey::L2, false)]);
}

#[test]
fn keyboard_binding() {
    assert_eq!(map_keyboard_key(HostKey::ArrowUp), Some(PadKey::Up));
    assert_eq!(map_keyboard_key(HostKey::KeyZ), Some(PadKey::Cross));
    assert_eq!(map_keyboard_key(HostKey::Enter), Some(PadKey::Start));
    assert_eq!(map_keyboard_key(HostKey::NumpadEnter), Some(PadKey::Start));
    assert_eq!(map_keyboard_key(HostKey::Space), Some(PadKey::Select));
    assert_eq!(map_keyboard_key(HostKey::KeyV), None);
    assert_eq!(map_keyboard_key(HostKey::Escape), None);
    assert_eq!(map_keyboard_key(HostKey::Other), None);
}

#[test]
fn audio_queue_drops_past_one_second() {
    assert!(!should_drop_queue(0));
    assert!(!should_drop_queue(MAX_BUFFER_BYTES));
    assert!(should_drop_queue(MAX_BUFFER_BYTES + 1));
}

#[test]
fn present_mode_preference_order() {
    assert_eq!(present_mode_rank(PresentModeKind::Mailbox), 0);
    assert_eq!(present_mode_rank(PresentModeKind::Immediate), 1);
    assert_eq!(present_mode_rank(PresentModeKind::Fifo), 2);
    assert_eq!(present_mode_rank(PresentModeKind::FifoRelaxed), 3);
    assert_eq!(present_mode_rank(PresentModeKind::Other), 4);
}
