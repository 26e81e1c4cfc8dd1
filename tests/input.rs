use event_window::event::{mouse_move_event, MouseMoveEvent, PlatformEvent, Point};
use event_window::flags::{
    MOUSE_MOVE_ABSOLUTE, RIM_TYPEMOUSE, RI_MOUSE_LEFT_BUTTON_DOWN, RI_MOUSE_LEFT_BUTTON_UP,
    RI_MOUSE_RIGHT_BUTTON_DOWN, RI_MOUSE_RIGHT_BUTTON_UP,
};
use event_window::input::{InputState, RawMouseRecord, MIN_MOUSE_EVENT_INTERVAL_MS};

fn record(state_flags: u32, button_flags: u32) -> RawMouseRecord {
    RawMouseRecord {
        bytes_copied: 48,
        expected_size: 48,
        reported_size: 48,
        kind: RIM_TYPEMOUSE,
        state_flags: state_flags as u16,
        button_flags: button_flags as u16,
    }
}

/// Runs one raw input message as the window procedure does; returns the
/// button state of the emitted event, if any.
fn handle(state: &mut InputState, now: u64, rec: &RawMouseRecord) -> Option<bool> {
    if state.is_throttled(now) {
        return None;
    }
    let decision = state.apply_record(rec);
    if decision.is_some() {
        state.record_emission(now);
    }
    decision
}

#[test]
fn new_state_is_idle() {
    let state = InputState::new();
    assert!(!state.left_down);
    assert!(!state.right_down);
    assert_eq!(state.last_event_time, 0);
}

#[test]
fn throttle_window_is_fifty_milliseconds() {
    assert_eq!(MIN_MOUSE_EVENT_INTERVAL_MS, 50);
    let mut state = InputState::new();
    state.record_emission(1_000);
    assert_eq!(state.last_event_time, 1_000);
    assert!(state.is_throttled(1_000));
    assert!(state.is_throttled(1_049));
    assert!(!state.is_throttled(1_050));
    assert!(!state.is_throttled(5_000));
}

#[test]
fn time_before_last_emission_is_not_throttled() {
    let mut state = InputState::new();
    state.record_emission(1_000);
    assert!(!state.is_throttled(999));
}

#[test]
fn movement_emits_with_buttons_up() {
    let mut state = InputState::new();
    assert_eq!(state.apply_record(&record(0, 0)), Some(false));
    assert_eq!(state.apply_record(&record(MOUSE_MOVE_ABSOLUTE, 0)), Some(false));
}

#[test]
fn invalid_records_are_discarded() {
    let mut state = InputState::new();
    let down = RI_MOUSE_LEFT_BUTTON_DOWN;
    let mut empty = record(0, down);
    empty.bytes_copied = 0;
    let mut failed = record(0, down);
    failed.reported_size = u32::MAX;
    let mut keyboard = record(0, down);
    keyboard.kind = 1;
    let mut fetch_error = record(0, down);
    fetch_error.bytes_copied = u32::MAX;
    let mut short = record(0, down);
    short.bytes_copied = 24;
    for rec in [empty, failed, keyboard, fetch_error, short] {
        assert_eq!(state.apply_record(&rec), None);
        assert!(!state.left_down);
    }
}

#[test]
fn absolute_flag_needs_exact_containment() {
    let mut state = InputState::new();
    // Bit 1 alone does not contain the absolute flag, but the relative mask
    // is empty and is contained in every bitmask.
    assert_eq!(state.apply_record(&record(0b10, 0)), Some(false));
}

#[test]
fn button_transitions_update_state() {
    let mut state = InputState::new();
    assert_eq!(state.apply_record(&record(0, RI_MOUSE_LEFT_BUTTON_DOWN)), Some(true));
    assert!(state.left_down);
    assert!(!state.right_down);
    assert_eq!(state.apply_record(&record(0, RI_MOUSE_RIGHT_BUTTON_DOWN)), Some(true));
    assert!(state.right_down);
    assert_eq!(state.apply_record(&record(0, RI_MOUSE_LEFT_BUTTON_UP)), Some(true));
    assert!(!state.left_down);
    assert_eq!(state.apply_record(&record(0, RI_MOUSE_RIGHT_BUTTON_UP)), Some(false));
    assert!(!state.right_down);
}

#[test]
fn up_wins_over_down_in_one_record() {
    let mut state = InputState::new();
    let both = RI_MOUSE_LEFT_BUTTON_DOWN | RI_MOUSE_LEFT_BUTTON_UP;
    assert_eq!(state.apply_record(&record(0, both)), Some(false));
    assert!(!state.left_down);
}

#[test]
fn down_state_survives_until_up() {
    let mut state = InputState::new();
    assert_eq!(handle(&mut state, 1_000, &record(0, RI_MOUSE_RIGHT_BUTTON_DOWN)), Some(true));
    for step in 1..20u64 {
        let emitted = handle(&mut state, 1_000 + step * 60, &record(0, 0));
        assert_eq!(emitted, Some(true));
    }
    assert_eq!(handle(&mut state, 3_000, &record(0, RI_MOUSE_RIGHT_BUTTON_UP)), Some(false));
    assert_eq!(handle(&mut state, 3_100, &record(0, 0)), Some(false));
}

#[test]
fn rapid_moves_emit_once_per_interval() {
    let mut state = InputState::new();
    let mut emitted_at = Vec::new();
    for step in 0..100u64 {
        let now = 10_000 + step * 10;
        if handle(&mut state, now, &record(0, 0)).is_some() {
            emitted_at.push(now);
        }
    }
    assert_eq!(emitted_at.len(), 20);
    for pair in emitted_at.windows(2) {
        assert!(pair[1] - pair[0] >= 50);
    }
}

#[test]
fn throttled_message_does_not_move_the_window() {
    let mut state = InputState::new();
    assert!(handle(&mut state, 10_000, &record(0, 0)).is_some());
    assert!(handle(&mut state, 10_030, &record(0, 0)).is_none());
    assert_eq!(state.last_event_time, 10_000);
    assert!(handle(&mut state, 10_050, &record(0, 0)).is_some());
}

#[test]
fn emission_reflects_latest_buttons() {
    let mut state = InputState::new();
    assert_eq!(handle(&mut state, 10_000, &record(0, 0)), Some(false));
    // The down transition arrives inside the window and is dropped unread.
    assert_eq!(handle(&mut state, 10_010, &record(0, RI_MOUSE_LEFT_BUTTON_DOWN)), None);
    assert!(!state.left_down);
    assert_eq!(handle(&mut state, 10_060, &record(0, RI_MOUSE_LEFT_BUTTON_DOWN)), Some(true));
}

#[test]
fn press_move_release_move_scenario() {
    let mut state = InputState::new();
    let mut events = Vec::new();
    let steps = [
        (20_000u64, record(0, RI_MOUSE_LEFT_BUTTON_DOWN)),
        (20_010, record(0, 0)),
        (20_060, record(0, RI_MOUSE_LEFT_BUTTON_UP)),
        (20_070, record(0, 0)),
    ];
    for (now, rec) in steps.iter() {
        if let Some(down) = handle(&mut state, *now, rec) {
            events.push(mouse_move_event(5, 7, down));
        }
    }
    assert_eq!(
        events,
        vec![
            PlatformEvent::MouseMove(MouseMoveEvent { point: Point { x: 5, y: 7 }, is_mouse_down: true }),
            PlatformEvent::MouseMove(MouseMoveEvent { point: Point { x: 5, y: 7 }, is_mouse_down: false }),
        ]
    );
}

#[test]
fn mouse_move_event_carries_its_fields() {
    let event = mouse_move_event(-3, 1200, true);
    assert_eq!(
        event,
        PlatformEvent::MouseMove(MouseMoveEvent { point: Point { x: -3, y: 1200 }, is_mouse_down: true })
    );
}

#[test]
fn failed_fetch_of_zeroed_buffer_sends_nothing() {
    let mut state = InputState::new();
    state.left_down = true;
    // A failed fetch leaves the zeroed buffer, whose type reads as a mouse.
    let rec = RawMouseRecord {
        bytes_copied: u32::MAX,
        expected_size: 48,
        reported_size: 48,
        kind: RIM_TYPEMOUSE,
        state_flags: 0,
        button_flags: 0,
    };
    assert_eq!(handle(&mut state, 30_000, &rec), None);
    assert!(state.left_down);
    assert!(!state.right_down);
    assert_eq!(state.last_event_time, 0);
}

#[test]
fn button_press_alone_emits_a_move() {
    let mut state = InputState::new();
    assert_eq!(state.apply_record(&record(0, RI_MOUSE_RIGHT_BUTTON_DOWN)), Some(true));
}
