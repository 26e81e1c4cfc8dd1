use vstd::prelude::*;
use crate::flags::{
    contains_bits, has_flags, MOUSE_MOVE_ABSOLUTE, MOUSE_MOVE_RELATIVE, RIM_TYPEMOUSE,
    RI_MOUSE_LEFT_BUTTON_DOWN, RI_MOUSE_LEFT_BUTTON_UP, RI_MOUSE_RIGHT_BUTTON_DOWN,
    RI_MOUSE_RIGHT_BUTTON_UP,
};

verus! {

/// Least time between two emitted mouse-move events, in milliseconds.
pub const MIN_MOUSE_EVENT_INTERVAL_MS: u64 = 50;

/// The parts of a raw input fetch that the decoder reads.
#[derive(Clone, Copy, Debug, PartialEq, Eq, Structural)]
pub struct RawMouseRecord {
    /// What the fetch returned: the bytes copied into the record, zero when
    /// nothing was copied, `u32::MAX` when the fetch failed.
    pub bytes_copied: u32,
    /// Size of a complete mouse record (header and mouse data) on this
    /// machine.
    pub expected_size: u32,
    /// Size the system wrote back for the record; `u32::MAX` on failure.
    pub reported_size: u32,
    /// Device type in the record's header.
    pub kind: u32,
    /// Motion bitmask of the mouse record.
    pub state_flags: u16,
    /// Button-transition bitmask of the mouse record.
    pub button_flags: u16,
}

impl RawMouseRecord {
    /// The fetch succeeded, copied a complete mouse record, and the record
    /// describes a mouse. Only then are its fields read.
    pub open spec fn is_valid_mouse(self) -> bool {
        &&& self.bytes_copied != 0
        &&& self.bytes_copied != u32::MAX
        &&& self.bytes_copied == self.expected_size
        &&& self.reported_size != u32::MAX
        &&& self.kind == RIM_TYPEMOUSE
    }

    /// The motion bitmask contains the relative or the absolute movement
    /// mask. The relative mask is empty, so this holds of every bitmask:
    /// every valid mouse record, a bare button transition included, calls for
    /// a mouse-move event.
    pub open spec fn has_motion(self) -> bool {
        contains_bits(self.state_flags, MOUSE_MOVE_RELATIVE as u16) || contains_bits(
            self.state_flags,
            MOUSE_MOVE_ABSOLUTE as u16,
        )
    }
}

/// Mouse state kept between raw input messages.
#[derive(Clone, Copy, Debug, PartialEq, Eq, Structural)]
pub struct InputState {
    /// Whether the left button is down.
    pub left_down: bool,
    /// Whether the right button is down.
    pub right_down: bool,
    /// When the last mouse-move event was emitted, in milliseconds since the
    /// epoch.
    pub last_event_time: u64,
}

/// The mouse state after one raw input message, and the button state of the
/// mouse-move event that it emits, if any. The model takes every send of an
/// event to succeed: the window procedure records an emission only after the
/// event was sent.
pub open spec fn input_step(s: InputState, now: u64, rec: RawMouseRecord) -> (
    InputState,
    Option<bool>,
) {
    if s.throttled_at(now) {
        (s, None)
    } else {
        match s.move_decision(rec) {
            Some(down) => (s.after_record(rec).after_emission(now), Some(down)),
            None => (s.after_record(rec), None),
        }
    }
}

/// The mouse state after a run of raw input messages, each with the time it
/// was handled, and the emitted events as pairs of time and button state.
/// As in `input_step`, every send is taken to succeed.
pub open spec fn run_inputs(s: InputState, events: Seq<(u64, RawMouseRecord)>) -> (
    InputState,
    Seq<(u64, bool)>,
)
    decreases events.len(),
{
    if events.len() == 0 {
        (s, seq![])
    } else {
        let (mid, out) = run_inputs(s, events.drop_last());
        let (now, rec) = events.last();
        let (next, emitted) = input_step(mid, now, rec);
        match emitted {
            Some(down) => (next, out.push((now, down))),
            None => (next, out),
        }
    }
}

impl InputState {
    /// Both buttons up, and no event emitted yet.
    pub fn new() -> (r: InputState)
        ensures
            !r.left_down,
            !r.right_down,
            r.last_event_time == 0,
    {
        InputState { left_down: false, right_down: false, last_event_time: 0 }
    }

    /// Whether a button is held: the left or the right one.
    pub open spec fn is_mouse_down(self) -> bool {
        self.left_down || self.right_down
    }

    /// Less than the minimum interval has passed since the last emitted
    /// event. A time before the last emission is never throttled.
    pub open spec fn throttled_at(self, now: u64) -> bool {
        now >= self.last_event_time && now - self.last_event_time < MIN_MOUSE_EVENT_INTERVAL_MS
    }

    /// The state after the button transitions of `button_flags`. Within one
    /// record a button's up transition wins over its down transition.
    pub open spec fn after_buttons(self, button_flags: u16) -> InputState {
        InputState {
            left_down: if contains_bits(button_flags, RI_MOUSE_LEFT_BUTTON_UP as u16) {
                false
            } else if contains_bits(button_flags, RI_MOUSE_LEFT_BUTTON_DOWN as u16) {
                true
            } else {
                self.left_down
            },
            right_down: if contains_bits(button_flags, RI_MOUSE_RIGHT_BUTTON_UP as u16) {
                false
            } else if contains_bits(button_flags, RI_MOUSE_RIGHT_BUTTON_DOWN as u16) {
                true
            } else {
                self.right_down
            },
            ..self
        }
    }

    /// The state after a fetched record: an invalid record is discarded.
    pub open spec fn after_record(self, rec: RawMouseRecord) -> InputState {
        if rec.is_valid_mouse() {
            self.after_buttons(rec.button_flags)
        } else {
            self
        }
    }

    /// Whether the record calls for a mouse-move event, and if so whether a
    /// button is held once its transitions are applied.
    pub open spec fn move_decision(self, rec: RawMouseRecord) -> Option<bool> {
        if rec.is_valid_mouse() && rec.has_motion() {
            Some(self.after_record(rec).is_mouse_down())
        } else {
            None
        }
    }

    /// The state once an event was emitted at `now`.
    pub open spec fn after_emission(self, now: u64) -> InputState {
        InputState { last_event_time: now, ..self }
    }

    /// Whether a raw input message handled at `now` is dropped unread by the
    /// throttle.
    pub fn is_throttled(&self, now: u64) -> (r: bool)
        ensures
            r == self.throttled_at(now),
    {
        now >= self.last_event_time && now - self.last_event_time < MIN_MOUSE_EVENT_INTERVAL_MS
    }

    /// Applies a fetched record: updates the button state and tells whether
    /// to emit a mouse-move event, with the button state to report.
    pub fn apply_record(&mut self, rec: &RawMouseRecord) -> (r: Option<bool>)
        ensures
            *final(self) == old(self).after_record(*rec),
            r == old(self).move_decision(*rec),
    {
        if rec.bytes_copied == 0 || rec.bytes_copied == u32::MAX || rec.bytes_copied
            != rec.expected_size || rec.reported_size == u32::MAX || rec.kind != RIM_TYPEMOUSE {
            return None;
        }
        let button_flags = rec.button_flags;
        if has_flags(button_flags, RI_MOUSE_LEFT_BUTTON_DOWN) {
            self.left_down = true;
        }
        if has_flags(button_flags, RI_MOUSE_LEFT_BUTTON_UP) {
            self.left_down = false;
        }
        if has_flags(button_flags, RI_MOUSE_RIGHT_BUTTON_DOWN) {
            self.right_down = true;
        }
        if has_flags(button_flags, RI_MOUSE_RIGHT_BUTTON_UP) {
            self.right_down = false;
        }
        if has_flags(rec.state_flags, MOUSE_MOVE_RELATIVE) || has_flags(
            rec.state_flags,
            MOUSE_MOVE_ABSOLUTE,
        ) {
            Some(self.left_down || self.right_down)
        } else {
            None
        }
    }

    /// Records that a mouse-move event was emitted at `now`.
    pub fn record_emission(&mut self, now: u64)
        ensures
            *final(self) == old(self).after_emission(now),
    {
        self.last_event_time = now;
    }
}


/// The times of a run of messages never go back, and none is before the last
/// emission of the starting state.
pub open spec fn times_ordered(s: InputState, events: Seq<(u64, RawMouseRecord)>) -> bool {
    &&& forall|i: int, j: int|
        0 <= i <= j < events.len() ==> #[trigger] events[i].0 <= #[trigger] events[j].0
    &&& events.len() > 0 ==> s.last_event_time <= events[0].0
}

proof fn lemma_run_spacing(s: InputState, events: Seq<(u64, RawMouseRecord)>)
    requires
        times_ordered(s, events),
    ensures
        ({
            let (st, out) = run_inputs(s, events);
            &&& forall|k: int, l: int|
                0 <= k < l < out.len() ==> #[trigger] out[k].0 + MIN_MOUSE_EVENT_INTERVAL_MS
                    <= #[trigger] out[l].0
            &&& forall|k: int| 0 <= k < out.len() ==> #[trigger] out[k].0 <= st.last_event_time
            &&& out.len() > 0 ==> out.last().0 == st.last_event_time
            &&& s.last_event_time <= st.last_event_time
            &&& events.len() > 0 ==> st.last_event_time <= events.last().0
        }),
    decreases events.len(),
{
    if events.len() > 0 {
        let prefix = events.drop_last();
        assert forall|i: int, j: int| 0 <= i <= j < prefix.len() implies #[trigger] prefix[i].0
            <= #[trigger] prefix[j].0 by {
            assert(events[i].0 <= events[j].0);
        }
        lemma_run_spacing(s, prefix);
        if prefix.len() > 0 {
            assert(prefix.last().0 <= events.last().0) by {
                assert(events[prefix.len() - 1].0 <= events[events.len() - 1].0);
            }
        } else {
            assert(events[0].0 <= events[events.len() - 1].0);
        }
    }
}

/// Throttling: in any run of raw input messages whose times never go back,
/// any two emitted mouse-move events are at least the minimum interval apart,
/// so at most one is emitted in any window of that length.
pub proof fn lemma_at_most_one_move_per_interval(
    s: InputState,
    events: Seq<(u64, RawMouseRecord)>,
)
    requires
        times_ordered(s, events),
    ensures
        forall|k: int, l: int|
            0 <= k < l < run_inputs(s, events).1.len() ==> #[trigger] run_inputs(s, events).1[k].0
                + MIN_MOUSE_EVENT_INTERVAL_MS <= #[trigger] run_inputs(s, events).1[l].0,
{
    lemma_run_spacing(s, events);
}

/// Latest state: an emitted mouse-move event reports the button state as it
/// stands after the record that triggered it, and the throttle window restarts
/// at the time of that emission.
pub proof fn lemma_emission_reports_latest_buttons(s: InputState, now: u64, rec: RawMouseRecord)
    ensures
        input_step(s, now, rec).1 matches Some(down) ==> {
            &&& down == input_step(s, now, rec).0.is_mouse_down()
            &&& input_step(s, now, rec).0.last_event_time == now
        },
{
}

/// The down transition of the left (`right == false`) or right button.
pub open spec fn down_mask(right: bool) -> u16 {
    if right {
        RI_MOUSE_RIGHT_BUTTON_DOWN as u16
    } else {
        RI_MOUSE_LEFT_BUTTON_DOWN as u16
    }
}

/// The up transition of the left (`right == false`) or right button.
pub open spec fn up_mask(right: bool) -> u16 {
    if right {
        RI_MOUSE_RIGHT_BUTTON_UP as u16
    } else {
        RI_MOUSE_LEFT_BUTTON_UP as u16
    }
}

/// Whether the left (`right == false`) or right button is down.
pub open spec fn button_down(s: InputState, right: bool) -> bool {
    if right {
        s.right_down
    } else {
        s.left_down
    }
}

/// Every valid mouse record calls for a mouse-move event, whatever its
/// motion bitmask; an invalid one (a failed or short fetch, another device)
/// calls for none and leaves the state as it was.
pub proof fn lemma_valid_records_always_move(s: InputState, rec: RawMouseRecord)
    ensures
        rec.is_valid_mouse() ==> s.move_decision(rec) == Some(s.after_record(rec).is_mouse_down()),
        !rec.is_valid_mouse() ==> s.move_decision(rec) is None && s.after_record(rec) == s,
{
    let f = rec.state_flags;
    assert(f & 0u16 == 0u16) by (bit_vector);
}

/// Whether a record carries a down or an up transition of the button.
pub open spec fn has_transition(rec: RawMouseRecord, right: bool) -> bool {
    contains_bits(rec.button_flags, down_mask(right)) || contains_bits(
        rec.button_flags,
        up_mask(right),
    )
}

/// Whether the button is down after the record's transitions: an up
/// transition wins over a down transition in the same record.
pub open spec fn pressed_by(rec: RawMouseRecord, right: bool) -> bool {
    !contains_bits(rec.button_flags, up_mask(right)) && contains_bits(
        rec.button_flags,
        down_mask(right),
    )
}

/// Whether the message at index `i` of a run is decoded: the throttle lets it
/// through and its record is a valid mouse record.
pub open spec fn decoded(s: InputState, events: Seq<(u64, RawMouseRecord)>, i: int) -> bool {
    &&& !run_inputs(s, events.take(i)).0.throttled_at(events[i].0)
    &&& events[i].1.is_valid_mouse()
}

proof fn lemma_step_button(m: InputState, now: u64, rec: RawMouseRecord, right: bool)
    ensures
        button_down(input_step(m, now, rec).0, right) == if !m.throttled_at(now)
            && rec.is_valid_mouse() && has_transition(rec, right) {
            pressed_by(rec, right)
        } else {
            button_down(m, right)
        },
{
}

proof fn lemma_take_step(s: InputState, events: Seq<(u64, RawMouseRecord)>, n: int)
    requires
        0 <= n < events.len(),
    ensures
        ({
            let (mid, out) = run_inputs(s, events.take(n));
            let (next, emitted) = input_step(mid, events[n].0, events[n].1);
            &&& run_inputs(s, events.take(n + 1)).0 == next
            &&& run_inputs(s, events.take(n + 1)).1 == match emitted {
                Some(down) => out.push((events[n].0, down)),
                None => out,
            }
        }),
{
    assert(events.take(n + 1).drop_last() =~= events.take(n));
    assert(events.take(n + 1).last() == events[n]);
}

proof fn lemma_follows_from(
    s: InputState,
    events: Seq<(u64, RawMouseRecord)>,
    right: bool,
    i: int,
    n: int,
)
    requires
        0 <= i < n <= events.len(),
        decoded(s, events, i),
        has_transition(events[i].1, right),
        forall|j: int|
            i < j < events.len() && #[trigger] decoded(s, events, j) ==> !has_transition(
                events[j].1,
                right,
            ),
    ensures
        button_down(run_inputs(s, events.take(n)).0, right) == pressed_by(events[i].1, right),
    decreases n,
{
    lemma_take_step(s, events, n - 1);
    let mid = run_inputs(s, events.take(n - 1)).0;
    lemma_step_button(mid, events[n - 1].0, events[n - 1].1, right);
    if n - 1 > i {
        lemma_follows_from(s, events, right, i, n - 1);
        assert(decoded(s, events, n - 1) ==> !has_transition(events[n - 1].1, right));
    }
}

proof fn lemma_kept_to(s: InputState, events: Seq<(u64, RawMouseRecord)>, right: bool, n: int)
    requires
        0 <= n <= events.len(),
        forall|j: int|
            0 <= j < events.len() && #[trigger] decoded(s, events, j) ==> !has_transition(
                events[j].1,
                right,
            ),
    ensures
        button_down(run_inputs(s, events.take(n)).0, right) == button_down(s, right),
    decreases n,
{
    if n == 0 {
        assert(events.take(0) =~= Seq::<(u64, RawMouseRecord)>::empty());
    } else {
        lemma_kept_to(s, events, right, n - 1);
        lemma_take_step(s, events, n - 1);
        let mid = run_inputs(s, events.take(n - 1)).0;
        lemma_step_button(mid, events[n - 1].0, events[n - 1].1, right);
        assert(decoded(s, events, n - 1) ==> !has_transition(events[n - 1].1, right));
    }
}

/// Button state follows the last decoded transition: after a run, a button is
/// down exactly when the last decoded record carrying a transition of it
/// pressed it (an up transition wins within one record).
pub proof fn lemma_button_follows_last_transition(
    s: InputState,
    events: Seq<(u64, RawMouseRecord)>,
    right: bool,
    i: int,
)
    requires
        0 <= i < events.len(),
        decoded(s, events, i),
        has_transition(events[i].1, right),
        forall|j: int|
            i < j < events.len() && #[trigger] decoded(s, events, j) ==> !has_transition(
                events[j].1,
                right,
            ),
    ensures
        button_down(run_inputs(s, events).0, right) == pressed_by(events[i].1, right),
{
    lemma_follows_from(s, events, right, i, events.len() as int);
    assert(events.take(events.len() as int) =~= events);
}

/// Button state without transitions: when no decoded record of a run carries
/// a transition of a button, the button keeps the state it started with.
pub proof fn lemma_button_kept_without_transition(
    s: InputState,
    events: Seq<(u64, RawMouseRecord)>,
    right: bool,
)
    requires
        forall|j: int|
            0 <= j < events.len() && #[trigger] decoded(s, events, j) ==> !has_transition(
                events[j].1,
                right,
            ),
    ensures
        button_down(run_inputs(s, events).0, right) == button_down(s, right),
{
    lemma_kept_to(s, events, right, events.len() as int);
    assert(events.take(events.len() as int) =~= events);
}

/// The last decoded transition of a button in a run released it, or no
/// decoded record carried one and the button started up.
pub open spec fn released_in(s: InputState, events: Seq<(u64, RawMouseRecord)>, right: bool) -> bool {
    ||| (!button_down(s, right) && forall|j: int|
        0 <= j < events.len() && #[trigger] decoded(s, events, j) ==> !has_transition(
            events[j].1,
            right,
        ))
    ||| exists|i: int|
        0 <= i < events.len() && decoded(s, events, i) && has_transition(#[trigger] events[i].1, right)
            && !pressed_by(events[i].1, right) && forall|j: int|
            i < j < events.len() && #[trigger] decoded(s, events, j) ==> !has_transition(
                events[j].1,
                right,
            )
}

proof fn lemma_released_button(s: InputState, events: Seq<(u64, RawMouseRecord)>, right: bool)
    requires
        released_in(s, events, right),
    ensures
        !button_down(run_inputs(s, events).0, right),
{
    if !button_down(s, right) && forall|j: int|
        0 <= j < events.len() && #[trigger] decoded(s, events, j) ==> !has_transition(
            events[j].1,
            right,
        ) {
        lemma_button_kept_without_transition(s, events, right);
    } else {
        let i = choose|i: int|
            0 <= i < events.len() && decoded(s, events, i) && has_transition(
                #[trigger] events[i].1,
                right,
            ) && !pressed_by(events[i].1, right) && forall|j: int|
                i < j < events.len() && #[trigger] decoded(s, events, j) ==> !has_transition(
                    events[j].1,
                    right,
                );
        lemma_button_follows_last_transition(s, events, right, i);
    }
}

/// Held button: from a decoded record that presses a button on, while no
/// later decoded record carries a transition of that button, the button stays
/// down and every mouse-move event emitted from that record on reports a held
/// button.
pub proof fn lemma_held_button_reported(
    s: InputState,
    events: Seq<(u64, RawMouseRecord)>,
    right: bool,
    i: int,
)
    requires
        0 <= i < events.len(),
        decoded(s, events, i),
        pressed_by(events[i].1, right),
        forall|j: int|
            i < j < events.len() && #[trigger] decoded(s, events, j) ==> !has_transition(
                events[j].1,
                right,
            ),
    ensures
        button_down(run_inputs(s, events).0, right),
        forall|n: int|
            i < n <= events.len() && #[trigger] run_inputs(s, events.take(n)).1.len() > run_inputs(
                s,
                events.take(n - 1),
            ).1.len() ==> run_inputs(s, events.take(n)).1.last().1,
{
    lemma_button_follows_last_transition(s, events, right, i);
    assert forall|n: int|
        i < n <= events.len() && #[trigger] run_inputs(s, events.take(n)).1.len() > run_inputs(
            s,
            events.take(n - 1),
        ).1.len() implies run_inputs(s, events.take(n)).1.last().1 by {
        lemma_follows_from(s, events, right, i, n);
        lemma_take_step(s, events, n - 1);
        lemma_emission_reports_latest_buttons(
            run_inputs(s, events.take(n - 1)).0,
            events[n - 1].0,
            events[n - 1].1,
        );
    }
}

/// Released buttons: when for each button the last decoded transition
/// released it, or none came and it started up, no button is down after the
/// run, and a mouse-move event emitted by the run's last message reports no
/// held button.
pub proof fn lemma_released_buttons_reported(s: InputState, events: Seq<(u64, RawMouseRecord)>)
    requires
        events.len() > 0,
        released_in(s, events, false),
        released_in(s, events, true),
    ensures
        !run_inputs(s, events).0.is_mouse_down(),
        run_inputs(s, events).1.len() > run_inputs(s, events.drop_last()).1.len()
            ==> !run_inputs(s, events).1.last().1,
{
    lemma_released_button(s, events, false);
    lemma_released_button(s, events, true);
    lemma_emission_reports_latest_buttons(
        run_inputs(s, events.drop_last()).0,
        events.last().0,
        events.last().1,
    );
}

} // verus!
