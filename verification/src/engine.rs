//! Remap engine: binds one live touch state to a stream of touchpad
//! records and a stream of keyboard records.
//!
//! Each fetched touchpad batch is consumed in two passes: first every
//! axis sample updates the tracker, so the position is current before
//! any presence decision uses it; then the touch-presence records are
//! processed in the order received. The engine emits only on the edge of
//! the presence signal: a touch start outside the dead zones opens an
//! active session (and, under the modifier-forwarding policy, presses
//! the modifier key); a touch start inside a dead zone marks the session
//! inactive and stays silent; a touch end emits the matching release
//! only for an active session and always clears the tracked position.
//!
//! Keyboard records are filtered to presses and releases of monitored
//! keys — repeats never reach the key mapper — and decided against a
//! snapshot of the touch state.

use crate::geometry::{ExclusionZones, TouchpadDimensions};
use crate::mapper::{map_key_event, map_key_event_spec};
use crate::tracker::{position_report, reset_view, view_excluded, TouchTracker, TrackerView};
use crate::types::{KeyCode, KeyEvent, MouseButton, OutputAction, TouchState};
use vstd::prelude::*;

verus! {

/// Raw code of the X absolute axis in the Linux input ABI.
pub const ABS_X: u16 = 0;

/// Raw code of the Y absolute axis.
pub const ABS_Y: u16 = 1;

/// Raw code of the multi-touch X position axis.
pub const ABS_MT_POSITION_X: u16 = 53;

/// Raw code of the multi-touch Y position axis.
pub const ABS_MT_POSITION_Y: u16 = 54;

/// Raw key code of the touch-presence button a touchpad reports.
pub const BTN_TOUCH: u16 = 330;

/// Raw key code of the J key.
pub const KEY_J: u16 = 36;

/// Raw key code of the K key.
pub const KEY_K: u16 = 37;

/// Raw key code of the synthetic modifier key held while touching.
pub const KEY_F24: u16 = 194;

/// Raw button code of the left mouse button.
pub const BTN_LEFT: u16 = 272;

/// Raw button code of the right mouse button.
pub const BTN_RIGHT: u16 = 273;

/// One record from a device stream: an absolute-axis sample or a
/// button/key sample whose value is 0 (release), 1 (press) or
/// 2 (repeat).
#[derive(Debug, Clone, Copy, PartialEq, Eq, Structural)]
pub enum InputRecord {
    AbsAxis { axis: u16, value: i32 },
    Key { code: u16, value: i32 },
}

/// Which mapping policy the engine applies. Both are configurations of
/// the same engine; the tracker and the geometry model do not change.
#[derive(Debug, Clone, Copy, PartialEq, Eq, Structural)]
pub enum MappingPolicy {
    /// Monitored keys become mouse clicks while a touch session is
    /// active; touch edges themselves emit nothing.
    PerKeyMouse,
    /// A touch start presses the synthetic modifier key and the touch
    /// end releases it; every key always passes through.
    ModifierForward,
}

/// The abstract state of a [`RemapEngine`].
pub ghost struct EngineView {
    pub tracker: TrackerView,
    pub policy: MappingPolicy,
    pub touching: bool,
    pub session_active: bool,
}

/// What one record does to the tracker in the axis pass: an X sample
/// updates only `x`, a Y sample only `y`; anything else is ignored.
pub open spec fn axis_step(t: TrackerView, r: InputRecord) -> TrackerView {
    match r {
        InputRecord::AbsAxis { axis, value } => {
            if axis == ABS_X || axis == ABS_MT_POSITION_X {
                TrackerView { x: Some(value), ..t }
            } else if axis == ABS_Y || axis == ABS_MT_POSITION_Y {
                TrackerView { y: Some(value), ..t }
            } else {
                t
            }
        },
        InputRecord::Key { .. } => t,
    }
}

/// The tracker after the whole axis pass over a batch.
pub open spec fn axes_applied(t: TrackerView, rs: Seq<InputRecord>) -> TrackerView
    decreases rs.len(),
{
    if rs.len() == 0 {
        t
    } else {
        axis_step(axes_applied(t, rs.drop_last()), rs.last())
    }
}

/// The actions a touch start outside the dead zones emits.
pub open spec fn start_actions(policy: MappingPolicy) -> Seq<OutputAction> {
    match policy {
        MappingPolicy::PerKeyMouse => seq![],
        MappingPolicy::ModifierForward => seq![OutputAction::ForwardKey(KEY_F24, true)],
    }
}

/// The actions the end of an active touch session emits.
pub open spec fn end_actions(policy: MappingPolicy) -> Seq<OutputAction> {
    match policy {
        MappingPolicy::PerKeyMouse => seq![],
        MappingPolicy::ModifierForward => seq![OutputAction::ForwardKey(KEY_F24, false)],
    }
}

/// What one record does to the engine state in the presence pass.
/// Only `BTN_TOUCH` records matter, and only on an edge of the presence
/// signal; a start inside a dead zone leaves the session inactive, and
/// an end always clears the tracked position.
pub open spec fn presence_step_state(s: EngineView, r: InputRecord) -> EngineView {
    match r {
        InputRecord::Key { code, value } => {
            if code == BTN_TOUCH {
                let now = value == 1;
                if now == s.touching {
                    s
                } else if now {
                    EngineView { touching: true, session_active: !view_excluded(s.tracker), ..s }
                } else {
                    EngineView {
                        touching: false,
                        session_active: false,
                        tracker: reset_view(s.tracker),
                        ..s
                    }
                }
            } else {
                s
            }
        },
        InputRecord::AbsAxis { .. } => s,
    }
}

/// What one record emits in the presence pass.
pub open spec fn presence_step_actions(s: EngineView, r: InputRecord) -> Seq<OutputAction> {
    match r {
        InputRecord::Key { code, value } => {
            if code == BTN_TOUCH {
                let now = value == 1;
                if now == s.touching {
                    seq![]
                } else if now {
                    if view_excluded(s.tracker) {
                        seq![]
                    } else {
                        start_actions(s.policy)
                    }
                } else {
                    if s.session_active {
                        end_actions(s.policy)
                    } else {
                        seq![]
                    }
                }
            } else {
                seq![]
            }
        },
        InputRecord::AbsAxis { .. } => seq![],
    }
}

/// The engine state after the presence pass over a batch.
pub open spec fn presence_fold_state(s: EngineView, rs: Seq<InputRecord>) -> EngineView
    decreases rs.len(),
{
    if rs.len() == 0 {
        s
    } else {
        presence_step_state(presence_fold_state(s, rs.drop_last()), rs.last())
    }
}

/// Everything the presence pass over a batch emits, in order.
pub open spec fn presence_fold_actions(s: EngineView, rs: Seq<InputRecord>) -> Seq<OutputAction>
    decreases rs.len(),
{
    if rs.len() == 0 {
        seq![]
    } else {
        presence_fold_actions(s, rs.drop_last()) + presence_step_actions(
            presence_fold_state(s, rs.drop_last()),
            rs.last(),
        )
    }
}

/// The engine state after one whole batch: the axis pass first, then
/// the presence pass.
pub open spec fn batch_final_state(s: EngineView, rs: Seq<InputRecord>) -> EngineView {
    presence_fold_state(EngineView { tracker: axes_applied(s.tracker, rs), ..s }, rs)
}

/// Everything one whole batch emits, in order.
pub open spec fn batch_actions(s: EngineView, rs: Seq<InputRecord>) -> Seq<OutputAction> {
    presence_fold_actions(EngineView { tracker: axes_applied(s.tracker, rs), ..s }, rs)
}

/// The key event a raw keyboard record carries: a press or release of a
/// monitored key. Repeats (value 2) and unmonitored codes carry none.
pub open spec fn key_event_from_raw_spec(code: u16, value: i32) -> Option<KeyEvent> {
    if value != 0 && value != 1 {
        None
    } else if code == KEY_J {
        if value == 1 {
            Some(KeyEvent::Press(KeyCode::J))
        } else {
            Some(KeyEvent::Release(KeyCode::J))
        }
    } else if code == KEY_K {
        if value == 1 {
            Some(KeyEvent::Press(KeyCode::K))
        } else {
            Some(KeyEvent::Release(KeyCode::K))
        }
    } else {
        None
    }
}

/// Classify a raw keyboard record; repeats and unmonitored codes are
/// silently ignored.
pub fn key_event_from_raw(code: u16, value: i32) -> (r: Option<KeyEvent>)
    ensures
        r == key_event_from_raw_spec(code, value),
{
    if value != 0 && value != 1 {
        None
    } else if code == KEY_J {
        if value == 1 {
            Some(KeyEvent::Press(KeyCode::J))
        } else {
            Some(KeyEvent::Release(KeyCode::J))
        }
    } else if code == KEY_K {
        if value == 1 {
            Some(KeyEvent::Press(KeyCode::K))
        } else {
            Some(KeyEvent::Release(KeyCode::K))
        }
    } else {
        None
    }
}

/// What the keyboard path does with one raw record, against a snapshot
/// of the touch state.
pub open spec fn key_record_decision_spec(
    code: u16,
    value: i32,
    touch: TouchState,
    policy: MappingPolicy,
) -> Option<OutputAction> {
    match key_event_from_raw_spec(code, value) {
        Some(event) => Some(
            match policy {
                MappingPolicy::PerKeyMouse => map_key_event_spec(event, touch),
                MappingPolicy::ModifierForward => OutputAction::PassThrough(event),
            },
        ),
        None => None,
    }
}

/// Decide one raw keyboard record: filter it to a press or release of a
/// monitored key, then run the key mapper (or pass through, under the
/// modifier-forwarding policy). Repeats produce no action at all.
pub fn handle_key_record(code: u16, value: i32, touch: &TouchState, policy: MappingPolicy) -> (r:
    Option<OutputAction>)
    ensures
        r == key_record_decision_spec(code, value, *touch, policy),
        value == 2 ==> r is None,
{
    match key_event_from_raw(code, value) {
        Some(event) => Some(
            match policy {
                MappingPolicy::PerKeyMouse => map_key_event(event, touch),
                MappingPolicy::ModifierForward => OutputAction::PassThrough(event),
            },
        ),
        None => None,
    }
}

/// Law: a repeat record — value 2 — never reaches the key mapper and
/// produces no output action, whatever the key, state and policy.
pub proof fn lemma_repeat_filtered(code: u16, touch: TouchState, policy: MappingPolicy)
    ensures
        key_record_decision_spec(code, 2, touch, policy) is None,
{
}

/// The raw button code the virtual mouse uses for a mapped button.
pub fn button_code(button: MouseButton) -> (c: u16)
    ensures
        c == (match button {
            MouseButton::Left => BTN_LEFT,
            MouseButton::Right => BTN_RIGHT,
        }),
{
    match button {
        MouseButton::Left => BTN_LEFT,
        MouseButton::Right => BTN_RIGHT,
    }
}

/// Owns the touch tracker and the presence state for one touchpad
/// stream and drives the mapping policy on its edges.
pub struct RemapEngine {
    tracker: TouchTracker,
    policy: MappingPolicy,
    touching: bool,
    session_active: bool,
}

impl View for RemapEngine {
    type V = EngineView;

    closed spec fn view(&self) -> EngineView {
        EngineView {
            tracker: self.tracker@,
            policy: self.policy,
            touching: self.touching,
            session_active: self.session_active,
        }
    }
}

impl RemapEngine {
    /// A fresh engine: no touch, no session, no position known.
    pub fn new(
        dimensions: TouchpadDimensions,
        exclusion_zones: ExclusionZones,
        policy: MappingPolicy,
    ) -> (e: Self)
        ensures
            e@ == (EngineView {
                tracker: TrackerView {
                    dims: dimensions,
                    zones: exclusion_zones,
                    x: None::<i32>,
                    y: None::<i32>,
                },
                policy,
                touching: false,
                session_active: false,
            }),
    {
        RemapEngine {
            tracker: TouchTracker::new(dimensions, exclusion_zones),
            policy,
            touching: false,
            session_active: false,
        }
    }

    /// The touch-state snapshot the keyboard path reads: touching
    /// exactly while a session is active, so a touch that started in a
    /// dead zone maps no keys.
    pub fn touch_state(&self) -> (t: TouchState)
        ensures
            t.finger_count == (if self@.session_active {
                1u8
            } else {
                0u8
            }),
    {
        if self.session_active {
            TouchState { finger_count: 1 }
        } else {
            TouchState { finger_count: 0 }
        }
    }

    /// Diagnostic snapshot of the tracked position, as
    /// [`TouchTracker::debug_info`] renders it.
    pub fn debug_info(&self) -> (r: String)
        ensures
            (self@.tracker.x is None || self@.tracker.y is None) ==> r@ == "pos: unknown"@,
            (self@.tracker.x is Some && self@.tracker.y is Some) ==> r@ == position_report(
                self@.tracker.x->0 as int,
                self@.tracker.y->0 as int,
                self@.tracker.dims.max_x as int,
                self@.tracker.dims.max_y as int,
                view_excluded(self@.tracker),
            ),
    {
        self.tracker.debug_info()
    }

    /// Consume one fetched batch of touchpad records: every axis sample
    /// first, then the presence records in order. Returns the actions
    /// to emit, in order.
    pub fn process_batch(&mut self, records: &Vec<InputRecord>) -> (actions: Vec<OutputAction>)
        ensures
            final(self)@ == batch_final_state(old(self)@, records@),
            actions@ == batch_actions(old(self)@, records@),
    {
        let ghost s0 = self@;
        let mut i: usize = 0;
        while i < records.len()
            invariant
                i <= records.len(),
                self@.policy == s0.policy,
                self@.touching == s0.touching,
                self@.session_active == s0.session_active,
                self@.tracker == axes_applied(s0.tracker, records@.take(i as int)),
            decreases records.len() - i,
        {
            let ghost prev = self@.tracker;
            match records[i] {
                InputRecord::AbsAxis { axis, value } => {
                    if axis == ABS_X || axis == ABS_MT_POSITION_X {
                        self.tracker.update_x(value);
                    } else if axis == ABS_Y || axis == ABS_MT_POSITION_Y {
                        self.tracker.update_y(value);
                    }
                },
                InputRecord::Key { .. } => {},
            }
            proof {
                assert(records@.take(i + 1).drop_last() =~= records@.take(i as int));
                assert(records@.take(i + 1).last() == records@[i as int]);
                assert(self@.tracker == axis_step(prev, records@[i as int]));
            }
            i = i + 1;
        }
        proof {
            assert(records@.take(records@.len() as int) =~= records@);
        }
        let ghost mid = EngineView { tracker: axes_applied(s0.tracker, records@), ..s0 };
        assert(self@ == mid);
        let mut actions: Vec<OutputAction> = Vec::new();
        let mut j: usize = 0;
        while j < records.len()
            invariant
                j <= records.len(),
                self@ == presence_fold_state(mid, records@.take(j as int)),
                actions@ == presence_fold_actions(mid, records@.take(j as int)),
            decreases records.len() - j,
        {
            let ghost prev = self@;
            let ghost prev_actions = actions@;
            match records[j] {
                InputRecord::Key { code, value } => {
                    if code == BTN_TOUCH {
                        let now = value == 1;
                        if now != self.touching {
                            if now {
                                let excluded = self.tracker.is_in_exclusion_zone();
                                self.touching = true;
                                if excluded {
                                    self.session_active = false;
                                } else {
                                    self.session_active = true;
                                    match self.policy {
                                        MappingPolicy::PerKeyMouse => {},
                                        MappingPolicy::ModifierForward => {
                                            actions.push(OutputAction::ForwardKey(KEY_F24, true));
                                        },
                                    }
                                }
                            } else {
                                if self.session_active {
                                    match self.policy {
                                        MappingPolicy::PerKeyMouse => {},
                                        MappingPolicy::ModifierForward => {
                                            actions.push(OutputAction::ForwardKey(KEY_F24, false));
                                        },
                                    }
                                }
                                self.touching = false;
                                self.session_active = false;
                                self.tracker.reset();
                            }
                        }
                    }
                },
                InputRecord::AbsAxis { .. } => {},
            }
            proof {
                assert(records@.take(j + 1).drop_last() =~= records@.take(j as int));
                assert(records@.take(j + 1).last() == records@[j as int]);
                assert(self@ == presence_step_state(prev, records@[j as int]));
                assert(actions@ =~= prev_actions + presence_step_actions(
                    prev,
                    records@[j as int],
                ));
            }
            j = j + 1;
        }
        proof {
            assert(records@.take(records@.len() as int) =~= records@);
        }
        actions
    }
}

} // verus!
