//! Key mapper: the pure, stateless decision function from a key event
//! and the current touch state to an output action.
//!
//! While no finger rests on the pad the mapper is inert and every key
//! event passes through unchanged. While touching, a fixed table maps
//! each monitored (key, press/release) pair to a mouse action.

use crate::types::{KeyCode, KeyEvent, MouseButton, OutputAction, TouchState};
use vstd::prelude::*;

verus! {

/// The decision table of the key mapper.
pub open spec fn map_key_event_spec(event: KeyEvent, touch: TouchState) -> OutputAction {
    if touch.finger_count == 0 {
        OutputAction::PassThrough(event)
    } else {
        match event {
            KeyEvent::Press(KeyCode::J) => OutputAction::MouseClick(MouseButton::Left),
            KeyEvent::Release(KeyCode::J) => OutputAction::MouseRelease(MouseButton::Left),
            KeyEvent::Press(KeyCode::K) => OutputAction::MouseClick(MouseButton::Right),
            KeyEvent::Release(KeyCode::K) => OutputAction::MouseRelease(MouseButton::Right),
        }
    }
}

/// Map a key event against the given touch state.
///
/// While touching: J maps to the left mouse button, K to the right, the
/// press/release direction carried over; otherwise the event passes
/// through unchanged.
pub fn map_key_event(event: KeyEvent, touch: &TouchState) -> (r: OutputAction)
    ensures
        r == map_key_event_spec(event, *touch),
{
    if !touch.is_touching() {
        return OutputAction::PassThrough(event);
    }
    match event {
        KeyEvent::Press(KeyCode::J) => OutputAction::MouseClick(MouseButton::Left),
        KeyEvent::Release(KeyCode::J) => OutputAction::MouseRelease(MouseButton::Left),
        KeyEvent::Press(KeyCode::K) => OutputAction::MouseClick(MouseButton::Right),
        KeyEvent::Release(KeyCode::K) => OutputAction::MouseRelease(MouseButton::Right),
    }
}

/// Law: with no finger on the pad, every key event — monitored or not,
/// press or release — maps to a pass-through of that same event.
pub proof fn lemma_passthrough_when_not_touching(event: KeyEvent, touch: TouchState)
    requires
        touch.finger_count == 0,
    ensures
        map_key_event_spec(event, touch) == OutputAction::PassThrough(event),
{
}

/// Law: with any finger on the pad, every monitored (key, direction)
/// pair maps to its table-defined mouse action, independent of the
/// exact finger count.
pub proof fn lemma_mapping_table_when_touching(event: KeyEvent, touch: TouchState)
    requires
        touch.finger_count > 0,
    ensures
        map_key_event_spec(event, touch) == (match event {
            KeyEvent::Press(KeyCode::J) => OutputAction::MouseClick(MouseButton::Left),
            KeyEvent::Release(KeyCode::J) => OutputAction::MouseRelease(MouseButton::Left),
            KeyEvent::Press(KeyCode::K) => OutputAction::MouseClick(MouseButton::Right),
            KeyEvent::Release(KeyCode::K) => OutputAction::MouseRelease(MouseButton::Right),
        }),
{
}

} // verus!
