//! Plain value types shared by the mapper, the tracker and the engine.

use vstd::prelude::*;
use vstd::string::StringExecFns;

verus! {

/// Coarse touch presence: how many fingers currently rest on the pad.
/// `0` means no touch at all.
#[derive(Debug, Clone, Copy, PartialEq, Eq, Structural)]
pub struct TouchState {
    pub finger_count: u8,
}

impl TouchState {
    /// True exactly when at least one finger rests on the pad.
    pub fn is_touching(&self) -> (r: bool)
        ensures
            r == (self.finger_count > 0),
    {
        self.finger_count > 0
    }
}

impl Default for TouchState {
    /// The default state is "not touching".
    fn default() -> (r: Self)
        ensures
            r.finger_count == 0,
    {
        TouchState { finger_count: 0 }
    }
}

/// Logical identity of a monitored, remappable key.
#[derive(Debug, Clone, Copy, PartialEq, Eq, Hash, Structural)]
pub enum KeyCode {
    J,
    K,
}

/// A press or release of a monitored key, as seen by the key mapper.
/// Repeat events are filtered out before this type is built.
#[derive(Debug, Clone, Copy, PartialEq, Eq, Structural)]
pub enum KeyEvent {
    Press(KeyCode),
    Release(KeyCode),
}

/// A button of the synthesized virtual mouse.
#[derive(Debug, Clone, Copy, PartialEq, Eq, Structural)]
pub enum MouseButton {
    Left,
    Right,
}

/// The effect the engine asks the output sink to apply: exactly one
/// variant per decision, never a combined action.
#[derive(Debug, Clone, Copy, PartialEq, Eq, Structural)]
pub enum OutputAction {
    /// Press the given virtual mouse button.
    MouseClick(MouseButton),
    /// Release the given virtual mouse button.
    MouseRelease(MouseButton),
    /// Press (`true`) or release (`false`) the key with the given raw
    /// code on the virtual keyboard; used for the modifier-forwarding
    /// mapping policy.
    ForwardKey(u16, bool),
    /// Let the original key event flow to the keyboard output unchanged.
    PassThrough(KeyEvent),
}

/// Which kind of input device a discovery routine looked for.
#[derive(Debug, Clone, Copy, PartialEq, Eq, Structural)]
pub enum DeviceType {
    Touchpad,
    Keyboard,
}

/// Why a device discovery pass found nothing usable. Discovery itself
/// runs outside this crate; the error values flow back through it.
#[derive(Debug)]
pub enum FindDeviceError {
    CannotReadInputDir,
    NotFound(String),
}

impl FindDeviceError {
    /// The operator-facing description of this error.
    pub open spec fn message_spec(&self) -> Seq<char> {
        match self {
            FindDeviceError::CannotReadInputDir => "Cannot read /dev/input directory"@,
            FindDeviceError::NotFound(name) => "Device '"@ + name@ + "' not found"@,
        }
    }

    /// Render the description as an owned string.
    pub fn message(&self) -> (r: String)
        ensures
            r@ == self.message_spec(),
    {
        match self {
            FindDeviceError::CannotReadInputDir => "Cannot read /dev/input directory".to_owned(),
            FindDeviceError::NotFound(name) => "Device '".to_owned().concat(name.as_str()).concat(
                "' not found",
            ),
        }
    }
}

} // verus!
