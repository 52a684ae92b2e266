use vstd::prelude::*;
use crate::event::{ElementState, InputEvent, ModifierState};

verus! {

/// The flag of a keyboard record that says that the key was released.
pub const RI_KEY_BREAK: u16 = 1;

/// What the binding reads of a keyboard record of Raw Input.
#[derive(Clone, Copy, Debug, PartialEq, Eq, Structural)]
pub struct RawKeyboard {
    /// The scan code of the key.
    pub make_code: u16,
    /// Flags of the record.
    pub flags: u16,
}

/// The state of the key that a keyboard record reports.
pub open spec fn key_state_of(flags: u16) -> ElementState {
    if flags & RI_KEY_BREAK != 0 {
        ElementState::Released
    } else {
        ElementState::Pressed
    }
}

/// The event that a keyboard record is read as: a change of the key with
/// the record's scan code. No key code is given, as the table of keys is not
/// part of this crate.
pub open spec fn event_of(input: RawKeyboard) -> InputEvent {
    InputEvent::KeyboardKeyChanged {
        scancode: input.make_code as u32,
        keycode: None,
        state: key_state_of(input.flags),
        modifier: ModifierState {  },
    }
}

/// Reads a keyboard record as an input event.
pub fn parse_raw_input(input: &RawKeyboard) -> (result: Result<InputEvent, ()>)
    ensures
        result == Ok::<InputEvent, ()>(event_of(*input)),
{
    Ok(
        InputEvent::KeyboardKeyChanged {
            scancode: input.make_code as u32,
            keycode: None,
            state: if input.flags & RI_KEY_BREAK != 0 {
                ElementState::Released
            } else {
                ElementState::Pressed
            },
            modifier: ModifierState {  },
        },
    )
}

} // verus!
