use vstd::prelude::*;
use smallvec::SmallVec;
use crate::event::{
    ElementState, InputEvent, ModifierState, MouseButton, MouseMovement, MouseWheelDelta,
};
use crate::platform::windows::has_bit_flags;
use crate::platform::windows::has_flags;

verus! {

/// The flag of a mouse record that says that its motion is relative. It is
/// zero: the record has it if it lacks the flag for absolute motion.
pub const MOUSE_MOVE_RELATIVE: u16 = 0;

pub const RI_MOUSE_LEFT_BUTTON_DOWN: u16 = 0x0001;

pub const RI_MOUSE_LEFT_BUTTON_UP: u16 = 0x0002;

pub const RI_MOUSE_RIGHT_BUTTON_DOWN: u16 = 0x0004;

pub const RI_MOUSE_RIGHT_BUTTON_UP: u16 = 0x0008;

pub const RI_MOUSE_MIDDLE_BUTTON_DOWN: u16 = 0x0010;

pub const RI_MOUSE_MIDDLE_BUTTON_UP: u16 = 0x0020;

pub const RI_MOUSE_WHEEL: u16 = 0x0400;

/// The wheel data of one notch.
pub const WHEEL_DELTA: i32 = 120;

/// How many events a buffer holds without memory of its own.
pub const EVENT_BUFFER_SIZE: usize = 8;

/// What the binding reads of a mouse record of Raw Input.
#[derive(Clone, Copy, Debug, PartialEq, Eq, Structural)]
pub struct RawMouse {
    /// Flags of the record: whether the motion is relative.
    pub flags: u16,
    /// Flags of the changes of buttons and of the wheel.
    pub button_flags: u16,
    /// The rotation of the wheel, a signed number in sixteen bits.
    pub button_data: u16,
    /// The motion along the first axis.
    pub last_x: i32,
    /// The motion along the second axis.
    pub last_y: i32,
}

/// The events that one mouse record is read as, in a buffer that holds up
/// to `EVENT_BUFFER_SIZE` of them without memory of its own.
///
/// The buffer is a `smallvec::SmallVec`, of which the verifier sees nothing:
/// what it holds is `buffer_events`, and only the three functions below say
/// anything of that.
#[verifier::external_body]
pub struct InputEventBuffer {
    events: SmallVec<[InputEvent; 8]>,
}

/// The events in a buffer, in the order in which they were pushed.
pub uninterp spec fn buffer_events(buffer: InputEventBuffer) -> Seq<InputEvent>;

/// `SmallVec::new`: the new buffer holds no event.
#[verifier::external_body]
fn buffer_new() -> (buffer: InputEventBuffer)
    ensures
        buffer_events(buffer) == Seq::<InputEvent>::empty(),
{
    InputEventBuffer { events: SmallVec::new() }
}

/// `SmallVec::push`: the event is appended after the events that the buffer
/// holds, which stay as they are. A buffer that cannot count one event more
/// is left out, as the push would panic.
#[verifier::external_body]
fn buffer_push(buffer: &mut InputEventBuffer, event: InputEvent)
    requires
        buffer_events(*old(buffer)).len() < usize::MAX,
    ensures
        buffer_events(*final(buffer)) == buffer_events(*old(buffer)).push(event),
{
    buffer.events.push(event)
}

/// `SmallVec::as_slice`: the slice holds the events of the buffer, in their
/// order.
#[verifier::external_body]
fn buffer_as_slice(buffer: &InputEventBuffer) -> (events: &[InputEvent])
    ensures
        events@ == buffer_events(*buffer),
{
    buffer.events.as_slice()
}

impl View for InputEventBuffer {
    type V = Seq<InputEvent>;

    open spec fn view(&self) -> Seq<InputEvent> {
        buffer_events(*self)
    }
}

impl InputEventBuffer {
    /// The events of the buffer.
    pub fn as_slice(&self) -> (events: &[InputEvent])
        ensures
            events@ == self@,
    {
        buffer_as_slice(self)
    }
}

/// The number that sixteen bits stand for when they are read as signed.
pub open spec fn signed_of(data: u16) -> int {
    if data < 0x8000 {
        data as int
    } else {
        data - 0x1_0000
    }
}

/// The whole notches in a rotation of the wheel, rounded towards none.
pub open spec fn notches_of(data: u16) -> int {
    if signed_of(data) >= 0 {
        signed_of(data) / 120
    } else {
        -((-signed_of(data)) / 120)
    }
}

/// The motion that a mouse record reports, together with the position of the
/// cursor, if that is known. A record of a relative motion of no length
/// reports nothing.
pub open spec fn movement_of(
    input: RawMouse,
    cursor: Option<(i32, i32)>,
    modifier: ModifierState,
) -> Option<InputEvent> {
    if has_flags(input.flags, MOUSE_MOVE_RELATIVE) {
        if input.last_x != 0 || input.last_y != 0 {
            Some(
                InputEvent::MouseMoved {
                    movement: MouseMovement {
                        absolute: cursor,
                        relative: Some((input.last_x, input.last_y)),
                    },
                    modifier,
                },
            )
        } else {
            None
        }
    } else {
        Some(
            InputEvent::MouseMoved {
                movement: MouseMovement { absolute: cursor, relative: None },
                modifier,
            },
        )
    }
}

/// The rotation of the wheel that a mouse record reports, if it reports
/// one.
pub open spec fn wheel_of(input: RawMouse, modifier: ModifierState) -> Option<InputEvent> {
    if has_flags(input.button_flags, RI_MOUSE_WHEEL) {
        Some(
            InputEvent::MouseWheelRotated {
                delta: MouseWheelDelta::Rotational(0, notches_of(input.button_data) as i32),
                modifier,
            },
        )
    } else {
        None
    }
}

/// The change of one button, if the flags hold the flag for it.
pub open spec fn button_change_of(
    flags: u16,
    mask: u16,
    button: MouseButton,
    state: ElementState,
    modifier: ModifierState,
) -> Seq<InputEvent> {
    if has_flags(flags, mask) {
        seq![InputEvent::MouseButtonChanged { button, state, modifier }]
    } else {
        Seq::empty()
    }
}

/// The changes of buttons that a mouse record reports: for the left, the
/// right and the middle button in this order, a press before a release.
pub open spec fn button_changes_of(flags: u16, modifier: ModifierState) -> Seq<InputEvent> {
    button_change_of(
        flags,
        RI_MOUSE_LEFT_BUTTON_DOWN,
        MouseButton::Left,
        ElementState::Pressed,
        modifier,
    ) + button_change_of(
        flags,
        RI_MOUSE_LEFT_BUTTON_UP,
        MouseButton::Left,
        ElementState::Released,
        modifier,
    ) + button_change_of(
        flags,
        RI_MOUSE_RIGHT_BUTTON_DOWN,
        MouseButton::Right,
        ElementState::Pressed,
        modifier,
    ) + button_change_of(
        flags,
        RI_MOUSE_RIGHT_BUTTON_UP,
        MouseButton::Right,
        ElementState::Released,
        modifier,
    ) + button_change_of(
        flags,
        RI_MOUSE_MIDDLE_BUTTON_DOWN,
        MouseButton::Center,
        ElementState::Pressed,
        modifier,
    ) + button_change_of(
        flags,
        RI_MOUSE_MIDDLE_BUTTON_UP,
        MouseButton::Center,
        ElementState::Released,
        modifier,
    )
}

/// One event, or none, as a sequence.
pub open spec fn events_from(event: Option<InputEvent>) -> Seq<InputEvent> {
    match event {
        Some(event) => seq![event],
        None => Seq::empty(),
    }
}

/// The events that a mouse record is read as: the motion, the rotation of
/// the wheel, and the changes of buttons.
pub open spec fn events_of(input: RawMouse, cursor: Option<(i32, i32)>) -> Seq<InputEvent> {
    events_from(movement_of(input, cursor, ModifierState {  })) + events_from(
        wheel_of(input, ModifierState {  }),
    ) + button_changes_of(input.button_flags, ModifierState {  })
}

/// Reads a mouse record as input events. `cursor` is the position of the
/// cursor when the record arrives, if the platform could tell it.
pub fn parse_raw_input(input: &RawMouse, cursor: Option<(i32, i32)>) -> (result: Result<
    InputEventBuffer,
    (),
>)
    ensures
        result matches Ok(events) && events@ == events_of(*input, cursor),
{
    let modifier = ModifierState {  };
    let mut events = buffer_new();
    if let Ok(event) = parse_movement(input, cursor, modifier) {
        buffer_push(&mut events, event);
    }
    if let Ok(event) = parse_wheel(input, modifier) {
        buffer_push(&mut events, event);
    }
    let _ = parse_buttons_into(input, modifier, &mut events);
    Ok(events)
}

/// Reads the motion of a mouse record. Fails for a relative motion of no
/// length.
pub fn parse_movement(input: &RawMouse, cursor: Option<(i32, i32)>, modifier: ModifierState) -> (result:
    Result<InputEvent, ()>)
    ensures
        result == match movement_of(*input, cursor, modifier) {
            Some(event) => Ok::<InputEvent, ()>(event),
            None => Err::<InputEvent, ()>(()),
        },
{
    let event = InputEvent::MouseMoved {
        movement: MouseMovement {
            absolute: cursor,
            // The flag for relative motion is typically set. If not, every
            // record reports an absolute motion.
            relative: if has_bit_flags(input.flags, MOUSE_MOVE_RELATIVE) {
                Some((input.last_x, input.last_y))
            } else {
                None
            },
        },
        modifier,
    };
    match event {
        InputEvent::MouseMoved { movement: MouseMovement { relative: Some((x, y)), .. }, .. } => {
            if x != 0 || y != 0 {
                Ok(event)
            } else {
                Err(())
            }
        },
        InputEvent::MouseMoved { movement: MouseMovement { relative: None, .. }, .. } => Ok(event),
        _ => Err(()),
    }
}

/// Reads the rotation of the wheel of a mouse record. Fails if the record
/// reports none.
pub fn parse_wheel(input: &RawMouse, modifier: ModifierState) -> (result: Result<InputEvent, ()>)
    ensures
        result == match wheel_of(*input, modifier) {
            Some(event) => Ok::<InputEvent, ()>(event),
            None => Err::<InputEvent, ()>(()),
        },
{
    if has_bit_flags(input.button_flags, RI_MOUSE_WHEEL) {
        let data = input.button_data;
        let signed: i32 = if data < 0x8000 {
            data as i32
        } else {
            data as i32 - 0x1_0000
        };
        let notches: i32 = if signed >= 0 {
            signed / WHEEL_DELTA
        } else {
            -((-signed) / WHEEL_DELTA)
        };
        Ok(InputEvent::MouseWheelRotated { delta: MouseWheelDelta::Rotational(0, notches), modifier })
    } else {
        Err(())
    }
}

/// Appends the change of a button if the flags hold the flag for it.
fn push_if(
    events: &mut InputEventBuffer,
    flags: u16,
    mask: u16,
    button: MouseButton,
    state: ElementState,
    modifier: ModifierState,
)
    requires
        old(events)@.len() < usize::MAX,
    ensures
        final(events)@ == old(events)@ + button_change_of(flags, mask, button, state, modifier),
{
    if has_bit_flags(flags, mask) {
        buffer_push(events, InputEvent::MouseButtonChanged { button, state, modifier });
    }
    assert(events@ =~= old(events)@ + button_change_of(flags, mask, button, state, modifier));
}

/// Appends the changes of buttons that a mouse record reports.
pub fn parse_buttons_into(
    input: &RawMouse,
    modifier: ModifierState,
    events: &mut InputEventBuffer,
) -> (result: Result<(), ()>)
    requires
        old(events)@.len() <= usize::MAX - 6,
    ensures
        result is Ok,
        final(events)@ == old(events)@ + button_changes_of(input.button_flags, modifier),
{
    let flags = input.button_flags;
    push_if(
        events,
        flags,
        RI_MOUSE_LEFT_BUTTON_DOWN,
        MouseButton::Left,
        ElementState::Pressed,
        modifier,
    );
    push_if(events, flags, RI_MOUSE_LEFT_BUTTON_UP, MouseButton::Left, ElementState::Released, modifier);
    push_if(
        events,
        flags,
        RI_MOUSE_RIGHT_BUTTON_DOWN,
        MouseButton::Right,
        ElementState::Pressed,
        modifier,
    );
    push_if(
        events,
        flags,
        RI_MOUSE_RIGHT_BUTTON_UP,
        MouseButton::Right,
        ElementState::Released,
        modifier,
    );
    push_if(
        events,
        flags,
        RI_MOUSE_MIDDLE_BUTTON_DOWN,
        MouseButton::Center,
        ElementState::Pressed,
        modifier,
    );
    push_if(
        events,
        flags,
        RI_MOUSE_MIDDLE_BUTTON_UP,
        MouseButton::Center,
        ElementState::Released,
        modifier,
    );
    assert(events@ =~= old(events)@ + button_changes_of(input.button_flags, modifier));
    Ok(())
}

} // verus!
