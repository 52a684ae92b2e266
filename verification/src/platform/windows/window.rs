use vstd::prelude::*;
use crate::device::{DeviceHandle, Usage};
use crate::event::{Event, InputEvent, WindowCloseState, WindowEvent};
use crate::event_thread::Registration;
use crate::platform::windows::input::{usage_of, DeviceInfo, TryFromDeviceInfo};
use crate::platform::windows::keyboard;
use crate::platform::windows::keyboard::RawKeyboard;
use crate::platform::windows::mouse;
use crate::platform::windows::mouse::RawMouse;
use crate::reactor::Reactor;
use crate::window::WindowHandle;

verus! {

pub const WM_DESTROY: u32 = 0x0002;

pub const WM_CLOSE: u32 = 0x0010;

pub const WM_INPUT_DEVICE_CHANGE: u32 = 0x00FE;

pub const WM_INPUT: u32 = 0x00FF;

pub const GIDC_ARRIVAL: u64 = 1;

/// The kinds of message between which the window procedure tells.
#[derive(Clone, Copy, Debug, PartialEq, Eq, Structural)]
pub enum MessageKind {
    /// The user asks for the window to be closed.
    Close,
    /// The window is being destroyed.
    Destroy,
    /// A record of Raw Input waits to be read.
    Input,
    /// A device has arrived.
    DeviceArrival,
    /// A device has left.
    DeviceRemoval,
    /// The window was dropped by its owner and is to be destroyed.
    Drop,
    /// Any other message.
    Other,
}

/// The kind of the message with the given number and first parameter, where
/// `drop_message` is the number that the binding has registered for
/// dropped windows. Of the first parameter the lower 32 bits count.
pub open spec fn kind_of(message: u32, wparam: u64, drop_message: u32) -> MessageKind {
    if message == WM_CLOSE {
        MessageKind::Close
    } else if message == WM_DESTROY {
        MessageKind::Destroy
    } else if message == WM_INPUT {
        MessageKind::Input
    } else if message == WM_INPUT_DEVICE_CHANGE {
        if wparam & 0xFFFF_FFFF == GIDC_ARRIVAL {
            MessageKind::DeviceArrival
        } else {
            MessageKind::DeviceRemoval
        }
    } else if message == drop_message {
        MessageKind::Drop
    } else {
        MessageKind::Other
    }
}

/// Tells the kind of a message.
pub fn classify(message: u32, wparam: u64, drop_message: u32) -> (kind: MessageKind)
    ensures
        kind == kind_of(message, wparam, drop_message),
{
    if message == WM_CLOSE {
        MessageKind::Close
    } else if message == WM_DESTROY {
        MessageKind::Destroy
    } else if message == WM_INPUT {
        MessageKind::Input
    } else if message == WM_INPUT_DEVICE_CHANGE {
        if wparam & 0xFFFF_FFFF == GIDC_ARRIVAL {
            MessageKind::DeviceArrival
        } else {
            MessageKind::DeviceRemoval
        }
    } else if message == drop_message {
        MessageKind::Drop
    } else {
        MessageKind::Other
    }
}

/// A record of Raw Input, as far as the binding has read it.
#[derive(Clone, Copy, Debug, PartialEq, Eq)]
pub enum RawRecord {
    /// A record of a keyboard.
    Keyboard(RawKeyboard),
    /// A record of a mouse, with the position of the cursor when the record
    /// arrived, if the platform could tell it.
    Mouse { record: RawMouse, cursor: Option<(i32, i32)> },
    /// A record of another device.
    Hid,
}

/// A message to a window, with what the binding has read for it.
#[derive(Clone, Copy, Debug, PartialEq, Eq)]
pub enum WindowMessage {
    /// The user asks for the window to be closed.
    Close,
    /// The window is being destroyed.
    Destroy,
    /// A record of Raw Input from a device.
    Input { device: DeviceHandle, record: RawRecord },
    /// A record of Raw Input that could not be read.
    InputUnread,
    /// A device has arrived; `info` is its description, if it could be
    /// read.
    DeviceArrived { device: DeviceHandle, info: Option<DeviceInfo> },
    /// A device has left.
    DeviceRemoved { device: DeviceHandle },
    /// The window was dropped by its owner.
    Drop,
    /// Any other message.
    Other,
}

/// What the binding does with a message once the event thread has had its
/// events.
#[derive(Clone, Copy, Debug, PartialEq, Eq, Structural)]
pub enum Disposal {
    /// The message is done with: this is its result, and the platform's own
    /// handling is left out.
    Handled(i64),
    /// The platform handles the message as it would by itself.
    Forward,
    /// The window is destroyed, and the platform handles the message as it
    /// would by itself.
    DestroyAndForward,
}

/// The input events of a device as events of the event thread, for input
/// that no window received.
pub open spec fn unwindowed(device: DeviceHandle, events: Seq<InputEvent>) -> Seq<Event> {
    events.map_values(|event: InputEvent| Event::Input { device, window: None, event })
}

/// The event that the reactor receives at once for a message, if it
/// receives one.
pub open spec fn reacted_of(window: WindowHandle, message: WindowMessage) -> Option<Event> {
    match message {
        WindowMessage::Close => Some(
            Event::Window { window, event: WindowEvent::Closed(WindowCloseState::Requested) },
        ),
        WindowMessage::Destroy => Some(
            Event::Window { window, event: WindowEvent::Closed(WindowCloseState::Committed) },
        ),
        WindowMessage::Input { device, record: RawRecord::Keyboard(record) } => Some(
            Event::Input { device, window: None, event: keyboard::event_of(record) },
        ),
        WindowMessage::DeviceArrived { device, info } => Some(
            Event::Input {
                device,
                window: Some(window),
                event: InputEvent::Connected {
                    usage: match info {
                        Some(info) => usage_of(info),
                        None => None,
                    },
                },
            },
        ),
        WindowMessage::DeviceRemoved { device } => Some(
            Event::Input { device, window: Some(window), event: InputEvent::Disconnected },
        ),
        _ => None,
    }
}

/// The events that are queued for a message: those of a record of a mouse.
pub open spec fn enqueued_of(message: WindowMessage) -> Seq<Event> {
    match message {
        WindowMessage::Input { device, record: RawRecord::Mouse { record, cursor } } => unwindowed(
            device,
            mouse::events_of(record, cursor),
        ),
        _ => Seq::empty(),
    }
}

/// What the binding does with a message. A request to close is done with,
/// so that the window stays until its owner drops it; a dropped window is
/// destroyed.
pub open spec fn disposal_of(message: WindowMessage) -> Disposal {
    match message {
        WindowMessage::Close => Disposal::Handled(0),
        WindowMessage::Drop => Disposal::DestroyAndForward,
        _ => Disposal::Forward,
    }
}

/// The input events of a buffer as events of the event thread.
fn unwindowed_events(device: DeviceHandle, events: &[InputEvent]) -> (wrapped: Vec<Event>)
    ensures
        wrapped@ == unwindowed(device, events@),
{
    let mut wrapped: Vec<Event> = Vec::new();
    let mut i: usize = 0;
    while i < events.len()
        invariant
            0 <= i <= events@.len(),
            wrapped@ == unwindowed(device, events@.subrange(0, i as int)),
        decreases events@.len() - i,
    {
        wrapped.push(Event::Input { device, window: None, event: events[i] });
        i = i + 1;
        assert(wrapped@ =~= unwindowed(device, events@.subrange(0, i as int)));
    }
    assert(events@.subrange(0, i as int) =~= events@);
    wrapped
}

/// The procedure of a window: takes a message to the event thread that is
/// registered and says what the binding does with the message.
///
/// Events of the window itself, of a keyboard, and of the arrival and
/// leaving of devices reach the reactor at once. The events of a mouse
/// record are queued, in their order. Where no event thread is registered,
/// the events are dropped.
pub fn procedure<R: Reactor>(
    registration: &mut Registration<R>,
    window: WindowHandle,
    message: WindowMessage,
) -> (disposal: Disposal)
    ensures
        disposal == disposal_of(message),
        match old(registration).registered() {
            Some(before) => {
                &&& final(registration).registered() matches Some(after)
                &&& after.delivered() == before.delivered() + (match reacted_of(window, message) {
                    Some(event) => seq![event],
                    None => Seq::empty(),
                })
                &&& after.queued() == before.queued() + enqueued_of(message)
                &&& after.state() == before.state() || after.state() is Abort
                &&& reacted_of(window, message) is None ==> after.state() == before.state()
            },
            None => final(registration).registered() is None,
        },
{
    let ghost before = registration.registered();
    match message {
        WindowMessage::Close => {
            let _ = registration.react(
                Event::Window { window, event: WindowEvent::Closed(WindowCloseState::Requested) },
            );
            proof {
                if let Some(thread) = before {
                    assert(thread.queued() + Seq::<Event>::empty() =~= thread.queued());
                }
            }
            // The window is not destroyed yet.
            return Disposal::Handled(0);
        },
        WindowMessage::Destroy => {
            let _ = registration.react(
                Event::Window { window, event: WindowEvent::Closed(WindowCloseState::Committed) },
            );
        },
        WindowMessage::Input { device, record } => {
            match record {
                RawRecord::Keyboard(record) => {
                    if let Ok(event) = keyboard::parse_raw_input(&record) {
                        let _ = registration.react(Event::Input { device, window: None, event });
                    }
                },
                RawRecord::Mouse { record, cursor } => {
                    if let Ok(events) = mouse::parse_raw_input(&record, cursor) {
                        let _ = registration.enqueue(unwindowed_events(device, events.as_slice()));
                    }
                },
                RawRecord::Hid => {},
            }
        },
        WindowMessage::DeviceArrived { device, info } => {
            let usage = match info {
                Some(info) => Usage::try_from_device_info(&info),
                None => None,
            };
            let _ = registration.react(
                Event::Input {
                    device,
                    window: Some(window),
                    event: InputEvent::Connected { usage },
                },
            );
        },
        WindowMessage::DeviceRemoved { device } => {
            let _ = registration.react(
                Event::Input { device, window: Some(window), event: InputEvent::Disconnected },
            );
        },
        WindowMessage::Drop => {
            proof {
                if let Some(thread) = before {
                    assert(thread.queued() + Seq::<Event>::empty() =~= thread.queued());
                    assert(thread.delivered() + Seq::<Event>::empty() =~= thread.delivered());
                }
            }
            return Disposal::DestroyAndForward;
        },
        _ => {},
    }
    proof {
        if let Some(thread) = before {
            assert(thread.queued() + Seq::<Event>::empty() =~= thread.queued());
            assert(thread.delivered() + Seq::<Event>::empty() =~= thread.delivered());
            if let Some(event) = reacted_of(window, message) {
                assert(thread.delivered().push(event) =~= thread.delivered() + seq![event]);
            }
        }
    }
    Disposal::Forward
}

} // verus!
