use vstd::prelude::*;
use crate::device::{DeviceHandle, Usage};
use crate::window::WindowHandle;

verus! {

/// An event dispatched by an event thread.
///
/// Events are plain values: two events are the same event exactly when their
/// fields are equal.
#[derive(Clone, Copy, Debug, PartialEq, Eq)]
#[allow(inconsistent_fields)]
pub enum Event {
    /// A marker of the event loop's own phases.
    Application { event: ApplicationEvent },
    /// Input from a device. `window` is `None` for input that no window
    /// received.
    Input { device: DeviceHandle, window: Option<WindowHandle>, event: InputEvent },
    /// A change in the life of a window.
    Window { window: WindowHandle, event: WindowEvent },
}

impl Event {
    /// The window against which `into_window_event` compares its target:
    /// the event's own window, the target itself for input that no window
    /// received, and no window at all for an application event.
    pub open spec fn window_for(self, target: WindowHandle) -> Option<WindowHandle> {
        match self {
            Event::Input { window: Some(window), .. } => Some(window),
            Event::Input { window: None, .. } => Some(target),
            Event::Window { window, .. } => Some(window),
            Event::Application { .. } => None,
        }
    }

    /// Whether the event concerns the given window.
    pub open spec fn concerns_window(self, target: WindowHandle) -> bool {
        self.window_for(target) == Some(target)
    }

    /// Whether the event is input from the given device.
    pub open spec fn concerns_device(self, target: DeviceHandle) -> bool {
        self matches Event::Input { device, .. } && device == target
    }

    /// Whether the event can be handed to another thread: window events
    /// stay with the event thread.
    pub open spec fn is_remote(self) -> bool {
        self is Application || self is Input
    }

    /// Narrows the event to the given window.
    ///
    /// Window events and windowed input pass only for their own window;
    /// input that no window received passes for every window; application
    /// events never pass.
    pub fn into_window_event(self, window: WindowHandle) -> (narrowed: Option<Self>)
        ensures
            narrowed == (if self.concerns_window(window) {
                Some(self)
            } else {
                None
            }),
    {
        let target = window;
        let found = match self {
            Event::Input { window, .. } => match window {
                Some(window) => Some(window),
                None => Some(target),
            },
            Event::Window { window, .. } => Some(window),
            _ => None,
        };
        match found {
            Some(found) => if found == target {
                Some(self)
            } else {
                None
            },
            None => None,
        }
    }

    /// Narrows the event to input from the given device.
    pub fn into_device_event(self, device: DeviceHandle) -> (narrowed: Option<Self>)
        ensures
            narrowed == (if self.concerns_device(device) {
                Some(self)
            } else {
                None
            }),
    {
        let target = device;
        match self {
            Event::Input { device, .. } => if target == device {
                Some(self)
            } else {
                None
            },
            _ => None,
        }
    }

    /// Narrows the event to those that may leave the event thread.
    pub fn into_remote_event(self) -> (narrowed: Option<Self>)
        ensures
            narrowed == (if self.is_remote() {
                Some(self)
            } else {
                None
            }),
    {
        match self {
            Event::Application { .. } | Event::Input { .. } => Some(self),
            _ => None,
        }
    }

    /// A window event passes the narrowing to its own window and to no
    /// other.
    pub proof fn lemma_window_event_narrowing(
        window: WindowHandle,
        event: WindowEvent,
        target: WindowHandle,
    )
        ensures
            (Event::Window { window, event }).concerns_window(target) <==> target == window,
    {
    }

    /// Input that no window received passes the narrowing to every window.
    pub proof fn lemma_unwindowed_input_passes(
        device: DeviceHandle,
        event: InputEvent,
        target: WindowHandle,
    )
        ensures
            (Event::Input { device, window: None, event }).concerns_window(target),
    {
    }
}

/// A marker of a phase of the event loop.
#[derive(Clone, Copy, Debug, PartialEq, Eq, Structural)]
pub enum ApplicationEvent {
    /// The platform had no more events while the poll mode was `Ready`.
    QueueExhausted,
    /// The deadline of the poll mode passed before an event arrived.
    TimeoutExpired,
}

/// Input from a device.
#[derive(Clone, Copy, Debug, PartialEq, Eq)]
#[allow(inconsistent_fields)]
pub enum InputEvent {
    Connected { usage: Option<Usage> },
    Disconnected,
    GameControllerButtonChanged { button: GameControllerButton, state: ElementState },
    GameControllerAxisChanged { axis: GameControllerAxis, value: i32 },
    KeyboardKeyChanged {
        scancode: ScanCode,
        keycode: Option<KeyCode>,
        state: ElementState,
        modifier: ModifierState,
    },
    MouseButtonChanged { button: MouseButton, state: ElementState, modifier: ModifierState },
    MouseWheelRotated { delta: MouseWheelDelta, modifier: ModifierState },
    MouseMoved { movement: MouseMovement, modifier: ModifierState },
}

/// A change in the life of a window.
#[derive(Clone, Copy, Debug, PartialEq, Eq, Structural)]
pub enum WindowEvent {
    Closed(WindowCloseState),
    Activated,
    Deactivated,
    Moved(i32, i32),
    Resized(u32, u32),
}

/// How far the closing of a window has come.
#[derive(Clone, Copy, Debug, PartialEq, Eq, Structural)]
pub enum WindowCloseState {
    Requested,
    Committed,
}

/// The state of a button or key.
#[derive(Clone, Copy, Debug, PartialEq, Eq, Structural, Hash)]
pub enum ElementState {
    Pressed,
    Released,
}

pub type ScanCode = u32;

/// A key, independent of its place on the keyboard.
///
/// No table of keys is part of this crate: a key is known by the number that
/// the platform's own table gives it.
#[derive(Clone, Copy, Debug, PartialEq, Eq, Structural, Hash)]
pub enum KeyCode {
    Other(u32),
}

/// The modifier keys held while an input event occurred.
#[derive(Clone, Copy, Debug, PartialEq, Eq, Structural, Hash)]
pub struct ModifierState {}

/// A button of a mouse.
#[derive(Clone, Copy, Debug, PartialEq, Eq, Structural, Hash)]
pub enum MouseButton {
    Left,
    Right,
    Center,
    Other(u8),
}

/// A position within a window, in whole logical units.
pub type WindowPosition = (i32, i32);

/// A motion of the pointer, in whole physical units.
pub type RelativeMotion = (i32, i32);

/// The motion that one mouse event reports.
#[derive(Clone, Copy, Debug, PartialEq, Eq)]
pub struct MouseMovement {
    pub absolute: Option<WindowPosition>,
    pub relative: Option<RelativeMotion>,
}

/// The rotation of a mouse wheel, along both axes.
#[derive(Clone, Copy, Debug, PartialEq, Eq, Structural)]
pub enum MouseWheelDelta {
    /// Whole notches of the wheel.
    Rotational(i32, i32),
    /// Whole logical units of scrolling.
    Positional(i32, i32),
}

pub type GameControllerAxis = u8;

pub type GameControllerButton = u8;

} // verus!
