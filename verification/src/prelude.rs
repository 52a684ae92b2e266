//! The names that most users of the crate need.

pub use crate::event::{
    ApplicationEvent, ElementState, Event, GameControllerAxis, GameControllerButton, InputEvent,
    KeyCode, ModifierState, MouseButton, MouseMovement, MouseWheelDelta, RelativeMotion, ScanCode,
    WindowCloseState, WindowEvent, WindowPosition,
};
pub use crate::reactor::Poll;
pub use crate::reactor::Poll::Ready;
pub use crate::reactor::Poll::Wait;
pub use crate::reactor::Poll::WaitUntil;
pub use crate::reactor::Reaction;
pub use crate::reactor::Reaction::Abort;
pub use crate::reactor::Reaction::Continue;
