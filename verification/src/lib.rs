//! Cross-platform display and input abstraction.
//!
//! The crate normalizes window and device events into one portable event
//! model, tracks input state between snapshots, and holds the decisions of the
//! event thread that dispatches events to a reactor.

use vstd::prelude::*;

pub mod device;
pub mod display;
pub mod event;
pub mod event_thread;
pub mod framework;
pub mod platform;
pub mod prelude;
pub mod reactor;
pub mod window;

verus! {

/// Conversion from a platform's native identifier into a handle.
pub trait FromRawHandle<T>: Sized {
    fn from_raw_handle(handle: T) -> Self;
}

/// Conversion from a handle into the platform's native identifier.
pub trait IntoRawHandle<T>: Sized {
    fn into_raw_handle(self) -> T;
}

} // verus!
