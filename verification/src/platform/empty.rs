//! A platform without displays, devices or events.

use vstd::prelude::*;
use crate::platform::Handle;
use crate::reactor::ThreadContext;
use crate::window::{WindowBuilder, WindowHandle};
use crate::FromRawHandle;

verus! {

/// An input device of the empty platform. There is none.
#[derive(Debug, PartialEq, Eq, Hash)]
pub struct Device(usize);

impl Device {
    /// The identifier behind the handle.
    pub closed spec fn id(self) -> usize {
        self.0
    }
}

impl crate::platform::Device for Device {
    type Query = Option<Self>;

    fn connected() -> (query: Option<Self>)
        ensures
            query is None,
    {
        None
    }
}

impl Handle for Device {
    type Handle = usize;

    fn handle(&self) -> (handle: usize)
        ensures
            handle == self.id(),
    {
        self.0
    }
}

/// A display of the empty platform. There is none.
#[derive(Debug, PartialEq, Eq, Hash)]
pub struct Display(usize);

impl Display {
    /// The identifier behind the handle.
    pub closed spec fn id(self) -> usize {
        self.0
    }
}

impl crate::platform::Display for Display {
    type Query = Option<Self>;

    fn connected() -> (query: Option<Self>)
        ensures
            query is None,
    {
        None
    }
}

impl Handle for Display {
    type Handle = usize;

    fn handle(&self) -> (handle: usize)
        ensures
            handle == self.id(),
    {
        self.0
    }
}

/// A window of the empty platform. All its windows are one and the same.
#[derive(PartialEq, Eq, Hash)]
pub struct Window(u64);

impl Window {
    /// The identifier behind the handle of the window.
    pub closed spec fn id(self) -> u64 {
        self.0
    }

    /// Builds the window that the builder describes, which always
    /// succeeds.
    pub fn build(builder: WindowBuilder, context: &ThreadContext) -> (built: Result<Self, ()>)
        ensures
            built matches Ok(window) && window.id() == 0,
    {
        Ok(Window(0))
    }
}

impl Handle for Window {
    type Handle = WindowHandle;

    fn handle(&self) -> (handle: WindowHandle)
        ensures
            handle.id() == self.id(),
    {
        WindowHandle::from_raw_handle(self.0)
    }
}

} // verus!
