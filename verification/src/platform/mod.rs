//! What is particular to a platform.

use vstd::prelude::*;
use std::fmt::Debug;
use std::hash::Hash;

pub mod empty;
pub mod windows;

verus! {

/// Something of the platform that a handle identifies.
pub trait Handle {
    type Handle: Copy + Debug + Hash + PartialEq + Sized;

    fn handle(&self) -> Self::Handle;
}

/// The displays of a platform.
pub trait Display: Handle + Sized {
    /// The answer to a query: something that yields displays.
    type Query;

    /// The displays that are connected.
    fn connected() -> Self::Query;
}

/// The input devices of a platform.
pub trait Device: Handle + Sized {
    /// The answer to a query: something that yields devices.
    type Query;

    /// The devices that are connected.
    fn connected() -> Self::Query;
}

} // verus!
