use vstd::prelude::*;
use crate::{FromRawHandle, IntoRawHandle};

verus! {

/// An opaque type that identifies an input device.
///
/// The handle carries the platform's native identifier and nothing else:
/// two handles are equal exactly when their identifiers are.
#[derive(Clone, Copy, Debug, PartialEq, Eq, Structural, Hash)]
pub struct DeviceHandle {
    raw: u64,
}

impl DeviceHandle {
    /// The native identifier behind the handle.
    pub closed spec fn id(self) -> u64 {
        self.raw
    }

    /// Two handles with the same identifier are the same handle.
    pub proof fn lemma_id_determines(a: DeviceHandle, b: DeviceHandle)
        requires
            a.id() == b.id(),
        ensures
            a == b,
    {
    }
}

impl FromRawHandle<u64> for DeviceHandle {
    fn from_raw_handle(handle: u64) -> (device: Self)
        ensures
            device.id() == handle,
    {
        DeviceHandle { raw: handle }
    }
}

impl IntoRawHandle<u64> for DeviceHandle {
    fn into_raw_handle(self) -> (handle: u64)
        ensures
            handle == self.id(),
    {
        self.raw
    }
}

/// What a connected device is used for.
#[derive(Clone, Copy, Debug, PartialEq, Eq, Structural)]
pub enum Usage {
    Keyboard,
    Mouse,
    GameController,
}

} // verus!
