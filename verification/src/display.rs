use vstd::prelude::*;
use arrayvec::ArrayVec;
use arrayvec::CapacityError;

verus! {

/// How many units of UTF-16 the device name of a display can have.
pub const DEVICE_NAME_CAPACITY: usize = 128;

/// `arrayvec::ArrayVec`: a vector that keeps at most `CAP` items in place.
#[verifier::external_type_specification]
#[verifier::external_body]
#[verifier::reject_recursive_types(T)]
pub struct ExArrayVec<T, const CAP: usize>(ArrayVec<T, CAP>);

/// `arrayvec::CapacityError`: the error of an `ArrayVec` that is asked to
/// hold more than it can.
#[verifier::external_type_specification]
#[verifier::external_body]
#[verifier::reject_recursive_types(T)]
pub struct ExCapacityError<T>(CapacityError<T>);

/// The units of UTF-16 that a device name holds, in their order.
pub uninterp spec fn name_units(name: ArrayVec<u16, 128>) -> Seq<u16>;

/// `ArrayVec::try_from` a slice: the vector holds the units of the slice, and
/// the conversion fails exactly if the slice is longer than the capacity.
#[verifier::external_body]
fn name_try_from(units: &[u16]) -> (result: Result<ArrayVec<u16, 128>, CapacityError<()>>)
    ensures
        match result {
            Ok(name) => units@.len() <= 128 && name_units(name) == units@,
            Err(_) => units@.len() > 128,
        },
{
    ArrayVec::try_from(units)
}

/// `ArrayVec::as_slice`: the slice holds the units of the name, in their
/// order.
#[verifier::external_body]
fn name_as_slice(name: &ArrayVec<u16, 128>) -> (units: &[u16])
    ensures
        units@ == name_units(*name),
{
    name.as_slice()
}

/// `ArrayVec::clone`: the copy holds the units of the name, in their order.
#[verifier::external_body]
fn name_clone(name: &ArrayVec<u16, 128>) -> (copy: ArrayVec<u16, 128>)
    ensures
        name_units(copy) == name_units(*name),
{
    name.clone()
}

/// An opaque type that identifies a display, by the name that the platform
/// gives to the display's device.
#[derive(Debug, PartialEq, Eq, Hash)]
pub struct DisplayHandle {
    name: ArrayVec<u16, 128>,
}

impl View for DisplayHandle {
    type V = Seq<u16>;

    closed spec fn view(&self) -> Seq<u16> {
        name_units(self.name)
    }
}

impl Clone for DisplayHandle {
    fn clone(&self) -> (copy: Self)
        ensures
            copy@ == self@,
    {
        DisplayHandle { name: name_clone(&self.name) }
    }
}

impl DisplayHandle {
    /// The handle of the display whose device has the given name. There is
    /// none for a name of more than `DEVICE_NAME_CAPACITY` units.
    pub fn from_raw_device_name(name: &[u16]) -> (handle: Option<Self>)
        ensures
            match handle {
                Some(handle) => name@.len() <= DEVICE_NAME_CAPACITY && handle@ == name@,
                None => name@.len() > DEVICE_NAME_CAPACITY,
            },
    {
        match name_try_from(name) {
            Ok(name) => Some(DisplayHandle { name }),
            Err(_) => None,
        }
    }

    /// The name of the display's device.
    pub fn as_raw_device_name(&self) -> (name: &[u16])
        ensures
            name@ == self@,
    {
        name_as_slice(&self.name)
    }
}

} // verus!
