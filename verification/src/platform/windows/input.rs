use vstd::prelude::*;
use crate::device::Usage;

verus! {

pub const RIM_TYPEMOUSE: u32 = 0;

pub const RIM_TYPEKEYBOARD: u32 = 1;

pub const RIM_TYPEHID: u32 = 2;

pub const HID_USAGE_PAGE_GENERIC: u16 = 0x01;

pub const HID_USAGE_GENERIC_JOYSTICK: u16 = 0x04;

pub const HID_USAGE_GENERIC_GAMEPAD: u16 = 0x05;

/// What the binding reads of the description that Raw Input gives of a
/// device.
#[derive(Clone, Copy, Debug, PartialEq, Eq, Structural)]
pub struct DeviceInfo {
    /// The type of the device: mouse, keyboard, or another device.
    pub kind: u32,
    /// The usage page, for a device that is neither mouse nor keyboard.
    pub usage_page: u16,
    /// The usage within the page, for such a device.
    pub usage: u16,
}

/// Conversion from the description of a device, for what the description
/// can tell.
pub trait TryFromDeviceInfo: Sized {
    fn try_from_device_info(info: &DeviceInfo) -> Option<Self>;
}

/// The usage of a device with the given description: a mouse, a keyboard,
/// or, for a gamepad or joystick of the generic usage page, a game
/// controller. Other devices have no usage that is known.
pub open spec fn usage_of(info: DeviceInfo) -> Option<Usage> {
    if info.kind == RIM_TYPEMOUSE {
        Some(Usage::Mouse)
    } else if info.kind == RIM_TYPEKEYBOARD {
        Some(Usage::Keyboard)
    } else if info.kind == RIM_TYPEHID && info.usage_page == HID_USAGE_PAGE_GENERIC && (info.usage
        == HID_USAGE_GENERIC_GAMEPAD || info.usage == HID_USAGE_GENERIC_JOYSTICK) {
        Some(Usage::GameController)
    } else {
        None
    }
}

impl TryFromDeviceInfo for Usage {
    fn try_from_device_info(info: &DeviceInfo) -> (usage: Option<Self>)
        ensures
            usage == usage_of(*info),
    {
        if info.kind == RIM_TYPEMOUSE {
            Some(Usage::Mouse)
        } else if info.kind == RIM_TYPEKEYBOARD {
            Some(Usage::Keyboard)
        } else if info.kind == RIM_TYPEHID {
            if info.usage_page == HID_USAGE_PAGE_GENERIC {
                if info.usage == HID_USAGE_GENERIC_GAMEPAD || info.usage
                    == HID_USAGE_GENERIC_JOYSTICK {
                    Some(Usage::GameController)
                } else {
                    None
                }
            } else {
                None
            }
        } else {
            None
        }
    }
}

/// What the binding reads of the description of the buttons of a device.
#[derive(Clone, Copy, Debug, PartialEq, Eq, Structural)]
pub struct ButtonCapabilities {
    /// Whether the description covers a range of usages.
    pub is_range: bool,
    /// The first usage of the range.
    pub usage_min: u16,
    /// The last usage of the range.
    pub usage_max: u16,
}

/// Counts the buttons that a description covers. Fails for a description
/// that covers no range.
pub fn hid_button_count(capabilities: &ButtonCapabilities) -> (count: Result<u16, ()>)
    requires
        capabilities.is_range ==> capabilities.usage_min <= capabilities.usage_max
            && capabilities.usage_max - capabilities.usage_min < u16::MAX,
    ensures
        count == (if capabilities.is_range {
            Ok::<u16, ()>((capabilities.usage_max - capabilities.usage_min + 1) as u16)
        } else {
            Err::<u16, ()>(())
        }),
{
    if capabilities.is_range {
        Ok((capabilities.usage_max - capabilities.usage_min) + 1)
    } else {
        Err(())
    }
}

} // verus!
