//! The decisions of the binding to Windows.
//!
//! The calls into the operating system are not made here. What they hand to
//! the binding arrives as plain values: the fields of a record of Raw Input,
//! the number of a window message, the position of the cursor.

use vstd::prelude::*;

pub mod input;
pub mod keyboard;
pub mod mouse;
pub mod window;

verus! {

/// The timeout that stands for waiting without end.
pub const INFINITE: u32 = 0xFFFF_FFFF;

/// `num::Zero::zero` for `u16`: the result is 0.
#[verifier::external_body]
fn zero() -> (number: u16)
    ensures
        number == 0,
{
    num::Zero::zero()
}

/// `num::One::one` for `u16`: the result is 1.
#[verifier::external_body]
fn one() -> (number: u16)
    ensures
        number == 1,
{
    num::One::one()
}

/// `num::Zero::is_zero` for `u16`: the result says whether the number is 0.
#[verifier::external_body]
fn is_zero(number: u16) -> (zero: bool)
    ensures
        zero == (number == 0),
{
    num::Zero::is_zero(&number)
}

/// Whether `value` has the flags `flags`.
///
/// A value has flags that are not zero if it has a bit in common with them.
/// It has the flags zero if its lowest bit is clear: where Windows names a
/// flag zero, its opposite is the flag one.
pub open spec fn has_flags(value: u16, flags: u16) -> bool {
    if flags == 0 {
        value & 1 == 0
    } else {
        value & flags != 0
    }
}

/// Tests whether `value` has the flags `flags`.
pub fn has_bit_flags(value: u16, flags: u16) -> (has: bool)
    ensures
        has == has_flags(value, flags),
{
    if is_zero(flags) {
        value & one() == zero()
    } else {
        value & flags != zero()
    }
}

/// The timeout in milliseconds that Windows is given for a time to wait
/// of `milliseconds`: the same number, or `INFINITE` where the number is
/// too large for the timeout.
pub open spec fn timeout_of(milliseconds: u128) -> u32 {
    if milliseconds > u32::MAX {
        INFINITE
    } else {
        milliseconds as u32
    }
}

/// Computes the timeout that Windows is given for a time to wait.
pub fn dword_milliseconds(milliseconds: u128) -> (timeout: u32)
    ensures
        timeout == timeout_of(milliseconds),
{
    if milliseconds > 0xFFFF_FFFF {
        INFINITE
    } else {
        milliseconds as u32
    }
}

} // verus!
