//! The status record of the light, and the change applied to it.

use vstd::prelude::*;
use crate::brightness::{Brightness, BrightnessChangeTypes};

verus! {

/// The temperature readings of a status record.
#[derive(Clone, Copy, Debug, PartialEq, Eq, Structural)]
pub struct Temps {
    /// The reservoir temperature as the device reported it, held as the bits
    /// of its IEEE 754 single-precision encoding. No rule of the controller
    /// reads it; it is carried through unchanged.
    pub reservoir_bits: u32,
}

/// A snapshot of the light: its temperature readings and its brightness.
#[derive(Clone, Copy, Debug, PartialEq, Eq, Structural)]
pub struct StatusResponse {
    pub temps: Temps,
    pub brightness: Brightness,
}

/// Applies a change to the warm-white channel of a status record.
///
/// The brightness of the returned record is what the caller posts to the
/// light. Raising adds `amount` and lowering subtracts it, both modulo 2^32;
/// setting assigns `amount`. The other channels and the temperature readings
/// are returned as they came.
pub fn brightness_change(
    change_type: BrightnessChangeTypes,
    amount: u32,
    current_status: StatusResponse,
) -> (status: StatusResponse)
    ensures
        status.temps == current_status.temps,
        status.brightness == current_status.brightness.changed(change_type, amount),
{
    let mut status = current_status;
    match change_type {
        BrightnessChangeTypes::Increase => {
            status.brightness.warmwhite = status.brightness.warmwhite.wrapping_add(amount);
        },
        BrightnessChangeTypes::Decrease => {
            status.brightness.warmwhite = status.brightness.warmwhite.wrapping_sub(amount);
        },
        BrightnessChangeTypes::SetTo => {
            status.brightness.warmwhite = amount;
        },
    }
    status
}

} // verus!
