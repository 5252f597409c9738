//! The four brightness channels and the arithmetic of a change.

use vstd::prelude::*;

verus! {

/// The levels of the four LED channels.
///
/// A channel holds any `u32`; the levels are not held against the configured
/// maximum of the light.
#[derive(Clone, Copy, Debug, PartialEq, Eq, Structural)]
pub struct Brightness {
    pub red: u32,
    pub green: u32,
    pub blue: u32,
    pub warmwhite: u32,
}

/// The three ways in which the warm-white channel can be changed.
#[derive(Clone, Copy, Debug, PartialEq, Eq, Structural)]
pub enum BrightnessChangeTypes {
    /// Raise the level by an amount.
    Increase,
    /// Lower the level by an amount.
    Decrease,
    /// Replace the level by an amount.
    SetTo,
}

/// The warm-white level after a change of `level` by `amount`.
///
/// Raising and lowering are arithmetic modulo 2^32: a sum past `u32::MAX`
/// and a difference below zero wrap around. Setting ignores the old level.
pub open spec fn changed_level(change_type: BrightnessChangeTypes, amount: u32, level: u32) -> int {
    match change_type {
        BrightnessChangeTypes::Increase => (level + amount) % 0x1_0000_0000,
        BrightnessChangeTypes::Decrease => (level - amount) % 0x1_0000_0000,
        BrightnessChangeTypes::SetTo => amount as int,
    }
}

impl Brightness {
    /// These channels after a change: warm-white moves as `changed_level`
    /// says, red, green and blue stay.
    pub open spec fn changed(self, change_type: BrightnessChangeTypes, amount: u32) -> Brightness {
        Brightness {
            red: self.red,
            green: self.green,
            blue: self.blue,
            warmwhite: changed_level(change_type, amount, self.warmwhite) as u32,
        }
    }
}

/// A changed level is again a channel value, so `changed` loses nothing when
/// it stores the level in the channel.
pub proof fn lemma_changed_level_in_range(
    change_type: BrightnessChangeTypes,
    amount: u32,
    level: u32,
)
    ensures
        0 <= changed_level(change_type, amount, level) <= u32::MAX,
{
}

/// Whatever the change, red, green and blue keep their levels.
pub proof fn lemma_change_keeps_colours(
    b: Brightness,
    change_type: BrightnessChangeTypes,
    amount: u32,
)
    ensures
        b.changed(change_type, amount).red == b.red,
        b.changed(change_type, amount).green == b.green,
        b.changed(change_type, amount).blue == b.blue,
{
}

/// Setting the level makes warm-white equal to the amount asked for,
/// whatever it was before, and changes no other channel.
pub proof fn lemma_set_assigns(b: Brightness, amount: u32)
    ensures
        b.changed(BrightnessChangeTypes::SetTo, amount) == (Brightness {
            red: b.red,
            green: b.green,
            blue: b.blue,
            warmwhite: amount,
        }),
{
}

/// Raising the level adds exactly the amount when the sum fits in the
/// channel.
pub proof fn lemma_increase_adds(b: Brightness, amount: u32)
    requires
        b.warmwhite + amount <= u32::MAX,
    ensures
        b.changed(BrightnessChangeTypes::Increase, amount).warmwhite == b.warmwhite + amount,
{
}

/// Lowering the level subtracts exactly the amount when the amount is not
/// more than the level.
pub proof fn lemma_decrease_subtracts(b: Brightness, amount: u32)
    requires
        amount <= b.warmwhite,
    ensures
        b.changed(BrightnessChangeTypes::Decrease, amount).warmwhite == b.warmwhite - amount,
{
}

/// Raising the level past `u32::MAX` wraps around: the new level is the sum
/// less 2^32.
pub proof fn lemma_increase_wraps(b: Brightness, amount: u32)
    requires
        b.warmwhite + amount > u32::MAX,
    ensures
        b.changed(BrightnessChangeTypes::Increase, amount).warmwhite == b.warmwhite + amount
            - 0x1_0000_0000,
{
}

/// Lowering the level by more than it holds wraps around: the new level is
/// 2^32 less the shortfall, so a level of 0 lowered by 1 becomes `u32::MAX`.
pub proof fn lemma_decrease_wraps(b: Brightness, amount: u32)
    requires
        amount > b.warmwhite,
    ensures
        b.changed(BrightnessChangeTypes::Decrease, amount).warmwhite == 0x1_0000_0000 - (amount
            - b.warmwhite),
{
}

} // verus!
