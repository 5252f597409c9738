//! The commands of the command line, and the change each one asks for.

use vstd::prelude::*;
use crate::brightness::BrightnessChangeTypes;
use crate::error::Error;

verus! {

/// A command as the command line hands it over.
#[derive(Clone, Copy, Debug, PartialEq, Eq)]
pub enum Commands {
    /// Increase brightness, by `amount` where one is given.
    Up { amount: Option<u32> },
    /// Decrease brightness, by `amount` where one is given.
    Down { amount: Option<u32> },
    /// Set brightness.
    SetTo { brightness: u32 },
}

impl Commands {
    /// True of `Up` and `Down` given without an amount: they ask for preset
    /// dimming.
    pub open spec fn wants_preset(self) -> bool {
        match self {
            Commands::Up { amount } => amount is None,
            Commands::Down { amount } => amount is None,
            Commands::SetTo { .. } => false,
        }
    }

    /// The change a command asks for, its kind and its amount, or the reason
    /// why there is none: preset dimming is not implemented.
    pub open spec fn requested(self) -> Result<(BrightnessChangeTypes, u32), Error> {
        match self {
            Commands::Up { amount: Some(amount) } => Ok((BrightnessChangeTypes::Increase, amount)),
            Commands::Down { amount: Some(amount) } => Ok(
                (BrightnessChangeTypes::Decrease, amount),
            ),
            Commands::SetTo { brightness } => Ok((BrightnessChangeTypes::SetTo, brightness)),
            _ => Err(Error::NotImplemented),
        }
    }

    /// Works out the change to apply, before anything is asked of the light.
    ///
    /// Fails with `Error::NotImplemented` exactly on the commands that want
    /// preset dimming.
    pub fn change(&self) -> (change: Result<(BrightnessChangeTypes, u32), Error>)
        ensures
            change == self.requested(),
            change is Err <==> self.wants_preset(),
            change is Err ==> change == Err::<(BrightnessChangeTypes, u32), Error>(
                Error::NotImplemented,
            ),
    {
        match self {
            Commands::Up { amount } => match amount {
                Some(amount) => Ok((BrightnessChangeTypes::Increase, *amount)),
                None => Err(Error::NotImplemented),
            },
            Commands::Down { amount } => match amount {
                Some(amount) => Ok((BrightnessChangeTypes::Decrease, *amount)),
                None => Err(Error::NotImplemented),
            },
            Commands::SetTo { brightness } => Ok((BrightnessChangeTypes::SetTo, *brightness)),
        }
    }
}

} // verus!
