//! The ways in which a run of the controller can fail.

use vstd::prelude::*;

verus! {

/// Why a run was given up. No failure is recovered from: the caller reports
/// the message and ends the run.
#[derive(Clone, Copy, Debug, PartialEq, Eq, Structural)]
pub enum Error {
    /// The config file could not be set up or loaded.
    Io,
    /// A request to the light could not be sent or was not answered.
    Network,
    /// The light answered, but not with a status record.
    Decode,
    /// The command asks for preset dimming, which does not exist yet.
    NotImplemented,
}

impl Error {
    /// The failure that a request to the light ends in when it does not
    /// succeed: `Decode` where the answer arrived and could not be decoded,
    /// `Network` for every other way a request can fail.
    pub fn for_request(decode_failed: bool) -> (error: Error)
        ensures
            decode_failed ==> error == Error::Decode,
            !decode_failed ==> error == Error::Network,
    {
        if decode_failed {
            Error::Decode
        } else {
            Error::Network
        }
    }

    /// The text of `message`.
    pub open spec fn message_text(self) -> Seq<char> {
        match self {
            Error::Io => "could not set up or load the config file"@,
            Error::Network => "could not reach the light"@,
            Error::Decode => "could not decode the status of the light"@,
            Error::NotImplemented => "not yet implemented: preset dimming"@,
        }
    }

    /// A line for the user that says what went wrong.
    pub fn message(&self) -> (text: &'static str)
        ensures
            text@ == self.message_text(),
    {
        match self {
            Error::Io => "could not set up or load the config file",
            Error::Network => "could not reach the light",
            Error::Decode => "could not decode the status of the light",
            Error::NotImplemented => "not yet implemented: preset dimming",
        }
    }
}

} // verus!
