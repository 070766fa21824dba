//! Why a buffer could not be decoded.
use vstd::prelude::*;

verus! {

/// The ways decoding a buffer can fail.
#[derive(Clone, Copy, Debug, PartialEq, Eq, Structural)]
pub enum DecodeError {
    /// The buffer ended before the header byte could be read.
    UnexpectedEof,
    /// The header names a message type that is not supported.
    InvalidMessageType,
}

impl DecodeError {
    /// The text that goes with each error.
    pub open spec fn spec_description(&self) -> Seq<char> {
        match self {
            DecodeError::UnexpectedEof => "failed to fill whole buffer"@,
            DecodeError::InvalidMessageType => "invalid message type encountered"@,
        }
    }

    /// A short text for people that says what went wrong.
    pub fn description(&self) -> (text: &'static str)
        ensures
            text@ == self.spec_description(),
    {
        match self {
            DecodeError::UnexpectedEof => "failed to fill whole buffer",
            DecodeError::InvalidMessageType => "invalid message type encountered",
        }
    }
}

} // verus!
