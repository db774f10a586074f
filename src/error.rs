//! Errors of the header envelope.
use vstd::prelude::*;

verus! {

/// Why a header's envelope was rejected before any field was decoded.
#[derive(Clone, Copy, Debug, PartialEq, Eq)]
pub enum RadiotapError {
    /// The buffer ends inside the four-byte prologue.
    HeaderIncomplete,
    /// The version byte is not zero.
    VersionIsNotZero,
    /// The buffer is shorter than the length the header declares.
    UnderlyingIterEndedEarly,
    /// The declared length is shorter than the prologue.
    SkipLenTooShort,
    /// Any other failure.
    Unknown,
}

/// The description of each error.
pub open spec fn message_of(e: RadiotapError) -> Seq<char> {
    match e {
        RadiotapError::HeaderIncomplete => "Less header data was encountered than was expected"@,
        RadiotapError::VersionIsNotZero => "The version field isn't zero"@,
        RadiotapError::UnderlyingIterEndedEarly => "Less bytes than specified in header"@,
        RadiotapError::SkipLenTooShort => "skip_length field is too short"@,
        RadiotapError::Unknown => "Unknown"@,
    }
}

impl RadiotapError {
    /// A short human-readable description.
    pub fn message(&self) -> (r: &'static str)
        ensures
            r@ == message_of(*self),
    {
        match self {
            RadiotapError::HeaderIncomplete => "Less header data was encountered than was expected",
            RadiotapError::VersionIsNotZero => "The version field isn't zero",
            RadiotapError::UnderlyingIterEndedEarly => "Less bytes than specified in header",
            RadiotapError::SkipLenTooShort => "skip_length field is too short",
            RadiotapError::Unknown => "Unknown",
        }
    }
}

} // verus!
