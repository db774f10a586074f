//! The header envelope: the prologue, the field region and the payload after it.
use vstd::prelude::*;

use crate::bytes::{le_u16, read_u16};
use crate::error::RadiotapError;
use crate::iter::{decode_all, FieldIter, PROLOGUE_LEN};

verus! {

/// The total header length that the prologue declares.
pub open spec fn declared_length(data: Seq<u8>) -> nat {
    le_u16(data[2], data[3]) as nat
}

/// Why the envelope of `data` is rejected, checked in prologue order.
pub open spec fn envelope_error(data: Seq<u8>) -> Option<RadiotapError> {
    if data.len() < 1 {
        Some(RadiotapError::HeaderIncomplete)
    } else if data[0] != 0 {
        Some(RadiotapError::VersionIsNotZero)
    } else if data.len() < 4 {
        Some(RadiotapError::HeaderIncomplete)
    } else if declared_length(data) < 4 {
        Some(RadiotapError::SkipLenTooShort)
    } else if data.len() < declared_length(data) {
        Some(RadiotapError::UnderlyingIterEndedEarly)
    } else {
        None
    }
}

/// The field region of a well-formed header: the bytes after the prologue, up to the declared length.
pub open spec fn field_region_of(data: Seq<u8>) -> Seq<u8> {
    data.subrange(4, declared_length(data) as int)
}

/// A header split into its field region and the payload that follows it.
pub struct RadiotapFrame<'a> {
    field_bytes: &'a [u8],
    pub payload: &'a [u8],
}

impl<'a> RadiotapFrame<'a> {
    pub closed spec fn field_region(&self) -> Seq<u8> {
        self.field_bytes@
    }

    pub closed spec fn payload_view(&self) -> Seq<u8> {
        self.payload@
    }

    /// Splits a whole header; on success also returns the number of bytes read.
    pub fn parse(data: &'a [u8]) -> (r: Result<(RadiotapFrame<'a>, usize), RadiotapError>)
        ensures
            envelope_error(data@) is None <==> r is Ok,
            r matches Err(e) ==> envelope_error(data@) == Some(e),
            r matches Ok((frame, n)) ==> frame.field_region() == field_region_of(data@)
                && frame.payload_view() == data@.subrange(declared_length(data@) as int, data@.len() as int)
                && n == data@.len(),
    {
        if data.len() < 1 {
            return Err(RadiotapError::HeaderIncomplete);
        }
        if data[0] != 0 {
            return Err(RadiotapError::VersionIsNotZero);
        }
        if data.len() < PROLOGUE_LEN {
            return Err(RadiotapError::HeaderIncomplete);
        }
        let length = read_u16(data, 2) as usize;
        if length < PROLOGUE_LEN {
            return Err(RadiotapError::SkipLenTooShort);
        }
        if data.len() < length {
            return Err(RadiotapError::UnderlyingIterEndedEarly);
        }
        let frame = RadiotapFrame { field_bytes: &data[PROLOGUE_LEN..length], payload: &data[length..data.len()] };
        Ok((frame, data.len()))
    }

    /// Starts a walk over the fields of this header.
    pub fn get_field_iter(&'a self) -> (r: FieldIter<'a>)
        ensures
            r.wf(),
            r.remaining() == decode_all(self.field_region()),
    {
        FieldIter::new(self.field_bytes)
    }
}

/// Checks the envelope of a whole header and starts a walk over its fields.
pub fn create_radiotap_iterator<'a>(data: &'a [u8]) -> (r: Result<FieldIter<'a>, RadiotapError>)
    ensures
        envelope_error(data@) is None <==> r is Ok,
        r matches Err(e) ==> envelope_error(data@) == Some(e),
        r matches Ok(it) ==> it.wf() && it.remaining() == decode_all(field_region_of(data@)),
{
    match RadiotapFrame::parse(data) {
        Err(e) => Err(e),
        Ok((frame, _)) => Ok(FieldIter::new(frame.field_bytes)),
    }
}

} // verus!
