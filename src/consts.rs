//! Field-type identifiers and the alignment/size table shared by the walker,
//! the cursor and the codec.
use vstd::prelude::*;

verus! {

pub const TSFT: usize = 0;
pub const FLAGS: usize = 1;
pub const RATE: usize = 2;
pub const CHANNEL: usize = 3;
pub const FHSS: usize = 4;
pub const DBM_ANTSIGNAL: usize = 5;
pub const DBM_ANTNOISE: usize = 6;
pub const LOCK_QUALITY: usize = 7;
pub const TX_ATTENUATION: usize = 8;
pub const DB_TX_ATTENUATION: usize = 9;
pub const DBM_TX_POWER: usize = 10;
pub const ANTENNA: usize = 11;
pub const DB_ANTSIGNAL: usize = 12;
pub const DB_ANTNOISE: usize = 13;
pub const RX_FLAGS: usize = 14;
pub const TX_FLAGS: usize = 15;
pub const RTS_RETRIES: usize = 16;
pub const DATA_RETRIES: usize = 17;
pub const XCHANNEL: usize = 18;
pub const MCS: usize = 19;
pub const AMPDU_STATUS: usize = 20;
pub const VHT: usize = 21;
pub const TIMESTAMP: usize = 22;
pub const HE: usize = 23;
pub const HE_MU: usize = 24;
pub const ZERO_LEN_PSDU: usize = 26;
pub const LSIG: usize = 27;
pub const TLV: usize = 28;
pub const RADIOTAP_NS_NEXT: usize = 29;
pub const VENDOR_NS_NEXT: usize = 30;
pub const EXT_PRESENCE_BITMAP: usize = 31;
pub const EHT_USIG: usize = 33;
pub const EHT: usize = 34;

/// Size sentinel of a field whose length is not fixed: such a field is never decoded.
pub const VARIABLE_LENGTH: usize = usize::MAX;

/// `(alignment, size in bytes)` of a field type. Ids without an entry are `(1, 1)`.
pub open spec fn align_size(id: nat) -> (usize, usize) {
    if id == 0 { (8, 8) }
    else if id == 3 { (2, 4) }
    else if id == 4 || id == 7 || id == 8 || id == 9 || id == 14 || id == 15 { (2, 2) }
    else if id == 18 || id == 20 { (4, 8) }
    else if id == 19 { (1, 3) }
    else if id == 21 || id == 24 { (2, 12) }
    else if id == 22 { (8, 12) }
    else if id == 23 || id == 25 || id == 30 { (2, 6) }
    else if id == 27 { (2, 4) }
    else if id == 28 { (4, VARIABLE_LENGTH) }
    else { (1, 1) }
}

/// The alignments that occur in the table.
pub open spec fn valid_align(a: usize) -> bool {
    a == 1 || a == 2 || a == 4 || a == 8
}

/// Looks up the alignment and size of a field type.
pub fn lookup_align_size(id: usize) -> (r: (usize, usize))
    ensures
        r == align_size(id as nat),
        valid_align(r.0),
        r.1 >= 1,
{
    match id {
        0 => (8, 8),
        3 => (2, 4),
        4 | 7 | 8 | 9 | 14 | 15 => (2, 2),
        18 | 20 => (4, 8),
        19 => (1, 3),
        21 | 24 => (2, 12),
        22 => (8, 12),
        23 | 25 | 30 => (2, 6),
        27 => (2, 4),
        28 => (4, VARIABLE_LENGTH),
        _ => (1, 1),
    }
}

} // verus!
