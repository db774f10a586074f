//! Field types by the names of their constants.
use vstd::prelude::*;

use crate::consts::{TSFT, FLAGS, RATE, CHANNEL, FHSS, DBM_ANTSIGNAL, DBM_ANTNOISE, LOCK_QUALITY, TX_ATTENUATION, DB_TX_ATTENUATION, DBM_TX_POWER, ANTENNA, DB_ANTSIGNAL, DB_ANTNOISE, RX_FLAGS, TX_FLAGS, RTS_RETRIES, DATA_RETRIES, XCHANNEL, MCS, AMPDU_STATUS, VHT, TIMESTAMP, HE, HE_MU, ZERO_LEN_PSDU, LSIG};

verus! {

/// The field-type id of a constant's name, for the fixed-size standard fields.
pub open spec fn field_id_of_name(name: Seq<char>) -> Option<usize> {
    if name == "TSFT"@ {
        Some(TSFT)
    } else if name == "FLAGS"@ {
        Some(FLAGS)
    } else if name == "RATE"@ {
        Some(RATE)
    } else if name == "CHANNEL"@ {
        Some(CHANNEL)
    } else if name == "FHSS"@ {
        Some(FHSS)
    } else if name == "DBM_ANTSIGNAL"@ {
        Some(DBM_ANTSIGNAL)
    } else if name == "DBM_ANTNOISE"@ {
        Some(DBM_ANTNOISE)
    } else if name == "LOCK_QUALITY"@ {
        Some(LOCK_QUALITY)
    } else if name == "TX_ATTENUATION"@ {
        Some(TX_ATTENUATION)
    } else if name == "DB_TX_ATTENUATION"@ {
        Some(DB_TX_ATTENUATION)
    } else if name == "DBM_TX_POWER"@ {
        Some(DBM_TX_POWER)
    } else if name == "ANTENNA"@ {
        Some(ANTENNA)
    } else if name == "DB_ANTSIGNAL"@ {
        Some(DB_ANTSIGNAL)
    } else if name == "DB_ANTNOISE"@ {
        Some(DB_ANTNOISE)
    } else if name == "RX_FLAGS"@ {
        Some(RX_FLAGS)
    } else if name == "TX_FLAGS"@ {
        Some(TX_FLAGS)
    } else if name == "RTS_RETRIES"@ {
        Some(RTS_RETRIES)
    } else if name == "DATA_RETRIES"@ {
        Some(DATA_RETRIES)
    } else if name == "XCHANNEL"@ {
        Some(XCHANNEL)
    } else if name == "MCS"@ {
        Some(MCS)
    } else if name == "AMPDU_STATUS"@ {
        Some(AMPDU_STATUS)
    } else if name == "VHT"@ {
        Some(VHT)
    } else if name == "TIMESTAMP"@ {
        Some(TIMESTAMP)
    } else if name == "HE"@ {
        Some(HE)
    } else if name == "HE_MU"@ {
        Some(HE_MU)
    } else if name == "ZERO_LEN_PSDU"@ {
        Some(ZERO_LEN_PSDU)
    } else if name == "LSIG"@ {
        Some(LSIG)
    } else {
        None
    }
}

fn str_eq(a: &str, b: &str) -> (r: bool)
    ensures
        r == (a@ == b@),
{
    let n = a.unicode_len();
    if n != b.unicode_len() {
        return false;
    }
    let mut i: usize = 0;
    while i < n
        invariant
            n == a@.len(),
            n == b@.len(),
            i <= n,
            forall|j: int| 0 <= j < i ==> a@[j] == b@[j],
        decreases n - i,
    {
        if a.get_char(i) != b.get_char(i) {
            return false;
        }
        i = i + 1;
    }
    assert(a@ =~= b@);
    true
}

/// Looks up the field-type id named by `string`, such as `"TSFT"` or `"RX_FLAGS"`.
pub fn field_from_string(string: String) -> (r: Option<usize>)
    ensures
        r == field_id_of_name(string@),
{
    let name = string.as_str();
    if str_eq(name, "TSFT") {
        return Some(TSFT);
    }
    if str_eq(name, "FLAGS") {
        return Some(FLAGS);
    }
    if str_eq(name, "RATE") {
        return Some(RATE);
    }
    if str_eq(name, "CHANNEL") {
        return Some(CHANNEL);
    }
    if str_eq(name, "FHSS") {
        return Some(FHSS);
    }
    if str_eq(name, "DBM_ANTSIGNAL") {
        return Some(DBM_ANTSIGNAL);
    }
    if str_eq(name, "DBM_ANTNOISE") {
        return Some(DBM_ANTNOISE);
    }
    if str_eq(name, "LOCK_QUALITY") {
        return Some(LOCK_QUALITY);
    }
    if str_eq(name, "TX_ATTENUATION") {
        return Some(TX_ATTENUATION);
    }
    if str_eq(name, "DB_TX_ATTENUATION") {
        return Some(DB_TX_ATTENUATION);
    }
    if str_eq(name, "DBM_TX_POWER") {
        return Some(DBM_TX_POWER);
    }
    if str_eq(name, "ANTENNA") {
        return Some(ANTENNA);
    }
    if str_eq(name, "DB_ANTSIGNAL") {
        return Some(DB_ANTSIGNAL);
    }
    if str_eq(name, "DB_ANTNOISE") {
        return Some(DB_ANTNOISE);
    }
    if str_eq(name, "RX_FLAGS") {
        return Some(RX_FLAGS);
    }
    if str_eq(name, "TX_FLAGS") {
        return Some(TX_FLAGS);
    }
    if str_eq(name, "RTS_RETRIES") {
        return Some(RTS_RETRIES);
    }
    if str_eq(name, "DATA_RETRIES") {
        return Some(DATA_RETRIES);
    }
    if str_eq(name, "XCHANNEL") {
        return Some(XCHANNEL);
    }
    if str_eq(name, "MCS") {
        return Some(MCS);
    }
    if str_eq(name, "AMPDU_STATUS") {
        return Some(AMPDU_STATUS);
    }
    if str_eq(name, "VHT") {
        return Some(VHT);
    }
    if str_eq(name, "TIMESTAMP") {
        return Some(TIMESTAMP);
    }
    if str_eq(name, "HE") {
        return Some(HE);
    }
    if str_eq(name, "HE_MU") {
        return Some(HE_MU);
    }
    if str_eq(name, "ZERO_LEN_PSDU") {
        return Some(ZERO_LEN_PSDU);
    }
    if str_eq(name, "LSIG") {
        return Some(LSIG);
    }
    None
}

} // verus!
