//! Decoded field values, and the codec between them and their raw byte windows.
use vstd::prelude::*;

use crate::bytes::{
    le_u16, le_u64_at, lemma_u16_round_trip, lemma_u64_round_trip, read_u16, read_u64,
    u16_le_bytes, u64_le_bytes,
};

verus! {

broadcast use vstd::array::group_array_axioms;

/// The Flags field: CFP, short preamble, WEP, fragmentation, FCS and padding bits.
#[derive(Clone, Copy, Debug, PartialEq, Eq, Hash)]
pub struct RadiotapFlags {
    pub bits: u8,
}

/// The flags of the Channel field.
#[derive(Clone, Copy, Debug, PartialEq, Eq, Hash)]
pub struct ChannelFlags {
    pub bits: u16,
}

/// The RX flags field.
#[derive(Clone, Copy, Debug, PartialEq, Eq, Hash)]
pub struct RxFlags {
    pub bits: u16,
}

/// The TX flags field.
#[derive(Clone, Copy, Debug, PartialEq, Eq, Hash)]
pub struct TxFlags {
    pub bits: u16,
}

impl RadiotapFlags {
    pub fn from_bits(bits: u8) -> (r: Self)
        ensures
            r.bits == bits,
    {
        RadiotapFlags { bits }
    }

    pub fn into_bits(self) -> (r: u8)
        ensures
            r == self.bits,
    {
        self.bits
    }

    pub fn during_cfp(&self) -> (r: bool)
        ensures
            r == ((self.bits >> 0u8) & 1u8 == 1u8),
    {
        (self.bits >> 0u8) & 1u8 == 1u8
    }

    pub fn short_preamble(&self) -> (r: bool)
        ensures
            r == ((self.bits >> 1u8) & 1u8 == 1u8),
    {
        (self.bits >> 1u8) & 1u8 == 1u8
    }

    pub fn wep(&self) -> (r: bool)
        ensures
            r == ((self.bits >> 2u8) & 1u8 == 1u8),
    {
        (self.bits >> 2u8) & 1u8 == 1u8
    }

    pub fn fragmented(&self) -> (r: bool)
        ensures
            r == ((self.bits >> 3u8) & 1u8 == 1u8),
    {
        (self.bits >> 3u8) & 1u8 == 1u8
    }

    pub fn includes_fcs(&self) -> (r: bool)
        ensures
            r == ((self.bits >> 4u8) & 1u8 == 1u8),
    {
        (self.bits >> 4u8) & 1u8 == 1u8
    }

    pub fn has_padding(&self) -> (r: bool)
        ensures
            r == ((self.bits >> 5u8) & 1u8 == 1u8),
    {
        (self.bits >> 5u8) & 1u8 == 1u8
    }

    pub fn bad_fcs(&self) -> (r: bool)
        ensures
            r == ((self.bits >> 6u8) & 1u8 == 1u8),
    {
        (self.bits >> 6u8) & 1u8 == 1u8
    }
}

impl ChannelFlags {
    pub fn from_bits(bits: u16) -> (r: Self)
        ensures
            r.bits == bits,
    {
        ChannelFlags { bits }
    }

    pub fn into_bits(self) -> (r: u16)
        ensures
            r == self.bits,
    {
        self.bits
    }

    pub fn turbo_channel(&self) -> (r: bool)
        ensures
            r == ((self.bits >> 4u16) & 1u16 == 1u16),
    {
        (self.bits >> 4u16) & 1u16 == 1u16
    }

    pub fn cck_channel(&self) -> (r: bool)
        ensures
            r == ((self.bits >> 5u16) & 1u16 == 1u16),
    {
        (self.bits >> 5u16) & 1u16 == 1u16
    }

    pub fn ofdm_channel(&self) -> (r: bool)
        ensures
            r == ((self.bits >> 6u16) & 1u16 == 1u16),
    {
        (self.bits >> 6u16) & 1u16 == 1u16
    }

    pub fn two_ghz_channel(&self) -> (r: bool)
        ensures
            r == ((self.bits >> 7u16) & 1u16 == 1u16),
    {
        (self.bits >> 7u16) & 1u16 == 1u16
    }

    pub fn five_ghz_channel(&self) -> (r: bool)
        ensures
            r == ((self.bits >> 8u16) & 1u16 == 1u16),
    {
        (self.bits >> 8u16) & 1u16 == 1u16
    }

    pub fn passive_scan_only(&self) -> (r: bool)
        ensures
            r == ((self.bits >> 9u16) & 1u16 == 1u16),
    {
        (self.bits >> 9u16) & 1u16 == 1u16
    }

    pub fn dyn_cck_ofdm_channel(&self) -> (r: bool)
        ensures
            r == ((self.bits >> 10u16) & 1u16 == 1u16),
    {
        (self.bits >> 10u16) & 1u16 == 1u16
    }

    pub fn gfsk_channel(&self) -> (r: bool)
        ensures
            r == ((self.bits >> 11u16) & 1u16 == 1u16),
    {
        (self.bits >> 11u16) & 1u16 == 1u16
    }
}

impl RxFlags {
    pub fn from_bits(bits: u16) -> (r: Self)
        ensures
            r.bits == bits,
    {
        RxFlags { bits }
    }

    pub fn into_bits(self) -> (r: u16)
        ensures
            r == self.bits,
    {
        self.bits
    }

    pub fn bad_plcp(&self) -> (r: bool)
        ensures
            r == ((self.bits >> 2u16) & 1u16 == 1u16),
    {
        (self.bits >> 2u16) & 1u16 == 1u16
    }
}

impl TxFlags {
    pub fn from_bits(bits: u16) -> (r: Self)
        ensures
            r.bits == bits,
    {
        TxFlags { bits }
    }

    pub fn into_bits(self) -> (r: u16)
        ensures
            r == self.bits,
    {
        self.bits
    }

    pub fn failed_excessive_retries(&self) -> (r: bool)
        ensures
            r == ((self.bits >> 0u16) & 1u16 == 1u16),
    {
        (self.bits >> 0u16) & 1u16 == 1u16
    }

    pub fn cts_to_self_protection(&self) -> (r: bool)
        ensures
            r == ((self.bits >> 1u16) & 1u16 == 1u16),
    {
        (self.bits >> 1u16) & 1u16 == 1u16
    }

    pub fn rts_cts_handshake(&self) -> (r: bool)
        ensures
            r == ((self.bits >> 2u16) & 1u16 == 1u16),
    {
        (self.bits >> 2u16) & 1u16 == 1u16
    }

    pub fn no_ack(&self) -> (r: bool)
        ensures
            r == ((self.bits >> 3u16) & 1u16 == 1u16),
    {
        (self.bits >> 3u16) & 1u16 == 1u16
    }

    pub fn pre_conf_seq_no(&self) -> (r: bool)
        ensures
            r == ((self.bits >> 4u16) & 1u16 == 1u16),
    {
        (self.bits >> 4u16) & 1u16 == 1u16
    }

    pub fn dont_reorder(&self) -> (r: bool)
        ensures
            r == ((self.bits >> 5u16) & 1u16 == 1u16),
    {
        (self.bits >> 5u16) & 1u16 == 1u16
    }
}

/// The descriptor that opens a vendor namespace: the vendor's OUI, its
/// sub-namespace and the number of vendor bytes that follow the descriptor.
#[derive(Clone, Copy, Debug, PartialEq, Eq, Hash)]
pub struct VendorNamespace {
    pub oui: [u8; 3],
    pub sub_ns: u8,
    pub skip_length: u16,
}

impl VendorNamespace {
    /// Reads the six bytes of a vendor-namespace descriptor.
    pub fn from_bytes(data: &[u8; 6]) -> (r: VendorNamespace)
        ensures
            r.oui@ == data@.subrange(0, 3),
            r.sub_ns == data@[3],
            r.skip_length == le_u16(data@[4], data@[5]),
    {
        let oui = [data[0], data[1], data[2]];
        assert(oui@ =~= data@.subrange(0, 3));
        VendorNamespace { oui, sub_ns: data[3], skip_length: (data[4] as u16) | ((data[5] as u16) << 8u16) }
    }
}

/// One decoded Radiotap field. Values are kept in their on-wire units.
#[allow(inconsistent_fields)]
#[derive(Clone, Copy, Debug, PartialEq, Eq, Hash)]
pub enum RadiotapField {
    /// Unit: microseconds.
    TSFT { mac_time: u64 },
    Flags { flags: RadiotapFlags },
    /// Unit: 500 kbps.
    Rate { rate: u8 },
    /// Frequency in MHz.
    Channel { frequency: u16, flags: ChannelFlags },
    FHSS { hop_set: u8, hop_pattern: u8 },
    /// Unit: dBm.
    AntennaSignal { signal: i8 },
    /// Unit: dBm.
    AntennaNoise { noise: i8 },
    LockQuality { quality: u16 },
    TxAttenuation { attenuation: u16 },
    /// Unit: dB.
    DBTxAttenuation { attenuation: u16 },
    /// Unit: dBm.
    TxPower { power: i8 },
    Antenna { index: u8 },
    /// Unit: dB.
    DBAntennaSignal { signal: u8 },
    /// Unit: dB.
    DBAntennaNoise { noise: u8 },
    RxFlags { flags: RxFlags },
    TxFlags { flags: TxFlags },
    RtsRetries { retries: u8 },
    DataRetries { retries: u8 },
    ExtendedChannel {},
    VendorNamespace { oui: [u8; 3], sub_ns: u8, skip_length: u16 },
}

/// The field-type id under which a value is signalled in a presence word.
pub open spec fn field_id(f: RadiotapField) -> nat {
    match f {
        RadiotapField::TSFT { .. } => 0,
        RadiotapField::Flags { .. } => 1,
        RadiotapField::Rate { .. } => 2,
        RadiotapField::Channel { .. } => 3,
        RadiotapField::FHSS { .. } => 4,
        RadiotapField::AntennaSignal { .. } => 5,
        RadiotapField::AntennaNoise { .. } => 6,
        RadiotapField::LockQuality { .. } => 7,
        RadiotapField::TxAttenuation { .. } => 8,
        RadiotapField::DBTxAttenuation { .. } => 9,
        RadiotapField::TxPower { .. } => 10,
        RadiotapField::Antenna { .. } => 11,
        RadiotapField::DBAntennaSignal { .. } => 12,
        RadiotapField::DBAntennaNoise { .. } => 13,
        RadiotapField::RxFlags { .. } => 14,
        RadiotapField::TxFlags { .. } => 15,
        RadiotapField::RtsRetries { .. } => 16,
        RadiotapField::DataRetries { .. } => 17,
        RadiotapField::ExtendedChannel {} => 18,
        RadiotapField::VendorNamespace { .. } => 30,
    }
}

/// The field types that the codec decodes, with the number of bytes each reads.
pub open spec fn decoded_len(id: nat) -> Option<nat> {
    if id == 0 { Some(8) }
    else if id == 3 { Some(4) }
    else if id == 4 || id == 7 || id == 8 || id == 9 || id == 14 || id == 15 { Some(2) }
    else if id == 1 || id == 2 || id == 5 || id == 6 || id == 10 || id == 11 || id == 12
        || id == 16 || id == 17 { Some(1) }
    else if id == 30 { Some(6) }
    else { None }
}

/// The three-byte array holding `b0, b1, b2`.
pub open spec fn array3(b0: u8, b1: u8, b2: u8) -> [u8; 3] {
    choose|a: [u8; 3]| #[trigger] a@ == seq![b0, b1, b2]
}

/// What the codec makes of the bytes `b` for field type `id`: nothing for an
/// unsupported type or too few bytes, else the little-endian reading of the
/// first bytes of `b`.
pub open spec fn decode_field(id: nat, b: Seq<u8>) -> Option<RadiotapField> {
    match decoded_len(id) {
        None => None,
        Some(n) => if b.len() < n { None } else {
            Some(
                if id == 0 { RadiotapField::TSFT { mac_time: le_u64_at(b, 0) } }
                else if id == 1 { RadiotapField::Flags { flags: RadiotapFlags { bits: b[0] } } }
                else if id == 2 { RadiotapField::Rate { rate: b[0] } }
                else if id == 3 {
                    RadiotapField::Channel {
                        frequency: le_u16(b[0], b[1]),
                        flags: ChannelFlags { bits: le_u16(b[2], b[3]) },
                    }
                }
                else if id == 4 { RadiotapField::FHSS { hop_set: b[0], hop_pattern: b[1] } }
                else if id == 5 { RadiotapField::AntennaSignal { signal: b[0] as i8 } }
                else if id == 6 { RadiotapField::AntennaNoise { noise: b[0] as i8 } }
                else if id == 7 { RadiotapField::LockQuality { quality: le_u16(b[0], b[1]) } }
                else if id == 8 { RadiotapField::TxAttenuation { attenuation: le_u16(b[0], b[1]) } }
                else if id == 9 {
                    RadiotapField::DBTxAttenuation { attenuation: le_u16(b[0], b[1]) }
                }
                else if id == 10 { RadiotapField::TxPower { power: b[0] as i8 } }
                else if id == 11 { RadiotapField::Antenna { index: b[0] } }
                else if id == 12 { RadiotapField::DBAntennaSignal { signal: b[0] } }
                else if id == 14 { RadiotapField::RxFlags { flags: RxFlags { bits: le_u16(b[0], b[1]) } } }
                else if id == 15 { RadiotapField::TxFlags { flags: TxFlags { bits: le_u16(b[0], b[1]) } } }
                else if id == 16 { RadiotapField::RtsRetries { retries: b[0] } }
                else if id == 17 { RadiotapField::DataRetries { retries: b[0] } }
                else {
                    RadiotapField::VendorNamespace {
                        oui: array3(b[0], b[1], b[2]),
                        sub_ns: b[3],
                        skip_length: le_u16(b[4], b[5]),
                    }
                },
            )
        },
    }
}

/// The bytes a value is written as, for the variants that the codec decodes.
pub open spec fn encode_field(f: RadiotapField) -> Option<Seq<u8>> {
    match f {
        RadiotapField::TSFT { mac_time } => Some(u64_le_bytes(mac_time)),
        RadiotapField::Flags { flags } => Some(seq![flags.bits]),
        RadiotapField::Rate { rate } => Some(seq![rate]),
        RadiotapField::Channel { frequency, flags } => Some(
            u16_le_bytes(frequency) + u16_le_bytes(flags.bits),
        ),
        RadiotapField::FHSS { hop_set, hop_pattern } => Some(seq![hop_set, hop_pattern]),
        RadiotapField::AntennaSignal { signal } => Some(seq![signal as u8]),
        RadiotapField::AntennaNoise { noise } => Some(seq![noise as u8]),
        RadiotapField::LockQuality { quality } => Some(u16_le_bytes(quality)),
        RadiotapField::TxAttenuation { attenuation } => Some(u16_le_bytes(attenuation)),
        RadiotapField::DBTxAttenuation { attenuation } => Some(u16_le_bytes(attenuation)),
        RadiotapField::TxPower { power } => Some(seq![power as u8]),
        RadiotapField::Antenna { index } => Some(seq![index]),
        RadiotapField::DBAntennaSignal { signal } => Some(seq![signal]),
        RadiotapField::DBAntennaNoise { .. } => None,
        RadiotapField::RxFlags { flags } => Some(u16_le_bytes(flags.bits)),
        RadiotapField::TxFlags { flags } => Some(u16_le_bytes(flags.bits)),
        RadiotapField::RtsRetries { retries } => Some(seq![retries]),
        RadiotapField::DataRetries { retries } => Some(seq![retries]),
        RadiotapField::ExtendedChannel {} => None,
        RadiotapField::VendorNamespace { oui, sub_ns, skip_length } => Some(
            oui@ + seq![sub_ns] + u16_le_bytes(skip_length),
        ),
    }
}

fn make_array3(b0: u8, b1: u8, b2: u8) -> (r: [u8; 3])
    ensures
        r == array3(b0, b1, b2),
{
    let r = [b0, b1, b2];
    assert(r@ =~= seq![b0, b1, b2]);
    let ghost a = array3(b0, b1, b2);
    assert(a[0] == r[0] && a[1] == r[1] && a[2] == r[2]);
    assert(a =~= r);
    r
}

impl RadiotapField {
    /// The field-type id of this value.
    pub fn to_bit(&self) -> (r: usize)
        ensures
            r as nat == field_id(*self),
    {
        match self {
            RadiotapField::TSFT { .. } => 0,
            RadiotapField::Flags { .. } => 1,
            RadiotapField::Rate { .. } => 2,
            RadiotapField::Channel { .. } => 3,
            RadiotapField::FHSS { .. } => 4,
            RadiotapField::AntennaSignal { .. } => 5,
            RadiotapField::AntennaNoise { .. } => 6,
            RadiotapField::LockQuality { .. } => 7,
            RadiotapField::TxAttenuation { .. } => 8,
            RadiotapField::DBTxAttenuation { .. } => 9,
            RadiotapField::TxPower { .. } => 10,
            RadiotapField::Antenna { .. } => 11,
            RadiotapField::DBAntennaSignal { .. } => 12,
            RadiotapField::DBAntennaNoise { .. } => 13,
            RadiotapField::RxFlags { .. } => 14,
            RadiotapField::TxFlags { .. } => 15,
            RadiotapField::RtsRetries { .. } => 16,
            RadiotapField::DataRetries { .. } => 17,
            RadiotapField::ExtendedChannel {} => 18,
            RadiotapField::VendorNamespace { .. } => 30,
        }
    }

    /// Decodes the field of type `field_type` from the start of `data`.
    pub fn from_bytes(data: &[u8], field_type: usize) -> (r: Option<RadiotapField>)
        ensures
            r == decode_field(field_type as nat, data@),
    {
        let n: usize = match field_type {
            0 => 8,
            3 => 4,
            4 | 7 | 8 | 9 | 14 | 15 => 2,
            1 | 2 | 5 | 6 | 10 | 11 | 12 | 16 | 17 => 1,
            30 => 6,
            _ => return None,
        };
        if data.len() < n {
            return None;
        }
        let f = match field_type {
            0 => RadiotapField::TSFT { mac_time: read_u64(data, 0) },
            1 => RadiotapField::Flags { flags: RadiotapFlags::from_bits(data[0]) },
            2 => RadiotapField::Rate { rate: data[0] },
            3 => RadiotapField::Channel {
                frequency: read_u16(data, 0),
                flags: ChannelFlags::from_bits(read_u16(data, 2)),
            },
            4 => RadiotapField::FHSS { hop_set: data[0], hop_pattern: data[1] },
            5 => RadiotapField::AntennaSignal { signal: data[0] as i8 },
            6 => RadiotapField::AntennaNoise { noise: data[0] as i8 },
            7 => RadiotapField::LockQuality { quality: read_u16(data, 0) },
            8 => RadiotapField::TxAttenuation { attenuation: read_u16(data, 0) },
            9 => RadiotapField::DBTxAttenuation { attenuation: read_u16(data, 0) },
            10 => RadiotapField::TxPower { power: data[0] as i8 },
            11 => RadiotapField::Antenna { index: data[0] },
            12 => RadiotapField::DBAntennaSignal { signal: data[0] },
            14 => RadiotapField::RxFlags { flags: RxFlags::from_bits(read_u16(data, 0)) },
            15 => RadiotapField::TxFlags { flags: TxFlags::from_bits(read_u16(data, 0)) },
            16 => RadiotapField::RtsRetries { retries: data[0] },
            17 => RadiotapField::DataRetries { retries: data[0] },
            _ => RadiotapField::VendorNamespace {
                oui: make_array3(data[0], data[1], data[2]),
                sub_ns: data[3],
                skip_length: read_u16(data, 4),
            },
        };
        Some(f)
    }
    /// The bytes this value is written as; `None` for the variants that the
    /// codec does not decode.
    pub fn to_bytes(&self) -> (r: Option<Vec<u8>>)
        ensures
            r matches Some(v) ==> encode_field(*self) == Some(v@),
            r is None <==> encode_field(*self) is None,
    {
        match *self {
            RadiotapField::TSFT { mac_time } => {
                let x = mac_time;
                let v = vec![
                    x as u8,
                    (x >> 8u64) as u8,
                    (x >> 16u64) as u8,
                    (x >> 24u64) as u8,
                    (x >> 32u64) as u8,
                    (x >> 40u64) as u8,
                    (x >> 48u64) as u8,
                    (x >> 56u64) as u8,
                ];
                assert(v@ =~= u64_le_bytes(x));
                Some(v)
            },
            RadiotapField::Flags { flags } => Some(vec![flags.into_bits()]),
            RadiotapField::Rate { rate } => Some(vec![rate]),
            RadiotapField::Channel { frequency, flags } => {
                let bits = flags.into_bits();
                let v = vec![frequency as u8, (frequency >> 8u16) as u8, bits as u8, (bits >> 8u16) as u8];
                assert(v@ =~= u16_le_bytes(frequency) + u16_le_bytes(bits));
                Some(v)
            },
            RadiotapField::FHSS { hop_set, hop_pattern } => Some(vec![hop_set, hop_pattern]),
            RadiotapField::AntennaSignal { signal } => Some(vec![signal as u8]),
            RadiotapField::AntennaNoise { noise } => Some(vec![noise as u8]),
            RadiotapField::LockQuality { quality } => Some(u16_to_vec(quality)),
            RadiotapField::TxAttenuation { attenuation } => Some(u16_to_vec(attenuation)),
            RadiotapField::DBTxAttenuation { attenuation } => Some(u16_to_vec(attenuation)),
            RadiotapField::TxPower { power } => Some(vec![power as u8]),
            RadiotapField::Antenna { index } => Some(vec![index]),
            RadiotapField::DBAntennaSignal { signal } => Some(vec![signal]),
            RadiotapField::DBAntennaNoise { .. } => None,
            RadiotapField::RxFlags { flags } => Some(u16_to_vec(flags.into_bits())),
            RadiotapField::TxFlags { flags } => Some(u16_to_vec(flags.into_bits())),
            RadiotapField::RtsRetries { retries } => Some(vec![retries]),
            RadiotapField::DataRetries { retries } => Some(vec![retries]),
            RadiotapField::ExtendedChannel {} => None,
            RadiotapField::VendorNamespace { oui, sub_ns, skip_length } => {
                let v = vec![
                    oui[0],
                    oui[1],
                    oui[2],
                    sub_ns,
                    skip_length as u8,
                    (skip_length >> 8u16) as u8,
                ];
                assert(v@ =~= oui@ + seq![sub_ns] + u16_le_bytes(skip_length));
                Some(v)
            },
        }
    }
}

fn u16_to_vec(x: u16) -> (r: Vec<u8>)
    ensures
        r@ == u16_le_bytes(x),
{
    let v = vec![x as u8, (x >> 8u16) as u8];
    assert(v@ =~= u16_le_bytes(x));
    v
}

/// Decoding what a value is written as gives the value back, for every
/// variant that has an encoding.
pub proof fn lemma_decode_encode(f: RadiotapField)
    requires
        encode_field(f) is Some,
    ensures
        decode_field(field_id(f), encode_field(f)->0) == Some(f),
{
    let b = encode_field(f)->0;
    match f {
        RadiotapField::TSFT { mac_time } => {
            lemma_u64_round_trip(mac_time);
        },
        RadiotapField::Channel { frequency, flags } => {
            lemma_u16_round_trip(frequency);
            lemma_u16_round_trip(flags.bits);
        },
        RadiotapField::AntennaSignal { signal } => lemma_i8_round_trip(signal),
        RadiotapField::AntennaNoise { noise } => lemma_i8_round_trip(noise),
        RadiotapField::TxPower { power } => lemma_i8_round_trip(power),
        RadiotapField::LockQuality { quality } => lemma_u16_round_trip(quality),
        RadiotapField::TxAttenuation { attenuation } => lemma_u16_round_trip(attenuation),
        RadiotapField::DBTxAttenuation { attenuation } => lemma_u16_round_trip(attenuation),
        RadiotapField::RxFlags { flags } => lemma_u16_round_trip(flags.bits),
        RadiotapField::TxFlags { flags } => lemma_u16_round_trip(flags.bits),
        RadiotapField::VendorNamespace { oui, sub_ns, skip_length } => {
            lemma_u16_round_trip(skip_length);
            let a = array3(b[0], b[1], b[2]);
            assert(oui@ =~= seq![b[0], b[1], b[2]]);
            assert(a@ =~= oui@);
            assert(a[0] == oui[0] && a[1] == oui[1] && a[2] == oui[2]);
            assert(a =~= oui);
        },
        RadiotapField::Flags { .. } => {},
        RadiotapField::Rate { .. } => {},
        RadiotapField::FHSS { .. } => {},
        RadiotapField::Antenna { .. } => {},
        RadiotapField::DBAntennaSignal { .. } => {},
        RadiotapField::RtsRetries { .. } => {},
        RadiotapField::DataRetries { .. } => {},
        RadiotapField::DBAntennaNoise { .. } => {},
        RadiotapField::ExtendedChannel {} => {},
    }
}

proof fn lemma_i8_round_trip(x: i8)
    ensures
        (x as u8) as i8 == x,
{
    assert((x as u8) as i8 == x) by (bit_vector);
}

} // verus!
