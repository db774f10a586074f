use rtap::field_types::{ChannelFlags, RadiotapFlags, RxFlags, TxFlags};
use rtap::{calculate_padding, field_from_string, RadiotapField};

fn round_trip(f: RadiotapField) {
    let bytes = f.to_bytes().unwrap();
    assert_eq!(RadiotapField::from_bytes(&bytes, f.to_bit()), Some(f));
}

#[test]
fn every_encodable_variant_round_trips() {
    round_trip(RadiotapField::TSFT { mac_time: 0x0123_4567_89ab_cdef });
    round_trip(RadiotapField::Flags { flags: RadiotapFlags::from_bits(0x52) });
    round_trip(RadiotapField::Rate { rate: 108 });
    round_trip(RadiotapField::Channel { frequency: 2437, flags: ChannelFlags::from_bits(0x00a0) });
    round_trip(RadiotapField::FHSS { hop_set: 3, hop_pattern: 9 });
    round_trip(RadiotapField::AntennaSignal { signal: -128 });
    round_trip(RadiotapField::AntennaNoise { noise: -95 });
    round_trip(RadiotapField::LockQuality { quality: 65535 });
    round_trip(RadiotapField::TxAttenuation { attenuation: 7 });
    round_trip(RadiotapField::DBTxAttenuation { attenuation: 513 });
    round_trip(RadiotapField::TxPower { power: 20 });
    round_trip(RadiotapField::Antenna { index: 2 });
    round_trip(RadiotapField::DBAntennaSignal { signal: 40 });
    round_trip(RadiotapField::RxFlags { flags: RxFlags::from_bits(4) });
    round_trip(RadiotapField::TxFlags { flags: TxFlags::from_bits(0x3f) });
    round_trip(RadiotapField::RtsRetries { retries: 1 });
    round_trip(RadiotapField::DataRetries { retries: 15 });
    round_trip(RadiotapField::VendorNamespace { oui: [0x00, 0x50, 0xf2], sub_ns: 1, skip_length: 300 });
}

#[test]
fn encodings_are_little_endian() {
    assert_eq!(
        RadiotapField::TSFT { mac_time: 0x0102_0304_0506_0708 }.to_bytes(),
        Some(vec![0x08, 0x07, 0x06, 0x05, 0x04, 0x03, 0x02, 0x01])
    );
    assert_eq!(
        RadiotapField::Channel { frequency: 0x1464, flags: ChannelFlags::from_bits(0x0140) }.to_bytes(),
        Some(vec![0x64, 0x14, 0x40, 0x01])
    );
    assert_eq!(RadiotapField::AntennaSignal { signal: -1 }.to_bytes(), Some(vec![0xff]));
    assert_eq!(
        RadiotapField::VendorNamespace { oui: [1, 2, 3], sub_ns: 4, skip_length: 0x0605 }.to_bytes(),
        Some(vec![1, 2, 3, 4, 5, 6])
    );
}

#[test]
fn variants_without_decoding_have_no_encoding() {
    assert_eq!(RadiotapField::DBAntennaNoise { noise: 3 }.to_bytes(), None);
    assert_eq!(RadiotapField::ExtendedChannel {}.to_bytes(), None);
}

#[test]
fn decoding_needs_enough_bytes_and_a_known_type() {
    assert_eq!(RadiotapField::from_bytes(&[1, 2, 3], 3), None);
    assert_eq!(RadiotapField::from_bytes(&[1, 2, 3, 4], 13), None);
    assert_eq!(RadiotapField::from_bytes(&[1, 2, 3, 4], 40), None);
    assert_eq!(
        RadiotapField::from_bytes(&[0x21, 0x00, 0xff], 7),
        Some(RadiotapField::LockQuality { quality: 0x21 })
    );
}

#[test]
fn field_ids() {
    assert_eq!(RadiotapField::TSFT { mac_time: 0 }.to_bit(), 0);
    assert_eq!(RadiotapField::DBAntennaSignal { signal: 0 }.to_bit(), 12);
    assert_eq!(RadiotapField::DBAntennaNoise { noise: 0 }.to_bit(), 13);
    assert_eq!(RadiotapField::ExtendedChannel {}.to_bit(), 18);
    assert_eq!(RadiotapField::VendorNamespace { oui: [0; 3], sub_ns: 0, skip_length: 0 }.to_bit(), 30);
}

#[test]
fn padding_values() {
    assert_eq!(calculate_padding(0, 8), 0);
    assert_eq!(calculate_padding(1, 8), 7);
    assert_eq!(calculate_padding(12, 8), 4);
    assert_eq!(calculate_padding(13, 4), 3);
    assert_eq!(calculate_padding(6, 2), 0);
    assert_eq!(calculate_padding(7, 2), 1);
    assert_eq!(calculate_padding(5, 1), 0);
}

#[test]
fn names_of_field_types() {
    assert_eq!(field_from_string("TSFT".to_string()), Some(0));
    assert_eq!(field_from_string("RX_FLAGS".to_string()), Some(14));
    assert_eq!(field_from_string("LSIG".to_string()), Some(27));
    assert_eq!(field_from_string("EHT".to_string()), None);
    assert_eq!(field_from_string("tsft".to_string()), None);
    assert_eq!(field_from_string(String::new()), None);
}

#[test]
fn flag_accessors() {
    let f = RadiotapFlags::from_bits(0x14);
    assert!(f.wep() && f.includes_fcs());
    assert!(!f.during_cfp() && !f.bad_fcs());
    assert_eq!(f.into_bits(), 0x14);
    let c = ChannelFlags::from_bits(0x0140);
    assert!(c.ofdm_channel() && c.five_ghz_channel());
    assert!(!c.two_ghz_channel() && !c.cck_channel());
    assert!(RxFlags::from_bits(0x0004).bad_plcp());
    assert!(!RxFlags::from_bits(0x0003).bad_plcp());
    let t = TxFlags::from_bits(0x0009);
    assert!(t.failed_excessive_retries() && t.no_ack() && !t.dont_reorder());
}

#[test]
fn vendor_namespace_descriptor() {
    let v = rtap::VendorNamespace::from_bytes(&[0x00, 0x50, 0xf2, 0x02, 0x34, 0x12]);
    assert_eq!(v.oui, [0x00, 0x50, 0xf2]);
    assert_eq!(v.sub_ns, 2);
    assert_eq!(v.skip_length, 0x1234);
}
