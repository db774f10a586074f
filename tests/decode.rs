use rtap::field_types::{ChannelFlags, RadiotapFlags, RxFlags};
use rtap::{create_radiotap_iterator, decode_fields, RadiotapError, RadiotapField, RadiotapFrame};

const TEST_BYTES: [u8; 32] = [
    0x00, 0x00, 0x20, 0x00, 0xae, 0x40, 0x00, 0xa0, 0x20, 0x08, 0x00, 0xa0, 0x20, 0x08, 0x00, 0x00,
    0x10, 0x18, 0x64, 0x14, 0x40, 0x01, 0xaa, 0x00, 0x21, 0x00, 0x00, 0x00, 0xac, 0x00, 0xa8, 0x01,
];

fn expected_fixture() -> Vec<RadiotapField> {
    vec![
        RadiotapField::Flags { flags: RadiotapFlags::from_bits(0x10) },
        RadiotapField::Rate { rate: 0x18 },
        RadiotapField::Channel { frequency: 5220, flags: ChannelFlags::from_bits(0x0140) },
        RadiotapField::AntennaSignal { signal: -86 },
        RadiotapField::LockQuality { quality: 0x21 },
        RadiotapField::RxFlags { flags: RxFlags::from_bits(0) },
        RadiotapField::AntennaSignal { signal: -84 },
        RadiotapField::Antenna { index: 0 },
        RadiotapField::AntennaSignal { signal: -88 },
        RadiotapField::Antenna { index: 1 },
    ]
}

fn header(region: &[u8]) -> Vec<u8> {
    let len = (region.len() + 4) as u16;
    let mut v = vec![0x00, 0x00, len as u8, (len >> 8) as u8];
    v.extend_from_slice(region);
    v
}

#[test]
fn fixture_decodes_through_iterator() {
    let mut it = create_radiotap_iterator(&TEST_BYTES).unwrap();
    assert_eq!(it.collect_fields(), expected_fixture());
}

#[test]
fn fixture_same_through_frame_and_owned_bytes() {
    let (frame, read) = RadiotapFrame::parse(&TEST_BYTES).unwrap();
    assert_eq!(read, 32);
    assert!(frame.payload.is_empty());
    let from_frame = frame.get_field_iter().collect_fields();
    let owned: Vec<u8> = TEST_BYTES.iter().copied().collect();
    let from_owned = create_radiotap_iterator(&owned).unwrap().collect_fields();
    assert_eq!(from_frame, expected_fixture());
    assert_eq!(from_owned, from_frame);
}

#[test]
fn fixture_one_field_at_a_time() {
    let mut it = create_radiotap_iterator(&TEST_BYTES).unwrap();
    let mut got = Vec::new();
    while let Some(f) = it.next_field() {
        got.push(f);
    }
    assert_eq!(got, expected_fixture());
    assert_eq!(it.next_field(), None);
}

#[test]
fn truncated_regions_give_prefixes() {
    let full = decode_fields(&TEST_BYTES[4..]);
    for k in 0..=28 {
        let part = decode_fields(&TEST_BYTES[4..4 + k]);
        assert!(part.len() <= full.len());
        assert_eq!(part[..], full[..part.len()]);
    }
    assert!(decode_fields(&TEST_BYTES[4..15]).is_empty());
}

#[test]
fn vendor_namespace_suppresses_its_bits() {
    let region = [
        0x00, 0x00, 0x00, 0xc0, // vendor switch, continuation
        0x04, 0x00, 0x00, 0xa0, // rate (inside the vendor namespace), standard switch, continuation
        0x20, 0x00, 0x00, 0x00, // antenna signal
        0x00, 0x11, 0x22, 0x07, 0x02, 0x00, // vendor namespace: oui, sub_ns, skip_length 2
        0x99, 0x99, // vendor data
        0xd8, // antenna signal
    ];
    let bytes = header(&region);
    let got = create_radiotap_iterator(&bytes).unwrap().collect_fields();
    assert_eq!(
        got,
        vec![
            RadiotapField::VendorNamespace { oui: [0x00, 0x11, 0x22], sub_ns: 7, skip_length: 2 },
            RadiotapField::AntennaSignal { signal: -40 },
        ]
    );
}

#[test]
fn second_presence_word_is_skipped_before_data() {
    let region = [
        0x04, 0x00, 0x00, 0x80, // rate, continuation
        0x01, 0x00, 0x00, 0x00, // id 32
        0x0c,
    ];
    let got = decode_fields(&region);
    assert_eq!(got, vec![RadiotapField::Rate { rate: 12 }]);
}

#[test]
fn missing_continuation_word_gives_no_fields() {
    assert!(decode_fields(&[0x02, 0x00, 0x00, 0x80, 0x05]).is_empty());
    assert!(decode_fields(&[]).is_empty());
    assert!(decode_fields(&[0x02, 0x00]).is_empty());
}

#[test]
fn tsft_is_aligned_to_eight_bytes_of_the_header() {
    let region = [
        0x01, 0x00, 0x00, 0x80, // TSFT, continuation
        0x00, 0x00, 0x00, 0x00, //
        0xee, 0xee, 0xee, 0xee, // padding to header offset 16
        0x01, 0x02, 0x03, 0x04, 0x05, 0x06, 0x07, 0x08,
    ];
    assert_eq!(decode_fields(&region), vec![RadiotapField::TSFT { mac_time: 0x0807_0605_0403_0201 }]);
    let one_word = [0x01, 0x00, 0x00, 0x00, 0x01, 0x02, 0x03, 0x04, 0x05, 0x06, 0x07, 0x08];
    assert_eq!(decode_fields(&one_word), vec![RadiotapField::TSFT { mac_time: 0x0807_0605_0403_0201 }]);
}

#[test]
fn unsupported_field_ends_the_walk() {
    // rate, db antenna noise (not decoded), rx flags
    let region = [0x04, 0x60, 0x00, 0x00, 0x0c, 0x01, 0x00, 0x00];
    assert_eq!(decode_fields(&region), vec![RadiotapField::Rate { rate: 12 }]);
}

#[test]
fn variable_length_field_ends_the_walk() {
    // rate, then the variable-length field
    let region = [0x04, 0x00, 0x00, 0x10, 0x0c, 0x00, 0x00, 0x00, 0x00, 0x00, 0x00, 0x00];
    assert_eq!(decode_fields(&region), vec![RadiotapField::Rate { rate: 12 }]);
}

#[test]
fn field_past_the_region_ends_the_walk() {
    // rate then lock quality, whose two bytes are not all there
    let region = [0x84, 0x00, 0x00, 0x00, 0x0c, 0x00, 0x21];
    assert_eq!(decode_fields(&region), vec![RadiotapField::Rate { rate: 12 }]);
}

#[test]
fn envelope_errors() {
    assert_eq!(create_radiotap_iterator(&[]).err(), Some(RadiotapError::HeaderIncomplete));
    assert_eq!(create_radiotap_iterator(&[0x01, 0x00, 0x08, 0x00]).err(), Some(RadiotapError::VersionIsNotZero));
    assert_eq!(create_radiotap_iterator(&[0x00, 0x00, 0x08]).err(), Some(RadiotapError::HeaderIncomplete));
    assert_eq!(create_radiotap_iterator(&[0x00, 0x00, 0x03, 0x00]).err(), Some(RadiotapError::SkipLenTooShort));
    assert_eq!(
        create_radiotap_iterator(&[0x00, 0x00, 0x09, 0x00, 0x00]).err(),
        Some(RadiotapError::UnderlyingIterEndedEarly)
    );
    assert_eq!(RadiotapFrame::parse(&[0x02]).err(), Some(RadiotapError::VersionIsNotZero));
    assert_eq!(RadiotapError::SkipLenTooShort.message(), "skip_length field is too short");
}

#[test]
fn frame_splits_off_the_payload() {
    let bytes = [0x00, 0x00, 0x09, 0x00, 0x04, 0x00, 0x00, 0x00, 0x0c, 0xde, 0xad];
    let (frame, read) = RadiotapFrame::parse(&bytes).unwrap();
    assert_eq!(read, 11);
    assert_eq!(frame.payload, &[0xde, 0xad]);
    assert_eq!(frame.get_field_iter().collect_fields(), vec![RadiotapField::Rate { rate: 12 }]);
}

#[test]
fn standard_fields_fill_their_layout_exactly() {
    // TSFT at header offset 8, flags at 16, channel after one byte of padding at 18..22
    let mut region = vec![0x0b, 0x00, 0x00, 0x00];
    region.extend_from_slice(&[1, 0, 0, 0, 0, 0, 0, 0]);
    region.push(0x02);
    region.push(0xee);
    region.extend_from_slice(&[0x85, 0x09, 0xa0, 0x00]);
    let all = vec![
        RadiotapField::TSFT { mac_time: 1 },
        RadiotapField::Flags { flags: RadiotapFlags::from_bits(0x02) },
        RadiotapField::Channel { frequency: 2437, flags: ChannelFlags::from_bits(0x00a0) },
    ];
    assert_eq!(decode_fields(&region), all);
    assert_eq!(decode_fields(&region[..region.len() - 1]), all[..2].to_vec());
}
