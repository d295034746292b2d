use std::collections::hash_map::DefaultHasher;
use std::collections::HashSet;
use std::hash::{Hash, Hasher};

use rustid::error::InvalidFormat;
use rustid::identifier::UUID;

const SAMPLE: [u8; 16] = [
    0x01, 0x8f, 0x3a, 0x5c, 0x9d, 0x2e, 0x7b, 0x41, 0xa6, 0x13, 0x55, 0x66, 0x77, 0x88, 0x99, 0xaa,
];

fn with_tags(version: u8, variant_bits: u8) -> UUID {
    let mut bytes = SAMPLE;
    bytes[6] = (version << 4) | 0x0b;
    bytes[8] = (variant_bits << 6) | 0x26;
    UUID::from_array(bytes)
}

#[test]
fn from_hex_reads_plain_digits() {
    let id = UUID::from_hex("018f3a5c9d2e7b41a6135566778899aa").unwrap();
    assert_eq!(id.bytes(), SAMPLE);
}

#[test]
fn from_hex_reads_dashed_text() {
    let id = UUID::from_hex("018f3a5c-9d2e-7b41-a613-5566778899aa").unwrap();
    assert_eq!(id.bytes(), SAMPLE);
}

#[test]
fn from_hex_reads_capitals() {
    let id = UUID::from_hex("018F3A5C-9D2E-7B41-A613-5566778899AA").unwrap();
    assert_eq!(id.bytes(), SAMPLE);
    assert_eq!(id.to_hex_dashed(), "018f3a5c-9d2e-7b41-a613-5566778899aa");
}

#[test]
fn from_hex_takes_dashes_anywhere() {
    let id = UUID::from_hex("-01-8f3a5c9d2e7b41a61355--66778899a-a-").unwrap();
    assert_eq!(id.bytes(), SAMPLE);
}

#[test]
fn from_hex_round_trips_to_canonical_form() {
    for text in [
        "018f3a5c9d2e7b41a6135566778899aa",
        "018F3A5C9D2E7B41A6135566778899AA",
        "018f3a5c-9d2e-7b41-a613-5566778899aa",
        "0-1-8-f-3-a-5-c-9-d-2-e-7-b-4-1-a-6-1-3-5-5-6-6-7-7-8-8-9-9-a-A",
    ] {
        let id = UUID::from_hex(text).unwrap();
        let canonical = id.to_hex_dashed();
        assert_eq!(canonical, "018f3a5c-9d2e-7b41-a613-5566778899aa");
        assert_eq!(canonical.len(), 36);
    }
}

#[test]
fn written_text_reads_back() {
    for bytes in [SAMPLE, [0u8; 16], [0xffu8; 16]] {
        let id = UUID::from_array(bytes);
        assert_eq!(UUID::from_hex(&id.to_hex_dashed()), Ok(id));
        assert_eq!(UUID::from_hex(&id.hex()), Ok(id));
    }
}

#[test]
fn from_hex_rejects_31_digits() {
    assert_eq!(
        UUID::from_hex("018f3a5c9d2e7b41a6135566778899a"),
        Err(InvalidFormat::HexLength)
    );
}

#[test]
fn from_hex_rejects_33_digits() {
    assert_eq!(
        UUID::from_hex("018f3a5c9d2e7b41a6135566778899aa0"),
        Err(InvalidFormat::HexLength)
    );
}

#[test]
fn from_hex_takes_33_characters_with_one_dash() {
    let id = UUID::from_hex("018f3a5c-9d2e7b41a6135566778899aa").unwrap();
    assert_eq!(id.bytes(), SAMPLE);
}

#[test]
fn from_hex_rejects_empty_text() {
    assert_eq!(UUID::from_hex(""), Err(InvalidFormat::HexLength));
    assert_eq!(UUID::from_hex("----"), Err(InvalidFormat::HexLength));
}

#[test]
fn from_hex_rejects_a_letter_past_f() {
    assert_eq!(
        UUID::from_hex("018f3a5c9d2e7b41a6135566778899ag"),
        Err(InvalidFormat::HexDigit)
    );
    assert_eq!(
        UUID::from_hex("g18f3a5c-9d2e-7b41-a613-5566778899aa"),
        Err(InvalidFormat::HexDigit)
    );
}

#[test]
fn from_hex_rejects_signs_and_blanks() {
    assert_eq!(
        UUID::from_hex("+18f3a5c9d2e7b41a6135566778899aa"),
        Err(InvalidFormat::HexDigit)
    );
    assert_eq!(
        UUID::from_hex("0+8f3a5c9d2e7b41a6135566778899aa"),
        Err(InvalidFormat::HexDigit)
    );
    assert_eq!(
        UUID::from_hex(" 18f3a5c9d2e7b41a6135566778899aa"),
        Err(InvalidFormat::HexDigit)
    );
}

#[test]
fn from_hex_rejects_letters_outside_ascii() {
    assert_eq!(
        UUID::from_hex("018f3a5c9d2e7b41a6135566778899a\u{e9}"),
        Err(InvalidFormat::HexDigit)
    );
    assert_eq!(
        UUID::from_hex("\u{ff11}18f3a5c9d2e7b41a6135566778899aa"),
        Err(InvalidFormat::HexDigit)
    );
    assert_eq!(UUID::from_hex("\u{e9}"), Err(InvalidFormat::HexLength));
}

#[test]
fn from_hex_looks_at_the_length_first() {
    assert_eq!(UUID::from_hex("xyz"), Err(InvalidFormat::HexLength));
}

#[test]
fn from_bytes_keeps_the_bytes() {
    let id = UUID::from_bytes(&SAMPLE).unwrap();
    assert_eq!(id.bytes(), SAMPLE);
    for fill in [0x00u8, 0x5a, 0xff] {
        let buf = [fill; 16];
        assert_eq!(UUID::from_bytes(&buf).unwrap().bytes(), buf);
    }
}

#[test]
fn from_bytes_rejects_other_lengths() {
    assert_eq!(UUID::from_bytes(&[]), Err(InvalidFormat::BytesLength));
    assert_eq!(UUID::from_bytes(&SAMPLE[..15]), Err(InvalidFormat::BytesLength));
    assert_eq!(UUID::from_bytes(&[0u8; 17]), Err(InvalidFormat::BytesLength));
}

#[test]
fn new_prefers_the_text() {
    let other = [0x11u8; 16];
    let id = UUID::new(Some("018f3a5c-9d2e-7b41-a613-5566778899aa"), Some(&other)).unwrap();
    assert_eq!(id.bytes(), SAMPLE);
    assert_eq!(UUID::new(Some("zz"), Some(&other)), Err(InvalidFormat::HexLength));
}

#[test]
fn new_falls_back_to_the_bytes() {
    assert_eq!(UUID::new(None, Some(&SAMPLE)).unwrap().bytes(), SAMPLE);
    assert_eq!(UUID::new(None, Some(&SAMPLE[..4])), Err(InvalidFormat::BytesLength));
}

#[test]
fn new_needs_one_of_the_two() {
    assert_eq!(UUID::new(None, None), Err(InvalidFormat::Missing));
}

#[test]
fn messages_name_the_cause() {
    assert_eq!(InvalidFormat::HexLength.message(), "Invalid hex length");
    assert_eq!(InvalidFormat::HexDigit.message(), "Invalid hex");
    assert_eq!(InvalidFormat::BytesLength.message(), "Invalid bytes length");
    assert_eq!(InvalidFormat::Missing.message(), "Either hex or bytes required");
}

#[test]
fn version_is_the_high_half_of_byte_six() {
    assert_eq!(UUID::from_array(SAMPLE).version(), 7);
    for v in 0u8..16 {
        assert_eq!(with_tags(v, 2).version(), v);
    }
}

#[test]
fn variant_names_the_layout_family() {
    assert_eq!(with_tags(4, 0).variant(), "reserved for NCS compatibility");
    assert_eq!(with_tags(4, 1).variant(), "reserved for NCS compatibility");
    assert_eq!(with_tags(4, 2).variant(), "specified in RFC 4122");
    assert_eq!(with_tags(4, 3).variant(), "reserved for Microsoft compatibility");
    assert_eq!(UUID::from_array(SAMPLE).variant(), "specified in RFC 4122");
}

#[test]
fn as_u128_reads_big_endian() {
    assert_eq!(
        UUID::from_array(SAMPLE).as_u128(),
        2072910163948698524723524604720093610u128
    );
    assert_eq!(UUID::from_array(SAMPLE).as_u128(), u128::from_be_bytes(SAMPLE));
    assert_eq!(UUID::from_array([0u8; 16]).as_u128(), 0);
    assert_eq!(UUID::from_array([0xffu8; 16]).as_u128(), u128::MAX);
    let mut one = [0u8; 16];
    one[15] = 1;
    assert_eq!(UUID::from_array(one).as_u128(), 1);
    let mut top = [0u8; 16];
    top[0] = 0x80;
    assert_eq!(UUID::from_array(top).as_u128(), 1u128 << 127);
}

#[test]
fn timestamp_is_the_first_six_bytes() {
    assert_eq!(UUID::from_array(SAMPLE).timestamp_millis(), 1714671099182);
    assert_eq!(UUID::from_array([0xffu8; 16]).timestamp_millis(), (1u64 << 48) - 1);
    assert_eq!(UUID::from_array([0u8; 16]).timestamp_millis(), 0);
}

#[test]
fn to_hex_dashed_groups_the_digits() {
    assert_eq!(
        UUID::from_array(SAMPLE).to_hex_dashed(),
        "018f3a5c-9d2e-7b41-a613-5566778899aa"
    );
    assert_eq!(
        UUID::from_array([0u8; 16]).to_hex_dashed(),
        "00000000-0000-0000-0000-000000000000"
    );
    assert_eq!(
        UUID::from_array([0xffu8; 16]).to_hex_dashed(),
        "ffffffff-ffff-ffff-ffff-ffffffffffff"
    );
}

#[test]
fn repr_wraps_the_canonical_text() {
    assert_eq!(
        UUID::from_array(SAMPLE).repr(),
        "UUID('018f3a5c-9d2e-7b41-a613-5566778899aa')"
    );
}

#[test]
fn equal_bytes_make_equal_identifiers() {
    let a = UUID::from_array(SAMPLE);
    let b = UUID::from_hex("018f3a5c9d2e7b41a6135566778899aa").unwrap();
    assert!(a == b);
    for place in 0..16 {
        let mut bytes = SAMPLE;
        bytes[place] ^= 1;
        assert!(a != UUID::from_array(bytes));
    }
}

#[test]
fn equal_identifiers_hash_alike() {
    let a = UUID::from_array(SAMPLE);
    let b = UUID::from_bytes(&SAMPLE).unwrap();
    let mut first = DefaultHasher::new();
    a.hash(&mut first);
    let mut second = DefaultHasher::new();
    b.hash(&mut second);
    assert_eq!(first.finish(), second.finish());
    let mut set = HashSet::new();
    assert!(set.insert(a));
    assert!(!set.insert(b));
}

#[test]
fn order_follows_the_timestamp() {
    let mut early = [0xffu8; 16];
    early[..6].copy_from_slice(&[0x01, 0x8f, 0x3a, 0x5c, 0x9d, 0x2e]);
    let mut late = [0x00u8; 16];
    late[..6].copy_from_slice(&[0x01, 0x8f, 0x3a, 0x5c, 0x9d, 0x2f]);
    let a = UUID::from_array(early);
    let b = UUID::from_array(late);
    assert!(a.timestamp_millis() < b.timestamp_millis());
    assert!(a.as_u128() < b.as_u128());
    assert!(a.bytes() < b.bytes());
}
