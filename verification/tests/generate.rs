use std::collections::HashSet;

use rustid::generate::{generate_id, short_id, uuid1, uuid4, uuid7};
use rustid::identifier::UUID;

fn url_safe(c: char) -> bool {
    c.is_ascii_alphanumeric() || c == '-' || c == '_'
}

#[test]
fn time_ordered_carries_version_seven() {
    let id = UUID::new_time_ordered();
    assert_eq!(id.version(), 7);
    assert_eq!(id.variant(), "specified in RFC 4122");
    let again = uuid7();
    assert_eq!(again.version(), 7);
    assert_eq!(again.variant(), "specified in RFC 4122");
}

#[test]
fn time_and_node_carries_version_one() {
    let node = [0xde, 0xad, 0xbe, 0xef, 0x00, 0x01];
    let id = UUID::new_time_ordered_with_node(node);
    assert_eq!(id.version(), 1);
    assert_eq!(id.variant(), "specified in RFC 4122");
    assert_eq!(id.bytes()[10..], node);
}

#[test]
fn uuid1_uses_the_fixed_node() {
    let id = uuid1();
    assert_eq!(id.version(), 1);
    assert_eq!(id.variant(), "specified in RFC 4122");
    assert_eq!(id.bytes()[10..], [1, 2, 3, 4, 5, 6]);
    assert!(id.hex().ends_with("010203040506"));
}

#[test]
fn random_carries_version_four() {
    let id = UUID::new_random();
    assert_eq!(id.version(), 4);
    assert_eq!(id.variant(), "specified in RFC 4122");
    let again = uuid4();
    assert_eq!(again.version(), 4);
    assert_eq!(again.variant(), "specified in RFC 4122");
}

#[test]
fn random_identifiers_do_not_repeat() {
    let first = UUID::new_random();
    let second = UUID::new_random();
    assert_ne!(first, second);
    let mut seen = HashSet::new();
    for _ in 0..20_000 {
        assert!(seen.insert(UUID::new_random().as_u128()));
    }
}

#[test]
fn time_ordered_identifiers_sort_by_creation() {
    let mut last = UUID::new_time_ordered();
    for _ in 0..2_000 {
        let next = UUID::new_time_ordered();
        assert!(last.timestamp_millis() <= next.timestamp_millis());
        assert!(last.bytes() <= next.bytes());
        assert!(last.as_u128() <= next.as_u128());
        last = next;
    }
}

#[test]
fn time_ordered_starts_with_the_clock() {
    let before = std::time::SystemTime::now()
        .duration_since(std::time::UNIX_EPOCH)
        .unwrap()
        .as_millis() as u64;
    let id = UUID::new_time_ordered();
    let stamp = id.timestamp_millis();
    assert!(stamp + 60_000 >= before);
    assert!(stamp <= before + 60_000);
}

#[test]
fn short_id_is_sixteen_url_safe_characters() {
    for _ in 0..200 {
        let text = short_id();
        assert_eq!(text.chars().count(), 16);
        assert!(text.chars().all(url_safe));
    }
}

#[test]
fn generate_id_is_twelve_url_safe_characters() {
    for _ in 0..200 {
        let text = generate_id();
        assert_eq!(text.chars().count(), 12);
        assert!(text.chars().all(url_safe));
    }
}

#[test]
fn short_forms_share_the_time_stamp_prefix() {
    let id = UUID::new_time_ordered();
    let long = id.short_id();
    let short = id.compact_id();
    assert!(long.starts_with(&short));
    assert_eq!(&id.to_short_id(6), &short[..8]);
}
