use s3_load_gen::keys::{fresh_object_key, key_timestamp, make_object_key, range_header, u64_to_dec};
use s3_load_gen::payload::generate_random_data;

#[test]
fn decimal_rendering_of_small_and_large_numbers() {
    assert_eq!(u64_to_dec(0), "0");
    assert_eq!(u64_to_dec(7), "7");
    assert_eq!(u64_to_dec(10), "10");
    assert_eq!(u64_to_dec(1024), "1024");
    assert_eq!(u64_to_dec(u64::MAX), "18446744073709551615");
}

#[test]
fn object_key_is_prefix_counter_dash_timestamp() {
    let key = make_object_key("test-object/", 42, 1700000000123456789);
    assert_eq!(key, "test-object/42-1700000000123456789");
}

#[test]
fn object_key_with_empty_prefix() {
    let key = make_object_key("", 0, 0);
    assert_eq!(key, "0-0");
}

#[test]
fn fresh_key_carries_prefix_and_counter() {
    let key = fresh_object_key("bench/", 7);
    assert!(key.starts_with("bench/7-"));
    // Whatever the clock read, the timestamp renders as digits.
    let tail = &key["bench/7-".len()..];
    assert!(!tail.is_empty());
    assert!(tail.chars().all(|c| c.is_ascii_digit()));
}

#[test]
fn clock_readings_clamp_to_usable_timestamps() {
    assert_eq!(key_timestamp(Some(123)), 123);
    assert_eq!(key_timestamp(Some(-5)), 0);
    assert_eq!(key_timestamp(None), 0);
}

#[test]
fn range_header_addresses_the_first_bytes_inclusively() {
    assert_eq!(range_header(65536), "bytes=0-65535");
    assert_eq!(range_header(1), "bytes=0-0");
}

#[test]
fn payloads_of_equal_request_have_equal_length() {
    // Content is non-deterministic; length is a function of the request.
    let a = generate_random_data(4096);
    let b = generate_random_data(4096);
    assert_eq!(a.len(), 4096);
    assert_eq!(a.len(), b.len());
}

#[test]
fn empty_payload_is_empty() {
    let p = generate_random_data(0);
    assert!(p.is_empty());
}

#[test]
fn payload_content_is_filled_in() {
    // A 64 KiB buffer of truly random bytes is all-zero with negligible
    // probability; a generator that skipped the fill would return zeros.
    let p = generate_random_data(65536);
    assert!(p.iter().any(|&b| b != 0));
}
