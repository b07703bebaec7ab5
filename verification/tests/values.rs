use up_rust::frame::metadata::{PayloadEncoding, UFrameMetadataError};
use up_rust::uri::is_valid_authority;
use up_rust::{Duration, SystemTime, UCode, UPayloadFormat, UUri, UUID};

#[test]
fn uuid_build_gives_fresh_version_seven_ids() {
    let a = UUID::build();
    let b = UUID::build();
    assert_ne!(a, b);
    for id in [a, b] {
        let (msb, lsb) = id.as_u64_pair();
        assert_eq!((msb >> 12) & 0xF, 7);
        assert_eq!(lsb >> 62, 2);
    }
}

#[test]
fn uuid_halves_must_be_a_version_seven_uuid() {
    assert!(UUID::from_u64_pair(0x0000_0000_0000_7000, 0x8000_0000_0000_0000).is_ok());
    assert!(UUID::from_u64_pair(0x0000_0000_0000_4000, 0x8000_0000_0000_0000).is_err());
    assert!(UUID::from_u64_pair(0x0000_0000_0000_7000, 0x4000_0000_0000_0000).is_err());
}

#[test]
fn uuid_from_timestamp_places_the_millis() {
    let id = UUID::from_timestamp_and_random(0x0123_4567_89AB, 0xFFFF, 0);
    let (msb, lsb) = id.as_u64_pair();
    assert_eq!(msb >> 16, 0x0123_4567_89AB);
    assert_eq!(msb & 0xF000, 0x7000);
    assert_eq!(msb & 0x0FFF, 0x0FFF);
    assert_eq!(lsb, 0x8000_0000_0000_0000);
}

#[test]
fn system_clock_reads_after_the_epoch() {
    let now = SystemTime::now();
    let since = now.duration_since_epoch().expect("after the epoch");
    assert!(since.as_secs() > 1_600_000_000);
    assert!(SystemTime::unix_epoch().is_at_or_before(&now));
}

#[test]
fn instants_shift_by_spans_exactly() {
    let t = SystemTime::from_unix_epoch(Duration::new(10, 500_000_000));
    let later = t.checked_add(Duration::new(0, 600_000_000)).unwrap();
    assert_eq!(later.duration_since_epoch().unwrap(), Duration::new(11, 100_000_000));
    let before = SystemTime::unix_epoch().checked_sub(Duration::new(1, 0)).unwrap();
    assert_eq!(before.duration_since_epoch().unwrap_err(), Duration::from_secs(1));
    assert!(before.is_at_or_before(&t));
    assert!(!t.is_at_or_before(&before));
}

#[test]
fn durations_keep_exact_nanoseconds() {
    let d = Duration::new(1, 2_500_000_000);
    assert_eq!(d.as_secs(), 3);
    assert_eq!(d.subsec_nanos(), 500_000_000);
    assert_eq!(d.as_nanos(), 3_500_000_000);
    assert_eq!(d.as_millis(), 3_500);
    assert!(Duration::zero().is_zero());
    assert_eq!(Duration::from_micros(1_500).as_nanos(), 1_500_000);
}

#[test]
fn uri_parts_are_checked() {
    let uri = UUri::try_from_parts("vehicle", 0x0002_4210, 0x01, 0x8001).unwrap();
    assert_eq!(uri.uentity_type_id(), 0x4210);
    assert_eq!(uri.uentity_instance_id(), 0x0002);
    assert!(uri.is_event());
    assert!(uri.verify_event().is_ok());
    assert!(uri.verify_rpc_method().is_err());
    assert!(UUri::try_from_parts("bad authority", 1, 1, 1).is_err());
    assert!(UUri::try_from_parts(&"a".repeat(129), 1, 1, 1).is_err());
    assert!(is_valid_authority(&"a".repeat(128)));
    let wildcard = UUri::try_from_parts("*", 1, 1, 1).unwrap();
    assert!(wildcard.has_wildcard());
    assert!(wildcard.verify_no_wildcards().is_err());
}

#[test]
fn status_codes_number_in_declaration_order() {
    assert_eq!(UCode::OK.value(), 0);
    assert_eq!(UCode::Unauthenticated.value(), 16);
    assert_eq!(UCode::try_from_i32(5), Ok(UCode::NotFound));
    assert_eq!(UCode::try_from_i32(17), Err(()));
    assert_eq!(UCode::try_from_i32(-1), Err(()));
}

#[test]
fn unspecified_legacy_format_names_no_encoding() {
    assert_eq!(
        PayloadEncoding::try_from_legacy_format(UPayloadFormat::Unspecified),
        Err(UFrameMetadataError::UnspecifiedPayloadFormat)
    );
    assert_eq!(PayloadEncoding::raw().describe(), "up.raw");
    assert_eq!(PayloadEncoding::from_id(0xF00D).unwrap().describe(), "registry:61453");
}

#[test]
fn uuid_keeps_its_random_bits() {
    let u = UUID::from_timestamp_and_random(0x0123_4567_89ab, 0xfff_abc, 0xffff_ffff_ffff_ffff);
    let (msb, lsb) = u.as_u64_pair();
    assert_eq!(msb, 0x0123_4567_89ab_7abc);
    assert_eq!(lsb, 0xbfff_ffff_ffff_ffff);
    let v = UUID::from_timestamp_and_random(0x0123_4567_89ab, 0xfff_abd, 0);
    assert_ne!(u, v);
}

#[test]
fn clock_spans_map_to_instants() {
    let after = SystemTime::from_epoch_span(Ok((5, 7)));
    assert_eq!(after.duration_since_epoch(), Ok(Duration::new(5, 7)));
    let before = SystemTime::from_epoch_span(Err((2, 0)));
    assert_eq!(before.duration_since_epoch(), Err(Duration::new(2, 0)));
    let too_far = SystemTime::from_epoch_span(Ok((u64::MAX, 0)));
    assert_eq!(too_far, SystemTime::unix_epoch());
}
