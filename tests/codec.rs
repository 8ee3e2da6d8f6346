use uuid_utils::{Uuid, UuidError, Variant, RESERVED_FUTURE, RESERVED_MICROSOFT, RESERVED_NCS, RFC_4122};

const SAMPLE: u128 = 0x12345678_1234_5678_1234_567812345678;

fn sample() -> Uuid {
    Uuid::from_int(SAMPLE)
}

#[test]
fn bytes_are_network_order() {
    let b = sample().bytes();
    assert_eq!(
        b,
        vec![0x12, 0x34, 0x56, 0x78, 0x12, 0x34, 0x56, 0x78, 0x12, 0x34, 0x56, 0x78, 0x12, 0x34, 0x56, 0x78]
    );
    let u = Uuid::from_int(0x00112233_4455_6677_8899_aabbccddeeff);
    assert_eq!(u.bytes(), (0u8..16).map(|i| i * 0x11).collect::<Vec<u8>>());
}

#[test]
fn bytes_le_swaps_first_three_groups() {
    let u = Uuid::from_int(0x00112233_4455_6677_8899_aabbccddeeff);
    assert_eq!(
        u.bytes_le(),
        vec![0x33, 0x22, 0x11, 0x00, 0x55, 0x44, 0x77, 0x66, 0x88, 0x99, 0xaa, 0xbb, 0xcc, 0xdd, 0xee, 0xff]
    );
}

#[test]
fn bytes_le_swap_twice_restores_bytes() {
    let u = Uuid::from_int(0x00112233_4455_6677_8899_aabbccddeeff);
    let le = u.bytes_le();
    let again = Uuid::from_bytes(&le).unwrap().bytes_le();
    assert_eq!(again, u.bytes());
}

#[test]
fn round_trips_on_samples() {
    let values = [0u128, 1, u128::MAX, SAMPLE, 0x6ba7b810_9dad_11d1_80b4_00c04fd430c8, 1u128 << 127];
    for v in values {
        let u = Uuid::from_int(v);
        assert_eq!(Uuid::from_bytes(&u.bytes()), Ok(u));
        assert_eq!(Uuid::from_bytes_le(&u.bytes_le()), Ok(u));
        assert_eq!(Uuid::from_hex(&u.hex()), Ok(u));
        assert_eq!(Uuid::from_hex(&u.to_string()), Ok(u));
        assert_eq!(Uuid::from_hex(&u.urn()), Ok(u));
        assert_eq!(Uuid::from_fields(u.fields()), u);
        assert_eq!(Uuid::from_int(u.as_int()), u);
    }
}

#[test]
fn from_bytes_refuses_other_lengths() {
    assert_eq!(Uuid::from_bytes(&[0u8; 15]), Err(UuidError::Length));
    assert_eq!(Uuid::from_bytes(&[0u8; 17]), Err(UuidError::Length));
    assert_eq!(Uuid::from_bytes(&[]), Err(UuidError::Length));
    assert_eq!(Uuid::from_bytes_le(&[0u8; 15]), Err(UuidError::Length));
}

#[test]
fn text_forms() {
    let u = sample();
    assert_eq!(u.hex(), "12345678123456781234567812345678");
    assert_eq!(u.to_string(), "12345678-1234-5678-1234-567812345678");
    assert_eq!(u.urn(), "urn:uuid:12345678-1234-5678-1234-567812345678");
    let v = Uuid::from_int(0xabcdef00_0000_0000_0000_00000000abcd);
    assert_eq!(v.to_string(), "abcdef00-0000-0000-0000-00000000abcd");
}

#[test]
fn from_hex_accepts_every_form() {
    let want = Ok(Uuid::from_int(0x6ba7b810_9dad_11d1_80b4_00c04fd430c8));
    assert_eq!(Uuid::from_hex("6ba7b810-9dad-11d1-80b4-00c04fd430c8"), want);
    assert_eq!(Uuid::from_hex("6ba7b8109dad11d180b400c04fd430c8"), want);
    assert_eq!(Uuid::from_hex("{6ba7b810-9dad-11d1-80b4-00c04fd430c8}"), want);
    assert_eq!(Uuid::from_hex("urn:uuid:6ba7b810-9dad-11d1-80b4-00c04fd430c8"), want);
    assert_eq!(Uuid::from_hex("URN:UUID:6BA7B810-9DAD-11D1-80B4-00C04FD430C8"), want);
}

#[test]
fn from_hex_refuses_malformed_text() {
    assert_eq!(Uuid::from_hex("not-a-uuid"), Err(UuidError::Format));
    assert_eq!(Uuid::from_hex(""), Err(UuidError::Format));
    assert_eq!(Uuid::from_hex("6ba7b810-9dad-11d1-80b4-00c04fd430c"), Err(UuidError::Format));
    assert_eq!(Uuid::from_hex("6ba7b8109-dad-11d1-80b4-00c04fd430c8"), Err(UuidError::Format));
    assert_eq!(Uuid::from_hex("6ba7b810-9dad-11d1-80b4-00c04fd430cg"), Err(UuidError::Format));
    assert_eq!(Uuid::from_hex("[6ba7b810-9dad-11d1-80b4-00c04fd430c8]"), Err(UuidError::Format));
    assert_eq!(Uuid::from_hex("urn:uuic:6ba7b810-9dad-11d1-80b4-00c04fd430c8"), Err(UuidError::Format));
}

#[test]
fn fields_and_subfields() {
    let u = sample();
    assert_eq!(u.fields(), (0x12345678, 0x1234, 0x5678, 0x12, 0x34, 0x567812345678));
    assert_eq!(u.time_low(), 0x12345678);
    assert_eq!(u.time_mid(), 0x1234);
    assert_eq!(u.time_hi_version(), 0x5678);
    assert_eq!(u.clock_seq_hi_variant(), 0x12);
    assert_eq!(u.clock_seq_low(), 0x34);
    assert_eq!(u.node(), 0x567812345678);
    assert_eq!(u.clock_seq(), 0x1234);
    assert_eq!(u.time(), 0x0678_1234_12345678);
    assert_eq!(u.version(), 5);
    let f = Uuid::from_fields((0x12345678, 0x1234, 0x5678, 0x12, 0x34, 0x567812345678));
    assert_eq!(f, u);
}

#[test]
fn variants_follow_octet_eight() {
    let with_octet8 = |b: u8| Uuid::from_int((b as u128) << 56);
    assert_eq!(with_octet8(0x00).variant(), Variant::Ncs);
    assert_eq!(with_octet8(0x7f).variant(), Variant::Ncs);
    assert_eq!(with_octet8(0x80).variant(), Variant::Rfc4122);
    assert_eq!(with_octet8(0xbf).variant(), Variant::Rfc4122);
    assert_eq!(with_octet8(0xc0).variant(), Variant::Microsoft);
    assert_eq!(with_octet8(0xdf).variant(), Variant::Microsoft);
    assert_eq!(with_octet8(0xe0).variant(), Variant::Future);
    assert_eq!(with_octet8(0xff).variant(), Variant::Future);
    assert_eq!(Variant::Ncs.label(), RESERVED_NCS);
    assert_eq!(Variant::Rfc4122.label(), RFC_4122);
    assert_eq!(Variant::Microsoft.label(), RESERVED_MICROSOFT);
    assert_eq!(Variant::Future.label(), RESERVED_FUTURE);
    assert_eq!(RFC_4122, "specified in RFC 4122");
}

#[test]
fn with_version_sets_version_and_variant() {
    for v in [0u128, u128::MAX, SAMPLE] {
        for k in 1u8..=8 {
            let r = Uuid::from_int(v).with_version(k).unwrap();
            assert_eq!(r.version(), k);
            assert_eq!(r.variant(), Variant::Rfc4122);
        }
    }
}

#[test]
fn with_version_keeps_other_bits() {
    let keep: u128 = 0xffff_ffff_ffff_0fff_3fff_ffff_ffff_ffff;
    for v in [0u128, u128::MAX, SAMPLE, 0xdead_beef_0000_ffff_0000_1234_5678_9abc] {
        let r = Uuid::from_int(v).with_version(4).unwrap();
        assert_eq!(r.as_int() & keep, v & keep);
    }
    assert_eq!(
        Uuid::from_int(0).with_version(4).unwrap().as_int(),
        0x00000000_0000_4000_8000_000000000000
    );
    assert_eq!(
        Uuid::from_int(u128::MAX).with_version(1).unwrap().as_int(),
        0xffffffff_ffff_1fff_bfff_ffffffffffff
    );
}

#[test]
fn with_version_refuses_illegal_numbers() {
    assert_eq!(sample().with_version(9), Err(UuidError::Argument));
    assert_eq!(sample().with_version(0), Err(UuidError::Argument));
    assert_eq!(sample().with_version(255), Err(UuidError::Argument));
}

#[test]
fn new_takes_exactly_one_source() {
    let text = "12345678-1234-5678-1234-567812345678";
    assert_eq!(Uuid::new(Some(text), None, None, None, None, None), Ok(sample()));
    assert_eq!(Uuid::new(None, None, None, None, Some(SAMPLE), None), Ok(sample()));
    let b = sample().bytes();
    assert_eq!(Uuid::new(None, Some(&b), None, None, None, None), Ok(sample()));
    let le = sample().bytes_le();
    assert_eq!(Uuid::new(None, None, Some(&le), None, None, None), Ok(sample()));
    assert_eq!(Uuid::new(None, None, None, Some(sample().fields()), None, None), Ok(sample()));
    assert_eq!(Uuid::new(Some(text), None, None, None, Some(SAMPLE), None), Err(UuidError::Argument));
    assert_eq!(Uuid::new(None, None, None, None, None, None), Err(UuidError::Argument));
    assert_eq!(Uuid::new(Some("not-a-uuid"), None, None, None, None, Some(4)), Err(UuidError::Format));
    assert_eq!(Uuid::new(None, Some(&[1u8, 2]), None, None, None, None), Err(UuidError::Length));
}

#[test]
fn new_applies_the_version() {
    let r = Uuid::new(None, None, None, None, Some(0), Some(4)).unwrap();
    assert_eq!(r.as_int(), 0x00000000_0000_4000_8000_000000000000);
    assert_eq!(Uuid::new(None, None, None, None, Some(0), Some(9)), Err(UuidError::Argument));
}

#[test]
fn ordering_and_equality_follow_the_integer() {
    assert!(Uuid::from_int(1) < Uuid::from_int(2));
    assert!(Uuid::from_int(u128::MAX) > Uuid::from_int(1u128 << 127));
    assert_eq!(Uuid::from_int(7), Uuid::from_int(7));
    assert_ne!(Uuid::from_int(7), Uuid::from_int(8));
}

#[test]
fn namespaces_are_the_well_known_values() {
    assert_eq!(Uuid::namespace_dns().to_string(), "6ba7b810-9dad-11d1-80b4-00c04fd430c8");
    assert_eq!(Uuid::namespace_url().to_string(), "6ba7b811-9dad-11d1-80b4-00c04fd430c8");
    assert_eq!(Uuid::namespace_oid().to_string(), "6ba7b812-9dad-11d1-80b4-00c04fd430c8");
    assert_eq!(Uuid::namespace_x500().to_string(), "6ba7b814-9dad-11d1-80b4-00c04fd430c8");
    assert_eq!(Uuid::namespace_dns().as_int(), uuid::Uuid::NAMESPACE_DNS.as_u128());
    assert_eq!(Uuid::namespace_x500().as_int(), uuid::Uuid::NAMESPACE_X500.as_u128());
}

#[test]
fn timestamp_unavailable_for_other_versions() {
    let v4 = Uuid::from_int(0).with_version(4).unwrap();
    assert_eq!(v4.timestamp(), Err(UuidError::TimestampUnavailable));
    assert_eq!(Uuid::from_int(0).timestamp(), Err(UuidError::TimestampUnavailable));
}

#[test]
fn timestamp_of_version_seven_is_its_top_bits() {
    let v = (1_700_000_000_005u128 << 80) | 0x7000_8000_0000_0000_0000;
    assert_eq!(Uuid::from_int(v).timestamp(), Ok(1_700_000_000_005));
}
