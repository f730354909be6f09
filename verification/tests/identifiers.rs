use inventory_core::Uuid;

#[test]
fn canonical_text_of_small_values() {
    assert_eq!("00000000-0000-0000-0000-000000000000", Uuid::from_u128(0).to_text());
    assert_eq!("00000000-0000-0000-0000-000000000001", Uuid::from_u128(1).to_text());
    assert_eq!("00000000-0000-0000-0000-00000000000f", Uuid::from_u128(15).to_text());
    assert_eq!("00000000-0000-0000-0000-000000000010", Uuid::from_u128(16).to_text());
}

#[test]
fn canonical_text_groups_the_digits() {
    let id = Uuid::from_u128(0x0123_4567_89ab_cdef_fedc_ba98_7654_3210);

    assert_eq!("01234567-89ab-cdef-fedc-ba9876543210", id.to_text());
    assert_eq!("ffffffff-ffff-ffff-ffff-ffffffffffff", Uuid::from_u128(u128::MAX).to_text());
}

#[test]
fn canonical_text_is_what_the_uuid_crate_writes() {
    for value in [0u128, 1, 0xdead_beef, 1 << 64, 1 << 127, u128::MAX - 1] {
        assert_eq!(uuid::Uuid::from_u128(value).to_string(), Uuid::from_u128(value).to_text());
    }
}

#[test]
fn value_goes_in_and_out() {
    let id = Uuid::from_u128(0x550e8400_e29b_41d4_a716_446655440000);

    assert_eq!(0x550e8400_e29b_41d4_a716_446655440000, id.as_u128());
    assert_eq!(0x550e8400_e29b_41d4_a716_446655440000, id.value);
}

#[test]
fn canonical_text_parses_back() {
    for value in [0u128, 1, 15, 16, 0xdead_beef, 1 << 64, 1 << 127, u128::MAX] {
        let id = Uuid::from_u128(value);
        assert_eq!(Some(id), Uuid::parse_str(&id.to_text()));
    }
}

#[test]
fn parses_the_forms_that_the_parser_knows() {
    let expected = Some(Uuid::from_u128(0x550e8400_e29b_41d4_a716_446655440000));

    assert_eq!(expected, Uuid::parse_str("550e8400-e29b-41d4-a716-446655440000"));
    assert_eq!(expected, Uuid::parse_str("550E8400-E29B-41D4-A716-446655440000"));
    assert_eq!(expected, Uuid::parse_str("550e8400e29b41d4a716446655440000"));
    assert_eq!(expected, Uuid::parse_str("{550e8400-e29b-41d4-a716-446655440000}"));
    assert_eq!(expected, Uuid::parse_str("urn:uuid:550e8400-e29b-41d4-a716-446655440000"));
}

#[test]
fn rejects_what_is_no_identifier() {
    assert_eq!(None, Uuid::parse_str(""));
    assert_eq!(None, Uuid::parse_str("pc"));
    assert_eq!(None, Uuid::parse_str("550e8400-e29b-41d4-a716-44665544000"));
    assert_eq!(None, Uuid::parse_str("550e8400-e29b-41d4-a716-44665544000g"));
    assert_eq!(None, Uuid::parse_str("550e8400:e29b:41d4:a716:446655440000"));
    assert_eq!(
        None,
        Uuid::parse_str("00000000-0000-0000-0000-000000000000:00000000-0000-0000-0000-000000000001")
    );
}
