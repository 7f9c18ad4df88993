use qa_api::identifier::Uuid;

const VALUE: u128 = 0x67e55044_10b1_426f_9247_bb680e5fe0c8;

#[test]
fn parses_hyphenated_text() {
    let id = Uuid::parse_str("67e55044-10b1-426f-9247-bb680e5fe0c8").unwrap();
    assert_eq!(id.as_u128(), VALUE);
}

#[test]
fn parses_simple_text() {
    let id = Uuid::parse_str("67e5504410b1426f9247bb680e5fe0c8").unwrap();
    assert_eq!(id.as_u128(), VALUE);
}

#[test]
fn parses_braced_text() {
    let id = Uuid::parse_str("{67e55044-10b1-426f-9247-bb680e5fe0c8}").unwrap();
    assert_eq!(id.as_u128(), VALUE);
}

#[test]
fn parses_urn_text_in_either_case() {
    let lower = Uuid::parse_str("urn:uuid:67e55044-10b1-426f-9247-bb680e5fe0c8").unwrap();
    let upper = Uuid::parse_str("URN:UUID:67e55044-10b1-426f-9247-bb680e5fe0c8").unwrap();
    let mixed = Uuid::parse_str("Urn:Uuid:67e55044-10b1-426f-9247-bb680e5fe0c8").unwrap();
    assert_eq!(lower.as_u128(), VALUE);
    assert_eq!(upper.as_u128(), VALUE);
    assert_eq!(mixed.as_u128(), VALUE);
}

#[test]
fn parses_upper_case_digits() {
    let id = Uuid::parse_str("F9168C5E-CEB2-4faa-B6BF-329BF39FA1E4").unwrap();
    assert_eq!(id.as_u128(), 0xf9168c5e_ceb2_4faa_b6bf_329bf39fa1e4);
}

#[test]
fn parses_the_extremes() {
    assert_eq!(Uuid::parse_str("00000000-0000-0000-0000-000000000000").unwrap().as_u128(), 0);
    assert_eq!(
        Uuid::parse_str("ffffffff-ffff-ffff-ffff-ffffffffffff").unwrap().as_u128(),
        u128::MAX
    );
}

#[test]
fn refuses_the_empty_text() {
    assert_eq!(Uuid::parse_str("").unwrap_err(), "invalid length: found 0");
}

#[test]
fn refuses_a_foreign_character() {
    assert_eq!(
        Uuid::parse_str("not-a-uuid").unwrap_err(),
        "invalid character: found `n` at 0"
    );
}

#[test]
fn refuses_too_few_digits() {
    assert_eq!(
        Uuid::parse_str("67e5504410b1426f9247bb680e5fe0c").unwrap_err(),
        "invalid length: found 31"
    );
}

#[test]
fn refuses_a_missing_hyphen() {
    assert_eq!(
        Uuid::parse_str("F9168C5E-CEB2-4faa-B6BFF329BF39FA1E4").unwrap_err(),
        "invalid group count: expected 5, found 4"
    );
}

#[test]
fn refuses_a_short_group() {
    assert_eq!(
        Uuid::parse_str("F9168C5E-CEB2-4faa-BBF-329BF39FA1E4").unwrap_err(),
        "invalid group length in group 3: expected 4, found 3"
    );
}

#[test]
fn refuses_braces_around_simple_text() {
    assert!(Uuid::parse_str("{67e5504410b1426f9247bb680e5fe0c8}").is_err());
}

#[test]
fn refuses_a_hyphen_in_the_wrong_place() {
    assert!(Uuid::parse_str("67e5504-410b1-426f-9247-bb680e5fe0c8").is_err());
}

#[test]
fn refuses_a_character_of_several_bytes() {
    assert!(Uuid::parse_str("67e55044-10b1-426f-9247-bb680e5fe0\u{e9}").is_err());
    assert!(Uuid::parse_str("67e55044-10b1-426f-9247-bb680e5fe0c\u{e9}").is_err());
}

#[test]
fn writes_lower_case_hyphenated_text() {
    assert_eq!(Uuid::from_u128(VALUE).to_text(), "67e55044-10b1-426f-9247-bb680e5fe0c8");
    assert_eq!(Uuid::from_u128(0).to_text(), "00000000-0000-0000-0000-000000000000");
    assert_eq!(Uuid::from_u128(1).to_text(), "00000000-0000-0000-0000-000000000001");
    assert_eq!(Uuid::from_u128(u128::MAX).to_text(), "ffffffff-ffff-ffff-ffff-ffffffffffff");
    assert_eq!(
        Uuid::from_u128(0x0123456789abcdef_fedcba9876543210).to_text(),
        "01234567-89ab-cdef-fedc-ba9876543210"
    );
}

#[test]
fn text_reads_back_as_the_value() {
    let values = [0u128, 1, 15, 16, 255, VALUE, u128::MAX - 1, u128::MAX, 1 << 64, 1 << 127];
    for value in values {
        let text = Uuid::from_u128(value).to_text();
        assert_eq!(text.len(), 36);
        assert_eq!(Uuid::parse_str(&text).unwrap().as_u128(), value);
    }
}

#[test]
fn identifiers_compare_by_value() {
    assert_eq!(Uuid::from_u128(7), Uuid::from_u128(7));
    assert_ne!(Uuid::from_u128(7), Uuid::from_u128(8));
}
