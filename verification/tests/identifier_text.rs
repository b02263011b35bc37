use attendance_core::ids::format_uuid;
use attendance_core::ids::parse_uuid;

#[test]
fn parses_hyphenated_form() {
    assert_eq!(parse_uuid("00000000-0000-0000-0000-000000000001"), Some(1));
    assert_eq!(
        parse_uuid("123e4567-e89b-12d3-a456-426614174000"),
        Some(0x123e4567_e89b_12d3_a456_426614174000u128)
    );
    assert_eq!(
        parse_uuid("ffffffff-ffff-ffff-ffff-ffffffffffff"),
        Some(u128::MAX)
    );
}

#[test]
fn parses_plain_form_and_uppercase() {
    assert_eq!(parse_uuid("00000000000000000000000000000001"), Some(1));
    assert_eq!(
        parse_uuid("123E4567-E89B-12D3-A456-426614174000"),
        Some(0x123e4567_e89b_12d3_a456_426614174000u128)
    );
    assert_eq!(parse_uuid("ABCDEF00000000000000000000000000"), parse_uuid("abcdef00000000000000000000000000"));
}

#[test]
fn rejects_malformed_identifiers() {
    assert_eq!(parse_uuid(""), None);
    assert_eq!(parse_uuid("123"), None);
    assert_eq!(parse_uuid("g3e4567-e89b-12d3-a456-4266141740000"), None);
    // Right length, wrong hyphen positions.
    assert_eq!(parse_uuid("123e4567e-89b-12d3-a456-426614174000"), None);
    // Right shape, a non-hex character inside.
    assert_eq!(parse_uuid("123e4567-e89b-12d3-a456-42661417400z"), None);
    assert_eq!(parse_uuid("123e4567-e89b-12d3-a456-4266141740000"), None);
    // 32 characters but not hex digits.
    assert_eq!(parse_uuid("zzzzzzzzzzzzzzzzzzzzzzzzzzzzzzzz"), None);
}

#[test]
fn formats_canonical_lowercase_hyphenated() {
    assert_eq!(format_uuid(0), "00000000-0000-0000-0000-000000000000");
    assert_eq!(format_uuid(1), "00000000-0000-0000-0000-000000000001");
    assert_eq!(format_uuid(u128::MAX), "ffffffff-ffff-ffff-ffff-ffffffffffff");
    assert_eq!(
        format_uuid(0x123e4567_e89b_12d3_a456_426614174000u128),
        "123e4567-e89b-12d3-a456-426614174000"
    );
}

#[test]
fn format_then_parse_is_identity() {
    for v in [0u128, 1, 15, 16, 0xdead_beef, u128::MAX / 7, u128::MAX] {
        assert_eq!(parse_uuid(&format_uuid(v)), Some(v));
    }
}
