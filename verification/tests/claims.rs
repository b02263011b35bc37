use attendance_core::errors::TokenError;
use attendance_core::jwt::interpret_claims;
use attendance_core::tables::TokenCapability;

const NOW: i64 = 1_000_000;

fn s(text: &str) -> Option<String> {
    Some(text.to_string())
}

#[test]
fn well_formed_claims_are_accepted() {
    let c = interpret_claims(s("u-1"), s("viewer"), Some(NOW + 60), None, NOW).unwrap();
    assert_eq!(c.uuid, "u-1");
    assert_eq!(c.cap, TokenCapability::Viewer);
    assert_eq!(c.exp, NOW + 60);
    assert_eq!(c.nbf, None);
}

#[test]
fn each_capability_token_is_understood() {
    for (text, cap) in [
        ("collector", TokenCapability::Collector),
        ("viewer", TokenCapability::Viewer),
        ("administrator", TokenCapability::Administrator),
    ] {
        let c = interpret_claims(s("u"), s(text), Some(NOW + 1), None, NOW).unwrap();
        assert_eq!(c.cap, cap);
    }
}

#[test]
fn unknown_capability_is_malformed() {
    assert_eq!(
        interpret_claims(s("u"), s("root"), Some(NOW + 60), None, NOW),
        Err(TokenError::Malformed)
    );
    assert_eq!(
        interpret_claims(s("u"), s("Viewer"), Some(NOW + 60), None, NOW),
        Err(TokenError::Malformed)
    );
}

#[test]
fn missing_claims_are_malformed() {
    assert_eq!(interpret_claims(None, s("viewer"), Some(NOW + 60), None, NOW), Err(TokenError::Malformed));
    assert_eq!(interpret_claims(s("u"), None, Some(NOW + 60), None, NOW), Err(TokenError::Malformed));
    assert_eq!(interpret_claims(s("u"), s("viewer"), None, None, NOW), Err(TokenError::Malformed));
    assert_eq!(TokenError::Malformed.message(), "The token claims are malformed.");
}

#[test]
fn expiry_is_checked_before_not_before() {
    // now at the expiry instant: expired, in preference to not-yet-valid.
    assert_eq!(
        interpret_claims(s("u"), s("viewer"), Some(NOW), Some(NOW + 5), NOW),
        Err(TokenError::Expired)
    );
    assert_eq!(
        interpret_claims(s("u"), s("viewer"), Some(NOW - 1), None, NOW),
        Err(TokenError::Expired)
    );
}

#[test]
fn not_before_is_inclusive() {
    assert_eq!(
        interpret_claims(s("u"), s("viewer"), Some(NOW + 60), Some(NOW + 1), NOW),
        Err(TokenError::NotYetValid)
    );
    let c = interpret_claims(s("u"), s("viewer"), Some(NOW + 60), Some(NOW), NOW).unwrap();
    assert_eq!(c.nbf, Some(NOW));
    assert_eq!(TokenError::NotYetValid.message(), "The token is not yet valid.");
}
