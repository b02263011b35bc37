use attendance_core::errors::ApiError;
use attendance_core::tables::CapabilityGuard;
use attendance_core::tables::TokenCapability;

fn allowed(held: Option<TokenCapability>, required: TokenCapability) -> bool {
    CapabilityGuard { capability: required }.check(held).is_ok()
}

#[test]
fn capability_matrix() {
    let caps = [TokenCapability::Collector, TokenCapability::Viewer, TokenCapability::Administrator];
    let helds = [
        None,
        Some(TokenCapability::Collector),
        Some(TokenCapability::Viewer),
        Some(TokenCapability::Administrator),
    ];
    for required in caps {
        for held in helds {
            let expect = held == Some(required) || held == Some(TokenCapability::Administrator);
            assert_eq!(allowed(held, required), expect, "held {:?} required {:?}", held, required);
        }
    }
}

#[test]
fn denial_is_opaque() {
    let guard = CapabilityGuard { capability: TokenCapability::Viewer };
    let e = guard.check(Some(TokenCapability::Collector)).unwrap_err();
    assert_eq!(e, ApiError::AuthorizationDenied);
    assert_eq!(e.message(), "You are not allowed to access this resource.");
    let e2 = guard.check(None).unwrap_err();
    assert_eq!(e2.message(), "You are not allowed to access this resource.");
}

#[test]
fn capability_tokens_are_lowercase() {
    assert_eq!(TokenCapability::Collector.as_token(), "collector");
    assert_eq!(TokenCapability::Viewer.as_token(), "viewer");
    assert_eq!(TokenCapability::Administrator.as_token(), "administrator");
}

#[test]
fn capability_token_parsing_rejects_unknown_values() {
    assert_eq!(
        TokenCapability::from_token(&"collector".to_string()),
        Some(TokenCapability::Collector)
    );
    assert_eq!(TokenCapability::from_token(&"viewer".to_string()), Some(TokenCapability::Viewer));
    assert_eq!(
        TokenCapability::from_token(&"administrator".to_string()),
        Some(TokenCapability::Administrator)
    );
    assert_eq!(TokenCapability::from_token(&"Viewer".to_string()), None);
    assert_eq!(TokenCapability::from_token(&"root".to_string()), None);
    assert_eq!(TokenCapability::from_token(&"".to_string()), None);
}
