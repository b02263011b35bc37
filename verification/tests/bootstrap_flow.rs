use attendance_core::api::Mutation;
use attendance_core::api::Query;
use attendance_core::bootstrap::BootstrapState;
use attendance_core::bootstrap::GateDecision;
use attendance_core::bootstrap::after_request;
use attendance_core::bootstrap::gate_request;
use attendance_core::bootstrap::initial_state;
use attendance_core::errors::ApiError;
use attendance_core::jwt::load_signing_key;
use attendance_core::store::Store;
use attendance_core::tables::TokenCapability;
use p256::pkcs8::EncodePrivateKey;
use p256::pkcs8::LineEnding;

fn signing_key() -> jsonwebtoken::EncodingKey {
    let sk = p256::SecretKey::from_slice(&[7u8; 32]).unwrap();
    let prv_pem = sk.to_pkcs8_pem(LineEnding::LF).unwrap();
    load_signing_key(prv_pem.as_bytes()).unwrap()
}

#[test]
fn initial_state_from_token_count() {
    assert_eq!(initial_state(0), BootstrapState::Bootstrap);
    assert_eq!(initial_state(1), BootstrapState::Normal);
    assert_eq!(initial_state(17), BootstrapState::Normal);
}

#[test]
fn transition_is_one_way() {
    let b = BootstrapState::Bootstrap;
    let n = BootstrapState::Normal;
    assert_eq!(after_request(b, Some(0)), b);
    assert_eq!(after_request(b, Some(1)), n);
    assert_eq!(after_request(b, None), b);
    assert_eq!(after_request(n, Some(0)), n);
    assert_eq!(after_request(n, None), n);
}

#[test]
fn gate_decisions() {
    let b = BootstrapState::Bootstrap;
    let n = BootstrapState::Normal;
    assert_eq!(gate_request(b, false), GateDecision::Bypass);
    assert_eq!(gate_request(b, true), GateDecision::Bypass);
    assert_eq!(gate_request(n, true), GateDecision::VerifyToken);
    assert_eq!(gate_request(n, false), GateDecision::MissingAuth);
}

#[test]
fn bootstrap_lifecycle() {
    let key = signing_key();
    let mut store = Store::new();
    let mut boot = initial_state(store.token_count());
    assert_eq!(boot, BootstrapState::Bootstrap);

    // Any operation succeeds without a token while bootstrapping.
    let q = Query;
    assert!(q.users(&store, boot, None).is_ok());

    // The very first token is issued without any credentials.
    let m = Mutation;
    let now = 1_700_000_000i64;
    let jwt = m
        .generate_token(
            &mut store,
            boot,
            None,
            "first admin token".to_string(),
            TokenCapability::Administrator,
            None,
            now + 3600,
            &key,
            now,
        )
        .unwrap();
    assert!(!jwt.is_empty());

    // After the request completes, the re-count flips the state for good.
    boot = after_request(boot, Some(store.token_count()));
    assert_eq!(boot, BootstrapState::Normal);

    // The previously successful unauthenticated request is now rejected.
    assert_eq!(q.users(&store, boot, None), Err(ApiError::AuthenticationMissing));
    assert_eq!(
        ApiError::AuthenticationMissing.message(),
        "A valid token is missing. Please provide one in the HTTP header."
    );

    // And no later count ever brings the bypass back.
    boot = after_request(boot, Some(0));
    assert_eq!(boot, BootstrapState::Normal);
}

#[test]
fn issuing_requires_administrator_once_normal() {
    let key = signing_key();
    let mut store = Store::new();
    let m = Mutation;
    let now = 1_700_000_000i64;
    let r = m.generate_token(
        &mut store,
        BootstrapState::Normal,
        Some(TokenCapability::Viewer),
        "nope".to_string(),
        TokenCapability::Viewer,
        None,
        now + 10,
        &key,
        now,
    );
    assert_eq!(r, Err(ApiError::AuthorizationDenied));
    assert_eq!(store.tokens.len(), 0);

    let r2 = m.generate_token(
        &mut store,
        BootstrapState::Normal,
        None,
        "nope".to_string(),
        TokenCapability::Viewer,
        None,
        now + 10,
        &key,
        now,
    );
    assert_eq!(r2, Err(ApiError::AuthenticationMissing));

    let r3 = m.generate_token(
        &mut store,
        BootstrapState::Normal,
        Some(TokenCapability::Administrator),
        "fine".to_string(),
        TokenCapability::Collector,
        None,
        now + 10,
        &key,
        now,
    );
    assert!(r3.is_ok());
    assert_eq!(store.tokens.len(), 1);
    assert_eq!(store.tokens[0].capability, TokenCapability::Collector);
    assert_eq!(store.tokens[0].description, "fine");
}
