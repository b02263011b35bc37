use attendance_core::bootstrap::BootstrapState;
use attendance_core::api::Mutation;
use attendance_core::errors::IdentityError;
use attendance_core::errors::IdentityHint;
use attendance_core::identity::resolve_identity;
use attendance_core::store::Store;
use attendance_core::tables::TokenCapability;

/// Three users: one addressed by primary identifier, one by email, one by
/// an alternate-id pair.
fn store_with_three_users() -> (Store, u128, u128, u128) {
    let mut store = Store::new();
    let m = Mutation;
    let boot = BootstrapState::Normal;
    let held = Some(TokenCapability::Collector);
    let a = m
        .create_user(&mut store, boot, held, "Ada".to_string(), "ada@example.com".to_string(), None, None, 100)
        .unwrap();
    let b = m
        .create_user(&mut store, boot, held, "Grace".to_string(), "grace@example.com".to_string(), None, None, 101)
        .unwrap();
    let c = m
        .create_user(
            &mut store,
            boot,
            held,
            "Alan".to_string(),
            "alan@example.com".to_string(),
            None,
            Some(vec![("badge".to_string(), "b-42".to_string())]),
            102,
        )
        .unwrap();
    (store, a.uuid, b.uuid, c.uuid)
}

#[test]
fn primary_identifier_wins_over_everything() {
    let (store, a, _b, _c) = store_with_three_users();
    let r = resolve_identity(
        &store,
        Some(attendance_core::ids::format_uuid(a)),
        Some("grace@example.com".to_string()),
        Some("badge".to_string()),
        Some("b-42".to_string()),
    );
    assert_eq!(r, Ok(a));
}

#[test]
fn email_wins_over_alternate_pair() {
    let (store, _a, b, _c) = store_with_three_users();
    let r = resolve_identity(
        &store,
        None,
        Some("grace@example.com".to_string()),
        Some("badge".to_string()),
        Some("b-42".to_string()),
    );
    assert_eq!(r, Ok(b));
}

#[test]
fn alternate_pair_is_the_last_resort() {
    let (store, _a, _b, c) = store_with_three_users();
    let r = resolve_identity(&store, None, None, Some("badge".to_string()), Some("b-42".to_string()));
    assert_eq!(r, Ok(c));
}

#[test]
fn malformed_primary_fails_loudly_without_falling_through() {
    let (store, _a, _b, _c) = store_with_three_users();
    let r = resolve_identity(
        &store,
        Some("not-a-uuid".to_string()),
        Some("grace@example.com".to_string()),
        Some("badge".to_string()),
        Some("b-42".to_string()),
    );
    assert_eq!(r, Err(IdentityError::MalformedIdentifier));
}

#[test]
fn unknown_email_is_not_found() {
    let (store, _a, _b, _c) = store_with_three_users();
    let r = resolve_identity(&store, None, Some("nobody@example.com".to_string()), None, None);
    assert_eq!(r, Err(IdentityError::NotFound(IdentityHint::Email)));
    assert_eq!(r.unwrap_err().message(), "No user matches the supplied email address.");
}

#[test]
fn unknown_alternate_pair_is_not_found() {
    let (store, _a, _b, _c) = store_with_three_users();
    let r = resolve_identity(&store, None, None, Some("badge".to_string()), Some("b-999".to_string()));
    assert_eq!(r, Err(IdentityError::NotFound(IdentityHint::AltId)));
    assert_eq!(r.unwrap_err().message(), "No user matches the supplied alternate-id pair.");
    let r2 = resolve_identity(&store, None, None, Some("locker".to_string()), Some("b-42".to_string()));
    assert_eq!(r2, Err(IdentityError::NotFound(IdentityHint::AltId)));
}

#[test]
fn no_hint_at_all_is_missing_identity() {
    let (store, _a, _b, _c) = store_with_three_users();
    assert_eq!(resolve_identity(&store, None, None, None, None), Err(IdentityError::MissingIdentity));
    // Half an alternate pair is not a hint.
    assert_eq!(
        resolve_identity(&store, None, None, Some("badge".to_string()), None),
        Err(IdentityError::MissingIdentity)
    );
    assert_eq!(
        IdentityError::MissingIdentity.message(),
        "You must specify an identifying hint."
    );
}

#[test]
fn parsed_identifier_need_not_exist() {
    // The primary-identifier path parses and answers directly; existence
    // is the caller's concern.
    let (store, _a, _b, _c) = store_with_three_users();
    let r = resolve_identity(
        &store,
        Some("ffffffff-ffff-ffff-ffff-ffffffffffff".to_string()),
        None,
        None,
        None,
    );
    assert_eq!(r, Ok(u128::MAX));
}
