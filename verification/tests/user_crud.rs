use attendance_core::api::Mutation;
use attendance_core::api::Query;
use attendance_core::bootstrap::BootstrapState;
use attendance_core::errors::ApiError;
use attendance_core::errors::IdentityError;
use attendance_core::errors::IdentityHint;
use attendance_core::store::Store;
use attendance_core::tables::TokenCapability;

const BOOT: BootstrapState = BootstrapState::Normal;
const COLLECTOR: Option<TokenCapability> = Some(TokenCapability::Collector);
const VIEWER: Option<TokenCapability> = Some(TokenCapability::Viewer);
const ADMIN: Option<TokenCapability> = Some(TokenCapability::Administrator);

fn sample_store() -> Store {
    let mut store = Store::new();
    let m = Mutation;
    m.create_user(
        &mut store,
        BOOT,
        COLLECTOR,
        "Ada Lovelace".to_string(),
        "ada@example.com".to_string(),
        Some("+1-555-0100".to_string()),
        Some(vec![("badge".to_string(), "b-1".to_string())]),
        100,
    )
    .unwrap();
    m.create_user(
        &mut store,
        BOOT,
        COLLECTOR,
        "Grace Hopper".to_string(),
        "grace@example.com".to_string(),
        None,
        None,
        101,
    )
    .unwrap();
    store
}

#[test]
fn created_user_carries_the_supplied_fields() {
    let mut store = Store::new();
    let u = Mutation
        .create_user(
            &mut store,
            BOOT,
            COLLECTOR,
            "Ada Lovelace".to_string(),
            "ada@example.com".to_string(),
            Some("+1-555-0100".to_string()),
            Some(vec![("badge".to_string(), "b-1".to_string())]),
            100,
        )
        .unwrap();
    assert_eq!(u.uuid, 1);
    assert_eq!(u.full_name, "Ada Lovelace");
    assert_eq!(u.email, "ada@example.com");
    assert_eq!(u.phone_number, Some("+1-555-0100".to_string()));
    assert_eq!(u.create_time, 100);
    assert_eq!(u.update_time, None);
    assert_eq!(u.alt_id_fields, Some(vec![("badge".to_string(), "b-1".to_string())]));
    assert_eq!(store.users.len(), 1);
    assert_eq!(u.uuid_text(), "00000000-0000-0000-0000-000000000001");
}

#[test]
fn creating_requires_the_collector_capability() {
    let mut store = Store::new();
    let r = Mutation.create_user(
        &mut store,
        BOOT,
        VIEWER,
        "X".to_string(),
        "x@example.com".to_string(),
        None,
        None,
        1,
    );
    assert_eq!(r, Err(ApiError::AuthorizationDenied));
    assert_eq!(store.users.len(), 0);
}

#[test]
fn update_is_a_merge_patch() {
    let mut store = sample_store();
    let uuid = "00000000-0000-0000-0000-000000000001".to_string();
    let u = Mutation
        .update_user(&mut store, BOOT, COLLECTOR, &uuid, Some("X".to_string()), None, None, None)
        .unwrap();
    // Only the supplied field changed; everything else kept its value.
    assert_eq!(u.full_name, "X");
    assert_eq!(u.email, "ada@example.com");
    assert_eq!(u.phone_number, Some("+1-555-0100".to_string()));
    assert_eq!(u.alt_id_fields, Some(vec![("badge".to_string(), "b-1".to_string())]));
    assert_eq!(u.create_time, 100);
    assert_eq!(u.update_time, None);
    // And the store holds the same row.
    assert_eq!(store.users[0], u);
    // The other user was not touched.
    assert_eq!(store.users[1].full_name, "Grace Hopper");
}

#[test]
fn update_can_patch_each_field_independently() {
    let mut store = sample_store();
    let uuid = "00000000-0000-0000-0000-000000000002".to_string();
    let u = Mutation
        .update_user(
            &mut store,
            BOOT,
            COLLECTOR,
            &uuid,
            None,
            Some("grace@navy.example".to_string()),
            Some("+1-555-0199".to_string()),
            Some(vec![("locker".to_string(), "l-9".to_string())]),
        )
        .unwrap();
    assert_eq!(u.full_name, "Grace Hopper");
    assert_eq!(u.email, "grace@navy.example");
    assert_eq!(u.phone_number, Some("+1-555-0199".to_string()));
    assert_eq!(u.alt_id_fields, Some(vec![("locker".to_string(), "l-9".to_string())]));
}

#[test]
fn update_failures() {
    let mut store = sample_store();
    let r = Mutation.update_user(
        &mut store,
        BOOT,
        COLLECTOR,
        &"bogus".to_string(),
        Some("X".to_string()),
        None,
        None,
        None,
    );
    assert_eq!(r, Err(ApiError::IdentityResolutionFailed(IdentityError::MalformedIdentifier)));
    let r2 = Mutation.update_user(
        &mut store,
        BOOT,
        COLLECTOR,
        &"00000000-0000-0000-0000-00000000ffff".to_string(),
        Some("X".to_string()),
        None,
        None,
        None,
    );
    assert_eq!(
        r2,
        Err(ApiError::IdentityResolutionFailed(IdentityError::NotFound(IdentityHint::PrimaryId)))
    );
    // Nothing changed.
    assert_eq!(store.users[0].full_name, "Ada Lovelace");
}

#[test]
fn listing_and_name_lookups() {
    let store = sample_store();
    let q = Query;
    let all = q.users(&store, BOOT, VIEWER).unwrap();
    assert_eq!(all.len(), 2);
    assert_eq!(all[0].full_name, "Ada Lovelace");

    let exact = q.user_by_full_name_match(&store, BOOT, VIEWER, &"Grace Hopper".to_string()).unwrap();
    assert_eq!(exact.len(), 1);
    assert_eq!(exact[0].email, "grace@example.com");
    let none = q.user_by_full_name_match(&store, BOOT, VIEWER, &"Grace".to_string()).unwrap();
    assert_eq!(none.len(), 0);

    let sub = q.user_by_full_name_search(&store, BOOT, VIEWER, &"race".to_string()).unwrap();
    assert_eq!(sub.len(), 1);
    assert_eq!(sub[0].full_name, "Grace Hopper");
    let both = q.user_by_full_name_search(&store, BOOT, VIEWER, &"a".to_string()).unwrap();
    assert_eq!(both.len(), 2);
}

#[test]
fn single_row_lookups() {
    let store = sample_store();
    let q = Query;
    let ada = q
        .user_by_uuid(&store, BOOT, VIEWER, &"00000000-0000-0000-0000-000000000001".to_string())
        .unwrap()
        .unwrap();
    assert_eq!(ada.email, "ada@example.com");
    // An unparsable identifier yields no row rather than an error.
    assert_eq!(q.user_by_uuid(&store, BOOT, VIEWER, &"junk".to_string()), Ok(None));
    // A missing row surfaces as the store's error, as a single-row lookup does.
    assert_eq!(
        q.user_by_uuid(&store, BOOT, VIEWER, &"00000000-0000-0000-0000-00000000ffff".to_string()),
        Err(ApiError::PersistenceError)
    );

    let grace = q.user_by_email(&store, BOOT, COLLECTOR, &"grace@example.com".to_string()).unwrap().unwrap();
    assert_eq!(grace.uuid, 2);
    assert_eq!(
        q.user_by_email(&store, BOOT, VIEWER, &"nobody@example.com".to_string()),
        Err(ApiError::PersistenceError)
    );
    assert_eq!(
        ApiError::PersistenceError.message(),
        "An internal persistence error occurred."
    );

    let by_alt = q
        .user_by_alt_id_field(&store, BOOT, COLLECTOR, &"badge".to_string(), &"b-1".to_string())
        .unwrap()
        .unwrap();
    assert_eq!(by_alt.uuid, 1);
    // The alternate-id lookup is restricted to collectors.
    assert_eq!(
        q.user_by_alt_id_field(&store, BOOT, VIEWER, &"badge".to_string(), &"b-1".to_string()),
        Err(ApiError::AuthorizationDenied)
    );
}

#[test]
fn attendance_listings() {
    let mut store = sample_store();
    let m = Mutation;
    let q = Query;
    let ada = "00000000-0000-0000-0000-000000000001".to_string();
    let grace = "00000000-0000-0000-0000-000000000002".to_string();
    m.log_attendance(&mut store, BOOT, COLLECTOR, Some(ada.clone()), None, None, None, 1000).unwrap();
    m.log_attendance(&mut store, BOOT, COLLECTOR, Some(grace.clone()), None, None, None, 2000).unwrap();

    let all = q.attendance(&store, BOOT, VIEWER).unwrap();
    assert_eq!(all.len(), 2);

    let at_1000 = q.attendance_by_date(&store, BOOT, VIEWER, 1000).unwrap();
    assert_eq!(at_1000.len(), 1);
    assert_eq!(at_1000[0].user_uuid, 1);
    assert_eq!(at_1000[0].user_uuid_text(), ada);

    let of_ada = q.user_by_uuid(&store, BOOT, VIEWER, &ada).unwrap().unwrap().attendance(&store);
    assert_eq!(of_ada.len(), 1);
    assert_eq!(of_ada[0].in_time, 1000);
}

#[test]
fn administrators_pass_every_guard() {
    let store = sample_store();
    let q = Query;
    assert!(q.users(&store, BOOT, ADMIN).is_ok());
    assert!(q.user_by_alt_id_field(&store, BOOT, ADMIN, &"badge".to_string(), &"b-1".to_string()).is_ok());
    // A collector may not list users (a viewer-only operation).
    assert_eq!(q.users(&store, BOOT, COLLECTOR), Err(ApiError::AuthorizationDenied));
    // And an absent capability is denied as unauthenticated.
    assert_eq!(q.users(&store, BOOT, None), Err(ApiError::AuthenticationMissing));
}
#[test]
fn name_search_edge_cases() {
    let store = sample_store();
    let q = Query;
    // An empty needle matches every name.
    let all = q.user_by_full_name_search(&store, BOOT, VIEWER, &"".to_string()).unwrap();
    assert_eq!(all.len(), 2);
    // A needle longer than any name matches nothing.
    let none = q
        .user_by_full_name_search(&store, BOOT, VIEWER, &"a name far longer than any stored one".to_string())
        .unwrap();
    assert_eq!(none.len(), 0);
}

#[test]
fn name_search_handles_wide_characters() {
    let mut store = Store::new();
    Mutation
        .create_user(
            &mut store,
            BOOT,
            COLLECTOR,
            "Žofia Čierna".to_string(),
            "zofia@example.com".to_string(),
            None,
            None,
            1,
        )
        .unwrap();
    let q = Query;
    let hit = q.user_by_full_name_search(&store, BOOT, VIEWER, &"ia Č".to_string()).unwrap();
    assert_eq!(hit.len(), 1);
    let miss = q.user_by_full_name_search(&store, BOOT, VIEWER, &"Ž Č".to_string()).unwrap();
    assert_eq!(miss.len(), 0);
    let exact = q.user_by_full_name_match(&store, BOOT, VIEWER, &"Žofia Čierna".to_string()).unwrap();
    assert_eq!(exact.len(), 1);
}

