use attendance_core::api::Mutation;
use attendance_core::attendance::CHECKOUT_WINDOW_SECONDS;
use attendance_core::bootstrap::BootstrapState;
use attendance_core::errors::ApiError;
use attendance_core::errors::IdentityError;
use attendance_core::store::Store;
use attendance_core::tables::TokenCapability;

const BOOT: BootstrapState = BootstrapState::Normal;
const HELD: Option<TokenCapability> = Some(TokenCapability::Collector);

fn store_with_user(now: i64) -> (Store, String) {
    let mut store = Store::new();
    let u = Mutation
        .create_user(&mut store, BOOT, HELD, "Ada".to_string(), "ada@example.com".to_string(), None, None, now)
        .unwrap();
    let text = u.uuid_text();
    (store, text)
}

fn log(store: &mut Store, uuid: &str, now: i64) -> Result<attendance_core::tables::Attendance, ApiError> {
    Mutation.log_attendance(store, BOOT, HELD, Some(uuid.to_string()), None, None, None, now)
}

#[test]
fn first_call_checks_in() {
    let t0 = 1000i64;
    let (mut store, uuid) = store_with_user(t0);
    let r = log(&mut store, &uuid, t0).unwrap();
    assert_eq!(r.in_time, t0);
    assert_eq!(r.out_time, None);
    assert_eq!(store.attendance.len(), 1);
}

#[test]
fn second_call_within_window_checks_out_the_same_record() {
    let t0 = 1000i64;
    let (mut store, uuid) = store_with_user(t0);
    let r1 = log(&mut store, &uuid, t0).unwrap();
    let r2 = log(&mut store, &uuid, t0 + 7200).unwrap();
    assert_eq!(r2.id, r1.id);
    assert_eq!(r2.in_time, t0);
    assert_eq!(r2.out_time, Some(t0 + 7200));
    assert!(r2.out_time.unwrap() >= r2.in_time);
    assert_eq!(store.attendance.len(), 1);
}

#[test]
fn window_boundary_is_inclusive() {
    // Exactly three hours after check-in still checks out.
    let t0 = 1000i64;
    let (mut store, uuid) = store_with_user(t0);
    let r1 = log(&mut store, &uuid, t0).unwrap();
    let r2 = log(&mut store, &uuid, t0 + CHECKOUT_WINDOW_SECONDS).unwrap();
    assert_eq!(r2.id, r1.id);
    assert_eq!(r2.out_time, Some(t0 + CHECKOUT_WINDOW_SECONDS));
}

#[test]
fn one_second_past_the_window_checks_in_anew() {
    // Three hours and one second later the stale session is left open and a
    // fresh record is created instead.
    let t0 = 1000i64;
    let (mut store, uuid) = store_with_user(t0);
    let r1 = log(&mut store, &uuid, t0).unwrap();
    let r2 = log(&mut store, &uuid, t0 + CHECKOUT_WINDOW_SECONDS + 1).unwrap();
    assert_ne!(r2.id, r1.id);
    assert_eq!(r2.in_time, t0 + CHECKOUT_WINDOW_SECONDS + 1);
    assert_eq!(r2.out_time, None);
    assert_eq!(store.attendance.len(), 2);
    // The stale session was never closed by this path.
    let stale = store.attendance.iter().find(|a| a.id == r1.id).unwrap();
    assert_eq!(stale.out_time, None);
}

#[test]
fn closed_session_starts_a_new_one() {
    let t0 = 1000i64;
    let (mut store, uuid) = store_with_user(t0);
    let r1 = log(&mut store, &uuid, t0).unwrap();
    let r2 = log(&mut store, &uuid, t0 + 60).unwrap();
    assert_eq!(r2.id, r1.id);
    assert_eq!(r2.out_time, Some(t0 + 60));
    let r3 = log(&mut store, &uuid, t0 + 120).unwrap();
    assert_ne!(r3.id, r1.id);
    assert_eq!(r3.out_time, None);
    assert_eq!(store.attendance.len(), 2);
}

#[test]
fn the_latest_record_decides_the_branch() {
    // An older record of the same user left open does not hide the recent
    // closed one: the latest check-in decides.
    let t0 = 1000i64;
    let (mut store, uuid) = store_with_user(t0);
    let r1 = log(&mut store, &uuid, t0).unwrap();
    // Leave r1 open past the window, then check in anew.
    let r2 = log(&mut store, &uuid, t0 + CHECKOUT_WINDOW_SECONDS + 100).unwrap();
    assert_ne!(r2.id, r1.id);
    // Within the window of r2, the call closes r2, not the stale r1.
    let r3 = log(&mut store, &uuid, t0 + CHECKOUT_WINDOW_SECONDS + 200).unwrap();
    assert_eq!(r3.id, r2.id);
    assert_eq!(r3.out_time, Some(t0 + CHECKOUT_WINDOW_SECONDS + 200));
}

#[test]
fn resolution_failures_propagate_unchanged() {
    let t0 = 1000i64;
    let (mut store, _uuid) = store_with_user(t0);
    let r = Mutation.log_attendance(&mut store, BOOT, HELD, None, None, None, None, t0);
    assert_eq!(r, Err(ApiError::IdentityResolutionFailed(IdentityError::MissingIdentity)));
    let r2 = Mutation.log_attendance(
        &mut store,
        BOOT,
        HELD,
        Some("bogus".to_string()),
        None,
        None,
        None,
        t0,
    );
    assert_eq!(r2, Err(ApiError::IdentityResolutionFailed(IdentityError::MalformedIdentifier)));
    assert_eq!(
        r2.unwrap_err().message(),
        "The supplied identifier is not a valid UUID."
    );
    assert_eq!(store.attendance.len(), 0);
}

#[test]
fn attendance_requires_the_collector_capability() {
    let t0 = 1000i64;
    let (mut store, uuid) = store_with_user(t0);
    let r = Mutation.log_attendance(
        &mut store,
        BOOT,
        Some(TokenCapability::Viewer),
        Some(uuid),
        None,
        None,
        None,
        t0,
    );
    assert_eq!(r, Err(ApiError::AuthorizationDenied));
    assert_eq!(store.attendance.len(), 0);
}
