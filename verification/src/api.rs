//! The guarded operations, as the dispatch layer exposes them.
//!
//! Each operation runs its capability pre-check explicitly — the contract
//! of the capability model is the thing preserved, not any annotation
//! mechanism — and then works the store. The caller (the transport shell)
//! supplies the bootstrap state, the capability resolved from the request's
//! token, and the current time.

use vstd::prelude::*;

use crate::attendance::log_attendance_post;
use crate::bootstrap::BootstrapState;
use crate::bootstrap::authorize;
use crate::bootstrap::authorize_spec;
use crate::errors::ApiError;
use crate::ids::parse_uuid_spec;
use crate::jwt::generate_token_post;
use crate::queries::attendance_on;
use crate::queries::users_name_search;
use crate::queries::users_named;
use crate::store::Store;
use crate::store::create_user_post;
use crate::store::find_alt_spec;
use crate::store::find_email_spec;
use crate::store::find_uuid_spec;
use crate::store::lemma_find_alt;
use crate::store::lemma_find_email;
use crate::store::lemma_find_uuid;
use crate::store::update_user_post;
use crate::tables::Attendance;
use crate::tables::TokenCapability;
use crate::tables::User;

verus! {

/// The query operations.
pub struct Query;

/// The mutation operations.
pub struct Mutation;

/// The pre-check of an operation open to viewers.
fn require_viewer(boot: BootstrapState, held: Option<TokenCapability>) -> (r: Result<(), ApiError>)
    ensures
        r == authorize_spec(boot, held, seq![TokenCapability::Viewer]),
{
    let required = vec![TokenCapability::Viewer];
    proof {
        assert(required@ =~= seq![TokenCapability::Viewer]);
    }
    authorize(boot, held, &required)
}

/// The pre-check of an operation open to collectors.
fn require_collector(boot: BootstrapState, held: Option<TokenCapability>) -> (r: Result<
    (),
    ApiError,
>)
    ensures
        r == authorize_spec(boot, held, seq![TokenCapability::Collector]),
{
    let required = vec![TokenCapability::Collector];
    proof {
        assert(required@ =~= seq![TokenCapability::Collector]);
    }
    authorize(boot, held, &required)
}

/// The pre-check of an operation open to collectors and viewers alike.
fn require_collector_or_viewer(boot: BootstrapState, held: Option<TokenCapability>) -> (r: Result<
    (),
    ApiError,
>)
    ensures
        r == authorize_spec(boot, held, seq![TokenCapability::Collector, TokenCapability::Viewer]),
{
    let required = vec![TokenCapability::Collector, TokenCapability::Viewer];
    proof {
        assert(required@ =~= seq![TokenCapability::Collector, TokenCapability::Viewer]);
    }
    authorize(boot, held, &required)
}

impl Query {
    /// Every user row. Open to viewers.
    pub fn users(&self, store: &Store, boot: BootstrapState, held: Option<TokenCapability>) -> (r:
        Result<Vec<User>, ApiError>)
        ensures
            (match authorize_spec(boot, held, seq![TokenCapability::Viewer]) {
                Err(e) => r == Err::<Vec<User>, ApiError>(e),
                Ok(_) => r matches Ok(v) && v.deep_view() == store@.users,
            }),
    {
        if let Err(e) = require_viewer(boot, held) {
            return Err(e);
        }
        Ok(store.all_users())
    }

    /// The user rows whose full name contains the given text. Open to
    /// viewers.
    pub fn user_by_full_name_search(
        &self,
        store: &Store,
        boot: BootstrapState,
        held: Option<TokenCapability>,
        full_name: &String,
    ) -> (r: Result<Vec<User>, ApiError>)
        ensures
            (match authorize_spec(boot, held, seq![TokenCapability::Viewer]) {
                Err(e) => r == Err::<Vec<User>, ApiError>(e),
                Ok(_) => r matches Ok(v) && v.deep_view() == users_name_search(
                    store@.users,
                    full_name@,
                ),
            }),
    {
        if let Err(e) = require_viewer(boot, held) {
            return Err(e);
        }
        Ok(store.users_by_full_name_search(full_name))
    }

    /// The user rows whose full name is exactly the given text. Open to
    /// viewers.
    pub fn user_by_full_name_match(
        &self,
        store: &Store,
        boot: BootstrapState,
        held: Option<TokenCapability>,
        full_name: &String,
    ) -> (r: Result<Vec<User>, ApiError>)
        ensures
            (match authorize_spec(boot, held, seq![TokenCapability::Viewer]) {
                Err(e) => r == Err::<Vec<User>, ApiError>(e),
                Ok(_) => r matches Ok(v) && v.deep_view() == users_named(store@.users, full_name@),
            }),
    {
        if let Err(e) = require_viewer(boot, held) {
            return Err(e);
        }
        Ok(store.users_by_full_name_match(full_name))
    }

    /// The user row holding the given value under the given alternate-id
    /// field. Open to collectors only. A missing row surfaces as the
    /// store's error, as a single-row lookup does.
    pub fn user_by_alt_id_field(
        &self,
        store: &Store,
        boot: BootstrapState,
        held: Option<TokenCapability>,
        alt_field: &String,
        alt_value: &String,
    ) -> (r: Result<Option<User>, ApiError>)
        ensures
            (match authorize_spec(boot, held, seq![TokenCapability::Collector]) {
                Err(e) => r == Err::<Option<User>, ApiError>(e),
                Ok(_) => match find_alt_spec(store@.users, alt_field@, alt_value@) {
                    Some(i) => r matches Ok(o) && o matches Some(u) && u@ == store@.users[i],
                    None => r == Err::<Option<User>, ApiError>(ApiError::PersistenceError),
                },
            }),
    {
        if let Err(e) = require_collector(boot, held) {
            return Err(e);
        }
        match store.user_index_by_alt(alt_field, alt_value) {
            Some(i) => {
                proof {
                    lemma_find_alt(store@.users, alt_field@, alt_value@);
                }
                Ok(Some(store.users[i].duplicate()))
            },
            None => Err(ApiError::PersistenceError),
        }
    }

    /// The user row with the given primary identifier. Open to collectors
    /// and viewers. An unparsable identifier yields no row; a missing row
    /// surfaces as the store's error, as a single-row lookup does.
    pub fn user_by_uuid(
        &self,
        store: &Store,
        boot: BootstrapState,
        held: Option<TokenCapability>,
        uuid: &String,
    ) -> (r: Result<Option<User>, ApiError>)
        ensures
            (match authorize_spec(
                boot,
                held,
                seq![TokenCapability::Collector, TokenCapability::Viewer],
            ) {
                Err(e) => r == Err::<Option<User>, ApiError>(e),
                Ok(_) => match parse_uuid_spec(uuid@) {
                    None => r == Ok::<Option<User>, ApiError>(None),
                    Some(uid) => match find_uuid_spec(store@.users, uid) {
                        Some(i) => r matches Ok(o) && o matches Some(u) && u@ == store@.users[i],
                        None => r == Err::<Option<User>, ApiError>(ApiError::PersistenceError),
                    },
                },
            }),
    {
        if let Err(e) = require_collector_or_viewer(boot, held) {
            return Err(e);
        }
        let uid = match crate::ids::parse_uuid(uuid.as_str()) {
            Some(u) => u,
            None => {
                return Ok(None);
            },
        };
        match store.user_index_by_uuid(uid) {
            Some(i) => {
                proof {
                    lemma_find_uuid(store@.users, uid);
                }
                Ok(Some(store.users[i].duplicate()))
            },
            None => Err(ApiError::PersistenceError),
        }
    }

    /// The user row with the given email. Open to collectors and viewers.
    /// A missing row surfaces as the store's error, as a single-row lookup
    /// does.
    pub fn user_by_email(
        &self,
        store: &Store,
        boot: BootstrapState,
        held: Option<TokenCapability>,
        email: &String,
    ) -> (r: Result<Option<User>, ApiError>)
        ensures
            (match authorize_spec(
                boot,
                held,
                seq![TokenCapability::Collector, TokenCapability::Viewer],
            ) {
                Err(e) => r == Err::<Option<User>, ApiError>(e),
                Ok(_) => match find_email_spec(store@.users, email@) {
                    Some(i) => r matches Ok(o) && o matches Some(u) && u@ == store@.users[i],
                    None => r == Err::<Option<User>, ApiError>(ApiError::PersistenceError),
                },
            }),
    {
        if let Err(e) = require_collector_or_viewer(boot, held) {
            return Err(e);
        }
        match store.user_index_by_email(email) {
            Some(i) => {
                proof {
                    lemma_find_email(store@.users, email@);
                }
                Ok(Some(store.users[i].duplicate()))
            },
            None => Err(ApiError::PersistenceError),
        }
    }

    /// Every attendance row. Open to viewers.
    pub fn attendance(&self, store: &Store, boot: BootstrapState, held: Option<TokenCapability>)
        -> (r: Result<Vec<Attendance>, ApiError>)
        ensures
            (match authorize_spec(boot, held, seq![TokenCapability::Viewer]) {
                Err(e) => r == Err::<Vec<Attendance>, ApiError>(e),
                Ok(_) => r matches Ok(v) && v@ == store@.attendance,
            }),
    {
        if let Err(e) = require_viewer(boot, held) {
            return Err(e);
        }
        Ok(store.all_attendance())
    }

    /// The attendance rows checked in at exactly the given instant. Open
    /// to viewers.
    pub fn attendance_by_date(
        &self,
        store: &Store,
        boot: BootstrapState,
        held: Option<TokenCapability>,
        date: i64,
    ) -> (r: Result<Vec<Attendance>, ApiError>)
        ensures
            (match authorize_spec(boot, held, seq![TokenCapability::Viewer]) {
                Err(e) => r == Err::<Vec<Attendance>, ApiError>(e),
                Ok(_) => r matches Ok(v) && v@ == attendance_on(store@.attendance, date),
            }),
    {
        if let Err(e) = require_viewer(boot, held) {
            return Err(e);
        }
        Ok(store.attendance_by_date(date))
    }
}

impl Mutation {
    /// Create a user row. Open to collectors.
    pub fn create_user(
        &self,
        store: &mut Store,
        boot: BootstrapState,
        held: Option<TokenCapability>,
        full_name: String,
        email: String,
        phone_number: Option<String>,
        alt_id_fields: Option<Vec<(String, String)>>,
        now: i64,
    ) -> (r: Result<User, ApiError>)
        requires
            old(store)@.wf(),
            old(store)@.next_serial < u64::MAX,
        ensures
            final(store)@.wf(),
            (match authorize_spec(boot, held, seq![TokenCapability::Collector]) {
                Err(e) => r == Err::<User, ApiError>(e) && final(store)@ == old(store)@,
                Ok(_) => r matches Ok(u) && create_user_post(
                    old(store)@,
                    final(store)@,
                    u,
                    full_name@,
                    email@,
                    phone_number.deep_view(),
                    alt_id_fields.deep_view(),
                    now,
                ),
            }),
    {
        if let Err(e) = require_collector(boot, held) {
            return Err(e);
        }
        Ok(store.create_user(full_name, email, phone_number, alt_id_fields, now))
    }

    /// Apply a merge-patch to a user row. Open to collectors.
    pub fn update_user(
        &self,
        store: &mut Store,
        boot: BootstrapState,
        held: Option<TokenCapability>,
        uuid: &String,
        full_name: Option<String>,
        email: Option<String>,
        phone_number: Option<String>,
        alt_id_fields: Option<Vec<(String, String)>>,
    ) -> (r: Result<User, ApiError>)
        requires
            old(store)@.wf(),
        ensures
            final(store)@.wf(),
            (match authorize_spec(boot, held, seq![TokenCapability::Collector]) {
                Err(e) => r == Err::<User, ApiError>(e) && final(store)@ == old(store)@,
                Ok(_) => update_user_post(
                    old(store)@,
                    final(store)@,
                    r,
                    uuid@,
                    full_name.deep_view(),
                    email.deep_view(),
                    phone_number.deep_view(),
                    alt_id_fields.deep_view(),
                ),
            }),
    {
        if let Err(e) = require_collector(boot, held) {
            return Err(e);
        }
        store.update_user(uuid, full_name, email, phone_number, alt_id_fields)
    }

    /// Log attendance for the user named by the identity hints. Open to
    /// collectors.
    pub fn log_attendance(
        &self,
        store: &mut Store,
        boot: BootstrapState,
        held: Option<TokenCapability>,
        uuid: Option<String>,
        email: Option<String>,
        alt_id_field: Option<String>,
        alt_id_value: Option<String>,
        now: i64,
    ) -> (r: Result<Attendance, ApiError>)
        requires
            old(store)@.wf(),
            old(store)@.next_attendance_id < i32::MAX,
        ensures
            final(store)@.wf(),
            (match authorize_spec(boot, held, seq![TokenCapability::Collector]) {
                Err(e) => r == Err::<Attendance, ApiError>(e) && final(store)@ == old(store)@,
                Ok(_) => log_attendance_post(
                    old(store)@,
                    final(store)@,
                    r,
                    uuid.deep_view(),
                    email.deep_view(),
                    alt_id_field.deep_view(),
                    alt_id_value.deep_view(),
                    now,
                ),
            }),
    {
        if let Err(e) = require_collector(boot, held) {
            return Err(e);
        }
        crate::attendance::log_attendance(store, uuid, email, alt_id_field, alt_id_value, now)
    }

    /// Issue a signed token. The guard — hold `Administrator`, or the
    /// bootstrap bypass — is part of the issuance itself.
    pub fn generate_token(
        &self,
        store: &mut Store,
        boot: BootstrapState,
        held: Option<TokenCapability>,
        description: String,
        capability: TokenCapability,
        initial_valid_time: Option<i64>,
        expiration_time: i64,
        signing_key: &jsonwebtoken::EncodingKey,
        now: i64,
    ) -> (r: Result<String, ApiError>)
        requires
            old(store)@.wf(),
            old(store)@.next_serial < u64::MAX,
        ensures
            final(store)@.wf(),
            generate_token_post(
                old(store)@,
                final(store)@,
                r,
                boot,
                held,
                description@,
                capability,
                initial_valid_time,
                expiration_time,
                now,
            ),
    {
        crate::jwt::generate_token(
            store,
            boot,
            held,
            description,
            capability,
            initial_valid_time,
            expiration_time,
            signing_key,
            now,
        )
    }
}

} // verus!
