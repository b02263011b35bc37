//! The identity-resolution chain: locate a user from partial input.
//!
//! Up to three optional hints may be supplied — a primary identifier, an
//! email address, and an (alternate-field-name, alternate-field-value)
//! pair. The first hint present wins; later hints are ignored even when
//! resolution of the earlier one fails. Both the profile lookup and the
//! attendance mutation go through this one chain.

use vstd::prelude::*;

use crate::errors::IdentityError;
use crate::errors::IdentityHint;
use crate::ids::parse_uuid_spec;
use crate::store::Store;
use crate::store::find_alt_spec;
use crate::store::find_email_spec;
use crate::store::lemma_find_alt;
use crate::store::lemma_find_email;
use crate::tables::UserView;

verus! {

/// The resolution chain over the store's user rows: the primary identifier
/// is parsed directly and fails loudly when malformed; else the email is
/// looked up by exact match; else the alternate pair (both parts present)
/// is looked up in each user's alternate-id mapping; else nothing was
/// supplied at all.
pub open spec fn resolve_identity_spec(
    users: Seq<UserView>,
    uuid: Option<Seq<char>>,
    email: Option<Seq<char>>,
    alt_id_field: Option<Seq<char>>,
    alt_id_value: Option<Seq<char>>,
) -> Result<u128, IdentityError> {
    match uuid {
        Some(s) => match parse_uuid_spec(s) {
            Some(u) => Ok(u),
            None => Err(IdentityError::MalformedIdentifier),
        },
        None => match email {
            Some(e) => match find_email_spec(users, e) {
                Some(i) => Ok(users[i].uuid),
                None => Err(IdentityError::NotFound(IdentityHint::Email)),
            },
            None => match (alt_id_field, alt_id_value) {
                (Some(f), Some(v)) => match find_alt_spec(users, f, v) {
                    Some(i) => Ok(users[i].uuid),
                    None => Err(IdentityError::NotFound(IdentityHint::AltId)),
                },
                _ => Err(IdentityError::MissingIdentity),
            },
        },
    }
}

/// Resolve a user reference from the supplied hints, by the chain above.
pub fn resolve_identity(
    store: &Store,
    uuid: Option<String>,
    email: Option<String>,
    alt_id_field: Option<String>,
    alt_id_value: Option<String>,
) -> (r: Result<u128, IdentityError>)
    ensures
        r == resolve_identity_spec(
            store@.users,
            uuid.deep_view(),
            email.deep_view(),
            alt_id_field.deep_view(),
            alt_id_value.deep_view(),
        ),
{
    if let Some(s) = uuid {
        match crate::ids::parse_uuid(s.as_str()) {
            Some(u) => Ok(u),
            None => Err(IdentityError::MalformedIdentifier),
        }
    } else if let Some(e) = email {
        match store.user_index_by_email(&e) {
            Some(i) => {
                proof {
                    lemma_find_email(store@.users, e@);
                }
                Ok(store.users[i].uuid)
            },
            None => Err(IdentityError::NotFound(IdentityHint::Email)),
        }
    } else if let (Some(f), Some(v)) = (alt_id_field, alt_id_value) {
        match store.user_index_by_alt(&f, &v) {
            Some(i) => {
                proof {
                    lemma_find_alt(store@.users, f@, v@);
                }
                Ok(store.users[i].uuid)
            },
            None => Err(IdentityError::NotFound(IdentityHint::AltId)),
        }
    } else {
        Err(IdentityError::MissingIdentity)
    }
}

/// Precedence of the identity hints: a supplied primary identifier decides
/// the outcome alone, malformed or not, whatever else was supplied; without
/// one, a supplied email decides alone in the same way.
pub proof fn lemma_identity_precedence(
    users: Seq<UserView>,
    uuid: Seq<char>,
    email: Seq<char>,
    alt_id_field: Seq<char>,
    alt_id_value: Seq<char>,
)
    ensures
        resolve_identity_spec(users, Some(uuid), Some(email), Some(alt_id_field), Some(alt_id_value))
            == resolve_identity_spec(users, Some(uuid), None, None, None),
        parse_uuid_spec(uuid) is None ==> resolve_identity_spec(
            users,
            Some(uuid),
            Some(email),
            Some(alt_id_field),
            Some(alt_id_value),
        ) == Err::<u128, IdentityError>(IdentityError::MalformedIdentifier),
        resolve_identity_spec(users, None, Some(email), Some(alt_id_field), Some(alt_id_value))
            == resolve_identity_spec(users, None, Some(email), None, None),
        resolve_identity_spec(users, None, None, None, None) == Err::<u128, IdentityError>(
            IdentityError::MissingIdentity,
        ),
{
}

} // verus!
