//! The data model: users, attendance records, token records, signed-token
//! claims, and the capability model that gates every operation.

use vstd::prelude::*;

use crate::errors::ApiError;

verus! {

/// The closed set of capabilities a token may carry. `Administrator`
/// satisfies every guard check.
#[derive(Debug, Clone, Copy, PartialEq, Eq, Structural)]
pub enum TokenCapability {
    Collector,
    Viewer,
    Administrator,
}

/// A user row. The primary identifier is stable and immutable after
/// creation; timestamps are epoch seconds.
#[derive(Debug, Clone, PartialEq, Eq)]
pub struct User {
    pub uuid: u128,
    pub full_name: String,
    pub email: String,
    pub phone_number: Option<String>,
    pub create_time: i64,
    pub update_time: Option<i64>,
    /// Flat mapping of alternate-id field name to value, used to resolve
    /// identity via external systems.
    pub alt_id_fields: Option<Vec<(String, String)>>,
}

/// An attendance row. A record whose `out_time` is absent is an open
/// session; once `out_time` is set the record is closed and immutable.
#[derive(Debug, Clone, Copy, PartialEq, Eq, Structural)]
pub struct Attendance {
    pub id: i32,
    pub user_uuid: u128,
    pub in_time: i64,
    pub out_time: Option<i64>,
}

/// A persisted token record. One is created at every issuance and never
/// mutated by the core, so the set of ever-issued tokens is enumerable.
#[derive(Debug, Clone, PartialEq, Eq)]
pub struct Token {
    pub uuid: u128,
    pub description: String,
    pub initial_valid_time: Option<i64>,
    pub expiration_time: i64,
    pub create_time: i64,
    pub capability: TokenCapability,
}

/// The claim set carried inside a signed token: the backing record's
/// identifier, the capability, and the temporal claims in epoch seconds.
#[derive(Debug, Clone, PartialEq, Eq)]
pub struct JWTClaims {
    pub uuid: String,
    pub cap: TokenCapability,
    pub exp: i64,
    pub nbf: Option<i64>,
}

/// The mathematical contents of a [`User`] row.
#[verifier::ext_equal]
pub struct UserView {
    pub uuid: u128,
    pub full_name: Seq<char>,
    pub email: Seq<char>,
    pub phone_number: Option<Seq<char>>,
    pub create_time: i64,
    pub update_time: Option<i64>,
    pub alt_id_fields: Option<Seq<(Seq<char>, Seq<char>)>>,
}

impl View for User {
    type V = UserView;

    open spec fn view(&self) -> UserView {
        UserView {
            uuid: self.uuid,
            full_name: self.full_name@,
            email: self.email@,
            phone_number: self.phone_number.deep_view(),
            create_time: self.create_time,
            update_time: self.update_time,
            alt_id_fields: self.alt_id_fields.deep_view(),
        }
    }
}

impl DeepView for User {
    type V = UserView;

    open spec fn deep_view(&self) -> UserView {
        self.view()
    }
}

/// The mathematical contents of a [`Token`] row.
#[verifier::ext_equal]
pub struct TokenView {
    pub uuid: u128,
    pub description: Seq<char>,
    pub initial_valid_time: Option<i64>,
    pub expiration_time: i64,
    pub create_time: i64,
    pub capability: TokenCapability,
}

impl View for Token {
    type V = TokenView;

    open spec fn view(&self) -> TokenView {
        TokenView {
            uuid: self.uuid,
            description: self.description@,
            initial_valid_time: self.initial_valid_time,
            expiration_time: self.expiration_time,
            create_time: self.create_time,
            capability: self.capability,
        }
    }
}

impl DeepView for Token {
    type V = TokenView;

    open spec fn deep_view(&self) -> TokenView {
        self.view()
    }
}

/// The mathematical contents of a [`JWTClaims`] value.
#[verifier::ext_equal]
pub struct JWTClaimsView {
    pub uuid: Seq<char>,
    pub cap: TokenCapability,
    pub exp: i64,
    pub nbf: Option<i64>,
}

impl View for JWTClaims {
    type V = JWTClaimsView;

    open spec fn view(&self) -> JWTClaimsView {
        JWTClaimsView { uuid: self.uuid@, cap: self.cap, exp: self.exp, nbf: self.nbf }
    }
}

impl DeepView for JWTClaims {
    type V = JWTClaimsView;

    open spec fn deep_view(&self) -> JWTClaimsView {
        self.view()
    }
}

/// Copy a list of alternate-id pairs.
fn duplicate_pairs(pairs: &Vec<(String, String)>) -> (r: Vec<(String, String)>)
    ensures
        r.deep_view() == pairs.deep_view(),
{
    let mut r: Vec<(String, String)> = Vec::new();
    let mut i: usize = 0;
    while i < pairs.len()
        invariant
            0 <= i <= pairs@.len(),
            r.deep_view() =~~= pairs.deep_view().subrange(0, i as int),
        decreases pairs@.len() - i,
    {
        let p = &pairs[i];
        r.push((p.0.clone(), p.1.clone()));
        i += 1;
    }
    assert(r.deep_view() =~~= pairs.deep_view());
    r
}

impl User {
    /// Copy this row; the copy has the same contents.
    pub fn duplicate(&self) -> (r: User)
        ensures
            r@ == self@,
    {
        let r = User {
            uuid: self.uuid,
            full_name: self.full_name.clone(),
            email: self.email.clone(),
            phone_number: match &self.phone_number {
                Some(p) => Some(p.clone()),
                None => None,
            },
            create_time: self.create_time,
            update_time: self.update_time,
            alt_id_fields: match &self.alt_id_fields {
                Some(m) => Some(duplicate_pairs(m)),
                None => None,
            },
        };
        assert(r@ =~~= self@);
        r
    }

    /// The primary identifier in its canonical hyphenated text form.
    pub fn uuid_text(&self) -> (r: String)
        ensures
            r@ == crate::ids::format_uuid_spec(self.uuid),
    {
        crate::ids::format_uuid(self.uuid)
    }
}

impl Attendance {
    /// The owning user's identifier in its canonical hyphenated text form.
    pub fn user_uuid_text(&self) -> (r: String)
        ensures
            r@ == crate::ids::format_uuid_spec(self.user_uuid),
    {
        crate::ids::format_uuid(self.user_uuid)
    }
}

impl Token {
    /// Copy this row; the copy has the same contents.
    pub fn duplicate(&self) -> (r: Token)
        ensures
            r@ == self@,
    {
        Token {
            uuid: self.uuid,
            description: self.description.clone(),
            initial_valid_time: self.initial_valid_time,
            expiration_time: self.expiration_time,
            create_time: self.create_time,
            capability: self.capability,
        }
    }
}

/// Whether a held capability satisfies a required one: exact match, or the
/// holder is an administrator. An absent capability satisfies nothing.
pub open spec fn cap_allows(held: Option<TokenCapability>, required: TokenCapability) -> bool {
    held matches Some(h) && (h == required || h == TokenCapability::Administrator)
}

/// A guard requiring one capability, checked explicitly by each guarded
/// operation.
#[derive(Debug, Clone, Copy, PartialEq, Eq, Structural)]
pub struct CapabilityGuard {
    pub capability: TokenCapability,
}

impl CapabilityGuard {
    /// Decide ALLOW or DENY for a request holding `held`. The denial is the
    /// one fixed message and never reveals which capability was required.
    pub fn check(&self, held: Option<TokenCapability>) -> (r: Result<(), ApiError>)
        ensures
            r is Ok <==> cap_allows(held, self.capability),
            r is Err ==> r == Err::<(), ApiError>(ApiError::AuthorizationDenied),
    {
        match held {
            Some(h) => {
                if h == self.capability || h == TokenCapability::Administrator {
                    Ok(())
                } else {
                    Err(ApiError::AuthorizationDenied)
                }
            },
            None => Err(ApiError::AuthorizationDenied),
        }
    }
}

/// The capability rule: a holder is allowed exactly when it presents the
/// required capability itself or `Administrator`; an absent capability is
/// always denied.
pub proof fn lemma_capability_rule(held: Option<TokenCapability>, required: TokenCapability)
    ensures
        cap_allows(held, required) <==> (held == Some(required) || held == Some(
            TokenCapability::Administrator,
        )),
        held is None ==> !cap_allows(held, required),
{
}

/// The lowercase serialization of a capability at the persistence boundary.
pub open spec fn capability_token_spec(c: TokenCapability) -> Seq<char> {
    match c {
        TokenCapability::Collector => "collector"@,
        TokenCapability::Viewer => "viewer"@,
        TokenCapability::Administrator => "administrator"@,
    }
}

/// The capability named by a lowercase serialization, if any. Unknown
/// values are rejected at the boundary.
pub open spec fn capability_from_token_spec(s: Seq<char>) -> Option<TokenCapability> {
    if s == "collector"@ {
        Some(TokenCapability::Collector)
    } else if s == "viewer"@ {
        Some(TokenCapability::Viewer)
    } else if s == "administrator"@ {
        Some(TokenCapability::Administrator)
    } else {
        None
    }
}

impl TokenCapability {
    /// Serialize this capability as its lowercase token.
    pub fn as_token(&self) -> (r: String)
        ensures
            r@ == capability_token_spec(*self),
    {
        match self {
            TokenCapability::Collector => "collector".to_owned(),
            TokenCapability::Viewer => "viewer".to_owned(),
            TokenCapability::Administrator => "administrator".to_owned(),
        }
    }

    /// Parse a lowercase token back into a capability, rejecting unknown
    /// values.
    pub fn from_token(s: &String) -> (r: Option<TokenCapability>)
        ensures
            r == capability_from_token_spec(s@),
    {
        let collector = "collector".to_owned();
        let viewer = "viewer".to_owned();
        let administrator = "administrator".to_owned();
        if *s == collector {
            Some(TokenCapability::Collector)
        } else if *s == viewer {
            Some(TokenCapability::Viewer)
        } else if *s == administrator {
            Some(TokenCapability::Administrator)
        } else {
            None
        }
    }
}

/// Serialization of capabilities is injective: parsing a serialized
/// capability yields that capability back.
pub proof fn lemma_capability_token_roundtrip(c: TokenCapability)
    ensures
        capability_from_token_spec(capability_token_spec(c)) == Some(c),
{
    reveal_strlit("collector");
    reveal_strlit("viewer");
    reveal_strlit("administrator");
    assert("collector"@.len() == 9);
    assert("viewer"@.len() == 6);
    assert("administrator"@.len() == 13);
}

} // verus!
