//! The token service: issuance and verification of signed bearer tokens.
//!
//! A token is an ES256-signed claim set {uuid, cap, exp, nbf?} backed by a
//! persisted token record. The cryptography is the signing library's;
//! everything around it — the guard on issuance, the claim values handed to
//! the signer, the interpretation and the temporal checks of what the
//! verifier hands back — is verified here. Verification is signature-only:
//! the backing record is not consulted.

use vstd::prelude::*;

use crate::bootstrap::BootstrapState;
use crate::bootstrap::authorize;
use crate::bootstrap::authorize_spec;
use crate::errors::ApiError;
use crate::errors::TokenError;
use crate::store::Store;
use crate::tables::JWTClaims;
use crate::tables::JWTClaimsView;
use crate::tables::TokenCapability;
use crate::tables::TokenView;
use crate::tables::capability_from_token_spec;

verus! {

/// jsonwebtoken's signing-key handle, declared so it can stand in
/// signatures; it is opaque here and only carried through.
#[verifier::external_type_specification]
#[verifier::external_body]
pub struct ExEncodingKey(jsonwebtoken::EncodingKey);

/// jsonwebtoken's verification-key handle, declared so it can stand in
/// signatures; it is opaque here and only carried through.
#[verifier::external_type_specification]
#[verifier::external_body]
pub struct ExDecodingKey(jsonwebtoken::DecodingKey);

/// jsonwebtoken's error type; the wrappers hand it back and verified code
/// maps it onto this library's own errors without reading inside it.
#[verifier::external_type_specification]
#[verifier::external_body]
pub struct ExJwtError(jsonwebtoken::errors::Error);

/// serde_json's document value, in which a decoded claim set arrives; it
/// is opaque here and read only through the accessors below.
#[verifier::external_type_specification]
#[verifier::external_body]
pub struct ExJsonValue(serde_json::Value);

/// Relies on serde_json::Value::get: the named member of a document, if
/// there is one. Nothing more is assumed of it.
pub assume_specification<I: serde_json::value::Index>[ serde_json::Value::get ](
    v: &serde_json::Value,
    index: I,
) -> Option<&serde_json::Value>;

/// Relies on serde_json::Value::as_str: the text of a string value, if it
/// is one. Nothing more is assumed of it.
pub assume_specification<'a>[ serde_json::Value::as_str ](v: &'a serde_json::Value) -> Option<
    &'a str,
>;

/// Relies on serde_json::Value::as_i64: the integer of a number value, if
/// it is one and fits. Nothing more is assumed of it.
pub assume_specification[ serde_json::Value::as_i64 ](v: &serde_json::Value) -> Option<i64>;

/// Whether these bytes are PEM-encoded EC private key material, as the
/// signing library's PEM decoder accepts it. The decoder is a function of
/// the bytes alone; what it accepts takes pages to state, so the fact gets
/// a name rather than a definition.
pub uninterp spec fn ec_private_pem_ok(pem: Seq<u8>) -> bool;

/// Whether these bytes are PEM-encoded EC public key material, as the
/// signing library's PEM decoder accepts it; named for the same reason.
pub uninterp spec fn ec_public_pem_ok(pem: Seq<u8>) -> bool;

/// Relies on jsonwebtoken::EncodingKey::from_ec_pem: deterministic in the
/// bytes alone, succeeding exactly on EC private key PEM material.
#[verifier::external_body]
fn encoding_key_from_ec_pem(pem: &[u8]) -> (r: Result<
    jsonwebtoken::EncodingKey,
    jsonwebtoken::errors::Error,
>)
    ensures
        r is Ok <==> ec_private_pem_ok(pem@),
{
    jsonwebtoken::EncodingKey::from_ec_pem(pem)
}

/// Relies on jsonwebtoken::DecodingKey::from_ec_pem: deterministic in the
/// bytes alone, succeeding exactly on EC public key PEM material.
#[verifier::external_body]
fn decoding_key_from_ec_pem(pem: &[u8]) -> (r: Result<
    jsonwebtoken::DecodingKey,
    jsonwebtoken::errors::Error,
>)
    ensures
        r is Ok <==> ec_public_pem_ok(pem@),
{
    jsonwebtoken::DecodingKey::from_ec_pem(pem)
}

/// Relies on jsonwebtoken::encode with serde_json's value type: signs the
/// claim set {uuid, cap, exp, nbf?} as an ES256 token. Nothing is assumed
/// of the returned text: the signature bytes are the backend's business.
#[verifier::external_body]
fn encode_claims_jwt(
    uuid: &String,
    cap: &String,
    exp: i64,
    nbf: Option<i64>,
    key: &jsonwebtoken::EncodingKey,
) -> (r: Result<String, jsonwebtoken::errors::Error>) {
    let mut claims = serde_json::Map::new();
    claims.insert("uuid".to_string(), serde_json::Value::String(uuid.clone()));
    claims.insert("cap".to_string(), serde_json::Value::String(cap.clone()));
    claims.insert("exp".to_string(), serde_json::Value::from(exp));
    if let Some(n) = nbf {
        claims.insert("nbf".to_string(), serde_json::Value::from(n));
    }
    let header = jsonwebtoken::Header::new(jsonwebtoken::Algorithm::ES256);
    jsonwebtoken::encode(&header, &serde_json::Value::Object(claims), key)
}

/// Relies on jsonwebtoken::decode: hands the claim set back only when the
/// ES256 signature over it verifies under the key. The temporal claims are
/// left to the verified caller. No expected audience is configured, so a
/// token carrying an audience claim is rejected here; tokens this service
/// issues carry none.
#[verifier::external_body]
fn decode_claims_jwt(token: &str, key: &jsonwebtoken::DecodingKey) -> (r: Result<
    serde_json::Value,
    jsonwebtoken::errors::Error,
>) {
    let mut validation = jsonwebtoken::Validation::new(jsonwebtoken::Algorithm::ES256);
    validation.validate_exp = false;
    validation.required_spec_claims = std::collections::HashSet::new();
    jsonwebtoken::decode::<serde_json::Value>(token, key, &validation).map(|data| data.claims)
}

/// Load the process's signing key from PEM bytes: valid EC private key
/// material yields the key; anything the signing library rejects is a
/// startup-fatal `KeyMaterialError`.
pub fn load_signing_key(pem: &[u8]) -> (r: Result<jsonwebtoken::EncodingKey, ApiError>)
    ensures
        r is Ok <==> ec_private_pem_ok(pem@),
        r matches Err(e) ==> e == ApiError::KeyMaterialError,
{
    match encoding_key_from_ec_pem(pem) {
        Ok(k) => Ok(k),
        Err(_) => Err(ApiError::KeyMaterialError),
    }
}

/// Load the process's verification key from PEM bytes: valid EC public
/// key material yields the key; anything the signing library rejects is a
/// startup-fatal `KeyMaterialError`.
pub fn load_verification_key(pem: &[u8]) -> (r: Result<jsonwebtoken::DecodingKey, ApiError>)
    ensures
        r is Ok <==> ec_public_pem_ok(pem@),
        r matches Err(e) ==> e == ApiError::KeyMaterialError,
{
    match decoding_key_from_ec_pem(pem) {
        Ok(k) => Ok(k),
        Err(_) => Err(ApiError::KeyMaterialError),
    }
}

/// What a well-signed claim set means at time `now`. The shape must be
/// exact — all of uuid, capability and expiration present, the capability
/// a known lowercase token — else the token is malformed. A token is
/// expired from its expiration time on (the instant itself is no longer
/// valid), and not yet valid strictly before its not-before time.
pub open spec fn claims_outcome(
    uuid: Option<Seq<char>>,
    cap: Option<Seq<char>>,
    exp: Option<i64>,
    nbf: Option<i64>,
    now: i64,
) -> Result<JWTClaimsView, TokenError> {
    match (uuid, cap, exp) {
        (Some(u), Some(c), Some(x)) => match capability_from_token_spec(c) {
            Some(capability) => if now >= x {
                Err(TokenError::Expired)
            } else if nbf matches Some(n) && now < n {
                Err(TokenError::NotYetValid)
            } else {
                Ok(JWTClaimsView { uuid: u, cap: capability, exp: x, nbf: nbf })
            },
            None => Err(TokenError::Malformed),
        },
        _ => Err(TokenError::Malformed),
    }
}

/// Interpret an extracted claim set at time `now`: reject a malformed
/// shape or an unknown capability value, then enforce the temporal claims.
pub fn interpret_claims(
    uuid: Option<String>,
    cap: Option<String>,
    exp: Option<i64>,
    nbf: Option<i64>,
    now: i64,
) -> (r: Result<JWTClaims, TokenError>)
    ensures
        (match r {
            Ok(c) => claims_outcome(uuid.deep_view(), cap.deep_view(), exp, nbf, now) == Ok::<
                JWTClaimsView,
                TokenError,
            >(c@),
            Err(e) => claims_outcome(uuid.deep_view(), cap.deep_view(), exp, nbf, now) == Err::<
                JWTClaimsView,
                TokenError,
            >(e),
        }),
{
    let (u, c, x) = match (uuid, cap, exp) {
        (Some(u), Some(c), Some(x)) => (u, c, x),
        _ => {
            return Err(TokenError::Malformed);
        },
    };
    let capability = match TokenCapability::from_token(&c) {
        Some(capability) => capability,
        None => {
            return Err(TokenError::Malformed);
        },
    };
    if now >= x {
        return Err(TokenError::Expired);
    }
    if let Some(n) = nbf {
        if now < n {
            return Err(TokenError::NotYetValid);
        }
    }
    Ok(JWTClaims { uuid: u, cap: capability, exp: x, nbf })
}

/// Verify a signed token at time `now`: check the signature under the
/// public key, then interpret the claim set. A token this accepts is
/// temporally valid at `now` and carries a known capability.
pub fn verify_token(token: &str, key: &jsonwebtoken::DecodingKey, now: i64) -> (r: Result<
    JWTClaims,
    ApiError,
>)
    ensures
        r matches Ok(c) ==> now < c.exp && (c.nbf matches Some(n) ==> n <= now),
        r matches Err(e) ==> e matches ApiError::TokenInvalid(_),
{
    let v = match decode_claims_jwt(token, key) {
        Ok(v) => v,
        Err(_) => {
            return Err(ApiError::TokenInvalid(TokenError::InvalidSignature));
        },
    };
    let uuid: Option<String> = match v.get("uuid") {
        Some(x) => match x.as_str() {
            Some(s) => Some(s.to_owned()),
            None => None,
        },
        None => None,
    };
    let cap: Option<String> = match v.get("cap") {
        Some(x) => match x.as_str() {
            Some(s) => Some(s.to_owned()),
            None => None,
        },
        None => None,
    };
    let exp: Option<i64> = match v.get("exp") {
        Some(x) => x.as_i64(),
        None => None,
    };
    let nbf: Option<i64> = match v.get("nbf") {
        Some(x) => match x.as_i64() {
            Some(n) => Some(n),
            None => {
                return Err(ApiError::TokenInvalid(TokenError::Malformed));
            },
        },
        None => None,
    };
    match interpret_claims(uuid, cap, exp, nbf, now) {
        Ok(c) => Ok(c),
        Err(e) => Err(ApiError::TokenInvalid(e)),
    }
}

/// The full effect of a token issuance on the store: the guard — hold
/// `Administrator`, or the bootstrap bypass — failing leaves everything
/// untouched and surfaces the guard's error; otherwise one token record is
/// appended with the supplied claim values, whether or not signing then
/// succeeds, and a signing failure surfaces bad key material.
pub open spec fn generate_token_post(
    pre: crate::store::StoreView,
    post: crate::store::StoreView,
    r: Result<String, ApiError>,
    boot: BootstrapState,
    held: Option<TokenCapability>,
    description: Seq<char>,
    capability: TokenCapability,
    initial_valid_time: Option<i64>,
    expiration_time: i64,
    now: i64,
) -> bool {
    match authorize_spec(boot, held, seq![TokenCapability::Administrator]) {
        Err(e) => r == Err::<String, ApiError>(e) && post == pre,
        Ok(_) => {
            &&& post.tokens == pre.tokens.push(
                TokenView {
                    uuid: pre.next_serial as u128,
                    description: description,
                    initial_valid_time: initial_valid_time,
                    expiration_time: expiration_time,
                    create_time: now,
                    capability: capability,
                },
            )
            &&& post.users == pre.users
            &&& post.attendance == pre.attendance
            &&& post.next_attendance_id == pre.next_attendance_id
            &&& post.next_serial == pre.next_serial + 1
            &&& (r is Ok || r == Err::<String, ApiError>(ApiError::KeyMaterialError))
        },
    }
}

/// Issue a signed token: persist a token record with a store-assigned
/// identifier, then sign the claim set naming it. Guarded: the caller must
/// hold `Administrator`, unless the bootstrap bypass is active. The record
/// is persisted before signing, so a signing failure (bad key material)
/// leaves the record in place.
pub fn generate_token(
    store: &mut Store,
    boot: BootstrapState,
    held: Option<TokenCapability>,
    description: String,
    capability: TokenCapability,
    initial_valid_time: Option<i64>,
    expiration_time: i64,
    signing_key: &jsonwebtoken::EncodingKey,
    now: i64,
) -> (r: Result<String, ApiError>)
    requires
        old(store)@.wf(),
        old(store)@.next_serial < u64::MAX,
    ensures
        final(store)@.wf(),
        generate_token_post(
            old(store)@,
            final(store)@,
            r,
            boot,
            held,
            description@,
            capability,
            initial_valid_time,
            expiration_time,
            now,
        ),
{
    let required = vec![TokenCapability::Administrator];
    proof {
        assert(required@ =~= seq![TokenCapability::Administrator]);
    }
    if let Err(e) = authorize(boot, held, &required) {
        return Err(e);
    }
    let record = store.insert_token(description, capability, initial_valid_time, expiration_time, now);
    let uuid_text = crate::ids::format_uuid(record.uuid);
    let cap_text = record.capability.as_token();
    match encode_claims_jwt(
        &uuid_text,
        &cap_text,
        record.expiration_time,
        record.initial_valid_time,
        signing_key,
    ) {
        Ok(s) => Ok(s),
        Err(_) => Err(ApiError::KeyMaterialError),
    }
}

/// The temporal rule of verification, as the claim interpretation decides
/// it: a well-shaped claim set with a known capability is accepted exactly
/// when `now` lies before the expiration and not before the optional
/// not-before; expiry is checked first.
pub proof fn lemma_claims_temporal_rule(
    uuid: Seq<char>,
    cap: Seq<char>,
    capability: TokenCapability,
    exp: i64,
    nbf: Option<i64>,
    now: i64,
)
    requires
        capability_from_token_spec(cap) == Some(capability),
    ensures
        now < exp && (nbf matches Some(n) ==> n <= now) ==> claims_outcome(
            Some(uuid),
            Some(cap),
            Some(exp),
            nbf,
            now,
        ) == Ok::<JWTClaimsView, TokenError>(
            JWTClaimsView { uuid: uuid, cap: capability, exp: exp, nbf: nbf },
        ),
        now >= exp ==> claims_outcome(Some(uuid), Some(cap), Some(exp), nbf, now) == Err::<
            JWTClaimsView,
            TokenError,
        >(TokenError::Expired),
        now < exp && (nbf matches Some(n) && now < n) ==> claims_outcome(
            Some(uuid),
            Some(cap),
            Some(exp),
            nbf,
            now,
        ) == Err::<JWTClaimsView, TokenError>(TokenError::NotYetValid),
{
}

/// Authenticate one inbound request, as the transport shell runs it: the
/// bootstrap bypass executes with no capability at all; otherwise a token
/// must be attached and verify, and the capability it carries is handed to
/// the guards. `Ok(None)` therefore occurs exactly under the bypass.
pub fn authenticate_request(
    boot: BootstrapState,
    token: Option<&str>,
    key: &jsonwebtoken::DecodingKey,
    now: i64,
) -> (r: Result<Option<TokenCapability>, ApiError>)
    ensures
        boot is Bootstrap ==> r == Ok::<Option<TokenCapability>, ApiError>(None),
        boot is Normal && token is None ==> r == Err::<Option<TokenCapability>, ApiError>(
            ApiError::AuthenticationMissing,
        ),
        boot is Normal ==> r != Ok::<Option<TokenCapability>, ApiError>(None),
        boot is Normal ==> (r matches Err(e) ==> e == ApiError::AuthenticationMissing || e matches
            ApiError::TokenInvalid(_)),
{
    match crate::bootstrap::gate_request(boot, token.is_some()) {
        crate::bootstrap::GateDecision::Bypass => Ok(None),
        crate::bootstrap::GateDecision::MissingAuth => Err(ApiError::AuthenticationMissing),
        crate::bootstrap::GateDecision::VerifyToken => match token {
            Some(t) => match verify_token(t, key, now) {
                Ok(claims) => Ok(Some(claims.cap)),
                Err(e) => Err(e),
            },
            None => Err(ApiError::AuthenticationMissing),
        },
    }
}

/// One successful request in `Bootstrap` that issues a token ends the
/// bypass: the record count is then nonzero, so the re-count after the
/// request flips the state to `Normal`.
pub proof fn lemma_issuance_ends_bootstrap(
    pre: crate::store::StoreView,
    post: crate::store::StoreView,
    r: Result<String, ApiError>,
    held: Option<TokenCapability>,
    description: Seq<char>,
    capability: TokenCapability,
    initial_valid_time: Option<i64>,
    expiration_time: i64,
    now: i64,
)
    requires
        generate_token_post(
            pre,
            post,
            r,
            BootstrapState::Bootstrap,
            held,
            description,
            capability,
            initial_valid_time,
            expiration_time,
            now,
        ),
        post.tokens.len() <= u64::MAX,
    ensures
        post.tokens.len() > 0,
        crate::bootstrap::next_state_spec(
            BootstrapState::Bootstrap,
            Some(post.tokens.len() as u64),
        ) == BootstrapState::Normal,
{
    crate::bootstrap::lemma_bootstrap_bypasses_all(held, seq![TokenCapability::Administrator]);
}

} // verus!
