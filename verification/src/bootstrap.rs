//! The bootstrap state machine and the per-request authentication gate.
//!
//! On a freshly initialized store no token exists that could authorize the
//! first issuance, so while zero token records are persisted the system runs
//! in `Bootstrap` and bypasses authentication entirely. After every request
//! served in `Bootstrap` the token records are re-counted; once the count is
//! nonzero the state flips to `Normal` for the rest of the process lifetime.

use vstd::prelude::*;

use crate::errors::ApiError;
use crate::tables::TokenCapability;
use crate::tables::cap_allows;

verus! {

/// The process-wide authentication state: `Bootstrap` bypasses every guard,
/// `Normal` enforces them.
#[derive(Debug, Clone, Copy, PartialEq, Eq, Structural)]
pub enum BootstrapState {
    Bootstrap,
    Normal,
}

/// The state computed at process start from the count of persisted token
/// records: zero records means `Bootstrap`.
pub open spec fn initial_state_spec(token_count: u64) -> BootstrapState {
    if token_count == 0 {
        BootstrapState::Bootstrap
    } else {
        BootstrapState::Normal
    }
}

/// Compute the startup state from the count of persisted token records.
pub fn initial_state(token_count: u64) -> (r: BootstrapState)
    ensures
        r == initial_state_spec(token_count),
{
    if token_count == 0 {
        BootstrapState::Bootstrap
    } else {
        BootstrapState::Normal
    }
}

/// The state after a request has been fully served. While in `Bootstrap`
/// the token records are re-counted; `None` stands for a count that could
/// not be obtained, which conservatively keeps the bootstrap path available.
/// `Normal` is never left.
pub open spec fn next_state_spec(state: BootstrapState, token_count: Option<u64>) -> BootstrapState {
    match state {
        BootstrapState::Normal => BootstrapState::Normal,
        BootstrapState::Bootstrap => match token_count {
            None => BootstrapState::Bootstrap,
            Some(n) => if n == 0 {
                BootstrapState::Bootstrap
            } else {
                BootstrapState::Normal
            },
        },
    }
}

/// Advance the state after a request. The caller re-counts the token
/// records only while in `Bootstrap` and passes `None` when the count
/// failed; that failure is not fatal and the state is retained.
pub fn after_request(state: BootstrapState, token_count: Option<u64>) -> (r: BootstrapState)
    ensures
        r == next_state_spec(state, token_count),
{
    match state {
        BootstrapState::Normal => BootstrapState::Normal,
        BootstrapState::Bootstrap => match token_count {
            None => BootstrapState::Bootstrap,
            Some(n) => if n == 0 {
                BootstrapState::Bootstrap
            } else {
                BootstrapState::Normal
            },
        },
    }
}

/// Once the state has flipped to `Normal` it is permanent: no sequence of
/// requests or count outcomes ever brings `Bootstrap` back.
pub proof fn lemma_normal_is_permanent(token_count: Option<u64>)
    ensures
        next_state_spec(BootstrapState::Normal, token_count) == BootstrapState::Normal,
{
}

/// The one transition: a request served in `Bootstrap` flips the state to
/// `Normal` exactly when the re-count succeeds and is nonzero; a failed
/// count keeps `Bootstrap`.
pub proof fn lemma_bootstrap_transition(token_count: Option<u64>)
    ensures
        next_state_spec(BootstrapState::Bootstrap, token_count) == BootstrapState::Normal <==> (
        token_count matches Some(n) && n > 0),
{
}

/// What to do with an inbound request that may carry a token.
#[derive(Debug, Clone, Copy, PartialEq, Eq, Structural)]
pub enum GateDecision {
    /// Bootstrap state: execute without authentication.
    Bypass,
    /// Normal state with a token attached: verify it.
    VerifyToken,
    /// Normal state without a token: reject as unauthenticated.
    MissingAuth,
}

/// The authentication gate consulted before any operation runs: bootstrap
/// bypasses it entirely; otherwise a token must be present and is verified.
pub open spec fn gate_spec(state: BootstrapState, has_token: bool) -> GateDecision {
    if state is Bootstrap {
        GateDecision::Bypass
    } else if has_token {
        GateDecision::VerifyToken
    } else {
        GateDecision::MissingAuth
    }
}

/// Decide how an inbound request is authenticated.
pub fn gate_request(state: BootstrapState, has_token: bool) -> (r: GateDecision)
    ensures
        r == gate_spec(state, has_token),
{
    match state {
        BootstrapState::Bootstrap => GateDecision::Bypass,
        BootstrapState::Normal => if has_token {
            GateDecision::VerifyToken
        } else {
            GateDecision::MissingAuth
        },
    }
}

/// Whether the held capability satisfies at least one of the required ones.
/// An operation exposed to several roles is a disjunction of guards.
pub open spec fn any_allowed(held: Option<TokenCapability>, required: Seq<TokenCapability>) -> bool {
    exists|i: int| 0 <= i < required.len() && cap_allows(held, required[i])
}

/// The full pre-check of a guarded operation: bootstrap bypasses; otherwise
/// the request is denied as unauthenticated when no capability is held, and
/// with the fixed opaque denial when the held one matches no guard.
pub open spec fn authorize_spec(
    state: BootstrapState,
    held: Option<TokenCapability>,
    required: Seq<TokenCapability>,
) -> Result<(), ApiError> {
    if state is Bootstrap {
        Ok(())
    } else if any_allowed(held, required) {
        Ok(())
    } else if held is None {
        Err(ApiError::AuthenticationMissing)
    } else {
        Err(ApiError::AuthorizationDenied)
    }
}

/// Run the pre-check of an operation guarded by the disjunction of
/// `required` capabilities.
pub fn authorize(
    state: BootstrapState,
    held: Option<TokenCapability>,
    required: &Vec<TokenCapability>,
) -> (r: Result<(), ApiError>)
    ensures
        r == authorize_spec(state, held, required@),
{
    if let BootstrapState::Bootstrap = state {
        return Ok(());
    }
    let mut i: usize = 0;
    while i < required.len()
        invariant
            0 <= i <= required@.len(),
            state is Normal,
            forall|j: int| 0 <= j < i ==> !cap_allows(held, required@[j]),
        decreases required@.len() - i,
    {
        let guard = crate::tables::CapabilityGuard { capability: required[i] };
        if guard.check(held).is_ok() {
            assert(cap_allows(held, required@[i as int]));
            return Ok(());
        }
        i += 1;
    }
    match held {
        None => Err(ApiError::AuthenticationMissing),
        Some(_) => Err(ApiError::AuthorizationDenied),
    }
}

/// While the system is in `Bootstrap`, every operation is allowed, token or
/// no token, whatever capabilities it would otherwise require.
pub proof fn lemma_bootstrap_bypasses_all(
    held: Option<TokenCapability>,
    required: Seq<TokenCapability>,
)
    ensures
        authorize_spec(BootstrapState::Bootstrap, held, required) == Ok::<(), ApiError>(()),
        gate_spec(BootstrapState::Bootstrap, false) == GateDecision::Bypass,
{
}

/// In `Normal`, a request with no capability attached is denied as
/// unauthenticated by every guarded operation.
pub proof fn lemma_unauthenticated_denied(required: Seq<TokenCapability>)
    ensures
        authorize_spec(BootstrapState::Normal, None, required) == Err::<(), ApiError>(
            ApiError::AuthenticationMissing,
        ),
{
    assert(!any_allowed(None, required));
}

/// A single-capability guard admits exactly what the capability rule
/// allows, beside the bootstrap bypass.
pub proof fn lemma_authorize_single(
    state: BootstrapState,
    held: Option<TokenCapability>,
    required: TokenCapability,
)
    ensures
        authorize_spec(state, held, seq![required]) is Ok <==> (state is Bootstrap || cap_allows(
            held,
            required,
        )),
{
    if cap_allows(held, required) {
        assert(seq![required][0] == required);
        assert(any_allowed(held, seq![required]));
    }
    if any_allowed(held, seq![required]) {
        let i = choose|i: int| 0 <= i < seq![required].len() && cap_allows(held, seq![required][i]);
        assert(seq![required][i] == required);
    }
}

} // verus!
