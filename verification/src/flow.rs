//! The single-pass login flow as a state machine:
//! `Start → CodeValidated → TokenExchanged → ProfileFetched →
//! ResponseBuilt` (terminal), with any step's failure going straight to
//! `Failed` (terminal).  Each step returns the next state together with
//! the one action the host must perform; the host feeds the action's
//! outcome into the next step.  No retries, and no partial result: a
//! cookie is carried only by the `Respond` action of the last step.

use vstd::prelude::*;

use crate::code::{code_acceptable, validate, AuthorizationCode};
use crate::error::AuthError;
use crate::provider::{
    is_success_status, parse_profile_response, parse_token_response, profile_request,
    spec_profile_of, spec_token_of, token_request, ClientInfo, ExternalProfile, ProfileRequest,
    ProviderCredential, TokenRequest,
};
use crate::session::{build_response, LoginResponse};

verus! {

/// Where a single pass of the flow stands.
pub enum FlowState {
    Start,
    CodeValidated(AuthorizationCode),
    TokenExchanged(ProviderCredential),
    ProfileFetched(ExternalProfile),
    ResponseBuilt,
    Failed(AuthError),
}

/// What the resolver is asked to log in: the fetched external identity.
pub struct ResolveRequest {
    pub external_id: String,
    pub display_name: String,
    pub platform_id: String,
}

/// The one outside action the host must perform after a step, or the
/// terminal answer of the pass.
pub enum FlowAction {
    ExchangeCode(TokenRequest),
    FetchProfile(ProfileRequest),
    ResolveIdentity(ResolveRequest),
    Respond(LoginResponse),
    Fail(AuthError),
}

/// What an outbound HTTP call came back with.
pub struct HttpReply {
    pub status: u16,
    pub body: String,
}

/// What the identity store came back with: the session token, or a
/// store failure.
pub enum StoreReply {
    Session(String),
    Failure,
}

/// First step: validates the inbound code.  A malformed code fails the
/// pass at once — the returned action is `Fail`, so the host makes no
/// outbound call at all.  A valid code moves to `CodeValidated` and asks
/// the host to exchange it, with the trusted client configuration.
pub fn start(raw_code: &str, client: &ClientInfo) -> (r: (FlowState, FlowAction))
    ensures
        code_acceptable(raw_code@) ==> {
            &&& r.0 matches FlowState::CodeValidated(c) && c@ == raw_code@
            &&& r.1 matches FlowAction::ExchangeCode(t) && t.code@ == raw_code@ && t.client_id@
                == client.id@ && t.client_secret@ == client.secret@ && t.redirect_uri@
                == client.redirect_uri@
        },
        !code_acceptable(raw_code@) ==> r.0 == FlowState::Failed(AuthError::InvalidCode) && r.1
            == FlowAction::Fail(AuthError::InvalidCode),
{
    match validate(raw_code) {
        Ok(code) => {
            let req = token_request(&code, client);
            (FlowState::CodeValidated(code), FlowAction::ExchangeCode(req))
        },
        Err(e) => (FlowState::Failed(e), FlowAction::Fail(e)),
    }
}

/// Second step: interprets the token endpoint's reply.  A success status
/// with a schema-conforming body moves to `TokenExchanged` and asks the
/// host to fetch the profile with the bearer credential; anything else —
/// a non-success status, a connection failure the host reports as one,
/// or a malformed body — fails the pass with `UpstreamError`, so no
/// cookie is ever set from it.
pub fn on_token_reply(state: FlowState, reply: &HttpReply) -> (r: (FlowState, FlowAction))
    requires
        state is CodeValidated,
    ensures
        is_success_status(reply.status) && spec_token_of(reply.body@) is Some ==> {
            &&& r.0 matches FlowState::TokenExchanged(c) && c@ == spec_token_of(
                reply.body@,
            )->Some_0
            &&& r.1 matches FlowAction::FetchProfile(p) && p.bearer@ == spec_token_of(
                reply.body@,
            )->Some_0
        },
        !(is_success_status(reply.status) && spec_token_of(reply.body@) is Some) ==> r.0
            == FlowState::Failed(AuthError::UpstreamError) && r.1 == FlowAction::Fail(
            AuthError::UpstreamError,
        ),
{
    match parse_token_response(reply.status, reply.body.as_str()) {
        Ok(cred) => {
            let req = profile_request(&cred);
            (FlowState::TokenExchanged(cred), FlowAction::FetchProfile(req))
        },
        Err(e) => (FlowState::Failed(e), FlowAction::Fail(e)),
    }
}

/// Third step: interprets the profile endpoint's reply.  A success
/// status with a body carrying the external id, display name and
/// platform identifier moves to `ProfileFetched` and asks the host to
/// resolve that identity; anything else — including a body missing the
/// platform identifier — fails the pass with `UpstreamError`, so the
/// store is never asked to create or modify an account.
pub fn on_profile_reply(state: FlowState, reply: &HttpReply) -> (r: (FlowState, FlowAction))
    requires
        state is TokenExchanged,
    ensures
        is_success_status(reply.status) && spec_profile_of(reply.body@) is Some ==> {
            &&& r.0 matches FlowState::ProfileFetched(p) && p@ == spec_profile_of(
                reply.body@,
            )->Some_0
            &&& r.1 matches FlowAction::ResolveIdentity(q) && (
            q.external_id@,
            q.display_name@,
            q.platform_id@,
            ) == spec_profile_of(reply.body@)->Some_0
        },
        !(is_success_status(reply.status) && spec_profile_of(reply.body@) is Some) ==> r.0
            == FlowState::Failed(AuthError::UpstreamError) && r.1 == FlowAction::Fail(
            AuthError::UpstreamError,
        ),
{
    match parse_profile_response(reply.status, reply.body.as_str()) {
        Ok(profile) => {
            let req = ResolveRequest {
                external_id: profile.external_id.clone(),
                display_name: profile.display_name.clone(),
                platform_id: profile.platform_id.clone(),
            };
            (FlowState::ProfileFetched(profile), FlowAction::ResolveIdentity(req))
        },
        Err(e) => (FlowState::Failed(e), FlowAction::Fail(e)),
    }
}

/// Last step: packages the store's answer.  A resolved session token
/// ends the pass with the redirect response carrying the secure session
/// cookie; a store failure ends it with `StorageError`.
pub fn on_store_reply(state: FlowState, reply: StoreReply) -> (r: (FlowState, FlowAction))
    requires
        state is ProfileFetched,
    ensures
        reply matches StoreReply::Session(t) ==> {
            &&& r.0 is ResponseBuilt
            &&& r.1 matches FlowAction::Respond(resp)
            &&& r.1->Respond_0.status == 308
            &&& r.1->Respond_0.location@ == "https://testaustime.fi/oauth_redirect"@
            &&& r.1->Respond_0.cookie.name@ == "testaustime_token"@
            &&& r.1->Respond_0.cookie.value@ == t@
            &&& r.1->Respond_0.cookie.domain@ == "testaustime.fi"@
            &&& r.1->Respond_0.cookie.path@ == "/"@
            &&& r.1->Respond_0.cookie.secure == true
        },
        reply is Failure ==> r.0 == FlowState::Failed(AuthError::StorageError) && r.1
            == FlowAction::Fail(AuthError::StorageError),
{
    match reply {
        StoreReply::Session(t) => {
            let resp = build_response(t);
            (FlowState::ResponseBuilt, FlowAction::Respond(resp))
        },
        StoreReply::Failure => (
            FlowState::Failed(AuthError::StorageError),
            FlowAction::Fail(AuthError::StorageError),
        ),
    }
}

} // verus!
