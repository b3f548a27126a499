//! Provider Client: owns every trust decision about the identity
//! provider's two responses.  The outbound calls themselves are plain
//! HTTP performed by the host; this module builds the requests' data and
//! interprets the replies, failing closed on anything that does not match
//! the provider's documented schema.

use vstd::prelude::*;

use crate::code::AuthorizationCode;
use crate::error::AuthError;
use crate::json::{
    get_object, get_string, parse_document, spec_lookup, spec_parse_document, Json,
};

verus! {

/// Configuration for the provider exchange: client id, client secret and
/// redirect URI, trusted and pre-validated, never request input.
pub struct ClientInfo {
    pub id: String,
    pub secret: String,
    pub redirect_uri: String,
}

/// The data of the form-encoded POST to the provider's token endpoint.
pub struct TokenRequest {
    pub code: String,
    pub client_id: String,
    pub client_secret: String,
    pub redirect_uri: String,
}

/// Short-lived bearer token returned by the provider's token endpoint.
/// Held only in memory for the duration of the profile fetch.
#[derive(Debug)]
pub struct ProviderCredential {
    token: String,
}

impl ProviderCredential {
    pub closed spec fn view(&self) -> Seq<char> {
        self.token@
    }
}

/// The data of the GET to the provider's profile endpoint: the bearer
/// credential for its authorization header.
pub struct ProfileRequest {
    pub bearer: String,
}

/// The provider's account identity: external id, display name and the
/// nested platform identifier.  Immutable once fetched.
#[derive(Debug)]
pub struct ExternalProfile {
    pub external_id: String,
    pub display_name: String,
    pub platform_id: String,
}

impl ExternalProfile {
    /// The profile as the triple of its field texts.
    pub open spec fn view(&self) -> (Seq<char>, Seq<char>, Seq<char>) {
        (self.external_id@, self.display_name@, self.platform_id@)
    }
}

/// An HTTP status that counts as success.
pub open spec fn is_success_status(status: u16) -> bool {
    200 <= status < 300
}

/// The bearer token carried by a token-endpoint body: the string value
/// of its `token` member, when the body matches the schema.
pub open spec fn spec_token_of(s: Seq<char>) -> Option<Seq<char>> {
    match spec_parse_document(s) {
        Some(m) => match spec_lookup(m, "token"@) {
            Some(j) => match j {
                Json::Str(t) => Some(t),
                Json::Obj(_) => None,
            },
            None => None,
        },
        None => None,
    }
}

/// The identity carried by a profile-endpoint body: the string values of
/// its `id` and `name` members and of the `id` member of its `platform`
/// object, when the body matches the schema.
pub open spec fn spec_profile_of(s: Seq<char>) -> Option<(Seq<char>, Seq<char>, Seq<char>)> {
    match spec_parse_document(s) {
        Some(m) => match (spec_lookup(m, "id"@), spec_lookup(m, "name"@), spec_lookup(
            m,
            "platform"@,
        )) {
            (Some(Json::Str(id)), Some(Json::Str(name)), Some(Json::Obj(pm))) => match spec_lookup(
                pm,
                "id"@,
            ) {
                Some(Json::Str(pid)) => Some((id, name, pid)),
                _ => None,
            },
            _ => None,
        },
        None => None,
    }
}

/// Builds the field values of the token-exchange request from the
/// validated code and the trusted client configuration.
pub fn token_request(code: &AuthorizationCode, client: &ClientInfo) -> (r: TokenRequest)
    ensures
        r.code@ == code@,
        r.client_id@ == client.id@,
        r.client_secret@ == client.secret@,
        r.redirect_uri@ == client.redirect_uri@,
{
    TokenRequest {
        code: code.as_str().to_owned(),
        client_id: client.id.clone(),
        client_secret: client.secret.clone(),
        redirect_uri: client.redirect_uri.clone(),
    }
}

/// Builds the profile request from the exchanged credential.
pub fn profile_request(cred: &ProviderCredential) -> (r: ProfileRequest)
    ensures
        r.bearer@ == cred@,
{
    ProfileRequest { bearer: cred.token.clone() }
}

/// Interprets the token endpoint's reply.  Succeeds exactly when the
/// status is a success and the body carries a bearer token under the
/// documented schema; anything else is an upstream failure, never an
/// empty credential.
pub fn parse_token_response(status: u16, body: &str) -> (r: Result<ProviderCredential, AuthError>)
    ensures
        match r {
            Ok(cred) => is_success_status(status) && spec_token_of(body@) == Some(cred@),
            Err(e) => e == AuthError::UpstreamError && !(is_success_status(status)
                && spec_token_of(body@) is Some),
        },
{
    if status < 200 || status >= 300 {
        return Err(AuthError::UpstreamError);
    }
    match parse_document(body) {
        Some(ms) => match get_string(&ms, &String::from_str("token")) {
            Some(t) => Ok(ProviderCredential { token: t }),
            None => Err(AuthError::UpstreamError),
        },
        None => Err(AuthError::UpstreamError),
    }
}

/// Interprets the profile endpoint's reply.  Succeeds exactly when the
/// status is a success and the body carries the external id, the display
/// name and the platform identifier under the documented schema.
pub fn parse_profile_response(status: u16, body: &str) -> (r: Result<ExternalProfile, AuthError>)
    ensures
        match r {
            Ok(p) => is_success_status(status) && spec_profile_of(body@) == Some(p@),
            Err(e) => e == AuthError::UpstreamError && !(is_success_status(status)
                && spec_profile_of(body@) is Some),
        },
{
    if status < 200 || status >= 300 {
        return Err(AuthError::UpstreamError);
    }
    match parse_document(body) {
        Some(ms) => {
            let id = get_string(&ms, &String::from_str("id"));
            let name = get_string(&ms, &String::from_str("name"));
            match (id, name, get_object(&ms, &String::from_str("platform"))) {
                (Some(id), Some(name), Some(pm)) => match get_string(pm, &String::from_str("id")) {
                    Some(pid) => Ok(
                        ExternalProfile {
                            external_id: id,
                            display_name: name,
                            platform_id: pid,
                        },
                    ),
                    None => Err(AuthError::UpstreamError),
                },
                _ => Err(AuthError::UpstreamError),
            }
        },
        None => Err(AuthError::UpstreamError),
    }
}

} // verus!
