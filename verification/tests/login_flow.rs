use testaustime_auth::code::validate;
use testaustime_auth::error::AuthError;
use testaustime_auth::flow::{
    on_profile_reply, on_store_reply, on_token_reply, start, FlowAction, FlowState, HttpReply,
    StoreReply,
};
use testaustime_auth::provider::{
    parse_profile_response, parse_token_response, profile_request, ClientInfo,
};
use testaustime_auth::resolver::IdentityStore;
use testaustime_auth::session::{build_response, set_cookie_header};

fn client() -> ClientInfo {
    ClientInfo {
        id: String::from("cid_1"),
        secret: String::from("csecret_1"),
        redirect_uri: String::from("https://testaustime.fi/callback"),
    }
}

#[test]
fn validate_accepts_alphanumeric() {
    let code = validate("abc123").unwrap();
    assert_eq!(code.as_str(), "abc123");
}

#[test]
fn validate_rejects_space() {
    assert_eq!(validate("has space").unwrap_err(), AuthError::InvalidCode);
}

#[test]
fn validate_rejects_symbols() {
    assert_eq!(validate("abc-123").unwrap_err(), AuthError::InvalidCode);
    assert_eq!(validate("abc!23").unwrap_err(), AuthError::InvalidCode);
    assert_eq!(validate("a=b&c").unwrap_err(), AuthError::InvalidCode);
}

#[test]
fn validate_accepts_empty() {
    assert!(validate("").is_ok());
}

#[test]
fn token_response_ok() {
    let cred = parse_token_response(200, "{\"token\": \"tok_xyz\"}").unwrap();
    assert_eq!(profile_request(&cred).bearer, "tok_xyz");
}

#[test]
fn token_response_tolerates_extra_members_and_whitespace() {
    let body = " { \"extra\" : { \"x\" : \"y\" } , \"token\" : \"t1\" } ";
    let cred = parse_token_response(201, body).unwrap();
    assert_eq!(profile_request(&cred).bearer, "t1");
}

#[test]
fn token_response_decodes_escapes() {
    let cred = parse_token_response(200, "{\"token\": \"a\\nb\\\"c\\\\d\"}").unwrap();
    assert_eq!(profile_request(&cred).bearer, "a\nb\"c\\d");
}

#[test]
fn token_response_non_success_status() {
    let e = parse_token_response(500, "{\"token\": \"tok_xyz\"}").unwrap_err();
    assert_eq!(e, AuthError::UpstreamError);
    let e = parse_token_response(302, "{\"token\": \"tok_xyz\"}").unwrap_err();
    assert_eq!(e, AuthError::UpstreamError);
}

#[test]
fn token_response_malformed_body() {
    assert_eq!(parse_token_response(200, "").unwrap_err(), AuthError::UpstreamError);
    assert_eq!(parse_token_response(200, "not json").unwrap_err(), AuthError::UpstreamError);
    assert_eq!(parse_token_response(200, "{\"token\": 123}").unwrap_err(), AuthError::UpstreamError);
    assert_eq!(parse_token_response(200, "{\"code\": \"x\"}").unwrap_err(), AuthError::UpstreamError);
    assert_eq!(parse_token_response(200, "{\"token\": \"x\"} trailing").unwrap_err(), AuthError::UpstreamError);
}

#[test]
fn profile_response_ok() {
    let body = "{\"id\":\"42\", \"name\":\"alice\", \"platform\":{\"id\":\"p1\"}}";
    let p = parse_profile_response(200, body).unwrap();
    assert_eq!(p.external_id, "42");
    assert_eq!(p.display_name, "alice");
    assert_eq!(p.platform_id, "p1");
}

#[test]
fn profile_response_missing_platform_id() {
    let body = "{\"id\":\"42\", \"name\":\"alice\", \"platform\":{}}";
    assert_eq!(parse_profile_response(200, body).unwrap_err(), AuthError::UpstreamError);
    let body = "{\"id\":\"42\", \"name\":\"alice\"}";
    assert_eq!(parse_profile_response(200, body).unwrap_err(), AuthError::UpstreamError);
}

#[test]
fn resolver_is_idempotent() {
    let mut store = IdentityStore::new();
    let id = String::from("42");
    let name = String::from("alice");
    let pid = String::from("p1");
    let t1 = store
        .resolve_and_login(&id, &name, &pid, String::from("sess_1"))
        .unwrap();
    let t2 = store
        .resolve_and_login(&id, &name, &pid, String::from("sess_2"))
        .unwrap();
    assert_eq!(t1, "sess_1");
    assert_eq!(t2, "sess_1");
    assert_eq!(store.len(), 1);
}

#[test]
fn resolver_concurrent_first_logins_share_one_account() {
    // The store serializes upserts per external id, so two simultaneous
    // callbacks for a brand-new id become two resolutions in some order.
    let mut store = IdentityStore::new();
    let id = String::from("99");
    let name = String::from("bob");
    let pid = String::from("p2");
    let t1 = store
        .resolve_and_login(&id, &name, &pid, String::from("sess_a"))
        .unwrap();
    let t2 = store
        .resolve_and_login(&id, &name, &pid, String::from("sess_b"))
        .unwrap();
    assert_eq!(t1, t2);
    assert_eq!(store.len(), 1);
}

#[test]
fn resolver_distinct_ids_get_distinct_accounts() {
    let mut store = IdentityStore::new();
    let t1 = store
        .resolve_and_login(
            &String::from("1"),
            &String::from("alice"),
            &String::from("p1"),
            String::from("sess_1"),
        )
        .unwrap();
    let t2 = store
        .resolve_and_login(
            &String::from("2"),
            &String::from("bob"),
            &String::from("p1"),
            String::from("sess_2"),
        )
        .unwrap();
    assert_eq!(t1, "sess_1");
    assert_eq!(t2, "sess_2");
    assert_eq!(store.len(), 2);
}

#[test]
fn cookie_header_format() {
    let resp = build_response(String::from("sess_abc"));
    assert_eq!(
        set_cookie_header(&resp.cookie),
        "testaustime_token=sess_abc; Domain=testaustime.fi; Path=/; Secure"
    );
}

#[test]
fn flow_happy_path() {
    let client = client();
    let (state, action) = start("abc123", &client);
    let token_req = match action {
        FlowAction::ExchangeCode(t) => t,
        _ => panic!("expected an exchange request"),
    };
    assert_eq!(token_req.code, "abc123");
    assert_eq!(token_req.client_id, "cid_1");
    assert_eq!(token_req.client_secret, "csecret_1");
    assert_eq!(token_req.redirect_uri, "https://testaustime.fi/callback");

    let reply = HttpReply { status: 200, body: String::from("{\"token\": \"tok_xyz\"}") };
    let (state, action) = on_token_reply(state, &reply);
    let profile_req = match action {
        FlowAction::FetchProfile(p) => p,
        _ => panic!("expected a profile fetch"),
    };
    assert_eq!(profile_req.bearer, "tok_xyz");

    let reply = HttpReply {
        status: 200,
        body: String::from("{\"id\":\"42\", \"name\":\"alice\", \"platform\":{\"id\":\"p1\"}}"),
    };
    let (state, action) = on_profile_reply(state, &reply);
    let resolve_req = match action {
        FlowAction::ResolveIdentity(q) => q,
        _ => panic!("expected a resolution request"),
    };
    assert_eq!(resolve_req.external_id, "42");
    assert_eq!(resolve_req.display_name, "alice");
    assert_eq!(resolve_req.platform_id, "p1");

    let mut store = IdentityStore::new();
    let token = store
        .resolve_and_login(
            &resolve_req.external_id,
            &resolve_req.display_name,
            &resolve_req.platform_id,
            String::from("sess_abc"),
        )
        .unwrap();
    assert_eq!(token, "sess_abc");
    assert_eq!(store.len(), 1);

    let (state, action) = on_store_reply(state, StoreReply::Session(token));
    assert!(matches!(state, FlowState::ResponseBuilt));
    let resp = match action {
        FlowAction::Respond(r) => r,
        _ => panic!("expected the terminal response"),
    };
    assert_eq!(resp.status, 308);
    assert_eq!(resp.location, "https://testaustime.fi/oauth_redirect");
    assert_eq!(
        set_cookie_header(&resp.cookie),
        "testaustime_token=sess_abc; Domain=testaustime.fi; Path=/; Secure"
    );
}

#[test]
fn flow_rejects_bad_code_without_outbound_calls() {
    let (state, action) = start("has space", &client());
    assert!(matches!(state, FlowState::Failed(AuthError::InvalidCode)));
    // The only action handed to the host is the terminal failure: no
    // exchange, no fetch, no store request.
    assert!(matches!(action, FlowAction::Fail(AuthError::InvalidCode)));
}

#[test]
fn flow_fails_closed_on_upstream_status() {
    let client = client();
    let (state, _) = start("abc123", &client);
    let reply = HttpReply { status: 503, body: String::from("{\"token\": \"tok_xyz\"}") };
    let (state, action) = on_token_reply(state, &reply);
    assert!(matches!(state, FlowState::Failed(AuthError::UpstreamError)));
    assert!(matches!(action, FlowAction::Fail(AuthError::UpstreamError)));
}

#[test]
fn flow_fails_on_profile_missing_platform() {
    let client = client();
    let (state, _) = start("abc123", &client);
    let reply = HttpReply { status: 200, body: String::from("{\"token\": \"tok_xyz\"}") };
    let (state, _) = on_token_reply(state, &reply);
    let reply = HttpReply {
        status: 200,
        body: String::from("{\"id\":\"42\", \"name\":\"alice\"}"),
    };
    let (state, action) = on_profile_reply(state, &reply);
    // The pass fails before any resolution request is issued, so no
    // account is created or modified.
    assert!(matches!(state, FlowState::Failed(AuthError::UpstreamError)));
    assert!(matches!(action, FlowAction::Fail(AuthError::UpstreamError)));
}

#[test]
fn flow_surfaces_store_failure() {
    let client = client();
    let (state, _) = start("abc123", &client);
    let reply = HttpReply { status: 200, body: String::from("{\"token\": \"tok_xyz\"}") };
    let (state, _) = on_token_reply(state, &reply);
    let reply = HttpReply {
        status: 200,
        body: String::from("{\"id\":\"42\", \"name\":\"alice\", \"platform\":{\"id\":\"p1\"}}"),
    };
    let (state, _) = on_profile_reply(state, &reply);
    let (state, action) = on_store_reply(state, StoreReply::Failure);
    assert!(matches!(state, FlowState::Failed(AuthError::StorageError)));
    assert!(matches!(action, FlowAction::Fail(AuthError::StorageError)));
}
