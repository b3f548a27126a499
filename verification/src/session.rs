//! Session Issuer: packages a resolved session token into a secure
//! cookie on a permanent-redirect response to the application root.
//! This step performs no further validation and cannot fail; the cookie
//! attributes are fixed application configuration.

use vstd::prelude::*;

verus! {

/// The session token wrapped with its cookie attributes.  Ownership
/// transfers to the browser.
pub struct SessionCookie {
    pub name: String,
    pub value: String,
    pub domain: String,
    pub path: String,
    pub secure: bool,
}

/// The terminal HTTP answer of a successful flow: a permanent redirect
/// carrying the session cookie.
pub struct LoginResponse {
    pub status: u16,
    pub location: String,
    pub cookie: SessionCookie,
}

/// The serialized `Set-Cookie` header value of a cookie.
pub open spec fn spec_cookie_header(c: SessionCookie) -> Seq<char> {
    c.name@ + "="@ + c.value@ + "; Domain="@ + c.domain@ + "; Path="@ + c.path@ + if c.secure {
        "; Secure"@
    } else {
        Seq::<char>::empty()
    }
}

/// Serializes a cookie as a `Set-Cookie` header value: name, value, then
/// the domain, path and secure attributes.
pub fn set_cookie_header(c: &SessionCookie) -> (r: String)
    ensures
        r@ == spec_cookie_header(*c),
{
    let mut s = c.name.clone();
    s.append("=");
    s.append(c.value.as_str());
    s.append("; Domain=");
    s.append(c.domain.as_str());
    s.append("; Path=");
    s.append(c.path.as_str());
    if c.secure {
        s.append("; Secure");
    }
    s
}

/// Builds the redirect response for a resolved session token: status 308
/// to the application's landing route, with the token under the
/// application's cookie name, scoped to the application domain and root
/// path, sent only over encrypted connections.
pub fn build_response(session_token: String) -> (r: LoginResponse)
    ensures
        r.status == 308,
        r.location@ == "https://testaustime.fi/oauth_redirect"@,
        r.cookie.name@ == "testaustime_token"@,
        r.cookie.value@ == session_token@,
        r.cookie.domain@ == "testaustime.fi"@,
        r.cookie.path@ == "/"@,
        r.cookie.secure == true,
{
    LoginResponse {
        status: 308,
        location: String::from_str("https://testaustime.fi/oauth_redirect"),
        cookie: SessionCookie {
            name: String::from_str("testaustime_token"),
            value: session_token,
            domain: String::from_str("testaustime.fi"),
            path: String::from_str("/"),
            secure: true,
        },
    }
}

} // verus!
