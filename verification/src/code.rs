//! Code Validator: rejects malformed authorization codes before any
//! network call is made.

use vstd::prelude::*;

use crate::error::AuthError;

verus! {

/// What `char::is_alphanumeric` returns for a character.  The exact
/// character classes (Unicode letters and numbers) take pages to state,
/// but the answer depends on the character alone.
pub uninterp spec fn char_is_alphanumeric(c: char) -> bool;

/// Relies on `char::is_alphanumeric` from std: whether the character is a
/// Unicode letter or number, a function of the character alone.
pub assume_specification[ char::is_alphanumeric ](c: char) -> (r: bool)
    ensures
        r == char_is_alphanumeric(c),
;

/// A whole code is acceptable when every one of its characters is
/// alphanumeric.  This defends against injection into the form-encoded
/// token-exchange request body.
pub open spec fn code_acceptable(s: Seq<char>) -> bool {
    forall|k: int| 0 <= k < s.len() ==> char_is_alphanumeric(#[trigger] s[k])
}

/// An authorization code that passed validation.  Created by the provider,
/// consumed exactly once by the flow, never persisted.
#[derive(Debug)]
pub struct AuthorizationCode {
    raw: String,
}

impl AuthorizationCode {
    /// The validated text of the code.
    pub closed spec fn view(&self) -> Seq<char> {
        self.raw@
    }

    /// Every character of a constructed code is alphanumeric.
    pub open spec fn wf(&self) -> bool {
        code_acceptable(self@)
    }

    /// The code as a string slice, for building the outbound exchange
    /// request.
    pub fn as_str(&self) -> (r: &str)
        ensures
            r@ == self@,
    {
        self.raw.as_str()
    }
}

/// Accepts the raw query-string value exactly when every character is
/// alphanumeric; rejects with `InvalidCode` on the first violation.
/// No side effects.
pub fn validate(raw_code: &str) -> (r: Result<AuthorizationCode, AuthError>)
    ensures
        match r {
            Ok(code) => code.wf() && code@ == raw_code@ && code_acceptable(raw_code@),
            Err(e) => e == AuthError::InvalidCode && !code_acceptable(raw_code@),
        },
{
    let n = raw_code.unicode_len();
    for i in 0..n
        invariant
            n == raw_code@.len(),
            forall|k: int| 0 <= k < i ==> char_is_alphanumeric(#[trigger] raw_code@[k]),
    {
        let c = raw_code.get_char(i);
        if !c.is_alphanumeric() {
            return Err(AuthError::InvalidCode);
        }
    }
    Ok(AuthorizationCode { raw: raw_code.to_owned() })
}

} // verus!
