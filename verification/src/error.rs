//! The single tagged error type carried up to the HTTP boundary.

use vstd::prelude::*;

verus! {

/// Everything that can go wrong in one pass of the login flow.
///
/// - `InvalidCode`: the inbound authorization code failed the
///   character-class check; a user-visible bad request.
/// - `UpstreamError`: the identity provider returned a non-success status
///   or a body that does not match its documented schema, or the call
///   itself failed; treated as a provider outage, never as user error.
/// - `StorageError`: the identity store could not complete the lookup or
///   the account creation; fatal for the request.
#[derive(Clone, Copy, Debug, PartialEq, Eq, Structural)]
pub enum AuthError {
    InvalidCode,
    UpstreamError,
    StorageError,
}

} // verus!
