//! Server-side core of an OAuth 2.0 authorization-code login flow for a
//! time-tracking service.
//!
//! The crate validates the inbound authorization code, interprets the
//! identity provider's token and profile responses, resolves the external
//! identity to an internal account with a session token, and packages the
//! token into a secure cookie on a redirect response.  All network and
//! store I/O stays outside; the logic here is pure and verified.

pub mod code;
pub mod error;
pub mod flow;
pub mod json;
pub mod provider;
pub mod resolver;
pub mod session;

pub use error::AuthError;
