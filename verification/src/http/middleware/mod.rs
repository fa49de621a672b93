//! What stands before the handlers: who the operator is, and which request
//! this is.

mod oidc_auth;
mod request_tracing;

pub use oidc_auth::{oidc_auth, OidcSub, TokenClaims};
pub use request_tracing::RequestContext;
