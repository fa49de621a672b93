//! The HTTP side of the service, as far as it decides anything: what a
//! request that failed is answered with, and what the operators' endpoints
//! do.

pub mod client_error;
pub mod handler;
pub mod middleware;

pub use client_error::ClientError;
pub use middleware::{OidcSub, RequestContext, TokenClaims};
