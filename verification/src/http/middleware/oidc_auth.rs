//! Operators prove who they are with an identity token. Whether a token is
//! valid is found out elsewhere; here it is decided what follows from it.

use crate::error::{Error, OidcValidationError};
use vstd::prelude::*;

verus! {

/// The subject of an identity token.
pub type OidcSub = String;

/// What a valid identity token says of its bearer.
#[derive(Debug, PartialEq, Eq)]
pub struct TokenClaims {
    pub sub: String,
}

/// Lets a request pass with the subject of its token where the token was
/// found valid, and refuses it with the reason where it was not.
pub fn oidc_auth(validation: Result<TokenClaims, OidcValidationError>) -> (r: Result<OidcSub, Error>)
    ensures
        match validation {
            Ok(claims) => r is Ok && r->Ok_0@ == claims.sub@,
            Err(e) => r == Err::<OidcSub, Error>(Error::OidcValidate(e)),
        },
{
    match validation {
        Ok(claims) => Ok(claims.sub),
        Err(e) => Err(Error::OidcValidate(e)),
    }
}

} // verus!
