//! Who may act on a pass: whoever presents its secret.

use crate::app::App;
use crate::apple::extractors::Auth;
use crate::db::queries::correct_serial_number_auth_token;
use crate::error::Error;
use vstd::prelude::*;

verus! {

/// The status that an unauthorised request is answered with. It is the
/// same whether the pass is not there or its secret is another, so that
/// the answer does not tell which serial numbers are taken.
pub const UNAUTHORIZED: u16 = 401;

#[derive(Debug, PartialEq, Eq)]
pub struct PathParams {
    pub serial_number: String,
}

/// Lets a request pass exactly if the pass is there and the secret that
/// the request presents is the secret of the pass.
pub fn check_pass_auth(app: &App, params: &PathParams, auth: &Auth) -> (r: Result<(), Error>)
    ensures
        r is Ok <==> app@.token_matches(params.serial_number@, auth.0@),
        r is Err ==> r == Err::<(), Error>(Error::HttpStatus(UNAUTHORIZED)),
{
    if !correct_serial_number_auth_token(
        params.serial_number.as_str(),
        auth.0.as_str(),
        app.database(),
    ) {
        return Err(Error::HttpStatus(UNAUTHORIZED));
    }
    Ok(())
}

} // verus!
