//! A device asks no longer to be told when a pass changes.

use crate::app::App;
use crate::apple::extractors::Auth;
use crate::apple::webhook_server::middleware::auth::{check_pass_auth, UNAUTHORIZED};
use crate::error::Error;
use vstd::prelude::*;

verus! {

#[derive(Debug, PartialEq, Eq)]
pub struct PathParams {
    pub device_library_id: String,
    pub serial_number: String,
}

/// Deregisters the device from the pass where the request presents the
/// secret of the pass, and refuses it otherwise with nothing changed. That
/// the device was not registered to the pass is no error.
pub fn handle_device_deregistration(app: &mut App, params: &PathParams, auth: &Auth) -> (r: Result<
    u16,
    Error,
>)
    ensures
        match r {
            Ok(status) => {
                &&& old(app)@.token_matches(params.serial_number@, auth.0@)
                &&& final(app)@ == old(app)@.deregister(
                    params.device_library_id@,
                    params.serial_number@,
                )
                &&& status == 200
            },
            Err(e) => {
                &&& !old(app)@.token_matches(params.serial_number@, auth.0@)
                &&& e == Error::HttpStatus(UNAUTHORIZED)
                &&& final(app)@ == old(app)@
            },
        },
        final(app).template() == old(app).template(),
{
    let pass = crate::apple::webhook_server::middleware::auth::PathParams {
        serial_number: params.serial_number.clone(),
    };
    match check_pass_auth(app, &pass, auth) {
        Ok(_) => {},
        Err(e) => {
            return Err(e);
        },
    }
    app.apple_device_unregistration(
        params.device_library_id.as_str(),
        params.serial_number.as_str(),
    );
    Ok(200)
}

} // verus!
