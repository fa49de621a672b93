//! A device asks to be told when a pass changes.

use crate::app::App;
use crate::apple::extractors::{Auth, DeviceRegistrationPushToken};
use crate::apple::webhook_server::middleware::auth::{check_pass_auth, UNAUTHORIZED};
use crate::db::tables::pass_key;
use crate::error::Error;
use crate::time::Timestamp;
use vstd::prelude::*;

verus! {

#[derive(Debug, PartialEq, Eq)]
pub struct PathParams {
    pub device_library_id: String,
    pub serial_number: String,
}

/// The status of a registration that was there already.
pub const OK: u16 = 200;

/// The status of a registration that is new.
pub const CREATED: u16 = 201;

/// Registers the device to the pass where the request presents the secret
/// of the pass, and refuses it otherwise with nothing changed. The answer
/// tells whether the device was registered to the pass before; its push
/// token is taken over in either case.
pub fn handle_device_registration(
    app: &mut App,
    params: &PathParams,
    auth: &Auth,
    body: &DeviceRegistrationPushToken,
    now: Timestamp,
) -> (r: Result<u16, Error>)
    ensures
        match r {
            Ok(status) => {
                &&& old(app)@.token_matches(params.serial_number@, auth.0@)
                &&& final(app)@ == old(app)@.register(
                    params.device_library_id@,
                    params.serial_number@,
                    body.push_token@,
                    now as int,
                )
                &&& status == if old(app)@.is_registered(
                    params.device_library_id@,
                    params.serial_number@,
                ) {
                    OK
                } else {
                    CREATED
                }
            },
            Err(e) => {
                &&& !old(app)@.token_matches(params.serial_number@, auth.0@)
                &&& e == Error::HttpStatus(UNAUTHORIZED)
                &&& final(app)@ == old(app)@
            },
        },
        final(app).template() == old(app).template(),
{
    let pass = crate::apple::webhook_server::middleware::auth::PathParams {
        serial_number: params.serial_number.clone(),
    };
    match check_pass_auth(app, &pass, auth) {
        Ok(_) => {},
        Err(e) => {
            return Err(e);
        },
    }
    proof {
        let t = app@;
        let i = choose|i: int|
            0 <= i < t.passes.len() && (#[trigger] t.passes[i]).serial_number
                == params.serial_number@ && t.passes[i].auth_token == auth.0@;
        assert(pass_key()(t.passes[i]) == params.serial_number@);
    }
    match app.apple_device_registration(
        params.device_library_id.as_str(),
        params.serial_number.as_str(),
        body.push_token.as_str(),
        now,
    ) {
        Ok(true) => Ok(OK),
        Ok(false) => Ok(CREATED),
        Err(e) => Err(e),
    }
}

} // verus!
