//! A device fetches a pass.

use crate::app::App;
use crate::apple::extractors::Auth;
use crate::apple::webhook_server::middleware::auth::{check_pass_auth, PathParams, UNAUTHORIZED};
use crate::db::models::moment;
use crate::error::{DatabaseError, Error};
use crate::laws::law_authorisation_is_by_the_pass_secret;
use crate::time::Timestamp;
use crate::wallet::PassState;
use vstd::prelude::*;

verus! {

/// What it takes to render the pass, and the time of its last change, for
/// the `last-modified` header, where the request presents the secret of
/// the pass; refused otherwise.
pub fn handle_get_pass(app: &App, auth: &Auth, serial_number: &str) -> (r: Result<
    (PassState, Timestamp),
    Error,
>)
    ensures
        match r {
            Ok((state, changed)) => {
                &&& app@.token_matches(serial_number@, auth.0@)
                &&& app@.has_loyality(serial_number@)
                &&& state.serial_number@ == serial_number@
                &&& state.authentication_token@ == auth.0@
                &&& changed == app@.pass(serial_number@).last_updated_at
                &&& state.loyality_pass.pass_holder_name@ == app@.loyality_of(
                    serial_number@,
                ).pass_holder_name
                &&& state.loyality_pass.total_points == app@.loyality_of(
                    serial_number@,
                ).total_points
                &&& state.loyality_pass.current_points == app@.loyality_of(
                    serial_number@,
                ).current_points
                &&& state.loyality_pass.already_redeemed == app@.loyality_of(
                    serial_number@,
                ).already_redeemed
                &&& moment(state.loyality_pass.last_use) == app@.loyality_of(
                    serial_number@,
                ).last_used_at
            },
            Err(Error::HttpStatus(status)) => status == UNAUTHORIZED && !app@.token_matches(
                serial_number@,
                auth.0@,
            ),
            Err(e) => app@.token_matches(serial_number@, auth.0@) && !app@.has_loyality(
                serial_number@,
            ) && e == Error::Database(DatabaseError::RowNotFound),
        },
{
    let pass = PathParams { serial_number: serial_number.to_owned() };
    match check_pass_auth(app, &pass, auth) {
        Ok(_) => {},
        Err(e) => {
            return Err(e);
        },
    }
    let _ = app.database();
    proof {
        law_authorisation_is_by_the_pass_secret(app@, serial_number@, auth.0@);
    }
    app.pass_package(serial_number)
}

} // verus!
