//! Issuing a pass.

use crate::app::{issued_card, issued_pass, App};
use crate::error::{DatabaseError, Error};
use crate::time::Timestamp;
use crate::utils::{epoch_millis, is_v7_text};
use crate::wallet::PassState;
use vstd::prelude::*;

verus! {

/// The name that a pass is issued to where none is given.
pub const DEFAULT_PASS_HOLDER_NAME: &'static str = "Test Name";

/// Issues a pass to the default holder and returns what it takes to render
/// it, with its serial number.
pub fn handle_create_pass(app: &mut App, now: Timestamp) -> (r: Result<(PassState, String), Error>)
    ensures
        match r {
            Ok((state, serial)) => {
                &&& is_v7_text(serial@, epoch_millis(now))
                &&& is_v7_text(state.authentication_token@, epoch_millis(now))
                &&& state.serial_number@ == serial@
                &&& state.loyality_pass.pass_holder_name@ == DEFAULT_PASS_HOLDER_NAME@
                &&& state.loyality_pass.total_points == 10
                &&& state.loyality_pass.current_points == 0
                &&& state.loyality_pass.already_redeemed == 0
                &&& state.loyality_pass.last_use is None
                &&& !old(app)@.has_pass(serial@)
                &&& !old(app)@.has_loyality(serial@)
                &&& final(app)@ == old(app)@.insert_pass(
                    issued_pass(serial@, old(app).template(), state.authentication_token@, now as int),
                ).insert_loyality(issued_card(serial@, DEFAULT_PASS_HOLDER_NAME@))
            },
            Err(e) => e == Error::Database(DatabaseError::UniqueViolation) && final(app)@ == old(app)@,
        },
        final(app).template() == old(app).template(),
{
    app.add_pass(DEFAULT_PASS_HOLDER_NAME, now)
}

} // verus!
