//! Redeeming a full loyalty card.

use crate::app::App;
use crate::db::texts;
use crate::error::{DatabaseError, Error};
use crate::time::Timestamp;
use vstd::prelude::*;

verus! {

#[derive(Debug, PartialEq, Eq)]
pub struct LoyalityCardRedeemBonusPathParams {
    pub serial_number: String,
}

/// Redeems the full loyalty card of a pass and says which push tokens are
/// to be notified of the change.
pub fn handle_loyality_card_redeem_bonus(
    app: &mut App,
    params: &LoyalityCardRedeemBonusPathParams,
    now: Timestamp,
) -> (r: Result<Vec<String>, Error>)
    ensures
        match r {
            Ok(tokens) => {
                &&& old(app)@.has_loyality(params.serial_number@)
                &&& old(app)@.loyality_of(params.serial_number@).total_points == old(app)@.loyality_of(params.serial_number@).current_points
                &&& final(app)@ == old(app)@.redeem_bonus(params.serial_number@, now as int)
                &&& texts(tokens@) == final(app)@.push_tokens(params.serial_number@)
            },
            Err(Error::PassNotFound) => !old(app)@.has_loyality(params.serial_number@) && final(app)@ == old(app)@,
            Err(Error::InvalidAmountOfPoints) => old(app)@.has_loyality(params.serial_number@)
                && old(app)@.loyality_of(params.serial_number@).total_points != old(app)@.loyality_of(params.serial_number@).current_points && final(app)@ == old(app)@,
            Err(e) => {
                let card = old(app)@.loyality_of(params.serial_number@);
                &&& e == Error::Database(DatabaseError::NumericValueOutOfRange)
                &&& old(app)@.has_loyality(params.serial_number@)
                &&& card.total_points == card.current_points
                &&& card.already_redeemed == i32::MAX
                &&& final(app)@ == old(app)@
            },
        },
        final(app).template() == old(app).template(),
{
    app.pass_loyality_redeem_bonus(params.serial_number.as_str(), now)
}

} // verus!
