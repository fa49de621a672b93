//! Adding points to a loyalty card.

use crate::app::{may_add, App};
use crate::db::texts;
use crate::error::{DatabaseError, Error};
use crate::time::Timestamp;
use vstd::prelude::*;

verus! {

#[derive(Clone, Copy, Debug, PartialEq, Eq)]
pub struct JsonBody {
    add_points: u16,
}

impl JsonBody {
    pub closed spec fn points(&self) -> int {
        self.add_points as int
    }

    pub fn new(add_points: u16) -> (body: Self)
        ensures
            body.points() == add_points,
    {
        JsonBody { add_points }
    }

    pub fn add_points(&self) -> (points: u16)
        ensures
            points == self.points(),
    {
        self.add_points
    }
}

#[derive(Debug, PartialEq, Eq)]
pub struct AddPointsToLoyalityCardPathParams {
    pub serial_number: String,
}

/// Adds the points of the request to the loyalty card of a pass and says
/// which push tokens are to be notified of the change.
pub fn handle_add_points_to_loyality_card(
    app: &mut App,
    params: &AddPointsToLoyalityCardPathParams,
    body: &JsonBody,
    now: Timestamp,
) -> (r: Result<Vec<String>, Error>)
    ensures
        match r {
            Ok(tokens) => {
                &&& old(app)@.has_loyality(params.serial_number@)
                &&& may_add(
                    old(app)@.loyality_of(params.serial_number@).total_points,
                    old(app)@.loyality_of(params.serial_number@).current_points,
                    body.points(),
                )
                &&& final(app)@ == old(app)@.add_points(
                    params.serial_number@,
                    body.points(),
                    now as int,
                )
                &&& texts(tokens@) == final(app)@.push_tokens(params.serial_number@)
            },
            Err(Error::PassNotFound) => !old(app)@.has_loyality(params.serial_number@) && final(app)@ == old(app)@,
            Err(Error::InvalidAmountOfPoints) => old(app)@.has_loyality(params.serial_number@)
                && !may_add(
                old(app)@.loyality_of(params.serial_number@).total_points,
                old(app)@.loyality_of(params.serial_number@).current_points,
                body.points(),
            ) && final(app)@ == old(app)@,
            Err(e) => {
                let card = old(app)@.loyality_of(params.serial_number@);
                &&& e == Error::Database(DatabaseError::NumericValueOutOfRange)
                &&& old(app)@.has_loyality(params.serial_number@)
                &&& may_add(card.total_points, card.current_points, body.points())
                &&& !(i32::MIN <= card.current_points + body.points() <= i32::MAX)
                &&& final(app)@ == old(app)@
            },
        },
        final(app).template() == old(app).template(),
{
    let points: i32 = body.add_points as i32;
    app.pass_loyality_add_points(params.serial_number.as_str(), points, now)
}

} // verus!
