//! What operators ask of a loyalty card: to add points, to redeem it, to
//! look at it.

use super::App;
use crate::db::queries::push_tokens_from_serial_number;
use crate::db::{texts, DbPassTypeLoyality};
use crate::error::{DatabaseError, Error};
use crate::time::Timestamp;
use vstd::prelude::*;

verus! {

/// The points that may be added to a card: not none, and not more than it
/// still has room for.
pub open spec fn may_add(total_points: int, current_points: int, points: int) -> bool {
    points != 0 && points <= total_points - current_points
}

/// Whether points may be added to a card.
pub fn can_add_points(total_points: i32, current_points: i32, points: i32) -> (b: bool)
    ensures
        b == may_add(total_points as int, current_points as int, points as int),
{
    let room: i64 = total_points as i64 - current_points as i64;
    !(room < points as i64 || points == 0)
}

impl App {
    /// Adds points to the loyalty card of a pass and says which push tokens
    /// are to be notified of the change. Refused where the pass has no card;
    /// else where the points are none or more than the card has room for;
    /// else where the sum leaves the range of the store's numbers. A refusal
    /// changes nothing.
    pub fn pass_loyality_add_points(&mut self, pass_serial_number: &str, points: i32, now: Timestamp) -> (r:
        Result<Vec<String>, Error>)
        ensures
            match r {
                Ok(tokens) => {
                    &&& old(self)@.has_loyality(pass_serial_number@)
                    &&& may_add(
                        old(self)@.loyality_of(pass_serial_number@).total_points,
                        old(self)@.loyality_of(pass_serial_number@).current_points,
                        points as int,
                    )
                    &&& final(self)@ == old(self)@.add_points(
                        pass_serial_number@,
                        points as int,
                        now as int,
                    )
                    &&& texts(tokens@) == final(self)@.push_tokens(pass_serial_number@)
                },
                Err(Error::PassNotFound) => !old(self)@.has_loyality(pass_serial_number@)
                    && final(self)@ == old(self)@,
                Err(Error::InvalidAmountOfPoints) => old(self)@.has_loyality(pass_serial_number@)
                    && !may_add(
                    old(self)@.loyality_of(pass_serial_number@).total_points,
                    old(self)@.loyality_of(pass_serial_number@).current_points,
                    points as int,
                ) && final(self)@ == old(self)@,
                Err(e) => {
                    let card = old(self)@.loyality_of(pass_serial_number@);
                    &&& e == Error::Database(DatabaseError::NumericValueOutOfRange)
                    &&& old(self)@.has_loyality(pass_serial_number@)
                    &&& may_add(card.total_points, card.current_points, points as int)
                    &&& !(i32::MIN <= card.current_points + points <= i32::MAX)
                    &&& final(self)@ == old(self)@
                },
            },
            final(self).template() == old(self).template(),
    {
        let pass = match DbPassTypeLoyality::from_serial_number_optional(
            pass_serial_number,
            &self.db_pool,
        ) {
            Some(pass) => pass,
            None => {
                return Err(Error::PassNotFound);
            },
        };
        if !can_add_points(pass.total_points, pass.current_points, points) {
            return Err(Error::InvalidAmountOfPoints);
        }
        match DbPassTypeLoyality::add_points(pass_serial_number, points, now, &mut self.db_pool) {
            Ok(_) => {},
            Err(e) => {
                return Err(e);
            },
        }
        Ok(push_tokens_from_serial_number(pass_serial_number, &self.db_pool))
    }

    /// Redeems the full loyalty card of a pass and says which push tokens
    /// are to be notified of the change. Refused where the pass has no card;
    /// else where the card is not full; else where the count of redemptions
    /// is the greatest of the store's numbers. A refusal changes nothing.
    pub fn pass_loyality_redeem_bonus(&mut self, pass_serial_number: &str, now: Timestamp) -> (r:
        Result<Vec<String>, Error>)
        ensures
            match r {
                Ok(tokens) => {
                    &&& old(self)@.has_loyality(pass_serial_number@)
                    &&& old(self)@.loyality_of(pass_serial_number@).total_points == old(
                        self,
                    )@.loyality_of(pass_serial_number@).current_points
                    &&& final(self)@ == old(self)@.redeem_bonus(pass_serial_number@, now as int)
                    &&& texts(tokens@) == final(self)@.push_tokens(pass_serial_number@)
                },
                Err(Error::PassNotFound) => !old(self)@.has_loyality(pass_serial_number@)
                    && final(self)@ == old(self)@,
                Err(Error::InvalidAmountOfPoints) => old(self)@.has_loyality(pass_serial_number@)
                    && old(self)@.loyality_of(pass_serial_number@).total_points != old(
                    self,
                )@.loyality_of(pass_serial_number@).current_points && final(self)@ == old(self)@,
                Err(e) => {
                    let card = old(self)@.loyality_of(pass_serial_number@);
                    &&& e == Error::Database(DatabaseError::NumericValueOutOfRange)
                    &&& old(self)@.has_loyality(pass_serial_number@)
                    &&& card.total_points == card.current_points
                    &&& card.already_redeemed == i32::MAX
                    &&& final(self)@ == old(self)@
                },
            },
            final(self).template() == old(self).template(),
    {
        let pass = match DbPassTypeLoyality::from_serial_number_optional(
            pass_serial_number,
            &self.db_pool,
        ) {
            Some(pass) => pass,
            None => {
                return Err(Error::PassNotFound);
            },
        };
        if pass.total_points != pass.current_points {
            return Err(Error::InvalidAmountOfPoints);
        }
        match DbPassTypeLoyality::redeem_bonus(pass_serial_number, now, &mut self.db_pool) {
            Ok(_) => {},
            Err(e) => {
                return Err(e);
            },
        }
        Ok(push_tokens_from_serial_number(pass_serial_number, &self.db_pool))
    }

    /// The loyalty card of a pass.
    pub fn get_loyality_pass(&self, pass_serial_number: &str) -> (r: Result<DbPassTypeLoyality, Error>)
        ensures
            match r {
                Ok(l) => self@.has_loyality(pass_serial_number@) && l@ == self@.loyality_of(
                    pass_serial_number@,
                ),
                Err(e) => !self@.has_loyality(pass_serial_number@) && e == Error::PassNotFound,
            },
    {
        match DbPassTypeLoyality::from_serial_number_optional(pass_serial_number, &self.db_pool) {
            Some(l) => Ok(l),
            None => Err(Error::PassNotFound),
        }
    }
}

} // verus!
