//! Looking at a loyalty card.

use crate::app::App;
use crate::db::models::moment;
use crate::error::Error;
use crate::time::Timestamp;
use vstd::prelude::*;

verus! {

#[derive(Debug, PartialEq, Eq)]
pub struct GetLoyalityPassResponse {
    pub serial_number: String,
    pub already_redeemed: i32,
    pub total_points: i32,
    pub current_points: i32,
    pub pass_holder_name: String,
    pub last_used_at: Option<Timestamp>,
}

#[derive(Debug, PartialEq, Eq)]
pub struct GetLoyalityPassPathParams {
    pub serial_number: String,
}

/// The loyalty card of a pass, as the store holds it.
pub fn handle_get_loyality_pass(app: &App, params: &GetLoyalityPassPathParams) -> (r: Result<
    GetLoyalityPassResponse,
    Error,
>)
    ensures
        match r {
            Ok(card) => {
                let row = app@.loyality_of(params.serial_number@);
                &&& app@.has_loyality(params.serial_number@)
                &&& card.serial_number@ == row.serial_number
                &&& card.already_redeemed == row.already_redeemed
                &&& card.total_points == row.total_points
                &&& card.current_points == row.current_points
                &&& card.pass_holder_name@ == row.pass_holder_name
                &&& moment(card.last_used_at) == row.last_used_at
            },
            Err(e) => !app@.has_loyality(params.serial_number@) && e == Error::PassNotFound,
        },
{
    match app.get_loyality_pass(params.serial_number.as_str()) {
        Ok(loyality_pass) => Ok(
            GetLoyalityPassResponse {
                serial_number: loyality_pass.serial_number,
                already_redeemed: loyality_pass.already_redeemed,
                total_points: loyality_pass.total_points,
                current_points: loyality_pass.current_points,
                pass_holder_name: loyality_pass.pass_holder_name,
                last_used_at: loyality_pass.last_used_at,
            },
        ),
        Err(e) => Err(e),
    }
}

} // verus!
