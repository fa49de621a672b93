//! The operators' endpoints.

pub mod admin;
mod create_pass;

pub use admin::{
    handle_add_points_to_loyality_card, handle_get_loyality_pass,
    handle_loyality_card_redeem_bonus, AddPointsToLoyalityCardPathParams,
    GetLoyalityPassPathParams, GetLoyalityPassResponse, JsonBody,
    LoyalityCardRedeemBonusPathParams,
};
pub use create_pass::{handle_create_pass, DEFAULT_PASS_HOLDER_NAME};
