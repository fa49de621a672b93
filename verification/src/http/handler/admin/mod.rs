//! What operators do with loyalty cards.

mod get_loyality_card;
mod loyality_add_points;
mod loyality_redeem_bonus;

pub use get_loyality_card::{
    handle_get_loyality_pass, GetLoyalityPassPathParams, GetLoyalityPassResponse,
};
pub use loyality_add_points::{
    handle_add_points_to_loyality_card, AddPointsToLoyalityCardPathParams, JsonBody,
};
pub use loyality_redeem_bonus::{
    handle_loyality_card_redeem_bonus, LoyalityCardRedeemBonusPathParams,
};
