//! Rating detail: one fee line shared by the BOO checkout reserve message and the fee logic.

use vstd::prelude::*;

verus! {

/// Rating detail for one fee line (BOOA, BOOB and BOO3).
#[derive(Debug, Clone, Default)]
pub struct RatingDetail {
    pub price_id: Option<i64>,
    pub boo: i32,
    pub toll_a_id: i32,
    pub toll_b_id: i32,
    pub ticket_type: String,
    pub subscription_id: String,
    pub price_ticket_type: i32,
    pub price_amount: i32,
    pub vehicle_type: i32,
    /// BOT_ID from RATING_OWNER.BOT_TOLL.
    pub bot_id: Option<i64>,
    /// STAGE_ID from RATING_OWNER.PRICE.
    pub stage_id: Option<i64>,
}

} // verus!
