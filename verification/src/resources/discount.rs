//! Coupons and the discounts that they give.

use crate::params::{Metadata, Timestamp};
use crate::resources::currency::Currency;
use vstd::prelude::*;

verus! {

/// A coupon as the service reports it.
#[derive(Debug)]
pub struct Coupon {
    pub id: String,
    pub amount_off: Option<u64>,
    pub created: Timestamp,
    pub currency: Option<Currency>,
    /// One of `forever`, `once` and `repeating`.
    pub duration: String,
    pub duration_in_months: Option<u64>,
    pub livemode: bool,
    pub max_redemptions: Option<u64>,
    pub metadata: Metadata,
    pub percent_off: Option<u64>,
    pub redeem_by: Option<Timestamp>,
    pub times_redeemed: u64,
    pub valid: bool,
}

/// A coupon applied to a customer or to a subscription.
#[derive(Debug)]
pub struct Discount {
    pub coupon: Coupon,
    pub customer: String,
    pub end: Option<Timestamp>,
    pub start: Timestamp,
    pub subscription: Option<String>,
}

} // verus!
