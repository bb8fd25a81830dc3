//! Subscriptions of customers to plans.

use crate::params::{Decimal, List, Metadata, Timestamp};
use crate::resources::discount::Discount;
use crate::resources::plan::Plan;
use vstd::prelude::*;

verus! {

/// One plan of a subscription, with its quantity.
#[derive(Debug)]
pub struct SubscriptionItem {
    pub id: String,
    pub created: Timestamp,
    pub plan: Plan,
    pub quantity: u64,
}

/// A subscription as the service reports it.
#[derive(Debug)]
pub struct Subscription {
    pub id: String,
    pub application_fee_percent: Option<Decimal>,
    pub cancel_at_period_end: bool,
    pub canceled_at: Option<Timestamp>,
    pub created: Option<Timestamp>,
    pub current_period_start: Timestamp,
    pub current_period_end: Timestamp,
    pub customer: String,
    pub discount: Option<Discount>,
    pub ended_at: Option<Timestamp>,
    pub items: List<SubscriptionItem>,
    pub livemode: bool,
    pub metadata: Metadata,
    pub plan: Plan,
    pub quantity: u64,
    pub start: Timestamp,
    /// One of `trialing`, `active`, `past_due`, `canceled` and `unpaid`.
    pub status: String,
    pub tax_percent: Option<Decimal>,
    pub trial_start: Option<Timestamp>,
    pub trial_end: Option<Timestamp>,
}

} // verus!
