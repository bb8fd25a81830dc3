//! Refunds of charges.

use crate::params::{Metadata, Timestamp};
use crate::resources::currency::Currency;
use vstd::prelude::*;

verus! {

/// A refund as the service reports it.
#[derive(Debug)]
pub struct Refund {
    pub id: String,
    pub amount: u64,
    pub balance_transaction: Option<String>,
    pub charge: String,
    pub created: Timestamp,
    pub currency: Currency,
    pub metadata: Metadata,
    /// One of `duplicate`, `fraudulent` and `requested_by_customer`.
    pub reason: Option<String>,
    pub receipt_number: Option<String>,
    pub status: Option<String>,
}

} // verus!
