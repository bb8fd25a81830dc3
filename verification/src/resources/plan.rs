//! Plans: the parameters with which one is created or updated, and the
//! plan as the service reports it.

use crate::form::{
    lemma_append_associative, opt_nested, opt_text, opt_unsigned, put_opt_nested, Fields,
    FormFields, Params,
};
use crate::params::{Metadata, Timestamp};
use crate::resources::currency::{opt_code, put_opt_currency, Currency};
use vstd::prelude::*;

verus! {

/// The parameters with which a plan is created or updated. A field that
/// is `None` is left out of the request altogether.
#[derive(Debug, Default)]
pub struct PlanParams<'a> {
    pub id: Option<&'a str>,
    pub amount: Option<u64>,
    pub currency: Option<Currency>,
    /// One of `day`, `week`, `month` and `year`.
    pub interval: Option<&'a str>,
    pub name: Option<&'a str>,
    pub interval_count: Option<u64>,
    pub metadata: Option<Metadata>,
    pub statement_descriptor: Option<&'a str>,
    pub trial_period_days: Option<u64>,
}

impl<'a> FormFields for PlanParams<'a> {
    /// The members that are set, in the order of their declaration.
    open spec fn fields(&self, key: Seq<char>) -> Fields {
        opt_text(key, "id"@, self.id)
            + opt_unsigned(key, "amount"@, self.amount)
            + opt_code(key, "currency"@, self.currency)
            + opt_text(key, "interval"@, self.interval)
            + opt_text(key, "name"@, self.name)
            + opt_unsigned(key, "interval_count"@, self.interval_count)
            + opt_nested(key, "metadata"@, self.metadata)
            + opt_text(key, "statement_descriptor"@, self.statement_descriptor)
            + opt_unsigned(key, "trial_period_days"@, self.trial_period_days)
    }

    fn append_to(&self, out: &mut Params, key: &str) {
        broadcast use lemma_append_associative;

        out.put_opt_str(key, "id", self.id);
        out.put_opt_u64(key, "amount", self.amount);
        put_opt_currency(out, key, "currency", self.currency);
        out.put_opt_str(key, "interval", self.interval);
        out.put_opt_str(key, "name", self.name);
        out.put_opt_u64(key, "interval_count", self.interval_count);
        put_opt_nested(out, key, "metadata", &self.metadata);
        out.put_opt_str(key, "statement_descriptor", self.statement_descriptor);
        out.put_opt_u64(key, "trial_period_days", self.trial_period_days);
    }
}

/// A plan as the service reports it.
#[derive(Debug)]
pub struct Plan {
    pub id: String,
    pub amount: u64,
    pub created: Timestamp,
    pub currency: Currency,
    /// One of `day`, `week`, `month` and `year`.
    pub interval: String,
    pub interval_count: u64,
    pub livemode: bool,
    pub metadata: Metadata,
    pub nickname: String,
    pub statement_descriptor: Option<String>,
    pub trial_period_days: Option<u64>,
}

} // verus!
