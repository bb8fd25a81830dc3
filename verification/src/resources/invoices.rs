//! Invoices and their line items: the parameters of the operations on
//! them, and both as the service reports them.

use crate::form::{
    lemma_append_associative, opt_flag, opt_nested, opt_signed, opt_text, opt_unsigned,
    put_opt_nested, text, Fields, FormFields, Params,
};
use crate::params::{
    opt_decimal, put_opt_decimal, Decimal, List, Metadata, RangeQuery, Timestamp,
};
use crate::resources::currency::{opt_code, put_opt_currency, Currency};
use crate::resources::discount::Discount;
use crate::resources::plan::Plan;
use vstd::prelude::*;

verus! {

/// The parameters with which an invoice is created or updated. A field
/// that is `None` is left out of the request altogether.
#[derive(Debug, Default)]
pub struct InvoiceParams<'a> {
    pub application_fee: Option<u64>,
    pub customer: Option<&'a str>,
    pub description: Option<&'a str>,
    pub statement_descriptor: Option<&'a str>,
    pub subscription: Option<&'a str>,
    pub tax_percent: Option<Decimal>,
    pub closed: Option<bool>,
    pub forgiven: Option<bool>,
}

impl<'a> FormFields for InvoiceParams<'a> {
    /// The members that are set, in the order of their declaration.
    open spec fn fields(&self, key: Seq<char>) -> Fields {
        opt_unsigned(key, "application_fee"@, self.application_fee)
            + opt_text(key, "customer"@, self.customer)
            + opt_text(key, "description"@, self.description)
            + opt_text(key, "statement_descriptor"@, self.statement_descriptor)
            + opt_text(key, "subscription"@, self.subscription)
            + opt_decimal(key, "tax_percent"@, self.tax_percent)
            + opt_flag(key, "closed"@, self.closed)
            + opt_flag(key, "forgiven"@, self.forgiven)
    }

    fn append_to(&self, out: &mut Params, key: &str) {
        broadcast use lemma_append_associative;

        out.put_opt_u64(key, "application_fee", self.application_fee);
        out.put_opt_str(key, "customer", self.customer);
        out.put_opt_str(key, "description", self.description);
        out.put_opt_str(key, "statement_descriptor", self.statement_descriptor);
        out.put_opt_str(key, "subscription", self.subscription);
        put_opt_decimal(out, key, "tax_percent", &self.tax_percent);
        out.put_opt_bool(key, "closed", self.closed);
        out.put_opt_bool(key, "forgiven", self.forgiven);
    }
}

/// The parameters with which a line item is added to an invoice.
#[derive(Debug, Default)]
pub struct InvoiceLineItemParams<'a> {
    pub amount: Option<i64>,
    pub currency: Option<Currency>,
    pub customer: Option<&'a str>,
    pub description: Option<&'a str>,
    pub discountable: Option<bool>,
    pub invoice: Option<&'a str>,
    pub metadata: Option<bool>,
    pub subscription: Option<bool>,
}

impl<'a> FormFields for InvoiceLineItemParams<'a> {
    /// The members that are set, in the order of their declaration.
    open spec fn fields(&self, key: Seq<char>) -> Fields {
        opt_signed(key, "amount"@, self.amount)
            + opt_code(key, "currency"@, self.currency)
            + opt_text(key, "customer"@, self.customer)
            + opt_text(key, "description"@, self.description)
            + opt_flag(key, "discountable"@, self.discountable)
            + opt_text(key, "invoice"@, self.invoice)
            + opt_flag(key, "metadata"@, self.metadata)
            + opt_flag(key, "subscription"@, self.subscription)
    }

    fn append_to(&self, out: &mut Params, key: &str) {
        broadcast use lemma_append_associative;

        out.put_opt_i64(key, "amount", self.amount);
        put_opt_currency(out, key, "currency", self.currency);
        out.put_opt_str(key, "customer", self.customer);
        out.put_opt_str(key, "description", self.description);
        out.put_opt_bool(key, "discountable", self.discountable);
        out.put_opt_str(key, "invoice", self.invoice);
        out.put_opt_bool(key, "metadata", self.metadata);
        out.put_opt_bool(key, "subscription", self.subscription);
    }
}

/// A change to one item of a subscription, for the preview of an invoice.
#[derive(Debug)]
pub struct SubscriptionItemParams<'a> {
    pub id: Option<&'a str>,
    pub deleted: Option<bool>,
    pub metadata: Option<Metadata>,
    pub plan: Option<&'a str>,
    pub quantity: Option<u64>,
}

impl<'a> FormFields for SubscriptionItemParams<'a> {
    /// The members that are set, in the order of their declaration.
    open spec fn fields(&self, key: Seq<char>) -> Fields {
        opt_text(key, "id"@, self.id)
            + opt_flag(key, "deleted"@, self.deleted)
            + opt_nested(key, "metadata"@, self.metadata)
            + opt_text(key, "plan"@, self.plan)
            + opt_unsigned(key, "quantity"@, self.quantity)
    }

    fn append_to(&self, out: &mut Params, key: &str) {
        broadcast use lemma_append_associative;

        out.put_opt_str(key, "id", self.id);
        out.put_opt_bool(key, "deleted", self.deleted);
        put_opt_nested(out, key, "metadata", &self.metadata);
        out.put_opt_str(key, "plan", self.plan);
        out.put_opt_u64(key, "quantity", self.quantity);
    }
}

/// The parameters with which the upcoming invoice of a customer is
/// previewed. The customer is always named.
#[derive(Debug, Default)]
pub struct InvoiceUpcomingParams<'a> {
    pub customer: &'a str,
    pub coupon: Option<&'a str>,
    pub subscription: Option<&'a str>,
    pub subscription_items: Option<SubscriptionItemParams<'a>>,
    pub subscription_prorate: Option<bool>,
    pub subscription_proration_date: Option<i64>,
    pub subscription_tax_percent: Option<Decimal>,
    pub subscription_trial_end: Option<i64>,
}

impl<'a> FormFields for InvoiceUpcomingParams<'a> {
    /// The members that are set, in the order of their declaration.
    open spec fn fields(&self, key: Seq<char>) -> Fields {
        text(key, "customer"@, self.customer@)
            + opt_text(key, "coupon"@, self.coupon)
            + opt_text(key, "subscription"@, self.subscription)
            + opt_nested(key, "subscription_items"@, self.subscription_items)
            + opt_flag(key, "subscription_prorate"@, self.subscription_prorate)
            + opt_signed(key, "subscription_proration_date"@, self.subscription_proration_date)
            + opt_decimal(key, "subscription_tax_percent"@, self.subscription_tax_percent)
            + opt_signed(key, "subscription_trial_end"@, self.subscription_trial_end)
    }

    fn append_to(&self, out: &mut Params, key: &str) {
        broadcast use lemma_append_associative;

        out.put_str(key, "customer", self.customer);
        out.put_opt_str(key, "coupon", self.coupon);
        out.put_opt_str(key, "subscription", self.subscription);
        put_opt_nested(out, key, "subscription_items", &self.subscription_items);
        out.put_opt_bool(key, "subscription_prorate", self.subscription_prorate);
        out.put_opt_i64(key, "subscription_proration_date", self.subscription_proration_date);
        put_opt_decimal(out, key, "subscription_tax_percent", &self.subscription_tax_percent);
        out.put_opt_i64(key, "subscription_trial_end", self.subscription_trial_end);
    }
}

/// The start and the end of a span of time.
#[derive(Debug)]
pub struct Period {
    pub start: Timestamp,
    pub end: Timestamp,
}

/// A line item of an invoice as the service reports it.
#[derive(Debug)]
pub struct InvoiceLineItem {
    pub id: String,
    pub amount: i64,
    pub currency: Currency,
    pub description: Option<String>,
    pub discountable: bool,
    pub livemode: bool,
    pub metadata: Metadata,
    pub period: Period,
    pub plan: Option<Plan>,
    pub proration: bool,
    pub quantity: Option<u64>,
    pub subscription: Option<String>,
    pub subscription_item: Option<String>,
    /// `invoiceitem` or `subscription`; empty where the service left it out.
    pub item_type: String,
}

/// An invoice as the service reports it.
#[derive(Debug)]
pub struct Invoice {
    /// Absent on the preview of an upcoming invoice.
    pub id: Option<String>,
    pub amount_due: u64,
    pub application_fee: Option<u64>,
    pub attempt_count: u64,
    pub attempted: bool,
    pub charge: Option<String>,
    pub closed: bool,
    pub currency: Currency,
    pub customer: String,
    pub date: Timestamp,
    pub description: Option<String>,
    pub discount: Option<Discount>,
    pub ending_balance: Option<i64>,
    pub forgiven: bool,
    pub lines: List<InvoiceLineItem>,
    pub livemode: bool,
    pub metadata: Metadata,
    pub next_payment_attempt: Option<Timestamp>,
    pub paid: bool,
    pub period_end: Timestamp,
    pub period_start: Timestamp,
    pub receipt_number: Option<String>,
    pub starting_balance: i64,
    pub statment_descriptor: Option<String>,
    pub subscription: Option<String>,
    pub subscription_proration_date: Option<Timestamp>,
    pub subtotal: i64,
    pub tax: Option<i64>,
    pub tax_percent: Option<Decimal>,
    pub total: i64,
    pub webhooks_delivered_at: Option<Timestamp>,
}

/// The parameters with which invoices are listed.
#[derive(Debug, Default)]
pub struct InvoiceListParams<'a> {
    pub customer: Option<&'a str>,
    pub date: Option<RangeQuery<Timestamp>>,
    pub ending_before: Option<&'a str>,
    pub limit: Option<u64>,
    pub starting_after: Option<&'a str>,
    pub subscription: Option<&'a str>,
}

impl<'a> FormFields for InvoiceListParams<'a> {
    /// The members that are set, in the order of their declaration.
    open spec fn fields(&self, key: Seq<char>) -> Fields {
        opt_text(key, "customer"@, self.customer)
            + opt_nested(key, "date"@, self.date)
            + opt_text(key, "ending_before"@, self.ending_before)
            + opt_unsigned(key, "limit"@, self.limit)
            + opt_text(key, "starting_after"@, self.starting_after)
            + opt_text(key, "subscription"@, self.subscription)
    }

    fn append_to(&self, out: &mut Params, key: &str) {
        broadcast use lemma_append_associative;

        out.put_opt_str(key, "customer", self.customer);
        put_opt_nested(out, key, "date", &self.date);
        out.put_opt_str(key, "ending_before", self.ending_before);
        out.put_opt_u64(key, "limit", self.limit);
        out.put_opt_str(key, "starting_after", self.starting_after);
        out.put_opt_str(key, "subscription", self.subscription);
    }
}

} // verus!
