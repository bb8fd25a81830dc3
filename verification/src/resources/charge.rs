//! Charges: the parameters of the operations on them, the requests that
//! the operations make, and the charge as the service reports it.

use crate::form::{
    lemma_append_associative, nested, opt_flag, opt_nested, opt_signed, opt_string, opt_text,
    opt_unsigned, put_nested, put_opt_nested, text, to_params, Fields, FormFields, Params,
};
use crate::params::{List, Metadata, RangeQuery, Timestamp};
use crate::request::{join_path, joined, ApiRequest, Method, RequestModel};
use crate::resources::address::Address;
use crate::resources::currency::{opt_code, put_opt_currency, Currency};
use crate::resources::customer::CustomerSourceParam;
use crate::resources::refund::Refund;
use crate::resources::source::Source;
use crate::text::decimal;
use vstd::prelude::*;

verus! {

/// The path of the collection of charges.
pub const CHARGES: &'static str = "/charges";

/// The parameters with which a charge is captured.
#[derive(Debug, Default)]
pub struct CaptureParams<'a> {
    pub amount: Option<u64>,
    pub application_fee: Option<u64>,
    pub receipt_email: Option<&'a str>,
    pub statement_descriptor: Option<&'a str>,
}

impl<'a> FormFields for CaptureParams<'a> {
    /// The members that are set, in the order of their declaration.
    open spec fn fields(&self, key: Seq<char>) -> Fields {
        opt_unsigned(key, "amount"@, self.amount)
            + opt_unsigned(key, "application_fee"@, self.application_fee)
            + opt_text(key, "receipt_email"@, self.receipt_email)
            + opt_text(key, "statement_descriptor"@, self.statement_descriptor)
    }

    fn append_to(&self, out: &mut Params, key: &str) {
        broadcast use lemma_append_associative;

        out.put_opt_u64(key, "amount", self.amount);
        out.put_opt_u64(key, "application_fee", self.application_fee);
        out.put_opt_str(key, "receipt_email", self.receipt_email);
        out.put_opt_str(key, "statement_descriptor", self.statement_descriptor);
    }
}

/// The account to which a part of a charge is passed on.
#[derive(Debug)]
pub struct DestinationParams<'a> {
    pub account: &'a str,
    pub amount: u64,
}

impl<'a> FormFields for DestinationParams<'a> {
    /// Every member, in the order of their declaration.
    open spec fn fields(&self, key: Seq<char>) -> Fields {
        text(key, "account"@, self.account@)
            + text(key, "amount"@, decimal(self.amount as nat))
    }

    fn append_to(&self, out: &mut Params, key: &str) {
        out.put_str(key, "account", self.account);
        out.put_u64(key, "amount", self.amount);
    }
}

/// A verdict on whether a charge is fraudulent.
#[derive(Debug, Clone, Copy, PartialEq, Eq, Structural)]
pub enum FraudDetailsReport {
    Fraudulent,
    Safe,
}

impl FraudDetailsReport {
    /// The verdict as the service writes it.
    pub open spec fn name(self) -> Seq<char> {
        match self {
            FraudDetailsReport::Fraudulent => "fraudulent"@,
            FraudDetailsReport::Safe => "safe"@,
        }
    }

    /// The verdict as the service writes it.
    pub fn as_str(&self) -> (name: &'static str)
        ensures
            name@ == self.name(),
    {
        match self {
            FraudDetailsReport::Fraudulent => "fraudulent",
            FraudDetailsReport::Safe => "safe",
        }
    }
}

/// The field `name` of the structure at `key`, where it has a verdict.
pub open spec fn opt_report(
    key: Seq<char>,
    name: Seq<char>,
    value: Option<FraudDetailsReport>,
) -> Fields {
    match value {
        Some(report) => text(key, name, report.name()),
        None => Seq::empty(),
    }
}

/// What the user and the service say about whether a charge is fraudulent.
#[derive(Debug, Default)]
pub struct FraudDetails {
    pub user_report: Option<FraudDetailsReport>,
    pub stripe_report: Option<FraudDetailsReport>,
}

impl FormFields for FraudDetails {
    /// The verdicts that are there.
    open spec fn fields(&self, key: Seq<char>) -> Fields {
        opt_report(key, "user_report"@, self.user_report)
            + opt_report(key, "stripe_report"@, self.stripe_report)
    }

    fn append_to(&self, out: &mut Params, key: &str) {
        broadcast use lemma_append_associative;

        if let Some(report) = self.user_report {
            out.put_str(key, "user_report", report.as_str());
        }
        if let Some(report) = self.stripe_report {
            out.put_str(key, "stripe_report", report.as_str());
        }
    }
}

/// Where and how the goods of a charge are shipped.
#[derive(Debug)]
pub struct ShippingDetails {
    pub name: String,
    pub address: Address,
    pub carrier: Option<String>,
    pub phone: Option<String>,
    pub tracking_number: Option<String>,
}

impl FormFields for ShippingDetails {
    /// The members that are set, in the order of their declaration.
    open spec fn fields(&self, key: Seq<char>) -> Fields {
        text(key, "name"@, self.name@)
            + nested(key, "address"@, self.address)
            + opt_string(key, "carrier"@, self.carrier)
            + opt_string(key, "phone"@, self.phone)
            + opt_string(key, "tracking_number"@, self.tracking_number)
    }

    fn append_to(&self, out: &mut Params, key: &str) {
        broadcast use lemma_append_associative;

        out.put_str(key, "name", self.name.as_str());
        put_nested(out, key, "address", &self.address);
        out.put_opt_string(key, "carrier", &self.carrier);
        out.put_opt_string(key, "phone", &self.phone);
        out.put_opt_string(key, "tracking_number", &self.tracking_number);
    }
}

/// The parameters with which a charge is created or updated. A field that
/// is `None` is left out of the request altogether.
#[derive(Debug, Default)]
pub struct ChargeParams<'a> {
    pub amount: Option<u64>,
    pub currency: Option<Currency>,
    pub application_fee: Option<u64>,
    /// The service takes an absent value for `true`.
    pub capture: Option<bool>,
    pub description: Option<&'a str>,
    pub destination: Option<DestinationParams<'a>>,
    pub fraud_details: Option<FraudDetails>,
    pub transfer_group: Option<&'a str>,
    pub on_behalf_of: Option<&'a str>,
    pub metadata: Option<Metadata>,
    pub receipt_email: Option<&'a str>,
    pub shipping: Option<ShippingDetails>,
    pub customer: Option<String>,
    pub source: Option<CustomerSourceParam<'a>>,
    pub statement_descriptor: Option<&'a str>,
}

impl<'a> FormFields for ChargeParams<'a> {
    /// The members that are set, in the order of their declaration.
    open spec fn fields(&self, key: Seq<char>) -> Fields {
        opt_unsigned(key, "amount"@, self.amount)
            + opt_code(key, "currency"@, self.currency)
            + opt_unsigned(key, "application_fee"@, self.application_fee)
            + opt_flag(key, "capture"@, self.capture)
            + opt_text(key, "description"@, self.description)
            + opt_nested(key, "destination"@, self.destination)
            + opt_nested(key, "fraud_details"@, self.fraud_details)
            + opt_text(key, "transfer_group"@, self.transfer_group)
            + opt_text(key, "on_behalf_of"@, self.on_behalf_of)
            + opt_nested(key, "metadata"@, self.metadata)
            + opt_text(key, "receipt_email"@, self.receipt_email)
            + opt_nested(key, "shipping"@, self.shipping)
            + opt_string(key, "customer"@, self.customer)
            + opt_nested(key, "source"@, self.source)
            + opt_text(key, "statement_descriptor"@, self.statement_descriptor)
    }

    fn append_to(&self, out: &mut Params, key: &str) {
        broadcast use lemma_append_associative;

        out.put_opt_u64(key, "amount", self.amount);
        put_opt_currency(out, key, "currency", self.currency);
        out.put_opt_u64(key, "application_fee", self.application_fee);
        out.put_opt_bool(key, "capture", self.capture);
        out.put_opt_str(key, "description", self.description);
        put_opt_nested(out, key, "destination", &self.destination);
        put_opt_nested(out, key, "fraud_details", &self.fraud_details);
        out.put_opt_str(key, "transfer_group", self.transfer_group);
        out.put_opt_str(key, "on_behalf_of", self.on_behalf_of);
        put_opt_nested(out, key, "metadata", &self.metadata);
        out.put_opt_str(key, "receipt_email", self.receipt_email);
        put_opt_nested(out, key, "shipping", &self.shipping);
        out.put_opt_string(key, "customer", &self.customer);
        put_opt_nested(out, key, "source", &self.source);
        out.put_opt_str(key, "statement_descriptor", self.statement_descriptor);
    }
}

/// The kinds of source by which charges can be filtered.
#[derive(Debug, Clone, Copy, PartialEq, Eq, Structural)]
pub enum SourceType {
    All,
    AlipayAccount,
    BankAccount,
    BitcoinReceiver,
    Card,
}

impl SourceType {
    /// The kind as the service writes it.
    pub open spec fn name(self) -> Seq<char> {
        match self {
            SourceType::All => "all"@,
            SourceType::AlipayAccount => "alipay_account"@,
            SourceType::BankAccount => "bank_account"@,
            SourceType::BitcoinReceiver => "bitcoin_receiver"@,
            SourceType::Card => "card"@,
        }
    }

    /// The kind as the service writes it.
    pub fn as_str(&self) -> (name: &'static str)
        ensures
            name@ == self.name(),
    {
        match self {
            SourceType::All => "all",
            SourceType::AlipayAccount => "alipay_account",
            SourceType::BankAccount => "bank_account",
            SourceType::BitcoinReceiver => "bitcoin_receiver",
            SourceType::Card => "card",
        }
    }
}

/// A filter on the kind of source that a charge was made with.
#[derive(Debug, Clone, Copy, PartialEq, Eq, Structural)]
pub struct SourceFilter {
    pub object: SourceType,
}

impl SourceFilter {
    /// The filter that every kind of source passes.
    pub fn all() -> (filter: SourceFilter)
        ensures
            filter.object == SourceType::All,
    {
        SourceFilter { object: SourceType::All }
    }

    /// The filter that Alipay accounts pass.
    pub fn alipay() -> (filter: SourceFilter)
        ensures
            filter.object == SourceType::AlipayAccount,
    {
        SourceFilter { object: SourceType::AlipayAccount }
    }

    /// The filter that bank accounts pass.
    pub fn bank() -> (filter: SourceFilter)
        ensures
            filter.object == SourceType::BankAccount,
    {
        SourceFilter { object: SourceType::BankAccount }
    }

    /// The filter that Bitcoin receivers pass.
    pub fn bitcoin() -> (filter: SourceFilter)
        ensures
            filter.object == SourceType::BitcoinReceiver,
    {
        SourceFilter { object: SourceType::BitcoinReceiver }
    }

    /// The filter that cards pass.
    pub fn card() -> (filter: SourceFilter)
        ensures
            filter.object == SourceType::Card,
    {
        SourceFilter { object: SourceType::Card }
    }
}

impl FormFields for SourceFilter {
    /// The kind of object.
    open spec fn fields(&self, key: Seq<char>) -> Fields {
        text(key, "object"@, self.object.name())
    }

    fn append_to(&self, out: &mut Params, key: &str) {
        out.put_str(key, "object", self.object.as_str());
    }
}

/// The parameters with which charges are listed.
#[derive(Debug, Default)]
pub struct ChargeListParams<'a> {
    pub created: Option<RangeQuery<Timestamp>>,
    pub customer: Option<&'a str>,
    pub ending_before: Option<&'a str>,
    pub limit: Option<i64>,
    pub source: Option<SourceFilter>,
    pub starting_after: Option<&'a str>,
    pub transfer_group: Option<&'a str>,
}

impl<'a> FormFields for ChargeListParams<'a> {
    /// The members that are set, in the order of their declaration.
    open spec fn fields(&self, key: Seq<char>) -> Fields {
        opt_nested(key, "created"@, self.created)
            + opt_text(key, "customer"@, self.customer)
            + opt_text(key, "ending_before"@, self.ending_before)
            + opt_signed(key, "limit"@, self.limit)
            + opt_nested(key, "source"@, self.source)
            + opt_text(key, "starting_after"@, self.starting_after)
            + opt_text(key, "transfer_group"@, self.transfer_group)
    }

    fn append_to(&self, out: &mut Params, key: &str) {
        broadcast use lemma_append_associative;

        put_opt_nested(out, key, "created", &self.created);
        out.put_opt_str(key, "customer", self.customer);
        out.put_opt_str(key, "ending_before", self.ending_before);
        out.put_opt_i64(key, "limit", self.limit);
        put_opt_nested(out, key, "source", &self.source);
        out.put_opt_str(key, "starting_after", self.starting_after);
        out.put_opt_str(key, "transfer_group", self.transfer_group);
    }
}

/// A charge as the service reports it.
#[derive(Debug)]
pub struct Charge {
    pub id: String,
    pub amount: u64,
    pub amount_refunded: u64,
    pub application: Option<String>,
    pub application_fee: Option<String>,
    pub balance_transaction: Option<String>,
    pub captured: bool,
    pub created: Timestamp,
    pub currency: Currency,
    pub customer: Option<String>,
    pub description: Option<String>,
    pub destination: Option<String>,
    pub dispute: Option<String>,
    pub failure_code: Option<String>,
    pub failure_message: Option<String>,
    pub fraud_details: FraudDetails,
    pub invoice: Option<String>,
    pub livemode: bool,
    pub metadata: Metadata,
    pub on_behalf_of: Option<String>,
    pub order: Option<String>,
    pub paid: bool,
    pub receipt_email: Option<String>,
    pub receipt_number: Option<String>,
    pub refunded: bool,
    pub refunds: List<Refund>,
    pub review: Option<String>,
    pub shipping: Option<ShippingDetails>,
    pub source: Source,
    pub source_transfer: Option<String>,
    pub statement_descriptor: Option<String>,
    /// One of `succeeded`, `pending` and `failed`.
    pub status: String,
    pub transfer_group: Option<String>,
}

/// The request that creates a charge.
pub fn create(params: ChargeParams) -> (request: ApiRequest<Charge>)
    ensures
        request@ == (RequestModel {
            body_params: Some(params.fields(Seq::empty())),
            ..RequestModel::bare(Method::Post, CHARGES@)
        }),
        request@.wf(),
{
    proof {
        reveal_strlit("/charges");
    }
    ApiRequest::post(CHARGES).with_body_params(to_params(&params))
}

/// The request that retrieves the charge `charge_id`.
pub fn retrieve(charge_id: &str) -> (request: ApiRequest<Charge>)
    ensures
        request@ == RequestModel::bare(Method::Get, joined(CHARGES@, charge_id@)),
        request@.wf(),
{
    proof {
        reveal_strlit("/charges");
    }
    ApiRequest::get(join_path(CHARGES, charge_id).as_str())
}

/// The request that updates the charge `charge_id`.
pub fn update(charge_id: &str, params: ChargeParams) -> (request: ApiRequest<Charge>)
    ensures
        request@ == (RequestModel {
            body_params: Some(params.fields(Seq::empty())),
            ..RequestModel::bare(Method::Post, joined(CHARGES@, charge_id@))
        }),
        request@.wf(),
{
    proof {
        reveal_strlit("/charges");
    }
    ApiRequest::post(join_path(CHARGES, charge_id).as_str()).with_body_params(to_params(&params))
}

/// The request that captures the charge `charge_id`, which was created
/// without being captured.
pub fn capture(charge_id: &str, params: CaptureParams) -> (request: ApiRequest<Charge>)
    ensures
        request@ == (RequestModel {
            body_params: Some(params.fields(Seq::empty())),
            ..RequestModel::bare(Method::Post, joined(joined(CHARGES@, charge_id@), "capture"@))
        }),
        request@.wf(),
{
    proof {
        reveal_strlit("/charges");
    }
    let charge = join_path(CHARGES, charge_id);
    ApiRequest::post(join_path(charge.as_str(), "capture").as_str()).with_body_params(
        to_params(&params),
    )
}

/// The request that lists charges.
pub fn list(params: ChargeListParams) -> (request: ApiRequest<List<Charge>>)
    ensures
        request@ == (RequestModel {
            query_params: Some(params.fields(Seq::empty())),
            ..RequestModel::bare(Method::Get, CHARGES@)
        }),
        request@.wf(),
{
    proof {
        reveal_strlit("/charges");
    }
    ApiRequest::get(CHARGES).with_query_params(to_params(&params))
}

} // verus!
