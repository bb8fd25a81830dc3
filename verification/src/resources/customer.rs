//! Customers: the parameters of the operations on them, the requests that
//! the operations make, and the customer as the service reports it.

use crate::form::{
    lemma_append_associative, nested, opt_nested, opt_signed, opt_text, put_nested,
    put_opt_nested, text, to_params, Fields, FormFields, Params,
};
use crate::params::{Deleted, List, Metadata, RangeQuery, Timestamp};
use crate::request::{join_path, joined, ApiRequest, Method, RequestModel};
use crate::resources::address::Address;
use crate::resources::card::CardParams;
use crate::resources::currency::Currency;
use crate::resources::discount::Discount;
use crate::resources::source::Source;
use crate::resources::subscription::Subscription;
use vstd::prelude::*;

verus! {

/// The path of the collection of customers.
pub const CUSTOMERS: &'static str = "/customers";

/// Where and to whom a customer's goods are shipped.
#[derive(Debug)]
pub struct CustomerShippingDetails {
    pub address: Address,
    pub name: String,
    pub phone: String,
}

impl FormFields for CustomerShippingDetails {
    /// Every member, in the order of their declaration.
    open spec fn fields(&self, key: Seq<char>) -> Fields {
        nested(key, "address"@, self.address)
            + text(key, "name"@, self.name@)
            + text(key, "phone"@, self.phone@)
    }

    fn append_to(&self, out: &mut Params, key: &str) {
        broadcast use lemma_append_associative;

        put_nested(out, key, "address", &self.address);
        out.put_str(key, "name", self.name.as_str());
        out.put_str(key, "phone", self.phone.as_str());
    }
}

/// What a customer is to be charged through: a source that the service
/// knows by an identifier or a token, or the details of a card.
#[derive(Debug)]
pub enum CustomerSourceParam<'a> {
    Id(&'a str),
    Token(&'a str),
    Card(CardParams<'a>),
}

impl<'a> FormFields for CustomerSourceParam<'a> {
    /// An identifier or a token is the value of `key` itself; a card is
    /// the structure at `key`.
    open spec fn fields(&self, key: Seq<char>) -> Fields {
        match *self {
            CustomerSourceParam::Id(id) => seq![(key, id@)],
            CustomerSourceParam::Token(token) => seq![(key, token@)],
            CustomerSourceParam::Card(card) => card.fields(key),
        }
    }

    fn append_to(&self, out: &mut Params, key: &str) {
        match self {
            CustomerSourceParam::Id(id) => {
                out.push(String::from_str(key), String::from_str(id));
            },
            CustomerSourceParam::Token(token) => {
                out.push(String::from_str(key), String::from_str(token));
            },
            CustomerSourceParam::Card(card) => {
                card.append_to(out, key);
            },
        }
    }
}

/// The parameters with which a customer is created or updated. A field
/// that is `None` is left out of the request altogether.
#[derive(Debug, Default)]
pub struct CustomerParams<'a> {
    pub account_balance: Option<i64>,
    pub business_vat_id: Option<&'a str>,
    pub coupon: Option<&'a str>,
    /// Sent under the name `default_source`.
    pub default_source_id: Option<&'a str>,
    pub description: Option<&'a str>,
    pub email: Option<&'a str>,
    pub metadata: Option<Metadata>,
    pub shipping: Option<CustomerShippingDetails>,
    pub source: Option<CustomerSourceParam<'a>>,
}

impl<'a> FormFields for CustomerParams<'a> {
    /// The members that are set, in the order of their declaration.
    open spec fn fields(&self, key: Seq<char>) -> Fields {
        opt_signed(key, "account_balance"@, self.account_balance)
            + opt_text(key, "business_vat_id"@, self.business_vat_id)
            + opt_text(key, "coupon"@, self.coupon)
            + opt_text(key, "default_source"@, self.default_source_id)
            + opt_text(key, "description"@, self.description)
            + opt_text(key, "email"@, self.email)
            + opt_nested(key, "metadata"@, self.metadata)
            + opt_nested(key, "shipping"@, self.shipping)
            + opt_nested(key, "source"@, self.source)
    }

    fn append_to(&self, out: &mut Params, key: &str) {
        broadcast use lemma_append_associative;

        out.put_opt_i64(key, "account_balance", self.account_balance);
        out.put_opt_str(key, "business_vat_id", self.business_vat_id);
        out.put_opt_str(key, "coupon", self.coupon);
        out.put_opt_str(key, "default_source", self.default_source_id);
        out.put_opt_str(key, "description", self.description);
        out.put_opt_str(key, "email", self.email);
        put_opt_nested(out, key, "metadata", &self.metadata);
        put_opt_nested(out, key, "shipping", &self.shipping);
        put_opt_nested(out, key, "source", &self.source);
    }
}

/// The parameters with which customers are listed.
#[derive(Debug, Default)]
pub struct CustomerListParams<'a> {
    pub created: Option<RangeQuery<Timestamp>>,
    pub ending_before: Option<&'a str>,
    pub limit: Option<i64>,
    pub starting_after: Option<&'a str>,
}

impl<'a> FormFields for CustomerListParams<'a> {
    /// The members that are set, in the order of their declaration.
    open spec fn fields(&self, key: Seq<char>) -> Fields {
        opt_nested(key, "created"@, self.created)
            + opt_text(key, "ending_before"@, self.ending_before)
            + opt_signed(key, "limit"@, self.limit)
            + opt_text(key, "starting_after"@, self.starting_after)
    }

    fn append_to(&self, out: &mut Params, key: &str) {
        broadcast use lemma_append_associative;

        put_opt_nested(out, key, "created", &self.created);
        out.put_opt_str(key, "ending_before", self.ending_before);
        out.put_opt_i64(key, "limit", self.limit);
        out.put_opt_str(key, "starting_after", self.starting_after);
    }
}

/// A customer as the service reports it.
#[derive(Debug)]
pub struct Customer {
    pub id: String,
    pub account_balance: i64,
    pub business_vat_id: Option<String>,
    pub created: u64,
    pub currency: Option<Currency>,
    pub default_source: Option<String>,
    pub delinquent: bool,
    pub desc: Option<String>,
    pub discount: Option<Discount>,
    pub email: Option<String>,
    pub livemode: bool,
    pub metadata: Metadata,
    pub shipping: Option<CustomerShippingDetails>,
    pub sources: List<Source>,
    pub subscriptions: List<Subscription>,
}

impl Customer {
    /// The request that creates a customer.
    pub fn create(params: CustomerParams) -> (request: ApiRequest<Customer>)
        ensures
            request@ == (RequestModel {
                body_params: Some(params.fields(Seq::empty())),
                ..RequestModel::bare(Method::Post, CUSTOMERS@)
            }),
            request@.wf(),
    {
        proof {
            reveal_strlit("/customers");
        }
        ApiRequest::post(CUSTOMERS).with_body_params(to_params(&params))
    }

    /// The request that retrieves the customer `customer_id`.
    pub fn retrieve(customer_id: &str) -> (request: ApiRequest<Customer>)
        ensures
            request@ == RequestModel::bare(Method::Get, joined(CUSTOMERS@, customer_id@)),
            request@.wf(),
    {
        proof {
            reveal_strlit("/customers");
        }
        ApiRequest::get(join_path(CUSTOMERS, customer_id).as_str())
    }

    /// The request that updates the customer `customer_id`.
    pub fn update(customer_id: &str, params: CustomerParams) -> (request: ApiRequest<Customer>)
        ensures
            request@ == (RequestModel {
                body_params: Some(params.fields(Seq::empty())),
                ..RequestModel::bare(Method::Post, joined(CUSTOMERS@, customer_id@))
            }),
            request@.wf(),
    {
        proof {
            reveal_strlit("/customers");
        }
        ApiRequest::post(join_path(CUSTOMERS, customer_id).as_str()).with_body_params(
            to_params(&params),
        )
    }

    /// The request that deletes the customer `customer_id`.
    pub fn delete(customer_id: &str) -> (request: ApiRequest<Deleted>)
        ensures
            request@ == RequestModel::bare(Method::Delete, joined(CUSTOMERS@, customer_id@)),
            request@.wf(),
    {
        proof {
            reveal_strlit("/customers");
        }
        ApiRequest::delete(join_path(CUSTOMERS, customer_id).as_str())
    }

    /// The request that lists customers.
    pub fn list(params: CustomerListParams) -> (request: ApiRequest<List<Customer>>)
        ensures
            request@ == (RequestModel {
                query_params: Some(params.fields(Seq::empty())),
                ..RequestModel::bare(Method::Get, CUSTOMERS@)
            }),
            request@.wf(),
    {
        proof {
            reveal_strlit("/customers");
        }
        ApiRequest::get(CUSTOMERS).with_query_params(to_params(&params))
    }

    /// The request that attaches `source` to the customer `customer_id`.
    /// The source is sent as the one parameter `source`.
    pub fn attach_source(customer_id: &str, source: CustomerSourceParam) -> (request: ApiRequest<
        Source,
    >)
        ensures
            request@ == (RequestModel {
                body_params: Some(source.fields("source"@)),
                ..RequestModel::bare(
                    Method::Post,
                    joined(joined(CUSTOMERS@, customer_id@), "sources"@),
                )
            }),
            request@.wf(),
    {
        proof {
            reveal_strlit("/customers");
        }
        let mut params = Params::new();
        source.append_to(&mut params, "source");
        let customer = join_path(CUSTOMERS, customer_id);
        ApiRequest::post(join_path(customer.as_str(), "sources").as_str()).with_body_params(params)
    }

    /// The request that detaches the source `source_id` from the customer
    /// `customer_id`.
    pub fn detach_source(customer_id: &str, source_id: &str) -> (request: ApiRequest<Deleted>)
        ensures
            request@ == RequestModel::bare(
                Method::Delete,
                joined(joined(joined(CUSTOMERS@, customer_id@), "sources"@), source_id@),
            ),
            request@.wf(),
    {
        proof {
            reveal_strlit("/customers");
        }
        let customer = join_path(CUSTOMERS, customer_id);
        let sources = join_path(customer.as_str(), "sources");
        ApiRequest::delete(join_path(sources.as_str(), source_id).as_str())
    }
}

} // verus!
