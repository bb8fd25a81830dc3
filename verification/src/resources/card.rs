//! Payment cards: the parameters that describe one to the service, and the
//! card as the service reports it.

use crate::form::{lemma_append_associative, opt_text, text, Fields, FormFields, Params};
use crate::params::Metadata;
use crate::resources::currency::Currency;
use vstd::prelude::*;

verus! {

/// The details of a card, as they are sent to make a source of it.
#[derive(Debug)]
pub struct CardParams<'a> {
    pub object: &'static str,
    pub number: &'a str,
    pub exp_month: &'a str,
    pub exp_year: &'a str,
    pub name: Option<&'a str>,
    pub cvc: Option<&'a str>,
}

impl<'a> Default for CardParams<'a> {
    /// A card without details: only the kind of object is filled in.
    fn default() -> (card: Self)
        ensures
            card.object@ == "card"@,
            card.number@ == Seq::<char>::empty(),
            card.exp_month@ == Seq::<char>::empty(),
            card.exp_year@ == Seq::<char>::empty(),
            card.name is None,
            card.cvc is None,
    {
        proof {
            reveal_strlit("");
        }
        CardParams { object: "card", number: "", exp_month: "", exp_year: "", name: None, cvc: None }
    }
}

impl<'a> FormFields for CardParams<'a> {
    /// The kind of object, the number and the expiry always; the name and
    /// the verification code where they are given.
    open spec fn fields(&self, key: Seq<char>) -> Fields {
        text(key, "object"@, self.object@)
            + text(key, "number"@, self.number@)
            + text(key, "exp_month"@, self.exp_month@)
            + text(key, "exp_year"@, self.exp_year@)
            + opt_text(key, "name"@, self.name)
            + opt_text(key, "cvc"@, self.cvc)
    }

    fn append_to(&self, out: &mut Params, key: &str) {
        broadcast use lemma_append_associative;

        out.put_str(key, "object", self.object);
        out.put_str(key, "number", self.number);
        out.put_str(key, "exp_month", self.exp_month);
        out.put_str(key, "exp_year", self.exp_year);
        out.put_opt_str(key, "name", self.name);
        out.put_opt_str(key, "cvc", self.cvc);
    }
}

/// The outcome of a check that the card issuer made.
#[derive(Debug, Clone, Copy, PartialEq, Eq, Structural)]
pub enum Check {
    Pass,
    Fail,
    Unavailable,
    Unchecked,
}

/// The brand of a card.
#[derive(Debug, Clone, Copy, PartialEq, Eq, Structural)]
pub enum Brand {
    AmericanExpress,
    DinersClub,
    Discover,
    JCB,
    MasterCard,
    UnionPay,
    Visa,
    Unknown,
}

/// How a card is funded.
#[derive(Debug, Clone, Copy, PartialEq, Eq, Structural)]
pub enum Funding {
    Credit,
    Debit,
    Prepaid,
    Unknown,
}

/// The wallet through which a card was tokenized.
#[derive(Debug, Clone, Copy, PartialEq, Eq, Structural)]
pub enum TokenizationMethod {
    ApplePay,
    AndroidPay,
}

/// A card as the service reports it.
#[derive(Debug)]
pub struct Card {
    pub id: String,
    pub account: Option<String>,
    pub address_city: Option<String>,
    pub address_country: Option<String>,
    pub address_line1: Option<String>,
    pub address_line1_check: Option<Check>,
    pub address_line2: Option<String>,
    pub address_state: Option<String>,
    pub address_zip: Option<String>,
    pub address_zip_check: Option<Check>,
    pub brand: Brand,
    /// Two-letter ISO code.
    pub country: String,
    pub currency: Option<Currency>,
    pub customer: Option<String>,
    pub cvc_check: Option<Check>,
    pub default_for_currency: Option<bool>,
    pub dynamic_last4: Option<String>,
    pub exp_month: u32,
    pub exp_year: u32,
    pub fingerprint: String,
    pub funding: Funding,
    pub last4: String,
    pub metadata: Metadata,
    pub name: Option<String>,
    pub recipient: Option<String>,
    pub tokenization_method: Option<TokenizationMethod>,
}

} // verus!
