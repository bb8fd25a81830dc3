//! Postal addresses.

use crate::form::{lemma_append_associative, opt_string, Fields, FormFields, Params};
use vstd::prelude::*;

verus! {

/// A postal address. Every part may be missing.
#[derive(Debug, Default)]
pub struct Address {
    pub line1: Option<String>,
    pub line2: Option<String>,
    pub city: Option<String>,
    pub state: Option<String>,
    pub postal_code: Option<String>,
    pub country: Option<String>,
}

impl FormFields for Address {
    /// The parts that are there, in the order of their declaration.
    open spec fn fields(&self, key: Seq<char>) -> Fields {
        opt_string(key, "line1"@, self.line1)
            + opt_string(key, "line2"@, self.line2)
            + opt_string(key, "city"@, self.city)
            + opt_string(key, "state"@, self.state)
            + opt_string(key, "postal_code"@, self.postal_code)
            + opt_string(key, "country"@, self.country)
    }

    fn append_to(&self, out: &mut Params, key: &str) {
        broadcast use lemma_append_associative;

        out.put_opt_string(key, "line1", &self.line1);
        out.put_opt_string(key, "line2", &self.line2);
        out.put_opt_string(key, "city", &self.city);
        out.put_opt_string(key, "state", &self.state);
        out.put_opt_string(key, "postal_code", &self.postal_code);
        out.put_opt_string(key, "country", &self.country);
    }
}

} // verus!
