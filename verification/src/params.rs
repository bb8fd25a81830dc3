//! Values that parameters and resources of every kind share.

use crate::form::{
    key_under, lemma_append_associative, make_key, opt_signed, text, Fields, FormFields, Params,
};
use crate::text::{signed_decimal, signed_decimal_string};
use vstd::prelude::*;

verus! {

/// Seconds since the Unix epoch.
pub type Timestamp = i64;

/// A number with a fractional part, held as the decimal numeral that is
/// sent or was received. The library hands it on and never computes with
/// it.
#[derive(Debug, Clone, PartialEq, Eq)]
pub struct Decimal {
    pub numeral: String,
}

/// The field `name` of the structure at `key`, where it has a decimal
/// number, which is written as its numeral.
pub open spec fn opt_decimal(key: Seq<char>, name: Seq<char>, value: Option<Decimal>) -> Fields {
    match value {
        Some(number) => text(key, name, number.numeral@),
        None => Seq::empty(),
    }
}

/// Appends the field `name` of the structure at `key` to `out`, if it has a
/// value.
pub fn put_opt_decimal(out: &mut Params, key: &str, name: &str, value: &Option<Decimal>)
    ensures
        final(out)@ == old(out)@ + opt_decimal(key@, name@, *value),
{
    if let Some(number) = value {
        out.put_str(key, name, number.numeral.as_str());
    }
}

/// Free-form keys and values that are stored with an object, in the order
/// in which they are sent.
#[derive(Debug, Default)]
pub struct Metadata {
    pub entries: Vec<(String, String)>,
}

impl FormFields for Metadata {
    /// One field for each entry, in order, with the entry's key as the
    /// name of the member.
    open spec fn fields(&self, key: Seq<char>) -> Fields {
        Seq::new(
            self.entries@.len(),
            |i: int| (key_under(key, self.entries@[i].0@), self.entries@[i].1@),
        )
    }

    fn append_to(&self, out: &mut Params, key: &str) {
        let mut i: usize = 0;
        while i < self.entries.len()
            invariant
                i <= self.entries@.len(),
                out@ == old(out)@ + self.fields(key@).take(i as int),
            decreases self.entries@.len() - i,
        {
            let entry = &self.entries[i];
            out.push(make_key(key, entry.0.as_str()), entry.1.clone());
            proof {
                assert(self.fields(key@).take(i + 1) == self.fields(key@).take(i as int).push(
                    self.fields(key@)[i as int],
                ));
            }
            i += 1;
        }
        proof {
            assert(self.fields(key@).take(i as int) == self.fields(key@));
        }
    }
}

/// Bounds on a value, each of which may be left open.
#[derive(Debug)]
pub struct RangeBounds<T> {
    pub gt: Option<T>,
    pub gte: Option<T>,
    pub lt: Option<T>,
    pub lte: Option<T>,
}

/// A filter on a value: either the one value it must have, or bounds on
/// it.
#[derive(Debug)]
pub enum RangeQuery<T> {
    Exact(T),
    Bounds(RangeBounds<T>),
}

impl FormFields for RangeQuery<Timestamp> {
    /// The exact value is the value of `key` itself; bounds are the members
    /// of the structure at `key`, those that are set.
    open spec fn fields(&self, key: Seq<char>) -> Fields {
        match *self {
            RangeQuery::Exact(at) => seq![(key, signed_decimal(at as int))],
            RangeQuery::Bounds(bounds) => opt_signed(key, "gt"@, bounds.gt)
                + opt_signed(key, "gte"@, bounds.gte)
                + opt_signed(key, "lt"@, bounds.lt)
                + opt_signed(key, "lte"@, bounds.lte),
        }
    }

    fn append_to(&self, out: &mut Params, key: &str) {
        broadcast use lemma_append_associative;

        match self {
            RangeQuery::Exact(at) => {
                out.push(String::from_str(key), signed_decimal_string(*at));
            },
            RangeQuery::Bounds(bounds) => {
                out.put_opt_i64(key, "gt", bounds.gt);
                out.put_opt_i64(key, "gte", bounds.gte);
                out.put_opt_i64(key, "lt", bounds.lt);
                out.put_opt_i64(key, "lte", bounds.lte);
            },
        }
    }
}

/// One page of a list of objects.
#[derive(Debug)]
pub struct List<T> {
    pub data: Vec<T>,
    pub has_more: bool,
    pub total_count: Option<u64>,
    pub url: String,
}

/// The answer to the deletion of an object.
#[derive(Debug)]
pub struct Deleted {
    pub deleted: bool,
    pub id: String,
}

} // verus!
