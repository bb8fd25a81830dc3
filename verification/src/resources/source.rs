//! The sources of payment that a customer can hold.

use crate::resources::card::Card;
use vstd::prelude::*;

verus! {

/// A source of payment as the service reports it.
#[derive(Debug)]
pub enum Source {
    Card(Card),
}

} // verus!
