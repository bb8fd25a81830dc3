//! The resources of the service: for each, the parameters of its
//! operations, the requests that the operations make, and the object as
//! the service reports it.

pub mod address;
pub mod card;
pub mod charge;
pub mod currency;
pub mod customer;
pub mod discount;
pub mod invoices;
pub mod plan;
pub mod refund;
pub mod source;
pub mod subscription;
