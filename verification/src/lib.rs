//! A typed client binding for the Stripe API: it describes calls as data,
//! resolves them against a client's configuration into the request that
//! goes over the wire, and reads the response back into a typed value or
//! into one of a small set of failures.

pub mod base64;
pub mod client;
pub mod error;
pub mod form;
pub mod params;
pub mod request;
pub mod resources;
pub mod response;
pub mod text;
pub mod transport;

pub use crate::client::Client;
pub use crate::error::{ApiError, ConfigError, RequestError};
pub use crate::form::{FormFields, Params};
pub use crate::params::{Decimal, Deleted, List, Metadata, RangeBounds, RangeQuery, Timestamp};
pub use crate::request::{ApiRequest, Method};
pub use crate::resources::address::Address;
pub use crate::resources::card::{Brand, Card, CardParams, Check, Funding, TokenizationMethod};
pub use crate::resources::charge::{
    CaptureParams, Charge, ChargeListParams, ChargeParams, DestinationParams, FraudDetails,
    FraudDetailsReport, ShippingDetails, SourceFilter, SourceType,
};
pub use crate::resources::currency::Currency;
pub use crate::resources::customer::{
    Customer, CustomerListParams, CustomerParams, CustomerShippingDetails, CustomerSourceParam,
};
pub use crate::resources::discount::{Coupon, Discount};
pub use crate::resources::invoices::{
    Invoice, InvoiceLineItem, InvoiceLineItemParams, InvoiceListParams, InvoiceParams,
    InvoiceUpcomingParams, Period, SubscriptionItemParams,
};
pub use crate::resources::plan::{Plan, PlanParams};
pub use crate::resources::refund::Refund;
pub use crate::resources::source::Source;
pub use crate::resources::subscription::{Subscription, SubscriptionItem};
pub use crate::response::{Decoding, ResponseState};
pub use crate::transport::{RawResponse, ResolvedRequest};
