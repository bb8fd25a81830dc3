//! The failures that a call can end in.

use vstd::prelude::*;

verus! {

/// A base URL that is no absolute URL. It is reported when a client is
/// made, never when a request is sent.
#[derive(Debug, Clone, PartialEq, Eq)]
pub struct ConfigError {
    /// The text that was refused.
    pub base_url: String,
}

/// The `error` object of the envelope that the service sends with a
/// failure. Every member is optional, and a member that the service left
/// out stays absent.
#[derive(Debug, Clone, PartialEq, Eq)]
pub struct RequestError {
    pub message: Option<String>,
    pub error_type: Option<String>,
    pub code: Option<String>,
    pub param: Option<String>,
}

/// Why a call did not yield the value that was asked for.
#[derive(Debug, Clone, PartialEq, Eq)]
pub enum ApiError {
    /// The transport failed before any response arrived.
    Transport(String),
    /// The body had neither the shape of the expected value nor that of an
    /// error envelope.
    Decode(String),
    /// The service reported a failure.
    Api {
        http_status: u16,
        code: Option<String>,
        error_type: Option<String>,
        message: Option<String>,
        param: Option<String>,
    },
}

impl ApiError {
    /// A failure reported by the service never carries the status of
    /// success.
    pub open spec fn wf(&self) -> bool {
        self matches ApiError::Api { http_status, .. } ==> http_status != 200
    }

    /// The failure that the service reported with `status` and the envelope
    /// member `error`.
    pub open spec fn reported(status: u16, error: RequestError) -> ApiError {
        ApiError::Api {
            http_status: status,
            code: error.code,
            error_type: error.error_type,
            message: error.message,
            param: error.param,
        }
    }

    /// The HTTP status of a failure that the service reported.
    pub fn http_status(&self) -> (status: Option<u16>)
        ensures
            status == match *self {
                ApiError::Api { http_status, .. } => Some(http_status),
                _ => None,
            },
    {
        match self {
            ApiError::Api { http_status, .. } => Some(*http_status),
            _ => None,
        }
    }
}

} // verus!
