//! From a response to a typed result. A call passes through a small state
//! machine: it is pending until the transport answers or fails; once the
//! body is read, the status alone chooses how the body is decoded, with
//! status 200 as the value that was asked for and with any other status as
//! an error envelope.

use crate::error::{ApiError, RequestError};
use crate::transport::RawResponse;
use vstd::prelude::*;

verus! {

/// The one status that means success.
pub const SUCCESS_STATUS: u16 = 200;

/// How a body is to be decoded.
#[derive(Debug, Clone, Copy, PartialEq, Eq, Structural)]
pub enum Decoding {
    /// As the value that the call asked for.
    Value,
    /// As an error envelope.
    Envelope,
}

/// How the body of a response with this status is decoded.
pub open spec fn decoding_for(status: u16) -> Decoding {
    if status == SUCCESS_STATUS {
        Decoding::Value
    } else {
        Decoding::Envelope
    }
}

/// How the body of a response with this status is decoded.
pub fn decoding(status: u16) -> (decoding: Decoding)
    ensures
        decoding == decoding_for(status),
{
    if status == SUCCESS_STATUS {
        Decoding::Value
    } else {
        Decoding::Envelope
    }
}

/// Where a call stands.
#[derive(Debug)]
pub enum ResponseState<T> {
    /// The request is sent and nothing has come back.
    Pending,
    /// The transport failed. Final.
    TransportFailed(String),
    /// A status and a body have arrived, whatever the status.
    BodyRead(RawResponse),
    /// The status was that of success and the body decoded. Final.
    DecodeSuccess(T),
    /// The status was another and the body decoded as an error envelope.
    /// Final.
    DecodeAsApiError { status: u16, error: RequestError },
    /// The body did not decode in the way that the status asked for. Final.
    DecodeFailedBoth(String),
}

impl<T> ResponseState<T> {
    /// Whether the call is over.
    pub open spec fn is_final(self) -> bool {
        !(self is Pending || self is BodyRead)
    }

    /// A reported failure never carries the status of success.
    pub open spec fn wf(self) -> bool {
        self matches ResponseState::DecodeAsApiError { status, .. } ==> status != SUCCESS_STATUS
    }

    /// The state after the transport has answered or failed.
    pub open spec fn after_transport(reply: Result<RawResponse, String>) -> Self {
        match reply {
            Ok(response) => ResponseState::BodyRead(response),
            Err(why) => ResponseState::TransportFailed(why),
        }
    }

    /// The state after the body of a success was decoded.
    pub open spec fn after_value(decoded: Result<T, String>) -> Self {
        match decoded {
            Ok(value) => ResponseState::DecodeSuccess(value),
            Err(why) => ResponseState::DecodeFailedBoth(why),
        }
    }

    /// The state after the body of a failure with this status was decoded.
    pub open spec fn after_envelope(status: u16, decoded: Result<RequestError, String>) -> Self {
        match decoded {
            Ok(error) => ResponseState::DecodeAsApiError { status, error },
            Err(why) => ResponseState::DecodeFailedBoth(why),
        }
    }

    /// What a final state yields: the value, or the one failure that the
    /// state stands for.
    pub open spec fn outcome(self) -> Result<T, ApiError>
        recommends
            self.is_final(),
    {
        match self {
            ResponseState::DecodeSuccess(value) => Ok(value),
            ResponseState::TransportFailed(why) => Err(ApiError::Transport(why)),
            ResponseState::DecodeAsApiError { status, error } => Err(
                ApiError::reported(status, error),
            ),
            ResponseState::DecodeFailedBoth(why) => Err(ApiError::Decode(why)),
            _ => arbitrary(),
        }
    }

    /// The state of a call whose request has been sent.
    pub fn pending() -> (state: Self)
        ensures
            state is Pending,
    {
        ResponseState::Pending
    }

    /// Leaves `Pending`: with a failure of the transport the call is over,
    /// with a response its body is read.
    pub fn receive(self, reply: Result<RawResponse, String>) -> (next: Self)
        requires
            self is Pending,
        ensures
            next == Self::after_transport(reply),
            next.wf(),
    {
        match reply {
            Ok(response) => ResponseState::BodyRead(response),
            Err(why) => ResponseState::TransportFailed(why),
        }
    }

    /// Leaves `BodyRead` after a success: the decoded value ends the call;
    /// a body that does not decode ends it as a decode failure.
    pub fn value_decoded(decoded: Result<T, String>) -> (next: Self)
        ensures
            next == Self::after_value(decoded),
            next.is_final(),
            next.wf(),
    {
        match decoded {
            Ok(value) => ResponseState::DecodeSuccess(value),
            Err(why) => ResponseState::DecodeFailedBoth(why),
        }
    }

    /// Leaves `BodyRead` after a failure with the status `status`: the
    /// envelope ends the call as the failure that the service reported,
    /// with that status and with the members of the envelope as they are;
    /// a body that does not decode ends it as a decode failure.
    pub fn envelope_decoded(status: u16, decoded: Result<RequestError, String>) -> (next: Self)
        requires
            decoding_for(status) == Decoding::Envelope,
        ensures
            next == Self::after_envelope(status, decoded),
            next.is_final(),
            next.wf(),
    {
        match decoded {
            Ok(error) => ResponseState::DecodeAsApiError { status, error },
            Err(why) => ResponseState::DecodeFailedBoth(why),
        }
    }

    /// What the call yields, once it is over.
    pub fn into_result(self) -> (result: Option<Result<T, ApiError>>)
        requires
            self.wf(),
        ensures
            result == if self.is_final() {
                Some(self.outcome())
            } else {
                None
            },
            result matches Some(Err(e)) ==> e.wf(),
    {
        match self {
            ResponseState::DecodeSuccess(value) => Some(Ok(value)),
            ResponseState::TransportFailed(why) => Some(Err(ApiError::Transport(why))),
            ResponseState::DecodeAsApiError { status, error } => Some(
                Err(
                    ApiError::Api {
                        http_status: status,
                        code: error.code,
                        error_type: error.error_type,
                        message: error.message,
                        param: error.param,
                    },
                ),
            ),
            ResponseState::DecodeFailedBoth(why) => Some(Err(ApiError::Decode(why))),
            ResponseState::Pending => None,
            ResponseState::BodyRead(_) => None,
        }
    }
}

/// Whether `result` is what a response with this status and body yields
/// when `decode` reads the bodies of successes and `decode_error` those of
/// failures: the outcome of the state that the one decoder which the status
/// selects leads to.
pub open spec fn dispatched<T, D, E>(
    status: u16,
    body: Vec<u8>,
    decode: D,
    decode_error: E,
    result: Result<T, ApiError>,
) -> bool where
    D: FnOnce(Vec<u8>) -> Result<T, String>,
    E: FnOnce(Vec<u8>) -> Result<RequestError, String>,
 {
    match decoding_for(status) {
        Decoding::Value => exists|decoded: Result<T, String>|
            decode.ensures((body,), decoded) && result == ResponseState::after_value(
                decoded,
            ).outcome(),
        Decoding::Envelope => exists|decoded: Result<RequestError, String>|
            decode_error.ensures((body,), decoded) && result == ResponseState::<T>::after_envelope(
                status,
                decoded,
            ).outcome(),
    }
}

/// Whether `result` is what a call yields whose transport answered with
/// `reply`.
pub open spec fn delivered<T, D, E>(
    reply: Result<RawResponse, String>,
    decode: D,
    decode_error: E,
    result: Result<T, ApiError>,
) -> bool where
    D: FnOnce(Vec<u8>) -> Result<T, String>,
    E: FnOnce(Vec<u8>) -> Result<RequestError, String>,
 {
    match reply {
        Ok(response) => dispatched(response.status, response.body, decode, decode_error, result),
        Err(why) => result == ResponseState::<T>::after_transport(reply).outcome(),
    }
}

/// Takes a call from the answer of the transport to its result. A failure
/// of the transport is handed on. Of a response, exactly one of the two
/// decoders reads the body, chosen by the status, and it is called once.
pub fn process_response<T, D, E>(
    reply: Result<RawResponse, String>,
    decode: D,
    decode_error: E,
) -> (result: Result<T, ApiError>) where
    D: FnOnce(Vec<u8>) -> Result<T, String>,
    E: FnOnce(Vec<u8>) -> Result<RequestError, String>,

    requires
        forall|body: Vec<u8>| decode.requires((body,)),
        forall|body: Vec<u8>| decode_error.requires((body,)),
    ensures
        delivered(reply, decode, decode_error, result),
        result matches Err(e) ==> e.wf(),
{
    let last = match ResponseState::<T>::pending().receive(reply) {
        ResponseState::BodyRead(response) => match decoding(response.status) {
            Decoding::Value => ResponseState::value_decoded(decode(response.body)),
            Decoding::Envelope => ResponseState::envelope_decoded(
                response.status,
                decode_error(response.body),
            ),
        },
        over => over,
    };
    match last.into_result() {
        Some(result) => result,
        None => unreached(),
    }
}

} // verus!
