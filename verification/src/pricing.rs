//! The exchange with the pricing service: what is sent, and how what comes
//! back is read.

use vstd::prelude::*;
use vstd::string::StringExecFns;
use crate::binary64::{is_finite_non_negative, is_finite_non_negative_number};
use crate::text::{append_decimal, decimal};
use crate::trace_context::{inject_context, injected_headers, SpanContext};

verus! {

/// Why the pricing service gave no usable price. Each reason carries a
/// description for the caller.
#[derive(Debug, PartialEq, Eq)]
pub enum PricingFailure {
    /// The service could not be reached, did not answer the call, or answered
    /// with a status that does not mean success.
    Unavailable(String),
    /// The service answered, but not with a finite, non-negative number.
    InvalidResponse(String),
}

/// The mathematical content of a [`PricingFailure`].
pub enum PricingFailureModel {
    Unavailable(Seq<char>),
    InvalidResponse(Seq<char>),
}

impl PricingFailureModel {
    /// The description that the failure carries.
    pub open spec fn description(self) -> Seq<char> {
        match self {
            PricingFailureModel::Unavailable(text) => text,
            PricingFailureModel::InvalidResponse(text) => text,
        }
    }
}

impl DeepView for PricingFailure {
    type V = PricingFailureModel;

    open spec fn deep_view(&self) -> PricingFailureModel {
        match self {
            PricingFailure::Unavailable(text) => PricingFailureModel::Unavailable(text@),
            PricingFailure::InvalidResponse(text) => PricingFailureModel::InvalidResponse(text@),
        }
    }
}

impl PricingFailure {
    /// Hands out the description that the failure carries.
    pub fn into_description(self) -> (text: String)
        ensures
            text@ == self.deep_view().description(),
    {
        match self {
            PricingFailure::Unavailable(text) => text,
            PricingFailure::InvalidResponse(text) => text,
        }
    }
}

/// The body of a response of the pricing service, read as a number.
#[derive(Debug, PartialEq, Eq)]
pub enum ResponseBody {
    /// The body is not a number; the text says why.
    Malformed(String),
    /// The body is a double-precision number, given by its bit pattern.
    Number(u64),
}

/// What came of a call to the pricing service.
#[derive(Debug, PartialEq, Eq)]
pub enum PricingReply {
    /// The call failed in transport; the text says how.
    TransportFailed(String),
    /// A response arrived, with an HTTP status and a body.
    Answered { status: u16, body: ResponseBody },
}

/// The statuses that mean success: 200 to 299.
pub open spec fn is_success_status(status: u16) -> bool {
    200 <= status <= 299
}

/// The description of a response whose status does not mean success.
pub open spec fn refused_with(status: u16) -> Seq<char> {
    "pricing service answered with status "@ + decimal(status as nat)
}

/// The description of a number that is no price.
pub open spec fn not_a_price() -> Seq<char> {
    "total price is not a finite, non-negative number"@
}

impl PricingReply {
    /// What the reply amounts to: a total price, or a failure.
    ///
    /// A failure in transport and a response whose status does not mean
    /// success make the service unavailable, whatever the body holds. A
    /// successful response states the total price if its body is a finite
    /// number that is not below zero; any other body is an invalid response.
    pub open spec fn outcome(&self) -> Result<u64, PricingFailureModel> {
        match self {
            PricingReply::TransportFailed(text) => Err(PricingFailureModel::Unavailable(text@)),
            PricingReply::Answered { status, body } => if !is_success_status(*status) {
                Err(PricingFailureModel::Unavailable(refused_with(*status)))
            } else {
                match body {
                    ResponseBody::Malformed(text) => Err(
                        PricingFailureModel::InvalidResponse(text@),
                    ),
                    ResponseBody::Number(bits) => if is_finite_non_negative(*bits) {
                        Ok(*bits)
                    } else {
                        Err(PricingFailureModel::InvalidResponse(not_a_price()))
                    },
                }
            },
        }
    }

    /// The total price that the reply states, or the description of why it
    /// states none.
    pub open spec fn total(&self) -> Result<u64, Seq<char>> {
        match self.outcome() {
            Ok(bits) => Ok(bits),
            Err(failure) => Err(failure.description()),
        }
    }
}

/// Reads a reply of the pricing service into the total price or the failure
/// that it amounts to.
pub fn read_reply(reply: PricingReply) -> (total: Result<u64, PricingFailure>)
    ensures
        match reply.outcome() {
            Ok(bits) => total == Ok::<u64, PricingFailure>(bits),
            Err(failure) => total matches Err(found) && found.deep_view() == failure,
        },
{
    match reply {
        PricingReply::TransportFailed(text) => Err(PricingFailure::Unavailable(text)),
        PricingReply::Answered { status, body } => {
            if status < 200 || status > 299 {
                let mut text: String = String::from_str("pricing service answered with status ");
                append_decimal(&mut text, status as u64);
                return Err(PricingFailure::Unavailable(text));
            }
            match body {
                ResponseBody::Malformed(text) => Err(PricingFailure::InvalidResponse(text)),
                ResponseBody::Number(bits) => {
                    if is_finite_non_negative_number(bits) {
                        Ok(bits)
                    } else {
                        Err(
                            PricingFailure::InvalidResponse(
                                "total price is not a finite, non-negative number".to_owned(),
                            ),
                        )
                    }
                },
            }
        },
    }
}

/// The method of an HTTP request.
#[derive(Debug, Clone, Copy, PartialEq, Eq, Structural)]
pub enum HttpMethod {
    Get,
    Post,
}

/// An HTTP request with a body.
#[derive(Debug, PartialEq, Eq)]
pub struct HttpRequest {
    pub method: HttpMethod,
    pub url: String,
    /// The media type of the body.
    pub content_type: String,
    /// Further headers, each a name with its value.
    pub headers: Vec<(String, String)>,
    pub body: String,
}

/// The media type of JSON.
pub open spec fn json_media_type() -> Seq<char> {
    "application/json"@
}

/// The path of the pricing service's quote endpoint.
pub open spec fn quote_path() -> Seq<char> {
    "/getquote"@
}

/// The JSON object that asks for the price of `count` items.
pub open spec fn quote_body(count: nat) -> Seq<char> {
    "{\"numberOfItems\":"@ + decimal(count) + "}"@
}

/// Builds the request that asks the pricing service at `service_addr` for the
/// price of `count` items: a POST of a JSON object to the quote endpoint. The
/// request carries `context` in its headers, so that the pricing service
/// continues the same trace.
pub fn request_quote(service_addr: &str, count: u32, context: &SpanContext) -> (request:
    HttpRequest)
    ensures
        request.method == HttpMethod::Post,
        request.url@ == service_addr@ + quote_path(),
        request.content_type@ == json_media_type(),
        request.headers.deep_view() == injected_headers(context.deep_view()),
        request.body@ == quote_body(count as nat),
{
    let url: String = String::from_str(service_addr).concat("/getquote");
    let mut body: String = String::from_str("{\"numberOfItems\":");
    append_decimal(&mut body, count as u64);
    body.append("}");
    HttpRequest {
        method: HttpMethod::Post,
        url,
        content_type: "application/json".to_owned(),
        headers: inject_context(context),
        body,
    }
}

} // verus!
