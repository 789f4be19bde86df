//! The two calls of the shipping service, as decisions.
//!
//! A call is served in steps, each a function from what is known so far to
//! what has to happen next. The caller performs what a step asks for (starting
//! a span, calling the pricing service, recording annotations, replying) and
//! comes back with the outcome.
//!
//! `GetQuote`: received → span started → dependency called → response sent.
//! `ShipOrder`: received → response sent.

use vstd::prelude::*;
use vstd::string::StringExecFns;
use crate::pricing::{
    json_media_type, quote_body, quote_path, request_quote, HttpMethod, HttpRequest, PricingReply,
};
use crate::quote::{create_quote_from_count, quote_annotations, quote_of, Quote};
use crate::shop::{
    Address, GetQuoteRequest, GetQuoteResponse, Money, ShipOrderRequest, ShipOrderResponse,
};
use crate::span::{
    event, rpc_grpc_status_code_key, rpc_system_key, semantic_rpc_grpc_status_code,
    semantic_rpc_system, set_integer, set_text, SpanAction, SpanActionModel, SpanKind,
};
use crate::status::{RpcStatus, StatusCode};
use crate::trace_context::{extract_parent, extracted_parent, injected_headers, SpanContext};
use crate::tracking::{create_tracking_id, is_random_uuid_text};

verus! {

/// The span that a call asks its caller to start.
#[derive(Debug, PartialEq, Eq)]
pub struct SpanStart {
    pub name: String,
    pub kind: SpanKind,
    /// The remote parent of the span; without one the span starts a new trace.
    pub parent: Option<SpanContext>,
}

/// The name of the span of a `GetQuote` call.
pub open spec fn get_quote_span_name() -> Seq<char> {
    "oteldemo.ShippingService/GetQuote"@
}

/// The name of the span of a `ShipOrder` call.
pub open spec fn ship_order_span_name() -> Seq<char> {
    "oteldemo.ShippingService/ShipOrder"@
}

/// The annotation that names the remote-call system.
pub open spec fn system_annotation() -> SpanActionModel {
    set_text(rpc_system_key(), "grpc"@)
}

/// The annotation that closes a call with a status.
pub open spec fn status_annotation(status: StatusCode) -> SpanActionModel {
    set_integer(rpc_grpc_status_code_key(), status.spec_number() as int)
}

/// Whether an annotation sets the status of the call.
pub open spec fn sets_status(action: SpanActionModel) -> bool {
    action matches SpanActionModel::SetAttribute(attribute) && attribute.key
        == rpc_grpc_status_code_key()
}

/// Annotations that set the status of the call exactly once, at the end.
pub open spec fn closes_once(annotations: Seq<SpanActionModel>, status: StatusCode) -> bool {
    &&& annotations.len() > 0
    &&& annotations.last() == status_annotation(status)
    &&& forall|i: int| 0 <= i < annotations.len() - 1 ==> !sets_status(#[trigger] annotations[i])
}

/// What a `GetQuote` call records on its span before it asks for the price.
pub open spec fn get_quote_opening(zip_code: Seq<char>) -> Seq<SpanActionModel> {
    seq![
        system_annotation(),
        event("Processing get quote request"@, Seq::empty()),
        set_text("app.shipping.zip_code"@, zip_code),
    ]
}

/// What a `GetQuote` call records on its span once the pricing service has
/// replied: for a price, the annotations of the quote and the status OK; for a
/// failure, the status UNKNOWN alone.
pub open spec fn get_quote_closing(item_count: u32, total: Result<u64, Seq<char>>) -> Seq<
    SpanActionModel,
> {
    match total {
        Ok(bits) => quote_annotations(item_count, quote_of(bits)).push(
            status_annotation(StatusCode::Success),
        ),
        Err(_) => seq![status_annotation(StatusCode::Unknown)],
    }
}

/// What a `ShipOrder` call records on its span.
pub open spec fn ship_order_annotations(tracking_id: Seq<char>) -> Seq<SpanActionModel> {
    seq![
        system_annotation(),
        event("Processing shipping order request"@, Seq::empty()),
        set_text("app.shipping.tracking.id"@, tracking_id),
        event("Shipping tracking id created, response sent back"@, Seq::empty()),
        status_annotation(StatusCode::Success),
    ]
}

/// A `GetQuote` call whose span is to be started.
#[derive(Debug, PartialEq, Eq)]
pub struct QuoteSpanStarted {
    /// The span to start.
    pub span: SpanStart,
    /// What to record on the span at once.
    pub annotations: Vec<SpanAction>,
    /// The number of items to ask the price of.
    pub item_count: u32,
}

/// A `GetQuote` call that waits for the pricing service.
#[derive(Debug, PartialEq, Eq)]
pub struct QuoteDependencyCalled {
    /// The request to send to the pricing service.
    pub request: HttpRequest,
    /// The number of items that the request asks the price of.
    pub item_count: u32,
}

/// A `GetQuote` call that has ended.
#[derive(Debug, PartialEq, Eq)]
pub struct QuoteResponseSent {
    /// What to record on the span before it ends.
    pub annotations: Vec<SpanAction>,
    /// The status that the call ends with.
    pub status: StatusCode,
    /// The quote that was computed, if one was.
    pub quote: Option<Quote>,
    /// What the caller gets: the cost, or the error.
    pub reply: Result<GetQuoteResponse, RpcStatus>,
}

/// A `ShipOrder` call that has ended.
#[derive(Debug, PartialEq, Eq)]
pub struct ShipOrderResponseSent {
    /// The span of the call.
    pub span: SpanStart,
    /// What to record on the span before it ends.
    pub annotations: Vec<SpanAction>,
    /// The status that the call ends with.
    pub status: StatusCode,
    /// What the caller gets.
    pub reply: ShipOrderResponse,
}

impl ShipOrderResponseSent {
    /// The outcome of a `ShipOrder` call that came with `metadata` and was
    /// given the identifier `tracking_id`.
    pub open spec fn answers(
        &self,
        metadata: tonic::metadata::MetadataMap,
        tracking_id: Seq<char>,
    ) -> bool {
        &&& self.span.name@ == ship_order_span_name()
        &&& self.span.kind == SpanKind::Server
        &&& self.span.parent.deep_view() == extracted_parent(metadata)
        &&& self.annotations.deep_view() == ship_order_annotations(tracking_id)
        &&& self.status == StatusCode::Success
        &&& self.reply.tracking_id@ == tracking_id
    }
}

/// The shipping service.
#[derive(Debug, Default)]
pub struct ShippingServer {}

impl ShippingServer {
    /// Receives a `GetQuote` call: decides which span to start and what to
    /// record on it, and counts the items of the cart.
    ///
    /// The span is a server span. Its parent is the context that the call's
    /// metadata carries; if they carry none, the span starts a new trace.
    pub fn start_get_quote(
        &self,
        metadata: &tonic::metadata::MetadataMap,
        request: &GetQuoteRequest,
    ) -> (started: QuoteSpanStarted)
        requires
            request.wf(),
        ensures
            started.span.name@ == get_quote_span_name(),
            started.span.kind == SpanKind::Server,
            started.span.parent.deep_view() == extracted_parent(*metadata),
            started.annotations.deep_view() == get_quote_opening(request.address->0.zip_code@),
            started.item_count == request.total(),
    {
        let parent: Option<SpanContext> = extract_parent(metadata);
        let item_count: u32 = request.item_count();
        let span = SpanStart {
            name: "oteldemo.ShippingService/GetQuote".to_owned(),
            kind: SpanKind::Server,
            parent,
        };
        let system: String = semantic_rpc_system();
        let mut annotations: Vec<SpanAction> = Vec::new();
        annotations.push(SpanAction::set_text(system.as_str(), "grpc"));
        annotations.push(SpanAction::plain_event("Processing get quote request"));
        let address: &Address = request.address.as_ref().unwrap();
        annotations.push(SpanAction::set_text("app.shipping.zip_code", address.zip_code.as_str()));
        assert(annotations.deep_view() =~= get_quote_opening(request.address->0.zip_code@));
        QuoteSpanStarted { span, annotations, item_count }
    }

    /// Builds the request to the pricing service at `service_addr`, once the
    /// span of the call has been started with the context `span_context`. The
    /// request carries that context.
    pub fn call_quote_service(
        &self,
        started: QuoteSpanStarted,
        service_addr: &str,
        span_context: &SpanContext,
    ) -> (called: QuoteDependencyCalled)
        ensures
            called.item_count == started.item_count,
            called.request.method == HttpMethod::Post,
            called.request.url@ == service_addr@ + quote_path(),
            called.request.content_type@ == json_media_type(),
            called.request.headers.deep_view() == injected_headers(span_context.deep_view()),
            called.request.body@ == quote_body(started.item_count as nat),
    {
        let request: HttpRequest = request_quote(service_addr, started.item_count, span_context);
        QuoteDependencyCalled { request, item_count: started.item_count }
    }

    /// Ends a `GetQuote` call with the reply of the pricing service.
    ///
    /// A price becomes the cost in US dollars, and the call ends with status
    /// OK. Any failure becomes an error of unknown kind with the failure's
    /// description, and the call ends with status UNKNOWN; no cost is
    /// returned then. Either way the status is recorded exactly once, last.
    pub fn get_quote(&self, called: QuoteDependencyCalled, reply: PricingReply) -> (sent:
        QuoteResponseSent)
        ensures
            sent.annotations.deep_view() == get_quote_closing(called.item_count, reply.total()),
            closes_once(sent.annotations.deep_view(), sent.status),
            match reply.total() {
                Ok(bits) => {
                    &&& sent.status == StatusCode::Success
                    &&& sent.quote == Some(quote_of(bits))
                    &&& sent.reply matches Ok(response)
                    &&& response.cost_usd matches Some(money)
                    &&& money.currency_code@ == Money::currency()
                    &&& money.units == quote_of(bits).dollars
                    &&& money.nanos == quote_of(bits).cents * 10000000
                    &&& 0 <= money.nanos < 1000000000
                },
                Err(description) => {
                    &&& sent.status == StatusCode::Unknown
                    &&& sent.quote is None
                    &&& sent.reply matches Err(status)
                    &&& status.code == StatusCode::Unknown
                    &&& status.message@ == description
                },
            },
    {
        let status_key: String = semantic_rpc_grpc_status_code();
        match create_quote_from_count(called.item_count, reply) {
            Ok(computed) => {
                let money: Money = Money::from_quote(&computed.quote);
                let mut annotations: Vec<SpanAction> = computed.annotations;
                annotations.push(
                    SpanAction::set_integer(status_key.as_str(), StatusCode::Success.number()),
                );
                proof {
                    assert(annotations.deep_view() =~= get_quote_closing(
                        called.item_count,
                        reply.total(),
                    ));
                    lemma_quote_keys();
                }
                QuoteResponseSent {
                    annotations,
                    status: StatusCode::Success,
                    quote: Some(computed.quote),
                    reply: Ok(GetQuoteResponse { cost_usd: Some(money) }),
                }
            },
            Err(status) => {
                let mut annotations: Vec<SpanAction> = Vec::new();
                annotations.push(
                    SpanAction::set_integer(status_key.as_str(), StatusCode::Unknown.number()),
                );
                assert(annotations.deep_view() =~= get_quote_closing(
                    called.item_count,
                    reply.total(),
                ));
                QuoteResponseSent {
                    annotations,
                    status: StatusCode::Unknown,
                    quote: None,
                    reply: Err(status),
                }
            },
        }
    }

    /// Serves a `ShipOrder` call with a given tracking identifier.
    pub fn ship_order_with_id(
        &self,
        metadata: &tonic::metadata::MetadataMap,
        tracking_id: String,
    ) -> (sent: ShipOrderResponseSent)
        ensures
            sent.answers(*metadata, tracking_id@),
            closes_once(sent.annotations.deep_view(), sent.status),
    {
        let parent: Option<SpanContext> = extract_parent(metadata);
        let span = SpanStart {
            name: "oteldemo.ShippingService/ShipOrder".to_owned(),
            kind: SpanKind::Server,
            parent,
        };
        let system: String = semantic_rpc_system();
        let status_key: String = semantic_rpc_grpc_status_code();
        let mut annotations: Vec<SpanAction> = Vec::new();
        annotations.push(SpanAction::set_text(system.as_str(), "grpc"));
        annotations.push(SpanAction::plain_event("Processing shipping order request"));
        annotations.push(SpanAction::set_text("app.shipping.tracking.id", tracking_id.as_str()));
        annotations.push(
            SpanAction::plain_event("Shipping tracking id created, response sent back"),
        );
        annotations.push(
            SpanAction::set_integer(status_key.as_str(), StatusCode::Success.number()),
        );
        proof {
            assert(annotations.deep_view() =~= ship_order_annotations(tracking_id@));
            lemma_ship_order_keys();
        }
        ShipOrderResponseSent {
            span,
            annotations,
            status: StatusCode::Success,
            reply: ShipOrderResponse { tracking_id },
        }
    }

    /// Serves a `ShipOrder` call: creates a fresh tracking identifier, and
    /// decides which span to start, what to record on it and what to reply.
    /// Nothing of the order itself is read.
    ///
    /// The span is a server span whose parent is the context that the call's
    /// metadata carries, if any. The call always ends with status OK.
    pub fn ship_order(
        &self,
        metadata: &tonic::metadata::MetadataMap,
        _request: &ShipOrderRequest,
    ) -> (sent: ShipOrderResponseSent)
        ensures
            is_random_uuid_text(sent.reply.tracking_id@),
            sent.answers(*metadata, sent.reply.tracking_id@),
            closes_once(sent.annotations.deep_view(), sent.status),
    {
        self.ship_order_with_id(metadata, create_tracking_id())
    }
}

/// The status key differs from the keys of a quote's annotations.
proof fn lemma_quote_keys()
    ensures
        "app.shipping.items.count"@ != rpc_grpc_status_code_key(),
        "app.shipping.cost.total"@ != rpc_grpc_status_code_key(),
{
    reveal_strlit("app.shipping.items.count");
    reveal_strlit("app.shipping.cost.total");
    reveal_strlit("rpc.grpc.status_code");
    assert("rpc.grpc.status_code"@[0] == 'r');
    assert("app.shipping.items.count"@[0] == 'a');
    assert("app.shipping.cost.total"@[0] == 'a');
}

/// The status key differs from the other keys of a `ShipOrder` span.
proof fn lemma_ship_order_keys()
    ensures
        "app.shipping.tracking.id"@ != rpc_grpc_status_code_key(),
        rpc_system_key() != rpc_grpc_status_code_key(),
{
    reveal_strlit("app.shipping.tracking.id");
    reveal_strlit("rpc.system");
    reveal_strlit("rpc.grpc.status_code");
    assert("rpc.grpc.status_code"@[0] == 'r');
    assert("app.shipping.tracking.id"@[0] == 'a');
    assert("rpc.system"@.len() == 10);
    assert("rpc.grpc.status_code"@.len() == 20);
}

} // verus!
