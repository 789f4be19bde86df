//! Trace contexts and the call metadata that carry them.

use std::collections::HashMap;
use std::str::FromStr;
use opentelemetry::propagation::TextMapPropagator;
use opentelemetry::sdk::propagation::TraceContextPropagator;
use opentelemetry::trace::{SpanId, TraceContextExt, TraceFlags, TraceId, TraceState};
use opentelemetry::Context;
use tonic::metadata::KeyRef;
use vstd::prelude::*;

verus! {

/// The metadata that come with a call are a `tonic::metadata::MetadataMap`.
/// Nothing inside such a map is read here but through its own methods.
#[verifier::external_type_specification]
#[verifier::external_body]
pub struct ExMetadataMap(tonic::metadata::MetadataMap);

/// What a metadata map holds as text: each key under which the map finds a
/// value that is text, with that text.
pub uninterp spec fn metadata_texts(map: tonic::metadata::MetadataMap) -> Map<
    Seq<char>,
    Seq<char>,
>;

/// The keys of a metadata map, each once, in the order in which the map walks
/// them.
pub uninterp spec fn metadata_keys(map: tonic::metadata::MetadataMap) -> Seq<Seq<char>>;

/// The text that a metadata map holds for a key, if any.
pub open spec fn lookup(map: tonic::metadata::MetadataMap, key: Seq<char>) -> Option<Seq<char>> {
    if metadata_texts(map).dom().contains(key) {
        Some(metadata_texts(map)[key])
    } else {
        None
    }
}

/// Calls `MetadataMap::get` of `tonic` and, on what it finds,
/// `MetadataValue::to_str`. The contract names the result: the text that the
/// map holds for the key, none where it holds no value for it or one that is
/// not text.
#[verifier::external_body]
fn metadata_get<'a>(map: &'a tonic::metadata::MetadataMap, key: &str) -> (value: Option<&'a str>)
    ensures
        value.deep_view() == (if metadata_texts(*map).dom().contains(key@) {
            Some(metadata_texts(*map)[key@])
        } else {
            None
        }),
{
    map.get(key).and_then(|metadata| metadata.to_str().ok())
}

/// Calls `MetadataMap::keys` of `tonic` and collects the name of each key,
/// ASCII and binary alike. The contract names the result and says that no key
/// comes twice: the map walks its keys, not its values.
#[verifier::external_body]
fn metadata_key_names<'a>(map: &'a tonic::metadata::MetadataMap) -> (keys: Vec<&'a str>)
    ensures
        keys.deep_view() == metadata_keys(*map),
        keys.deep_view().no_duplicates(),
{
    map.keys()
        .map(|key| match key {
            KeyRef::Ascii(v) => v.as_str(),
            KeyRef::Binary(v) => v.as_str(),
        })
        .collect::<Vec<_>>()
}

/// Call metadata as a carrier of trace context: values are read by key, and
/// the keys can be listed.
pub struct MetadataCarrier<'a>(pub &'a tonic::metadata::MetadataMap);

impl<'a> MetadataCarrier<'a> {
    /// Gets the value for a key. Where the value is not text, the result is
    /// `None`.
    pub fn get(&self, key: &str) -> (value: Option<&str>)
        ensures
            value.deep_view() == lookup(*self.0, key@),
    {
        metadata_get(self.0, key)
    }

    /// Collects all the keys, each once.
    pub fn keys(&self) -> (keys: Vec<&str>)
        ensures
            keys.deep_view() == metadata_keys(*self.0),
            keys.deep_view().no_duplicates(),
    {
        metadata_key_names(self.0)
    }
}

/// What identifies a span and travels with a call: the trace it belongs to, its
/// own identifier, the trace flags, and the vendor state as header text.
#[derive(Debug, PartialEq, Eq)]
pub struct SpanContext {
    pub trace_id: u128,
    pub span_id: u64,
    pub trace_flags: u8,
    pub trace_state: String,
}

/// The mathematical content of a [`SpanContext`].
pub struct SpanContextModel {
    pub trace_id: u128,
    pub span_id: u64,
    pub trace_flags: u8,
    pub trace_state: Seq<char>,
}

impl SpanContextModel {
    /// A context is valid when neither identifier is zero.
    pub open spec fn is_valid(self) -> bool {
        self.trace_id != 0 && self.span_id != 0
    }
}

impl DeepView for SpanContext {
    type V = SpanContextModel;

    open spec fn deep_view(&self) -> SpanContextModel {
        SpanContextModel {
            trace_id: self.trace_id,
            span_id: self.span_id,
            trace_flags: self.trace_flags,
            trace_state: self.trace_state@,
        }
    }
}

impl SpanContext {
    /// Whether neither identifier is zero.
    pub fn is_valid(&self) -> (valid: bool)
        ensures
            valid == self.deep_view().is_valid(),
    {
        self.trace_id != 0 && self.span_id != 0
    }
}

/// The name of the header that carries the trace and span identifiers.
pub open spec fn traceparent_name() -> Seq<char> {
    "traceparent"@
}

/// The name of the header that carries the vendor state.
pub open spec fn tracestate_name() -> Seq<char> {
    "tracestate"@
}

/// What the W3C trace-context propagator reads out of the two header values:
/// trace identifier, span identifier, trace flags and vendor state. Where it
/// finds no valid context, both identifiers are zero.
pub uninterp spec fn w3c_extract(traceparent: Seq<char>, tracestate: Seq<char>) -> (
    u128,
    u64,
    u8,
    Seq<char>,
);

/// The vendor state that the propagator writes out for a context holding the
/// state `tracestate`.
pub uninterp spec fn w3c_tracestate(tracestate: Seq<char>) -> Seq<char>;

/// Calls `TraceContextPropagator::extract_with_context` of `opentelemetry` on an
/// empty context and a carrier that holds the two headers, and hands back the
/// span context found in the resulting context, field by field.
///
/// The contract names that result. Of one kind of header it says more: out of
/// a `traceparent` in the form in which the propagator itself writes a valid
/// context, it reads the identifiers of that context and its sampled flag.
#[verifier::external_body]
fn propagator_extract(traceparent: &str, tracestate: &str) -> (parts: (u128, u64, u8, String))
    ensures
        (parts.0, parts.1, parts.2, parts.3@) == w3c_extract(traceparent@, tracestate@),
        forall|trace_id: u128, span_id: u64, trace_flags: u8|
            trace_id != 0 && span_id != 0 && traceparent@ == #[trigger] traceparent_text(
                trace_id,
                span_id,
                trace_flags,
            ) ==> parts.0 == trace_id && parts.1 == span_id && parts.2 == trace_flags % 2,
{
    let mut carrier: HashMap<String, String> = HashMap::new();
    carrier.insert("traceparent".to_string(), traceparent.to_string());
    carrier.insert("tracestate".to_string(), tracestate.to_string());
    let cx = TraceContextPropagator::new().extract_with_context(&Context::new(), &carrier);
    let span = cx.span();
    let found = span.span_context();
    (
        u128::from_be_bytes(found.trace_id().to_bytes()),
        u64::from_be_bytes(found.span_id().to_bytes()),
        found.trace_flags().to_u8(),
        found.trace_state().header(),
    )
}

/// The parent that extracted parts stand for: none where an identifier is zero.
pub open spec fn parent_of(parts: (u128, u64, u8, Seq<char>)) -> Option<SpanContextModel> {
    if parts.0 != 0 && parts.1 != 0 {
        Some(
            SpanContextModel {
                trace_id: parts.0,
                span_id: parts.1,
                trace_flags: parts.2,
                trace_state: parts.3,
            },
        )
    } else {
        None
    }
}

/// The vendor state that call metadata carry beside a `traceparent` entry: the
/// value of the `tracestate` entry, or the empty text.
pub open spec fn carried_tracestate(metadata: tonic::metadata::MetadataMap) -> Seq<char> {
    match lookup(metadata, tracestate_name()) {
        Some(text) => text,
        None => Seq::empty(),
    }
}

/// The remote parent that call metadata carry, if any.
///
/// Without a `traceparent` entry there is none. With one, it is what the
/// propagator reads out of it and of the `tracestate` entry (empty when
/// absent), provided that is a valid context.
pub open spec fn extracted_parent(metadata: tonic::metadata::MetadataMap) -> Option<
    SpanContextModel,
> {
    match lookup(metadata, traceparent_name()) {
        None => None,
        Some(traceparent) => parent_of(w3c_extract(traceparent, carried_tracestate(metadata))),
    }
}

/// Trace propagation. Call metadata carry a parent exactly when they hold a
/// `traceparent` entry out of which the propagator reads a trace identifier
/// and a span identifier that are both not zero; the parent is then the
/// context with these identifiers. In every other case, and so whenever the
/// metadata hold no `traceparent` entry, there is no parent, and the span of
/// the call starts a new trace.
pub proof fn lemma_parent_is_the_carried_context(metadata: tonic::metadata::MetadataMap)
    ensures
        lookup(metadata, traceparent_name()) is None ==> extracted_parent(metadata) is None,
        match extracted_parent(metadata) {
            Some(parent) => {
                &&& lookup(metadata, traceparent_name()) matches Some(traceparent)
                &&& parent.is_valid()
                &&& (parent.trace_id, parent.span_id, parent.trace_flags, parent.trace_state)
                    == w3c_extract(traceparent, carried_tracestate(metadata))
            },
            None => lookup(metadata, traceparent_name()) matches Some(traceparent) ==> {
                let parts = w3c_extract(traceparent, carried_tracestate(metadata));
                parts.0 == 0 || parts.1 == 0
            },
        },
{
}

/// Turns what the propagator extracted into a parent context, or into none
/// where it found no valid one.
pub fn remote_parent(trace_id: u128, span_id: u64, trace_flags: u8, trace_state: String) -> (parent:
    Option<SpanContext>)
    ensures
        parent.deep_view() == parent_of((trace_id, span_id, trace_flags, trace_state@)),
{
    if trace_id != 0 && span_id != 0 {
        Some(SpanContext { trace_id, span_id, trace_flags, trace_state })
    } else {
        None
    }
}

/// Reads the remote parent of a call out of its metadata.
///
/// Where the metadata hold a `traceparent` in the form in which a valid
/// context is written out, the parent has the identifiers of that context and
/// its sampled flag.
pub fn extract_parent(metadata: &tonic::metadata::MetadataMap) -> (parent: Option<SpanContext>)
    ensures
        parent.deep_view() == extracted_parent(*metadata),
        forall|trace_id: u128, span_id: u64, trace_flags: u8|
            trace_id != 0 && span_id != 0 && lookup(*metadata, traceparent_name()) == Some(
                #[trigger] traceparent_text(trace_id, span_id, trace_flags),
            ) ==> {
                &&& parent matches Some(context)
                &&& context.trace_id == trace_id
                &&& context.span_id == span_id
                &&& context.trace_flags == trace_flags % 2
            },
{
    let carrier = MetadataCarrier(metadata);
    match carrier.get("traceparent") {
        None => None,
        Some(traceparent) => {
            let tracestate: &str = match carrier.get("tracestate") {
                Some(text) => text,
                None => {
                    proof {
                        reveal_strlit("");
                        assert(""@ =~= Seq::<char>::empty());
                    }
                    ""
                },
            };
            let parts: (u128, u64, u8, String) = propagator_extract(traceparent, tracestate);
            remote_parent(parts.0, parts.1, parts.2, parts.3)
        },
    }
}

/// The character that stands for a hexadecimal digit, in lower case.
pub open spec fn hex_digit(d: nat) -> char
    recommends
        d < 16,
{
    if d < 10 {
        crate::text::decimal_digit(d)
    } else if d == 10 {
        'a'
    } else if d == 11 {
        'b'
    } else if d == 12 {
        'c'
    } else if d == 13 {
        'd'
    } else if d == 14 {
        'e'
    } else {
        'f'
    }
}

/// The last `width` hexadecimal digits of a number, in lower case, with
/// leading zeros.
pub open spec fn lower_hex(n: nat, width: nat) -> Seq<char>
    decreases width,
{
    if width == 0 {
        Seq::empty()
    } else {
        lower_hex(n / 16, (width - 1) as nat).push(hex_digit(n % 16))
    }
}

/// The `traceparent` header value of a context: version 00, the trace
/// identifier in 32 digits, the span identifier in 16, and the sampled flag in
/// 2, joined by hyphens.
pub open spec fn traceparent_text(trace_id: u128, span_id: u64, trace_flags: u8) -> Seq<char> {
    seq!['0', '0', '-'] + lower_hex(trace_id as nat, 32) + seq!['-'] + lower_hex(
        span_id as nat,
        16,
    ) + seq!['-'] + lower_hex((trace_flags % 2) as nat, 2)
}

/// The headers that carry a context on an outbound call: `traceparent` and
/// `tracestate`, in this order; none for a context that is not valid.
pub open spec fn injected_headers(context: SpanContextModel) -> Seq<(Seq<char>, Seq<char>)> {
    if context.is_valid() {
        seq![
            (
                traceparent_name(),
                traceparent_text(context.trace_id, context.span_id, context.trace_flags),
            ),
            (tracestate_name(), w3c_tracestate(context.trace_state)),
        ]
    } else {
        Seq::empty()
    }
}

/// Calls `TraceContextPropagator::inject_context` of `opentelemetry` on a
/// context that holds the given span context, and hands back the two header
/// values it wrote. The contract says that it writes nothing for a context
/// that is not valid, and else the `traceparent` value in the format
/// `{:02x}-{:032x}-{:016x}-{:02x}` of version 0, trace identifier, span
/// identifier and sampled flag; the vendor state is only named.
#[verifier::external_body]
fn propagator_inject(context: &SpanContext) -> (written: (Option<String>, Option<String>))
    ensures
        written.0.deep_view() == (if context.deep_view().is_valid() {
            Some(traceparent_text(context.trace_id, context.span_id, context.trace_flags))
        } else {
            None
        }),
        written.1.deep_view() == (if context.deep_view().is_valid() {
            Some(w3c_tracestate(context.trace_state@))
        } else {
            None
        }),
{
    let state = TraceState::from_str(context.trace_state.as_str()).unwrap_or_default();
    let span_context = opentelemetry::trace::SpanContext::new(
        TraceId::from_bytes(context.trace_id.to_be_bytes()),
        SpanId::from_bytes(context.span_id.to_be_bytes()),
        TraceFlags::new(context.trace_flags),
        false,
        state,
    );
    let cx = Context::new().with_remote_span_context(span_context);
    let mut carrier: HashMap<String, String> = HashMap::new();
    TraceContextPropagator::new().inject_context(&cx, &mut carrier);
    (carrier.remove("traceparent"), carrier.remove("tracestate"))
}

/// Puts the header values that the propagator wrote into a list of headers.
pub fn headers_from(traceparent: Option<String>, tracestate: Option<String>) -> (headers: Vec<
    (String, String),
>)
    ensures
        headers.deep_view() == match (traceparent.deep_view(), tracestate.deep_view()) {
            (Some(parent), Some(state)) => seq![
                (traceparent_name(), parent),
                (tracestate_name(), state),
            ],
            (Some(parent), None) => seq![(traceparent_name(), parent)],
            (None, Some(state)) => seq![(tracestate_name(), state)],
            (None, None) => Seq::empty(),
        },
{
    let mut headers: Vec<(String, String)> = Vec::new();
    let ghost mut model: Seq<(Seq<char>, Seq<char>)> = Seq::empty();
    assert(headers.deep_view() =~= model);
    if let Some(parent) = traceparent {
        headers.push(("traceparent".to_owned(), parent));
        proof {
            model = model.push((traceparent_name(), parent@));
        }
        assert(headers.deep_view() =~= model);
    }
    if let Some(state) = tracestate {
        headers.push(("tracestate".to_owned(), state));
        proof {
            model = model.push((tracestate_name(), state@));
        }
        assert(headers.deep_view() =~= model);
    }
    headers
}

/// The headers that carry a span context on an outbound call.
pub fn inject_context(context: &SpanContext) -> (headers: Vec<(String, String)>)
    ensures
        headers.deep_view() == injected_headers(context.deep_view()),
{
    let written: (Option<String>, Option<String>) = propagator_inject(context);
    headers_from(written.0, written.1)
}

} // verus!
