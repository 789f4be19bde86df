//! What a call records on its span: attributes, events and the final status.

use vstd::prelude::*;
use vstd::string::StringExecFns;

verus! {

/// The value of a span attribute.
#[derive(Debug, PartialEq, Eq)]
pub enum AttributeValue {
    Text(String),
    Integer(i64),
}

/// The mathematical content of an [`AttributeValue`].
pub enum AttributeValueModel {
    Text(Seq<char>),
    Integer(int),
}

impl DeepView for AttributeValue {
    type V = AttributeValueModel;

    open spec fn deep_view(&self) -> AttributeValueModel {
        match self {
            AttributeValue::Text(text) => AttributeValueModel::Text(text@),
            AttributeValue::Integer(number) => AttributeValueModel::Integer(*number as int),
        }
    }
}

/// A key with its value.
#[derive(Debug, PartialEq, Eq)]
pub struct Attribute {
    pub key: String,
    pub value: AttributeValue,
}

/// The mathematical content of an [`Attribute`].
pub struct AttributeModel {
    pub key: Seq<char>,
    pub value: AttributeValueModel,
}

impl DeepView for Attribute {
    type V = AttributeModel;

    open spec fn deep_view(&self) -> AttributeModel {
        AttributeModel { key: self.key@, value: self.value.deep_view() }
    }
}

/// A text attribute, as a model value.
pub open spec fn text_attribute(key: Seq<char>, value: Seq<char>) -> AttributeModel {
    AttributeModel { key, value: AttributeValueModel::Text(value) }
}

/// An integer attribute, as a model value.
pub open spec fn integer_attribute(key: Seq<char>, value: int) -> AttributeModel {
    AttributeModel { key, value: AttributeValueModel::Integer(value) }
}

impl Attribute {
    /// An attribute with a text value.
    pub fn text(key: &str, value: &str) -> (attribute: Attribute)
        ensures
            attribute.deep_view() == text_attribute(key@, value@),
    {
        Attribute { key: String::from_str(key), value: AttributeValue::Text(String::from_str(value)) }
    }

    /// An attribute with an integer value.
    pub fn integer(key: &str, value: i64) -> (attribute: Attribute)
        ensures
            attribute.deep_view() == integer_attribute(key@, value as int),
    {
        Attribute { key: String::from_str(key), value: AttributeValue::Integer(value) }
    }
}

/// One thing to record on a span.
#[derive(Debug, PartialEq, Eq)]
pub enum SpanAction {
    SetAttribute(Attribute),
    AddEvent { name: String, attributes: Vec<Attribute> },
}

/// The mathematical content of a [`SpanAction`].
pub enum SpanActionModel {
    SetAttribute(AttributeModel),
    AddEvent { name: Seq<char>, attributes: Seq<AttributeModel> },
}

impl DeepView for SpanAction {
    type V = SpanActionModel;

    open spec fn deep_view(&self) -> SpanActionModel {
        match self {
            SpanAction::SetAttribute(attribute) => SpanActionModel::SetAttribute(
                attribute.deep_view(),
            ),
            SpanAction::AddEvent { name, attributes } => SpanActionModel::AddEvent {
                name: name@,
                attributes: attributes.deep_view(),
            },
        }
    }
}

/// Setting a text attribute, as a model value.
pub open spec fn set_text(key: Seq<char>, value: Seq<char>) -> SpanActionModel {
    SpanActionModel::SetAttribute(text_attribute(key, value))
}

/// Setting an integer attribute, as a model value.
pub open spec fn set_integer(key: Seq<char>, value: int) -> SpanActionModel {
    SpanActionModel::SetAttribute(integer_attribute(key, value))
}

/// An event, as a model value.
pub open spec fn event(name: Seq<char>, attributes: Seq<AttributeModel>) -> SpanActionModel {
    SpanActionModel::AddEvent { name, attributes }
}

impl SpanAction {
    /// Sets a text attribute.
    pub fn set_text(key: &str, value: &str) -> (action: SpanAction)
        ensures
            action.deep_view() == set_text(key@, value@),
    {
        SpanAction::SetAttribute(Attribute::text(key, value))
    }

    /// Sets an integer attribute.
    pub fn set_integer(key: &str, value: i64) -> (action: SpanAction)
        ensures
            action.deep_view() == set_integer(key@, value as int),
    {
        SpanAction::SetAttribute(Attribute::integer(key, value))
    }

    /// Adds an event without attributes.
    pub fn plain_event(name: &str) -> (action: SpanAction)
        ensures
            action.deep_view() == event(name@, Seq::empty()),
    {
        let attributes: Vec<Attribute> = Vec::new();
        assert(attributes.deep_view() =~= Seq::empty());
        SpanAction::AddEvent { name: String::from_str(name), attributes }
    }

    /// Adds an event that carries one attribute.
    pub fn event_with(name: &str, attribute: Attribute) -> (action: SpanAction)
        ensures
            action.deep_view() == event(name@, seq![attribute.deep_view()]),
    {
        let mut attributes: Vec<Attribute> = Vec::new();
        attributes.push(attribute);
        assert(attributes.deep_view() =~= seq![attribute.deep_view()]);
        SpanAction::AddEvent { name: String::from_str(name), attributes }
    }
}

/// The role of a span in a remote call.
#[derive(Debug, Clone, Copy, PartialEq, Eq, Structural)]
pub enum SpanKind {
    Client,
    Server,
    Producer,
    Consumer,
    Internal,
}

/// The attribute key under which a span names the remote-call system.
pub open spec fn rpc_system_key() -> Seq<char> {
    "rpc.system"@
}

/// The attribute key under which a span holds the numeric status of a call.
pub open spec fn rpc_grpc_status_code_key() -> Seq<char> {
    "rpc.grpc.status_code"@
}

/// Reads the constant `trace::RPC_SYSTEM` of
/// `opentelemetry_semantic_conventions`. The contract states the key's text.
#[verifier::external_body]
pub(crate) fn semantic_rpc_system() -> (key: String)
    ensures
        key@ == rpc_system_key(),
{
    opentelemetry_semantic_conventions::trace::RPC_SYSTEM.as_str().to_string()
}

/// Reads the constant `trace::RPC_GRPC_STATUS_CODE` of
/// `opentelemetry_semantic_conventions`. The contract states the key's text.
#[verifier::external_body]
pub(crate) fn semantic_rpc_grpc_status_code() -> (key: String)
    ensures
        key@ == rpc_grpc_status_code_key(),
{
    opentelemetry_semantic_conventions::trace::RPC_GRPC_STATUS_CODE.as_str().to_string()
}

} // verus!
