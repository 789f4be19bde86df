//! The decision core of a shipping service.
//!
//! The service answers two calls: it quotes the cost of shipping a cart, for
//! which it asks a pricing service, and it hands out tracking identifiers for
//! shipments. Each call runs inside a trace span that continues the trace of
//! its caller.
//!
//! This library decides; it sends and receives nothing. Its functions say
//! which span to start, what to record on it, what to send to the pricing
//! service, how to read the reply, and what to answer. A program around it
//! carries these decisions out.

pub mod binary64;
pub mod pricing;
pub mod quote;
pub mod shipping_service;
pub mod shop;
pub mod span;
pub mod status;
pub mod text;
pub mod trace_context;
pub mod tracking;

pub use quote::{create_quote_from_count, create_quote_from_float, Quote};
pub use shipping_service::ShippingServer;
