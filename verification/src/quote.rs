//! Shipping quotes in whole dollars and cents.

use vstd::prelude::*;
use vstd::string::StringExecFns;
use crate::binary64::{
    floor_i64, floor_of, hundredfold_magnitude, hundredfold_mod_hundred, is_finite_non_negative,
    lemma_floor_grows, lemma_non_negative, magnitude_le, saturate_i64,
};
use crate::pricing::{read_reply, PricingReply};
use crate::span::{
    event, set_integer, set_text, text_attribute, Attribute, SpanAction, SpanActionModel,
};
use crate::status::{RpcStatus, StatusCode};
use crate::text::{append_signed_decimal, signed_decimal};

verus! {

/// A shipping cost split into whole dollars and hundredths of a dollar.
#[derive(Debug, Clone, Copy, PartialEq, Eq, Structural)]
pub struct Quote {
    pub dollars: i64,
    pub cents: i32,
}

impl Quote {
    /// A quote is well formed when it is not negative and its cents are a
    /// proper fraction of a dollar.
    pub open spec fn wf(&self) -> bool {
        0 <= self.dollars && 0 <= self.cents < 100
    }

    /// The text of a quote: dollars, a full stop, cents, each as a plain
    /// decimal number.
    pub open spec fn text(&self) -> Seq<char> {
        signed_decimal(self.dollars as int) + seq!['.'] + signed_decimal(self.cents as int)
    }

    /// Renders the quote as text.
    pub fn to_string(&self) -> (s: String)
        ensures
            s@ == self.text(),
    {
        let mut s: String = String::new();
        append_signed_decimal(&mut s, self.dollars);
        proof {
            reveal_strlit(".");
        }
        s.append(".");
        append_signed_decimal(&mut s, self.cents as i64);
        s
    }
}

impl Default for Quote {
    fn default() -> (q: Quote)
        ensures
            q.dollars == 0,
            q.cents == 0,
    {
        Quote { dollars: 0, cents: 0 }
    }
}

/// The quote that a total price stands for, the price being a finite
/// double-precision number that is not below zero, given by its bit pattern.
///
/// The dollars are the floor of the price, or the largest `i64` where the
/// floor is beyond it. The cents are the last two digits of the integer part
/// of the price times 100, the product rounded as double-precision
/// multiplication rounds it.
pub open spec fn quote_of(bits: u64) -> Quote
    recommends
        is_finite_non_negative(bits),
{
    Quote {
        dollars: saturate_i64(floor_of(bits)),
        cents: (hundredfold_magnitude(bits) % 100) as i32,
    }
}

/// Splits a total price into dollars and cents.
///
/// `value` is the bit pattern of a double-precision number, which has to be
/// finite and not below zero. The dollars are its floor. The cents are the
/// floor of the number times 100, modulo 100, the product being the
/// double-precision one.
pub fn create_quote_from_float(value: u64) -> (q: Quote)
    requires
        is_finite_non_negative(value),
    ensures
        q == quote_of(value),
        q.cents == hundredfold_magnitude(value) % 100,
        q.dollars == saturate_i64(floor_of(value)),
        floor_of(value) <= i64::MAX ==> q.dollars == floor_of(value),
        q.wf(),
{
    proof {
        lemma_non_negative(value);
    }
    let dollars: i64 = floor_i64(value);
    let cents: u64 = hundredfold_mod_hundred(value);
    Quote { dollars, cents: cents as i32 }
}

/// A larger total never gives fewer dollars.
pub proof fn lemma_dollars_grow_with_the_total(smaller: u64, larger: u64)
    requires
        is_finite_non_negative(smaller),
        is_finite_non_negative(larger),
        magnitude_le(smaller, larger),
    ensures
        quote_of(smaller).dollars <= quote_of(larger).dollars,
{
    lemma_floor_grows(smaller, larger);
}

/// A quote together with what its computation records on the span of the call.
#[derive(Debug, PartialEq, Eq)]
pub struct QuoteComputed {
    pub quote: Quote,
    pub annotations: Vec<SpanAction>,
}

/// What the computation of a quote for `count` items records: an event that
/// carries the cost, then the item count and the cost as attributes.
pub open spec fn quote_annotations(count: u32, quote: Quote) -> Seq<SpanActionModel> {
    seq![
        event(
            "Received Quote"@,
            seq![text_attribute("app.shipping.cost.total"@, quote.text())],
        ),
        set_integer("app.shipping.items.count"@, count as int),
        set_text("app.shipping.cost.total"@, quote.text()),
    ]
}

/// Turns the reply of the pricing service to a request for `count` items into
/// a quote.
///
/// A reply that states a total price gives the quote for that price, with the
/// annotations for the span of the call. Any other reply gives an error of
/// unknown kind that carries the failure's description.
pub fn create_quote_from_count(count: u32, reply: PricingReply) -> (result: Result<
    QuoteComputed,
    RpcStatus,
>)
    ensures
        match reply.total() {
            Ok(bits) => {
                &&& result matches Ok(computed)
                &&& computed.quote == quote_of(bits)
                &&& computed.quote.wf()
                &&& computed.annotations.deep_view() == quote_annotations(count, quote_of(bits))
            },
            Err(description) => {
                &&& result matches Err(status)
                &&& status.code == StatusCode::Unknown
                &&& status.message@ == description
            },
        },
{
    let bits: u64 = match read_reply(reply) {
        Ok(bits) => bits,
        Err(failure) => {
            return Err(RpcStatus::unknown(failure.into_description()));
        },
    };
    let quote: Quote = create_quote_from_float(bits);
    let cost: String = quote.to_string();
    let mut annotations: Vec<SpanAction> = Vec::new();
    annotations.push(
        SpanAction::event_with(
            "Received Quote",
            Attribute::text("app.shipping.cost.total", cost.as_str()),
        ),
    );
    annotations.push(SpanAction::set_integer("app.shipping.items.count", count as i64));
    annotations.push(SpanAction::set_text("app.shipping.cost.total", cost.as_str()));
    assert(annotations.deep_view() =~= quote_annotations(count, quote));
    Ok(QuoteComputed { quote, annotations })
}

} // verus!
