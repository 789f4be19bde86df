//! The messages of the shipping interface.

use vstd::prelude::*;
use crate::quote::Quote;

verus! {

/// How many billionths of a currency unit one cent is.
pub const NANOS_MULTIPLE: i32 = 10000000;

/// One line of a cart: a product and how many of it.
#[derive(Debug, PartialEq, Eq)]
pub struct CartItem {
    pub product_id: String,
    pub quantity: i32,
}

/// Where a shipment goes. Of an address the service reads the postal code.
#[derive(Debug, PartialEq, Eq)]
pub struct Address {
    pub zip_code: String,
}

impl Default for Address {
    fn default() -> (address: Address)
        ensures
            address.zip_code@ == Seq::<char>::empty(),
    {
        Address { zip_code: String::new() }
    }
}

/// An amount of money: whole units and billionths of a unit.
#[derive(Debug, PartialEq, Eq)]
pub struct Money {
    pub currency_code: String,
    pub units: i64,
    pub nanos: i32,
}

impl Money {
    /// The currency of every amount that this service states.
    pub open spec fn currency() -> Seq<char> {
        "USD"@
    }

    /// The amount that a quote stands for, in US dollars: the dollars are the
    /// units, and each cent is ten million billionths.
    pub fn from_quote(quote: &Quote) -> (money: Money)
        requires
            quote.wf(),
        ensures
            money.currency_code@ == Money::currency(),
            money.units == quote.dollars,
            money.nanos == quote.cents * 10000000,
            0 <= money.nanos < 1000000000,
    {
        Money {
            currency_code: "USD".to_owned(),
            units: quote.dollars,
            nanos: quote.cents * NANOS_MULTIPLE,
        }
    }
}

/// The sum of a sequence of quantities.
pub open spec fn total_quantity(quantities: Seq<int>) -> int
    decreases quantities.len(),
{
    if quantities.len() == 0 {
        0
    } else {
        total_quantity(quantities.drop_last()) + quantities.last()
    }
}

/// The quantities of a cart's lines, in order.
pub open spec fn quantities_of(items: Seq<CartItem>) -> Seq<int> {
    Seq::new(items.len(), |i: int| items[i].quantity as int)
}

/// A request for a shipping quote.
#[derive(Debug, PartialEq, Eq)]
pub struct GetQuoteRequest {
    pub address: Option<Address>,
    pub items: Vec<CartItem>,
}

impl GetQuoteRequest {
    /// The number of items in the cart: the sum of the quantities of its lines.
    pub open spec fn total(&self) -> int {
        total_quantity(quantities_of(self.items@))
    }

    /// A request that can be served: it names an address, no quantity is
    /// negative, and the number of items fits in 32 bits.
    pub open spec fn wf(&self) -> bool {
        &&& self.address is Some
        &&& forall|i: int| 0 <= i < self.items@.len() ==> (#[trigger] self.items@[i]).quantity >= 0
        &&& self.total() <= u32::MAX
    }

    proof fn lemma_quantities(&self)
        requires
            self.wf(),
        ensures
            forall|i: int|
                0 <= i < self.items@.len() ==> #[trigger] quantities_of(self.items@)[i] >= 0,
    {
        assert forall|i: int| 0 <= i < self.items@.len() implies #[trigger] quantities_of(
            self.items@,
        )[i] >= 0 by {
            assert(self.items@[i].quantity >= 0);
        }
    }

    /// Tells whether the request can be served.
    pub fn is_well_formed(&self) -> (well_formed: bool)
        ensures
            well_formed == self.wf(),
    {
        if self.address.is_none() {
            return false;
        }
        let ghost quantities: Seq<int> = quantities_of(self.items@);
        let mut count: u32 = 0;
        let mut i: usize = 0;
        while i < self.items.len()
            invariant
                i <= self.items.len(),
                quantities == quantities_of(self.items@),
                forall|j: int| 0 <= j < i ==> (#[trigger] self.items@[j]).quantity >= 0,
                count == total_quantity(quantities.subrange(0, i as int)),
            decreases self.items.len() - i,
        {
            let quantity: i32 = self.items[i].quantity;
            assert(quantities.subrange(0, i + 1).drop_last() =~= quantities.subrange(0, i as int));
            if quantity < 0 {
                return false;
            }
            if quantity as u32 > u32::MAX - count {
                proof {
                    if self.wf() {
                        self.lemma_quantities();
                        lemma_total_grows(quantities, i + 1);
                    }
                }
                return false;
            }
            count = count + quantity as u32;
            i += 1;
        }
        assert(quantities.subrange(0, i as int) =~= quantities);
        true
    }

    /// Counts the items in the cart.
    pub fn item_count(&self) -> (count: u32)
        requires
            self.wf(),
        ensures
            count == self.total(),
    {
        let ghost quantities: Seq<int> = quantities_of(self.items@);
        let mut count: u32 = 0;
        let mut i: usize = 0;
        while i < self.items.len()
            invariant
                i <= self.items.len(),
                self.wf(),
                quantities == quantities_of(self.items@),
                count == total_quantity(quantities.subrange(0, i as int)),
            decreases self.items.len() - i,
        {
            let quantity: i32 = self.items[i].quantity;
            proof {
                assert(quantities.subrange(0, i + 1).drop_last() =~= quantities.subrange(
                    0,
                    i as int,
                ));
                self.lemma_quantities();
                lemma_total_grows(quantities, i + 1);
            }
            count = count + quantity as u32;
            i += 1;
        }
        assert(quantities.subrange(0, i as int) =~= quantities);
        count
    }
}

impl Default for GetQuoteRequest {
    fn default() -> (request: GetQuoteRequest)
        ensures
            request.address is None,
            request.items@.len() == 0,
    {
        GetQuoteRequest { address: None, items: Vec::new() }
    }
}

/// While no quantity is negative, the sum of the first `n` of them is at most
/// the sum of all.
pub proof fn lemma_total_grows(quantities: Seq<int>, n: int)
    requires
        0 <= n <= quantities.len(),
        forall|i: int| 0 <= i < quantities.len() ==> #[trigger] quantities[i] >= 0,
    ensures
        0 <= total_quantity(quantities.subrange(0, n)) <= total_quantity(quantities),
    decreases quantities.len() - n,
{
    lemma_total_not_negative(quantities.subrange(0, n));
    if n == quantities.len() {
        assert(quantities.subrange(0, n) =~= quantities);
    } else {
        lemma_total_grows(quantities, n + 1);
        assert(quantities.subrange(0, n + 1).drop_last() =~= quantities.subrange(0, n));
    }
}

proof fn lemma_total_not_negative(quantities: Seq<int>)
    requires
        forall|i: int| 0 <= i < quantities.len() ==> #[trigger] quantities[i] >= 0,
    ensures
        0 <= total_quantity(quantities),
    decreases quantities.len(),
{
    if quantities.len() > 0 {
        lemma_total_not_negative(quantities.drop_last());
    }
}

/// The answer to a request for a shipping quote.
#[derive(Debug, PartialEq, Eq)]
pub struct GetQuoteResponse {
    pub cost_usd: Option<Money>,
}

/// A request to ship an order.
#[derive(Debug, PartialEq, Eq)]
pub struct ShipOrderRequest {
    pub address: Option<Address>,
    pub items: Vec<CartItem>,
}

impl Default for ShipOrderRequest {
    fn default() -> (request: ShipOrderRequest)
        ensures
            request.address is None,
            request.items@.len() == 0,
    {
        ShipOrderRequest { address: None, items: Vec::new() }
    }
}

/// The answer to a request to ship an order.
#[derive(Debug, PartialEq, Eq)]
pub struct ShipOrderResponse {
    pub tracking_id: String,
}

} // verus!
