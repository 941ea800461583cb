//! Orders in price-time priority: the identity by which they are ranked and
//! the record that rests in the book.

use vstd::prelude::*;
use std::cmp::Ordering;
use vstd::std_specs::cmp::PartialOrdSpecImpl;
use crate::quantities::BaseLots;
use crate::quantities::Ticks;
use crate::state::enums::Side;
use crate::state::markets::market_traits::OrderId;
use crate::state::markets::market_traits::RestingOrder;

verus! {

/// The identity of a resting order, and the key by which a side of the book
/// ranks it: its price and the sequence number it was given on arrival. The
/// top bit of the sequence number tells the side.
#[derive(Debug, Clone, Copy, PartialEq, Eq, Structural)]
pub struct FIFOOrderId {
    pub price_in_ticks: Ticks,
    pub order_sequence_number: u64,
}

impl FIFOOrderId {
    /// The side that this identity encodes in its sequence number.
    pub open spec fn side(&self) -> Side {
        Side::spec_from_order_sequence_number(self.order_sequence_number)
    }

    /// Price-time priority. Whether this order trades strictly before the
    /// other one, on the side that this identity encodes: the better price
    /// first (the lower for an ask, the higher for a bid), and at one price
    /// the lower sequence number, that is the earlier arrival.
    pub open spec fn ranks_before(&self, other: &FIFOOrderId) -> bool {
        match self.side() {
            Side::Ask => {
                ||| self.price_in_ticks@ < other.price_in_ticks@
                ||| (self.price_in_ticks@ == other.price_in_ticks@ && self.order_sequence_number
                    < other.order_sequence_number)
            },
            Side::Bid => {
                ||| self.price_in_ticks@ > other.price_in_ticks@
                ||| (self.price_in_ticks@ == other.price_in_ticks@ && self.order_sequence_number
                    < other.order_sequence_number)
            },
        }
    }

    /// How this identity stands to the other in priority: `Less` where it
    /// trades before the other, `Equal` for the same identity, `Greater`
    /// otherwise.
    pub open spec fn compare(&self, other: &FIFOOrderId) -> Ordering {
        if self == other {
            Ordering::Equal
        } else if self.ranks_before(other) {
            Ordering::Less
        } else {
            Ordering::Greater
        }
    }

    /// The identity with the given price and sequence number.
    pub fn new(ticks: Ticks, order_sequence_number: u64) -> (id: Self)
        ensures
            id.price_in_ticks == ticks,
            id.order_sequence_number == order_sequence_number,
    {
        Self { price_in_ticks: ticks, order_sequence_number }
    }

    /// The identity with the given price, in ticks, and sequence number.
    pub fn new_from_untyped(val1: u64, val2: u64) -> (id: Self)
        ensures
            id.price_in_ticks@ == val1,
            id.order_sequence_number == val2,
    {
        Self { price_in_ticks: Ticks { inner: val1 }, order_sequence_number: val2 }
    }

    /// How this identity stands to the other in priority: `Less` where it
    /// trades first, `Greater` where the other does, `Equal` for the same
    /// identity.
    pub fn cmp(&self, other: &Self) -> (order: Ordering)
        ensures
            order == self.compare(other),
    {
        let own_price: u64 = self.price_in_ticks.inner;
        let other_price: u64 = other.price_in_ticks.inner;
        let price_order = match Side::from_order_sequence_number(self.order_sequence_number) {
            Side::Ask => Self::order_of(own_price, other_price),
            Side::Bid => Self::order_of(other_price, own_price),
        };
        match price_order {
            Ordering::Equal => Self::order_of(
                self.order_sequence_number,
                other.order_sequence_number,
            ),
            Ordering::Less => Ordering::Less,
            Ordering::Greater => Ordering::Greater,
        }
    }

    /// The order of two numbers.
    fn order_of(left: u64, right: u64) -> (order: Ordering)
        ensures
            left < right ==> order == Ordering::Less,
            left == right ==> order == Ordering::Equal,
            left > right ==> order == Ordering::Greater,
    {
        if left < right {
            Ordering::Less
        } else if left == right {
            Ordering::Equal
        } else {
            Ordering::Greater
        }
    }
}

impl PartialOrdSpecImpl for FIFOOrderId {
    open spec fn obeys_partial_cmp_spec() -> bool {
        true
    }

    open spec fn partial_cmp_spec(&self, other: &FIFOOrderId) -> Option<Ordering> {
        Some(self.compare(other))
    }
}

impl PartialOrd for FIFOOrderId {
    fn partial_cmp(&self, other: &FIFOOrderId) -> (order: Option<Ordering>) {
        Some(self.cmp(other))
    }
}

impl Default for FIFOOrderId {
    fn default() -> (id: Self)
        ensures
            id.price_in_ticks@ == 0,
            id.order_sequence_number == 0,
    {
        FIFOOrderId { price_in_ticks: Ticks { inner: 0 }, order_sequence_number: 0 }
    }
}

impl OrderId for FIFOOrderId {
    open spec fn spec_price_in_ticks(&self) -> u64 {
        self.price_in_ticks@
    }

    fn price_in_ticks(&self) -> (ticks: u64) {
        self.price_in_ticks.inner
    }
}

/// Among asks, an order trades before another exactly where its price is
/// lower, or the prices are equal and its sequence number is lower; and the
/// comparison says `Less` exactly then.
pub proof fn lemma_ask_priority(a: FIFOOrderId, b: FIFOOrderId)
    requires
        a.side() == Side::Ask,
        b.side() == Side::Ask,
    ensures
        a.ranks_before(&b) <==> (a.price_in_ticks@ < b.price_in_ticks@ || (a.price_in_ticks@
            == b.price_in_ticks@ && a.order_sequence_number < b.order_sequence_number)),
        a.compare(&b) == Ordering::Less <==> a.ranks_before(&b),
{
}

/// Among bids, an order trades before another exactly where its price is
/// higher, or the prices are equal and its sequence number is lower; and the
/// comparison says `Less` exactly then.
pub proof fn lemma_bid_priority(a: FIFOOrderId, b: FIFOOrderId)
    requires
        a.side() == Side::Bid,
        b.side() == Side::Bid,
    ensures
        a.ranks_before(&b) <==> (a.price_in_ticks@ > b.price_in_ticks@ || (a.price_in_ticks@
            == b.price_in_ticks@ && a.order_sequence_number < b.order_sequence_number)),
        a.compare(&b) == Ordering::Less <==> a.ranks_before(&b),
{
}

/// Priority is a strict total order on the identities of one side: no
/// identity trades before itself, of two identities at most one trades before
/// the other, of two different identities at least one does, and trading
/// before carries over a middle identity.
pub proof fn lemma_priority_is_strict_total_order(a: FIFOOrderId, b: FIFOOrderId, c: FIFOOrderId)
    requires
        a.side() == b.side(),
        b.side() == c.side(),
    ensures
        !a.ranks_before(&a),
        a.ranks_before(&b) ==> !b.ranks_before(&a),
        a != b ==> (a.ranks_before(&b) || b.ranks_before(&a)),
        a.ranks_before(&b) && b.ranks_before(&c) ==> a.ranks_before(&c),
{
}

/// The comparison agrees with itself when its arguments are swapped: it says
/// `Less` one way exactly where it says `Greater` the other way, and `Equal`
/// only of an identity and itself.
pub proof fn lemma_comparison_is_consistent(a: FIFOOrderId, b: FIFOOrderId)
    requires
        a.side() == b.side(),
    ensures
        a.compare(&b) == Ordering::Less <==> b.compare(&a) == Ordering::Greater,
        a.compare(&b) == Ordering::Equal <==> a == b,
{
}

/// The state of one order that rests in the book.
///
/// A limit of zero means that the order has no limit of that kind; the
/// accessors of `RestingOrder` report such a limit as `None`.
#[derive(Debug, Clone, Copy, PartialEq, Eq, Structural)]
pub struct FIFORestingOrder {
    /// The key of the owner in the market's table of traders.
    pub trader_index: u64,
    /// The size that is left of the order.
    pub num_base_lots: BaseLots,
    /// The last slot in which the order may trade; zero for no limit.
    pub last_valid_slot: u64,
    /// The last second in which the order may trade; zero for no limit.
    pub last_valid_unix_timestamp_in_seconds: u64,
}

impl FIFORestingOrder {
    /// An order that never expires.
    pub fn new_default(trader_index: u64, num_base_lots: BaseLots) -> (order: Self)
        ensures
            order == (FIFORestingOrder {
                trader_index,
                num_base_lots,
                last_valid_slot: 0,
                last_valid_unix_timestamp_in_seconds: 0,
            }),
    {
        Self {
            trader_index,
            num_base_lots,
            last_valid_slot: 0,
            last_valid_unix_timestamp_in_seconds: 0,
        }
    }

    /// An order with both limits given as stored: zero stands for no limit.
    pub fn new(
        trader_index: u64,
        num_base_lots: BaseLots,
        last_valid_slot: u64,
        last_valid_unix_timestamp_in_seconds: u64,
    ) -> (order: Self)
        ensures
            order == (FIFORestingOrder {
                trader_index,
                num_base_lots,
                last_valid_slot,
                last_valid_unix_timestamp_in_seconds,
            }),
    {
        Self { trader_index, num_base_lots, last_valid_slot, last_valid_unix_timestamp_in_seconds }
    }

    /// An order limited by slot only.
    pub fn new_with_last_valid_slot(
        trader_index: u64,
        num_base_lots: BaseLots,
        last_valid_slot: u64,
    ) -> (order: Self)
        ensures
            order == (FIFORestingOrder {
                trader_index,
                num_base_lots,
                last_valid_slot,
                last_valid_unix_timestamp_in_seconds: 0,
            }),
    {
        Self { trader_index, num_base_lots, last_valid_slot, last_valid_unix_timestamp_in_seconds: 0 }
    }

    /// An order limited by time only.
    pub fn new_with_last_valid_unix_timestamp(
        trader_index: u64,
        num_base_lots: BaseLots,
        last_valid_unix_timestamp_in_seconds: u64,
    ) -> (order: Self)
        ensures
            order == (FIFORestingOrder {
                trader_index,
                num_base_lots,
                last_valid_slot: 0,
                last_valid_unix_timestamp_in_seconds,
            }),
    {
        FIFORestingOrder {
            trader_index,
            num_base_lots,
            last_valid_slot: 0,
            last_valid_unix_timestamp_in_seconds,
        }
    }
}

impl Default for FIFORestingOrder {
    fn default() -> (order: Self)
        ensures
            order == (FIFORestingOrder {
                trader_index: 0,
                num_base_lots: BaseLots { inner: 0 },
                last_valid_slot: 0,
                last_valid_unix_timestamp_in_seconds: 0,
            }),
    {
        FIFORestingOrder {
            trader_index: 0,
            num_base_lots: BaseLots { inner: 0 },
            last_valid_slot: 0,
            last_valid_unix_timestamp_in_seconds: 0,
        }
    }
}

impl RestingOrder for FIFORestingOrder {
    open spec fn spec_size(&self) -> u64 {
        self.num_base_lots@
    }

    open spec fn spec_last_valid_slot(&self) -> Option<u64> {
        if self.last_valid_slot == 0 {
            None
        } else {
            Some(self.last_valid_slot)
        }
    }

    open spec fn spec_last_valid_unix_timestamp_in_seconds(&self) -> Option<u64> {
        if self.last_valid_unix_timestamp_in_seconds == 0 {
            None
        } else {
            Some(self.last_valid_unix_timestamp_in_seconds)
        }
    }

    fn size(&self) -> (lots: u64) {
        self.num_base_lots.inner
    }

    fn last_valid_slot(&self) -> (limit: Option<u64>) {
        if self.last_valid_slot == 0 {
            None
        } else {
            Some(self.last_valid_slot)
        }
    }

    fn last_valid_unix_timestamp_in_seconds(&self) -> (limit: Option<u64>) {
        if self.last_valid_unix_timestamp_in_seconds == 0 {
            None
        } else {
            Some(self.last_valid_unix_timestamp_in_seconds)
        }
    }

    fn is_expired(&self, current_slot: u64, current_timestamp: u64) -> (expired: bool) {
        (self.last_valid_slot != 0 && self.last_valid_slot < current_slot) || (
        self.last_valid_unix_timestamp_in_seconds != 0
            && self.last_valid_unix_timestamp_in_seconds < current_timestamp)
    }
}

/// In the stored limits: an order has expired exactly where a limit other than
/// zero lies strictly before the clock. An order without limits never expires.
pub proof fn lemma_expiry_in_stored_limits(
    order: FIFORestingOrder,
    current_slot: u64,
    current_timestamp: u64,
)
    ensures
        order.spec_is_expired(current_slot, current_timestamp) <==> ((order.last_valid_slot != 0
            && order.last_valid_slot < current_slot) || (
        order.last_valid_unix_timestamp_in_seconds != 0
            && order.last_valid_unix_timestamp_in_seconds < current_timestamp)),
        order.last_valid_slot == 0 && order.last_valid_unix_timestamp_in_seconds == 0
            ==> !order.spec_is_expired(current_slot, current_timestamp),
{
}

} // verus!
