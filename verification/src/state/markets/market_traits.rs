//! What a market asks of the orders it holds and of their identities.

use vstd::prelude::*;
use crate::quantities::BaseLotsPerBaseUnit;
use crate::quantities::QuoteLotsPerBaseUnitPerTick;
use crate::state::enums::Side;
use crate::state::markets::book::Book;
use crate::state::markets::market_view::MarketView;

verus! {

/// An order that waits in the book.
pub trait RestingOrder {
    /// The size that is left of the order, in base lots.
    spec fn spec_size(&self) -> u64;

    /// The last slot in which the order may trade, if it has one.
    spec fn spec_last_valid_slot(&self) -> Option<u64>;

    /// The last second, in Unix time, in which the order may trade, if it has
    /// one.
    spec fn spec_last_valid_unix_timestamp_in_seconds(&self) -> Option<u64>;

    /// Whether the order has outlived one of its limits at the given slot and
    /// time. A limit that is absent never expires the order; a limit that is
    /// present expires it once the clock is strictly past it.
    open spec fn spec_is_expired(&self, current_slot: u64, current_timestamp: u64) -> bool {
        ||| match self.spec_last_valid_slot() {
            Some(slot) => slot < current_slot,
            None => false,
        }
        ||| match self.spec_last_valid_unix_timestamp_in_seconds() {
            Some(timestamp) => timestamp < current_timestamp,
            None => false,
        }
    }

    /// The size that is left of the order, in base lots.
    fn size(&self) -> (lots: u64)
        ensures
            lots == self.spec_size(),
    ;

    /// The last slot in which the order may trade, or `None` where the order
    /// has no slot limit.
    fn last_valid_slot(&self) -> (limit: Option<u64>)
        ensures
            limit == self.spec_last_valid_slot(),
    ;

    /// The last second in which the order may trade, or `None` where the
    /// order has no time limit.
    fn last_valid_unix_timestamp_in_seconds(&self) -> (limit: Option<u64>)
        ensures
            limit == self.spec_last_valid_unix_timestamp_in_seconds(),
    ;

    /// Whether the order has expired at the given slot and time: its slot
    /// limit is exceeded, or its time limit is. Either alone is enough.
    fn is_expired(&self, current_slot: u64, current_timestamp: u64) -> (expired: bool)
        ensures
            expired == self.spec_is_expired(current_slot, current_timestamp),
    ;
}

/// The identity of an order, as far as a market reads it.
pub trait OrderId {
    /// The price of the order, in ticks.
    spec fn spec_price_in_ticks(&self) -> u64;

    /// The price of the order, in ticks.
    fn price_in_ticks(&self) -> (ticks: u64)
        ensures
            ticks == self.spec_price_in_ticks(),
    ;
}

/// What a market reports of itself: its settings, its counter and, for
/// reading, each side of its book.
pub trait Market: View<V = MarketView> {
    /// What holds of every market of this kind.
    spec fn inv(&self) -> bool;

    /// The fee that a taker pays, in basis points.
    fn get_taker_fee_bps(&self) -> (bps: u64)
        ensures
            bps == self@.taker_fee_bps,
    ;

    /// The tick size: the quote lots that one tick is worth per unit of base
    /// currency.
    fn get_tick_size(&self) -> (tick_size: QuoteLotsPerBaseUnitPerTick)
        ensures
            tick_size == self@.tick_size_in_quote_lots_per_base_unit,
    ;

    /// The base lots in one unit of base currency.
    fn get_base_lots_per_base_unit(&self) -> (lots: BaseLotsPerBaseUnit)
        ensures
            lots == self@.base_lots_per_base_unit,
    ;

    /// The number of sequence numbers that the market has issued.
    fn get_sequence_number(&self) -> (issued: u64)
        ensures
            issued == self@.order_sequence_number,
    ;

    /// One side of the book, for reading.
    fn get_book(&self, side: Side) -> (book: &Book)
        ensures
            book@ == self@.book(side),
            book.spec_capacity() == self@.book_capacity(side),
            self.inv() ==> book.inv() && book.spec_side() == side,
    ;
}

} // verus!
