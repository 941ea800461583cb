//! The market in memory: both sides of the book and the table of traders,
//! each in an index of fixed capacity, with the settings and the counter of
//! sequence numbers.
//!
//! Every operation either takes effect as a whole or leaves the market as it
//! was. What it makes of the market is stated on the market's view.

use vstd::prelude::*;
use crate::quantities::BaseLots;
use crate::quantities::BaseLotsPerBaseUnit;
use crate::quantities::QuoteLots;
use crate::quantities::QuoteLotsPerBaseUnitPerTick;
use crate::quantities::Ticks;
use crate::state::enums::Side;
use crate::state::enums::BID_SEQUENCE_BIT;
use crate::state::error::MarketError;
use crate::state::inflight_order::InflightOrder;
use crate::state::markets::book::in_priority;
use crate::state::markets::book::trades_first;
use crate::state::markets::book::Book;
use crate::state::markets::fifo::FIFOOrderId;
use crate::state::markets::fifo::FIFORestingOrder;
use crate::state::markets::market_traits::Market;
use crate::state::markets::market_traits::RestingOrder;
use crate::state::markets::market_view::MarketView;
use crate::state::markets::ordered_index::MAX_INDEX_CAPACITY;
use crate::state::markets::trader_table::TraderTable;
use crate::state::matching_engine_response::MatchingEngineResponse;
use crate::state::trader_state::TraderState;

verus! {

/// A market whose orders trade in price-time priority, with room for
/// `BIDS_SIZE` bids, `ASKS_SIZE` asks and `NUM_SEATS` traders.
pub struct FIFOMarket<const BIDS_SIZE: usize, const ASKS_SIZE: usize, const NUM_SEATS: usize> {
    base_lots_per_base_unit: BaseLotsPerBaseUnit,
    tick_size_in_quote_lots_per_base_unit: QuoteLotsPerBaseUnitPerTick,
    order_sequence_number: u64,
    taker_fee_bps: u64,
    collected_quote_lot_fees: QuoteLots,
    unclaimed_quote_lot_fees: QuoteLots,
    bids: Book,
    asks: Book,
    traders: TraderTable,
}

impl<const BIDS_SIZE: usize, const ASKS_SIZE: usize, const NUM_SEATS: usize> View for FIFOMarket<
    BIDS_SIZE,
    ASKS_SIZE,
    NUM_SEATS,
> {
    type V = MarketView;

    closed spec fn view(&self) -> MarketView {
        MarketView {
            base_lots_per_base_unit: self.base_lots_per_base_unit,
            tick_size_in_quote_lots_per_base_unit: self.tick_size_in_quote_lots_per_base_unit,
            order_sequence_number: self.order_sequence_number,
            taker_fee_bps: self.taker_fee_bps,
            collected_quote_lot_fees: self.collected_quote_lot_fees,
            unclaimed_quote_lot_fees: self.unclaimed_quote_lot_fees,
            bids: self.bids@,
            asks: self.asks@,
            traders: self.traders@,
            bids_capacity: self.bids.spec_capacity(),
            asks_capacity: self.asks.spec_capacity(),
            traders_capacity: self.traders.spec_capacity(),
        }
    }
}

impl<const BIDS_SIZE: usize, const ASKS_SIZE: usize, const NUM_SEATS: usize> Market for FIFOMarket<
    BIDS_SIZE,
    ASKS_SIZE,
    NUM_SEATS,
> {
    closed spec fn inv(&self) -> bool {
        &&& self.bids.inv()
        &&& self.asks.inv()
        &&& self.traders.inv()
        &&& self.bids.spec_side() == Side::Bid
        &&& self.asks.spec_side() == Side::Ask
        &&& self.bids.spec_capacity() == BIDS_SIZE
        &&& self.asks.spec_capacity() == ASKS_SIZE
        &&& self.traders.spec_capacity() == NUM_SEATS
        &&& self@.wf()
    }

    fn get_taker_fee_bps(&self) -> (bps: u64) {
        self.taker_fee_bps
    }

    fn get_tick_size(&self) -> (tick_size: QuoteLotsPerBaseUnitPerTick) {
        self.tick_size_in_quote_lots_per_base_unit
    }

    fn get_base_lots_per_base_unit(&self) -> (lots: BaseLotsPerBaseUnit) {
        self.base_lots_per_base_unit
    }

    fn get_sequence_number(&self) -> (issued: u64) {
        self.order_sequence_number
    }

    fn get_book(&self, side: Side) -> (book: &Book) {
        match side {
            Side::Bid => &self.bids,
            Side::Ask => &self.asks,
        }
    }
}

impl<const BIDS_SIZE: usize, const ASKS_SIZE: usize, const NUM_SEATS: usize> FIFOMarket<
    BIDS_SIZE,
    ASKS_SIZE,
    NUM_SEATS,
> {
    /// What the invariant says of the view: the view is well formed, so the
    /// locked base lots of every trader are the remaining sizes of the
    /// trader's resting orders, and the capacities are those of the type.
    pub proof fn lemma_inv(&self)
        requires
            self.inv(),
        ensures
            self@.wf(),
            self@.conserved(),
            self@.bids_capacity == BIDS_SIZE,
            self@.asks_capacity == ASKS_SIZE,
            self@.traders_capacity == NUM_SEATS,
    {
    }

    /// An empty market with the given settings: no traders, no orders, no
    /// fees, and no sequence number issued.
    pub fn new(
        base_lots_per_base_unit: BaseLotsPerBaseUnit,
        tick_size_in_quote_lots_per_base_unit: QuoteLotsPerBaseUnitPerTick,
        taker_fee_bps: u64,
    ) -> (market: Self)
        requires
            0 < BIDS_SIZE <= MAX_INDEX_CAPACITY,
            0 < ASKS_SIZE <= MAX_INDEX_CAPACITY,
            0 < NUM_SEATS <= MAX_INDEX_CAPACITY,
        ensures
            market.inv(),
            market@ == (MarketView {
                base_lots_per_base_unit,
                tick_size_in_quote_lots_per_base_unit,
                order_sequence_number: 0,
                taker_fee_bps,
                collected_quote_lot_fees: QuoteLots { inner: 0 },
                unclaimed_quote_lot_fees: QuoteLots { inner: 0 },
                bids: Map::empty(),
                asks: Map::empty(),
                traders: Map::empty(),
                bids_capacity: BIDS_SIZE as nat,
                asks_capacity: ASKS_SIZE as nat,
                traders_capacity: NUM_SEATS as nat,
            }),
    {
        let market = FIFOMarket {
            base_lots_per_base_unit,
            tick_size_in_quote_lots_per_base_unit,
            order_sequence_number: 0,
            taker_fee_bps,
            collected_quote_lot_fees: QuoteLots { inner: 0 },
            unclaimed_quote_lot_fees: QuoteLots { inner: 0 },
            bids: Book::with_capacity::<BIDS_SIZE>(Side::Bid),
            asks: Book::with_capacity::<ASKS_SIZE>(Side::Ask),
            traders: TraderTable::with_capacity::<NUM_SEATS>(),
        };
        proof {
            market@.lemma_empty_is_wf();
        }
        market
    }

    /// The ledger of a trader, if the trader is registered.
    pub fn get_trader_state(&self, trader: u64) -> (found: Option<TraderState>)
        ensures
            found == (if self@.traders.dom().contains(trader) {
                Some(self@.traders[trader])
            } else {
                None
            }),
    {
        self.traders.get(trader)
    }

    /// Registers a trader. A new trader gets an empty ledger; a trader who
    /// is registered keeps the ledger. Fails with `CapacityExceeded`, and
    /// changes nothing, where the trader is new and the table is full.
    pub fn register_trader(&mut self, trader: u64) -> (outcome: Result<(), MarketError>)
        requires
            old(self).inv(),
        ensures
            final(self).inv(),
            outcome == old(self)@.register_outcome(trader),
            outcome.is_ok() ==> final(self)@ == old(self)@.after_register(trader),
            outcome.is_err() ==> final(self)@ == old(self)@,
    {
        let outcome = self.traders.register(trader);
        proof {
            if outcome.is_ok() {
                old(self)@.lemma_register_keeps_wf(trader);
            }
        }
        outcome
    }

    /// Adds lots from outside the market to the free balances of a trader.
    pub fn deposit(&mut self, trader: u64, quote_lots: QuoteLots, base_lots: BaseLots) -> (outcome:
        Result<(), MarketError>)
        requires
            old(self).inv(),
        ensures
            final(self).inv(),
            outcome == old(self)@.deposit_outcome(trader, quote_lots, base_lots),
            outcome.is_ok() ==> final(self)@ == old(self)@.after_deposit(
                trader,
                quote_lots,
                base_lots,
            ),
            outcome.is_err() ==> final(self)@ == old(self)@,
    {
        let ledger = match self.traders.get(trader) {
            Some(ledger) => ledger,
            None => {
                return Err(MarketError::TraderNotFound);
            },
        };
        let credited = match ledger.deposit(quote_lots, base_lots) {
            Some(credited) => credited,
            None => {
                return Err(MarketError::ArithmeticOverflow);
            },
        };
        self.traders.replace(trader, credited);
        proof {
            old(self)@.lemma_deposit_keeps_wf(trader, quote_lots, base_lots);
        }
        Ok(())
    }

    /// Takes lots out of the free balances of a trader and out of the
    /// market.
    pub fn withdraw(&mut self, trader: u64, quote_lots: QuoteLots, base_lots: BaseLots) -> (outcome:
        Result<(), MarketError>)
        requires
            old(self).inv(),
        ensures
            final(self).inv(),
            outcome == old(self)@.withdraw_outcome(trader, quote_lots, base_lots),
            outcome.is_ok() ==> final(self)@ == old(self)@.after_withdraw(
                trader,
                quote_lots,
                base_lots,
            ),
            outcome.is_err() ==> final(self)@ == old(self)@,
    {
        let ledger = match self.traders.get(trader) {
            Some(ledger) => ledger,
            None => {
                return Err(MarketError::TraderNotFound);
            },
        };
        let debited = match ledger.withdraw(quote_lots, base_lots) {
            Some(debited) => debited,
            None => {
                return Err(MarketError::ArithmeticUnderflow);
            },
        };
        self.traders.replace(trader, debited);
        proof {
            old(self)@.lemma_withdraw_keeps_wf(trader, quote_lots, base_lots);
        }
        Ok(())
    }

    /// Posts an order of a trader at a price: the order rests on its side
    /// under the next sequence number, and its lots move from the trader's
    /// free base lots to the locked ones. Nothing is matched. An order of no
    /// lots posts nothing. Returns the identity of the posted order and the
    /// report of what was done; fails, and changes nothing, for the first
    /// reason that `MarketView::place_outcome` finds.
    pub fn place_order(
        &mut self,
        trader: u64,
        price_in_ticks: Ticks,
        order: &InflightOrder,
        last_valid_slot: u64,
        last_valid_unix_timestamp_in_seconds: u64,
    ) -> (outcome: Result<(Option<FIFOOrderId>, MatchingEngineResponse), MarketError>)
        requires
            old(self).inv(),
        ensures
            final(self).inv(),
            match outcome {
                Ok((posted, response)) => {
                    &&& old(self)@.place_outcome(
                        trader,
                        order.side,
                        price_in_ticks,
                        order.num_base_lots,
                    ) == Ok::<Option<FIFOOrderId>, MarketError>(posted)
                    &&& posted.is_some() ==> final(self)@ == old(self)@.after_place(
                        trader,
                        order.side,
                        price_in_ticks,
                        order.num_base_lots,
                        last_valid_slot,
                        last_valid_unix_timestamp_in_seconds,
                    )
                    &&& posted.is_none() ==> final(self)@ == old(self)@
                    &&& response == (MatchingEngineResponse {
                        num_base_lots_posted: order.num_base_lots,
                        ..MatchingEngineResponse::empty()
                    })
                    &&& response.accounts_for(order.num_base_lots)
                },
                Err(error) => {
                    &&& old(self)@.place_outcome(
                        trader,
                        order.side,
                        price_in_ticks,
                        order.num_base_lots,
                    ) == Err::<Option<FIFOOrderId>, MarketError>(error)
                    &&& final(self)@ == old(self)@
                },
            },
    {
        let lots = order.num_base_lots;
        if lots.inner == 0 {
            return Ok((None, MatchingEngineResponse::posted(lots)));
        }
        let ledger = match self.traders.get(trader) {
            Some(ledger) => ledger,
            None => {
                return Err(MarketError::TraderNotFound);
            },
        };
        if lots.inner > ledger.base_lots_free.inner {
            return Err(MarketError::ArithmeticUnderflow);
        }
        let moved = match ledger.lock_base_lots(lots) {
            Some(moved) => moved,
            None => {
                return Err(MarketError::ArithmeticOverflow);
            },
        };
        if self.order_sequence_number >= BID_SEQUENCE_BIT {
            return Err(MarketError::ArithmeticOverflow);
        }
        let full = match order.side {
            Side::Bid => self.bids.len() >= self.bids.capacity(),
            Side::Ask => self.asks.len() >= self.asks.capacity(),
        };
        if full {
            return Err(MarketError::CapacityExceeded);
        }
        let sequence: u64 = match order.side {
            Side::Bid => self.order_sequence_number + BID_SEQUENCE_BIT,
            Side::Ask => self.order_sequence_number,
        };
        let id = FIFOOrderId::new(price_in_ticks, sequence);
        let resting = FIFORestingOrder::new(
            trader,
            lots,
            last_valid_slot,
            last_valid_unix_timestamp_in_seconds,
        );
        proof {
            old(self)@.lemma_next_id_is_new(order.side, price_in_ticks);
            old(self)@.lemma_place_keeps_wf(
                trader,
                order.side,
                price_in_ticks,
                lots,
                last_valid_slot,
                last_valid_unix_timestamp_in_seconds,
            );
        }
        match order.side {
            Side::Bid => self.bids.insert_issued(id, resting),
            Side::Ask => self.asks.insert_issued(id, resting),
        }
        self.traders.replace(trader, moved);
        self.order_sequence_number = self.order_sequence_number + 1;
        Ok((Some(id), MatchingEngineResponse::posted(lots)))
    }

    /// Releases lots of a resting order: they move from the owner's locked
    /// base lots to the free ones, and the order shrinks by them, or leaves
    /// the book where none are left.
    fn release_lots(&mut self, id: &FIFOOrderId, lots: BaseLots) -> (outcome: Result<
        (),
        MarketError,
    >)
        requires
            old(self).inv(),
        ensures
            final(self).inv(),
            outcome == old(self)@.release_outcome(*id, lots),
            outcome.is_ok() ==> final(self)@ == old(self)@.after_release(*id, lots),
            outcome.is_err() ==> final(self)@ == old(self)@,
    {
        let side = Side::from_order_sequence_number(id.order_sequence_number);
        let found = match side {
            Side::Bid => self.bids.get(id),
            Side::Ask => self.asks.get(id),
        };
        let order = match found {
            Some(order) => order,
            None => {
                return Err(MarketError::OrderNotFound);
            },
        };
        if lots.inner > order.num_base_lots.inner {
            return Err(MarketError::ArithmeticUnderflow);
        }
        proof {
            old(self)@.lemma_order_is_locked(*id);
        }
        let ledger = match self.traders.get(order.trader_index) {
            Some(ledger) => ledger,
            None => {
                return Err(MarketError::TraderNotFound);
            },
        };
        let moved = match ledger.unlock_base_lots(lots) {
            Some(moved) => moved,
            None => {
                return Err(MarketError::ArithmeticOverflow);
            },
        };
        proof {
            old(self)@.lemma_release_keeps_wf(*id, lots);
        }
        if lots.inner == order.num_base_lots.inner {
            match side {
                Side::Bid => self.bids.remove(id),
                Side::Ask => self.asks.remove(id),
            };
        } else {
            let left = FIFORestingOrder::new(
                order.trader_index,
                BaseLots { inner: order.num_base_lots.inner - lots.inner },
                order.last_valid_slot,
                order.last_valid_unix_timestamp_in_seconds,
            );
            match side {
                Side::Bid => self.bids.replace(id, left),
                Side::Ask => self.asks.replace(id, left),
            }
        }
        self.traders.replace(order.trader_index, moved);
        Ok(())
    }

    /// Fills lots of a resting order: the order shrinks by them, or leaves
    /// the book where none are left, and the lots move from the owner's
    /// locked base lots to the free ones. Fails, and changes nothing, where
    /// the order is not in the book (`OrderNotFound`), has fewer lots left
    /// (`ArithmeticUnderflow`), or the owner's free lots would exceed 64 bits
    /// (`ArithmeticOverflow`).
    pub fn fill_order(&mut self, id: &FIFOOrderId, lots: BaseLots) -> (outcome: Result<
        MatchingEngineResponse,
        MarketError,
    >)
        requires
            old(self).inv(),
        ensures
            final(self).inv(),
            match outcome {
                Ok(response) => {
                    &&& old(self)@.release_outcome(*id, lots).is_ok()
                    &&& final(self)@ == old(self)@.after_release(*id, lots)
                    &&& response == (MatchingEngineResponse {
                        num_base_lots_matched: lots,
                        ..MatchingEngineResponse::empty()
                    })
                    &&& response.accounts_for(lots)
                },
                Err(error) => {
                    &&& old(self)@.release_outcome(*id, lots) == Err::<(), MarketError>(error)
                    &&& final(self)@ == old(self)@
                },
            },
    {
        match self.release_lots(id, lots) {
            Ok(()) => Ok(MatchingEngineResponse::matched(lots)),
            Err(error) => Err(error),
        }
    }

    /// Cancels a resting order: the order leaves the book, and what was left
    /// of it moves from the owner's locked base lots to the free ones. Fails,
    /// and changes nothing, where the order is not in the book
    /// (`OrderNotFound`) or the owner's free lots would exceed 64 bits
    /// (`ArithmeticOverflow`).
    pub fn cancel_order(&mut self, id: &FIFOOrderId) -> (outcome: Result<
        MatchingEngineResponse,
        MarketError,
    >)
        requires
            old(self).inv(),
        ensures
            final(self).inv(),
            match outcome {
                Ok(response) => {
                    &&& old(self)@.cancel_outcome(*id).is_ok()
                    &&& final(self)@ == old(self)@.after_cancel(*id)
                    &&& !final(self)@.book(id.side()).dom().contains(*id)
                    &&& response == (MatchingEngineResponse {
                        num_base_lots_to_release: old(self)@.book(id.side())[*id].num_base_lots,
                        ..MatchingEngineResponse::empty()
                    })
                    &&& response.accounts_for(old(self)@.book(id.side())[*id].num_base_lots)
                },
                Err(error) => {
                    &&& old(self)@.cancel_outcome(*id) == Err::<(), MarketError>(error)
                    &&& final(self)@ == old(self)@
                },
            },
    {
        let found = match Side::from_order_sequence_number(id.order_sequence_number) {
            Side::Bid => self.bids.get(id),
            Side::Ask => self.asks.get(id),
        };
        let order = match found {
            Some(order) => order,
            None => {
                return Err(MarketError::OrderNotFound);
            },
        };
        match self.release_lots(id, order.num_base_lots) {
            Ok(()) => Ok(MatchingEngineResponse::released(order.num_base_lots)),
            Err(error) => Err(error),
        }
    }

    /// Takes a resting order out of the book if it has expired at the given
    /// slot and time, as a cancellation would, and reports what was
    /// released; an order that has not expired stays, with `None` for the
    /// report.
    pub fn expire_order(&mut self, id: &FIFOOrderId, current_slot: u64, current_timestamp: u64) -> (outcome:
        Result<Option<MatchingEngineResponse>, MarketError>)
        requires
            old(self).inv(),
        ensures
            final(self).inv(),
            match outcome {
                Ok(Some(response)) => {
                    &&& old(self)@.cancel_outcome(*id).is_ok()
                    &&& old(self)@.book(id.side())[*id].spec_is_expired(
                        current_slot,
                        current_timestamp,
                    )
                    &&& final(self)@ == old(self)@.after_cancel(*id)
                    &&& response == (MatchingEngineResponse {
                        num_base_lots_to_release: old(self)@.book(id.side())[*id].num_base_lots,
                        ..MatchingEngineResponse::empty()
                    })
                },
                Ok(None) => {
                    &&& old(self)@.book(id.side()).dom().contains(*id)
                    &&& !old(self)@.book(id.side())[*id].spec_is_expired(
                        current_slot,
                        current_timestamp,
                    )
                    &&& final(self)@ == old(self)@
                },
                Err(error) => {
                    &&& old(self)@.cancel_outcome(*id) == Err::<(), MarketError>(error)
                    &&& old(self)@.book(id.side()).dom().contains(*id) ==> old(self)@.book(
                        id.side(),
                    )[*id].spec_is_expired(current_slot, current_timestamp)
                    &&& final(self)@ == old(self)@
                },
            },
    {
        let found = match Side::from_order_sequence_number(id.order_sequence_number) {
            Side::Bid => self.bids.get(id),
            Side::Ask => self.asks.get(id),
        };
        let order = match found {
            Some(order) => order,
            None => {
                return Err(MarketError::OrderNotFound);
            },
        };
        if !order.is_expired(current_slot, current_timestamp) {
            return Ok(None);
        }
        match self.cancel_order(id) {
            Ok(response) => Ok(Some(response)),
            Err(error) => Err(error),
        }
    }

    /// The order of a side that trades first, with its identity; `None` of
    /// an empty side. The market stays as it was.
    pub fn best_order(&mut self, side: Side) -> (best: Option<(FIFOOrderId, FIFORestingOrder)>)
        requires
            old(self).inv(),
        ensures
            final(self).inv(),
            final(self)@ == old(self)@,
            best.is_none() <==> old(self)@.book(side).dom().len() == 0,
            best.is_some() ==> trades_first(old(self)@.book(side), best.unwrap().0) && old(
                self,
            )@.book(side)[best.unwrap().0] == best.unwrap().1,
    {
        match side {
            Side::Bid => self.bids.best(),
            Side::Ask => self.asks.best(),
        }
    }

    /// The orders of a side with their identities, from the first to trade
    /// to the last.
    pub fn orders_in_priority(&self, side: Side) -> (orders: Vec<(FIFOOrderId, FIFORestingOrder)>)
        requires
            self.inv(),
        ensures
            in_priority(self@.book(side), orders@),
    {
        match side {
            Side::Bid => self.bids.orders(),
            Side::Ask => self.asks.orders(),
        }
    }
}

} // verus!
