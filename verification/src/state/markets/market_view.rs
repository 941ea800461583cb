//! A market as a mathematical value, and what each operation makes of it.
//!
//! The rules of the book are stated and proved here, on maps. The market in
//! memory is proved to follow them.

use vstd::prelude::*;
use crate::quantities::BaseLots;
use crate::quantities::BaseLotsPerBaseUnit;
use crate::quantities::QuoteLots;
use crate::quantities::QuoteLotsPerBaseUnitPerTick;
use crate::quantities::Ticks;
use crate::state::enums::Side;
use crate::state::enums::BID_SEQUENCE_BIT;
use crate::state::error::MarketError;
use crate::state::markets::book::holds_sequence_number;
use crate::state::markets::book::sequence_numbers_are_unique;
use crate::state::markets::exposure::exposure;
use crate::state::markets::exposure::lemma_exposure_insert;
use crate::state::markets::exposure::lemma_exposure_of_stranger;
use crate::state::markets::exposure::lemma_exposure_remove;
use crate::state::markets::exposure::lots_held;
use crate::state::markets::fifo::FIFOOrderId;
use crate::state::markets::fifo::FIFORestingOrder;
use crate::state::trader_state::TraderState;

verus! {

/// The place of an identity in the order of arrival: its sequence number
/// without the bit that tells the side.
pub open spec fn arrival(id: FIFOOrderId) -> int {
    if id.order_sequence_number >= BID_SEQUENCE_BIT {
        id.order_sequence_number - BID_SEQUENCE_BIT
    } else {
        id.order_sequence_number as int
    }
}

/// What holds of the orders of one side of a market that has issued `issued`
/// sequence numbers: each order is of that side, carries a sequence number
/// that was issued, has lots left and an owner in the table of traders; and no
/// sequence number is carried by two orders.
pub open spec fn side_wf(
    orders: Map<FIFOOrderId, FIFORestingOrder>,
    side: Side,
    issued: u64,
    traders: Map<u64, TraderState>,
) -> bool {
    &&& orders.dom().finite()
    &&& forall|id: FIFOOrderId| #[trigger]
        orders.dom().contains(id) ==> {
            &&& id.side() == side
            &&& arrival(id) < issued
            &&& orders[id].num_base_lots@ > 0
            &&& traders.dom().contains(orders[id].trader_index)
        }
    &&& sequence_numbers_are_unique(orders)
}

/// A market as a value: its settings, its counter of sequence numbers, its
/// fees, both sides of its book and the ledgers of its traders.
pub struct MarketView {
    pub base_lots_per_base_unit: BaseLotsPerBaseUnit,
    pub tick_size_in_quote_lots_per_base_unit: QuoteLotsPerBaseUnitPerTick,
    pub order_sequence_number: u64,
    pub taker_fee_bps: u64,
    pub collected_quote_lot_fees: QuoteLots,
    pub unclaimed_quote_lot_fees: QuoteLots,
    pub bids: Map<FIFOOrderId, FIFORestingOrder>,
    pub asks: Map<FIFOOrderId, FIFORestingOrder>,
    pub traders: Map<u64, TraderState>,
    pub bids_capacity: nat,
    pub asks_capacity: nat,
    pub traders_capacity: nat,
}

impl MarketView {
    /// The orders of one side.
    pub open spec fn book(self, side: Side) -> Map<FIFOOrderId, FIFORestingOrder> {
        match side {
            Side::Bid => self.bids,
            Side::Ask => self.asks,
        }
    }

    /// The number of orders one side has room for.
    pub open spec fn book_capacity(self, side: Side) -> nat {
        match side {
            Side::Bid => self.bids_capacity,
            Side::Ask => self.asks_capacity,
        }
    }

    /// The market with new orders on one side.
    pub open spec fn with_book(self, side: Side, orders: Map<FIFOOrderId, FIFORestingOrder>) -> MarketView {
        match side {
            Side::Bid => MarketView { bids: orders, ..self },
            Side::Ask => MarketView { asks: orders, ..self },
        }
    }

    /// The base lots that the resting orders of a trader hold, over both
    /// sides.
    pub open spec fn exposure_of(self, trader: u64) -> nat {
        exposure(self.bids, trader) + exposure(self.asks, trader)
    }

    /// Conservation: the locked base lots of every trader are the remaining
    /// sizes of the trader's resting orders, over both sides.
    pub open spec fn conserved(self) -> bool {
        forall|trader: u64| #[trigger]
            self.traders.dom().contains(trader) ==> self.traders[trader].base_lots_locked@
                == self.exposure_of(trader)
    }

    /// What holds of every market.
    pub open spec fn wf(self) -> bool {
        &&& self.order_sequence_number <= BID_SEQUENCE_BIT
        &&& side_wf(self.bids, Side::Bid, self.order_sequence_number, self.traders)
        &&& side_wf(self.asks, Side::Ask, self.order_sequence_number, self.traders)
        &&& self.bids.dom().len() <= self.bids_capacity
        &&& self.asks.dom().len() <= self.asks_capacity
        &&& self.traders.dom().finite()
        &&& self.traders.dom().len() <= self.traders_capacity
        &&& self.conserved()
    }

    /// The sequence number that the next order of a side gets: the counter,
    /// with the top bit set for a bid.
    pub open spec fn next_sequence_number(self, side: Side) -> u64 {
        match side {
            Side::Bid => (self.order_sequence_number + BID_SEQUENCE_BIT) as u64,
            Side::Ask => self.order_sequence_number,
        }
    }

    /// The identity that the next order of a side gets at a price.
    pub open spec fn next_id(self, side: Side, price_in_ticks: Ticks) -> FIFOOrderId {
        FIFOOrderId { price_in_ticks, order_sequence_number: self.next_sequence_number(side) }
    }

    /// What registering a trader answers.
    pub open spec fn register_outcome(self, trader: u64) -> Result<(), MarketError> {
        if self.traders.dom().contains(trader) || self.traders.dom().len() < self.traders_capacity {
            Ok(())
        } else {
            Err(MarketError::CapacityExceeded)
        }
    }

    /// The market after a trader has been registered: a new trader has an
    /// empty ledger, a known trader keeps the ledger.
    pub open spec fn after_register(self, trader: u64) -> MarketView {
        if self.traders.dom().contains(trader) {
            self
        } else {
            MarketView { traders: self.traders.insert(trader, TraderState::empty()), ..self }
        }
    }

    /// What a deposit answers.
    pub open spec fn deposit_outcome(self, trader: u64, quote_lots: QuoteLots, base_lots: BaseLots) -> Result<
        (),
        MarketError,
    > {
        if !self.traders.dom().contains(trader) {
            Err(MarketError::TraderNotFound)
        } else if self.traders[trader].quote_lots_free@ + quote_lots@ > u64::MAX
            || self.traders[trader].base_lots_free@ + base_lots@ > u64::MAX {
            Err(MarketError::ArithmeticOverflow)
        } else {
            Ok(())
        }
    }

    /// The market after a deposit.
    pub open spec fn after_deposit(self, trader: u64, quote_lots: QuoteLots, base_lots: BaseLots) -> MarketView {
        MarketView {
            traders: self.traders.insert(
                trader,
                self.traders[trader].with_deposit(quote_lots, base_lots),
            ),
            ..self
        }
    }

    /// What a withdrawal answers.
    pub open spec fn withdraw_outcome(self, trader: u64, quote_lots: QuoteLots, base_lots: BaseLots) -> Result<
        (),
        MarketError,
    > {
        if !self.traders.dom().contains(trader) {
            Err(MarketError::TraderNotFound)
        } else if quote_lots@ > self.traders[trader].quote_lots_free@ || base_lots@
            > self.traders[trader].base_lots_free@ {
            Err(MarketError::ArithmeticUnderflow)
        } else {
            Ok(())
        }
    }

    /// The market after a withdrawal.
    pub open spec fn after_withdraw(self, trader: u64, quote_lots: QuoteLots, base_lots: BaseLots) -> MarketView {
        MarketView {
            traders: self.traders.insert(
                trader,
                self.traders[trader].with_withdrawal(quote_lots, base_lots),
            ),
            ..self
        }
    }

    /// What placing an order answers: the identity under which the order is
    /// posted, `None` for an order of no lots, which posts nothing, or the
    /// reason why the order cannot be posted. The reasons are tried in the
    /// order in which they stand here.
    pub open spec fn place_outcome(self, trader: u64, side: Side, price_in_ticks: Ticks, lots: BaseLots) -> Result<
        Option<FIFOOrderId>,
        MarketError,
    > {
        if lots@ == 0 {
            Ok(None)
        } else if !self.traders.dom().contains(trader) {
            Err(MarketError::TraderNotFound)
        } else if lots@ > self.traders[trader].base_lots_free@ {
            Err(MarketError::ArithmeticUnderflow)
        } else if self.traders[trader].base_lots_locked@ + lots@ > u64::MAX {
            Err(MarketError::ArithmeticOverflow)
        } else if self.order_sequence_number >= BID_SEQUENCE_BIT {
            Err(MarketError::ArithmeticOverflow)
        } else if self.book(side).dom().len() >= self.book_capacity(side) {
            Err(MarketError::CapacityExceeded)
        } else {
            Ok(Some(self.next_id(side, price_in_ticks)))
        }
    }

    /// The market after an order has been posted: the order rests on its
    /// side under the next identity, its lots have moved from the owner's
    /// free base lots to the locked ones, and the counter has advanced.
    pub open spec fn after_place(
        self,
        trader: u64,
        side: Side,
        price_in_ticks: Ticks,
        lots: BaseLots,
        last_valid_slot: u64,
        last_valid_unix_timestamp_in_seconds: u64,
    ) -> MarketView {
        let order = FIFORestingOrder {
            trader_index: trader,
            num_base_lots: lots,
            last_valid_slot,
            last_valid_unix_timestamp_in_seconds,
        };
        MarketView {
            order_sequence_number: (self.order_sequence_number + 1) as u64,
            traders: self.traders.insert(trader, self.traders[trader].with_base_lots_locked(lots)),
            ..self.with_book(side, self.book(side).insert(self.next_id(side, price_in_ticks), order))
        }
    }

    /// What releasing lots of a resting order answers, be it by a fill or by
    /// taking the order out of the book.
    pub open spec fn release_outcome(self, id: FIFOOrderId, lots: BaseLots) -> Result<(), MarketError> {
        let orders = self.book(id.side());
        if !orders.dom().contains(id) {
            Err(MarketError::OrderNotFound)
        } else if lots@ > orders[id].num_base_lots@ {
            Err(MarketError::ArithmeticUnderflow)
        } else if self.traders[orders[id].trader_index].base_lots_free@ + lots@ > u64::MAX {
            Err(MarketError::ArithmeticOverflow)
        } else {
            Ok(())
        }
    }

    /// The market after lots of a resting order have been released: they
    /// have moved from the owner's locked base lots to the free ones, and the
    /// order has shrunk by them, or left the book where none are left of it.
    pub open spec fn after_release(self, id: FIFOOrderId, lots: BaseLots) -> MarketView {
        let orders = self.book(id.side());
        let order = orders[id];
        let left = FIFORestingOrder {
            num_base_lots: BaseLots { inner: (order.num_base_lots@ - lots@) as u64 },
            ..order
        };
        MarketView {
            traders: self.traders.insert(
                order.trader_index,
                self.traders[order.trader_index].with_base_lots_unlocked(lots),
            ),
            ..self.with_book(
                id.side(),
                if lots@ == order.num_base_lots@ {
                    orders.remove(id)
                } else {
                    orders.insert(id, left)
                },
            )
        }
    }

    /// What a cancellation answers.
    pub open spec fn cancel_outcome(self, id: FIFOOrderId) -> Result<(), MarketError> {
        if !self.book(id.side()).dom().contains(id) {
            Err(MarketError::OrderNotFound)
        } else {
            self.release_outcome(id, self.book(id.side())[id].num_base_lots)
        }
    }

    /// The market after a cancellation: the order has left the book and all
    /// that was left of it is free again.
    pub open spec fn after_cancel(self, id: FIFOOrderId) -> MarketView {
        self.after_release(id, self.book(id.side())[id].num_base_lots)
    }

    /// A market without traders and orders is well formed.
    pub proof fn lemma_empty_is_wf(self)
        requires
            self.bids == Map::<FIFOOrderId, FIFORestingOrder>::empty(),
            self.asks == Map::<FIFOOrderId, FIFORestingOrder>::empty(),
            self.traders == Map::<u64, TraderState>::empty(),
            self.order_sequence_number == 0,
        ensures
            self.wf(),
    {
    }

    /// Registering a trader keeps the market well formed.
    pub proof fn lemma_register_keeps_wf(self, trader: u64)
        requires
            self.wf(),
            self.register_outcome(trader).is_ok(),
        ensures
            self.after_register(trader).wf(),
    {
        if !self.traders.dom().contains(trader) {
            lemma_exposure_of_stranger(self.bids, trader);
            lemma_exposure_of_stranger(self.asks, trader);
        }
    }

    /// A deposit keeps the market well formed.
    pub proof fn lemma_deposit_keeps_wf(self, trader: u64, quote_lots: QuoteLots, base_lots: BaseLots)
        requires
            self.wf(),
            self.deposit_outcome(trader, quote_lots, base_lots).is_ok(),
        ensures
            self.after_deposit(trader, quote_lots, base_lots).wf(),
    {
    }

    /// A withdrawal keeps the market well formed.
    pub proof fn lemma_withdraw_keeps_wf(self, trader: u64, quote_lots: QuoteLots, base_lots: BaseLots)
        requires
            self.wf(),
            self.withdraw_outcome(trader, quote_lots, base_lots).is_ok(),
        ensures
            self.after_withdraw(trader, quote_lots, base_lots).wf(),
    {
    }

    /// The identity that the next order gets is in neither side of the book.
    pub proof fn lemma_next_id_is_new(self, side: Side, price_in_ticks: Ticks)
        requires
            self.wf(),
            self.order_sequence_number < BID_SEQUENCE_BIT,
        ensures
            self.next_id(side, price_in_ticks).side() == side,
            arrival(self.next_id(side, price_in_ticks)) == self.order_sequence_number,
            !holds_sequence_number(self.bids, self.next_sequence_number(side)),
            !holds_sequence_number(self.asks, self.next_sequence_number(side)),
    {
    }

    /// Posting an order keeps the market well formed.
    pub proof fn lemma_place_keeps_wf(
        self,
        trader: u64,
        side: Side,
        price_in_ticks: Ticks,
        lots: BaseLots,
        last_valid_slot: u64,
        last_valid_unix_timestamp_in_seconds: u64,
    )
        requires
            self.wf(),
            self.place_outcome(trader, side, price_in_ticks, lots) matches Ok(Some(_)),
        ensures
            self.after_place(
                trader,
                side,
                price_in_ticks,
                lots,
                last_valid_slot,
                last_valid_unix_timestamp_in_seconds,
            ).wf(),
    {
        let after = self.after_place(
            trader,
            side,
            price_in_ticks,
            lots,
            last_valid_slot,
            last_valid_unix_timestamp_in_seconds,
        );
        let id = self.next_id(side, price_in_ticks);
        let order = after.book(side)[id];
        self.lemma_next_id_is_new(side, price_in_ticks);
        assert forall|other: u64| #[trigger] after.traders.dom().contains(other) implies after.traders[other].base_lots_locked@
            == after.exposure_of(other) by {
            lemma_exposure_insert(self.book(side), id, order, other);
        }
    }

    /// What is left of a resting order is locked in the ledger of a trader
    /// of the market.
    pub proof fn lemma_order_is_locked(self, id: FIFOOrderId)
        requires
            self.wf(),
            self.book(id.side()).dom().contains(id),
        ensures
            self.traders.dom().contains(self.book(id.side())[id].trader_index),
            self.book(id.side())[id].num_base_lots@
                <= self.traders[self.book(id.side())[id].trader_index].base_lots_locked@,
            self.book(id.side())[id].num_base_lots@ > 0,
    {
        lemma_exposure_remove(self.book(id.side()), id, self.book(id.side())[id].trader_index);
    }

    /// Releasing lots of a resting order keeps the market well formed.
    pub proof fn lemma_release_keeps_wf(self, id: FIFOOrderId, lots: BaseLots)
        requires
            self.wf(),
            self.release_outcome(id, lots).is_ok(),
        ensures
            self.traders.dom().contains(self.book(id.side())[id].trader_index),
            lots@ <= self.traders[self.book(id.side())[id].trader_index].base_lots_locked@,
            self.after_release(id, lots).wf(),
    {
        let after = self.after_release(id, lots);
        let orders = self.book(id.side());
        let order = orders[id];
        let owner = order.trader_index;
        lemma_exposure_remove(orders, id, owner);
        assert forall|other: u64| #[trigger] after.traders.dom().contains(other) implies after.traders[other].base_lots_locked@
            == after.exposure_of(other) by {
            lemma_exposure_remove(orders, id, other);
            if lots@ != order.num_base_lots@ {
                lemma_exposure_insert(orders, id, after.book(id.side())[id], other);
            }
        }
    }

    /// Posting an order and then cancelling it gives every trader the ledger
    /// back that the trader had, and leaves both sides of the book as they
    /// were. Only the counter has moved on.
    pub proof fn lemma_place_then_cancel(
        self,
        trader: u64,
        side: Side,
        price_in_ticks: Ticks,
        lots: BaseLots,
        last_valid_slot: u64,
        last_valid_unix_timestamp_in_seconds: u64,
    )
        requires
            self.wf(),
            self.place_outcome(trader, side, price_in_ticks, lots) matches Ok(Some(_)),
        ensures
            ({
                let placed = self.after_place(
                    trader,
                    side,
                    price_in_ticks,
                    lots,
                    last_valid_slot,
                    last_valid_unix_timestamp_in_seconds,
                );
                let id = self.next_id(side, price_in_ticks);
                &&& placed.cancel_outcome(id).is_ok()
                &&& placed.after_cancel(id) == MarketView {
                    order_sequence_number: placed.order_sequence_number,
                    ..self
                }
            }),
    {
        let placed = self.after_place(
            trader,
            side,
            price_in_ticks,
            lots,
            last_valid_slot,
            last_valid_unix_timestamp_in_seconds,
        );
        let id = self.next_id(side, price_in_ticks);
        self.lemma_next_id_is_new(side, price_in_ticks);
        let again = placed.after_cancel(id);
        assert(again.traders =~= self.traders);
        assert(again.book(side) =~= self.book(side));
    }

    /// Posting an order and then filling a part of it leaves the rest of
    /// it locked: the owner's locked base lots, and the owner's exposure,
    /// have grown by what is left of the order, and the filled lots are free
    /// again.
    pub proof fn lemma_place_then_fill(
        self,
        trader: u64,
        side: Side,
        price_in_ticks: Ticks,
        lots: BaseLots,
        last_valid_slot: u64,
        last_valid_unix_timestamp_in_seconds: u64,
        filled: BaseLots,
    )
        requires
            self.wf(),
            self.place_outcome(trader, side, price_in_ticks, lots) matches Ok(Some(_)),
            filled@ <= lots@,
        ensures
            ({
                let placed = self.after_place(
                    trader,
                    side,
                    price_in_ticks,
                    lots,
                    last_valid_slot,
                    last_valid_unix_timestamp_in_seconds,
                );
                let id = self.next_id(side, price_in_ticks);
                let after = placed.after_release(id, filled);
                &&& placed.release_outcome(id, filled).is_ok()
                &&& after.wf()
                &&& after.traders[trader].base_lots_locked@ == self.traders[trader].base_lots_locked@
                    + lots@ - filled@
                &&& after.traders[trader].base_lots_free@ == self.traders[trader].base_lots_free@
                    - lots@ + filled@
                &&& after.exposure_of(trader) == self.exposure_of(trader) + lots@ - filled@
            }),
    {
        let placed = self.after_place(
            trader,
            side,
            price_in_ticks,
            lots,
            last_valid_slot,
            last_valid_unix_timestamp_in_seconds,
        );
        let id = self.next_id(side, price_in_ticks);
        self.lemma_next_id_is_new(side, price_in_ticks);
        self.lemma_place_keeps_wf(
            trader,
            side,
            price_in_ticks,
            lots,
            last_valid_slot,
            last_valid_unix_timestamp_in_seconds,
        );
        placed.lemma_release_keeps_wf(id, filled);
        let after = placed.after_release(id, filled);
        assert(after.traders.dom().contains(trader));
    }

    /// Posting an order moves base lots from the free to the locked balance
    /// of its owner and nowhere else: the sum of the two stays what it was,
    /// for every trader.
    pub proof fn lemma_place_keeps_totals(
        self,
        trader: u64,
        side: Side,
        price_in_ticks: Ticks,
        lots: BaseLots,
        last_valid_slot: u64,
        last_valid_unix_timestamp_in_seconds: u64,
        other: u64,
    )
        requires
            self.wf(),
            self.place_outcome(trader, side, price_in_ticks, lots) matches Ok(Some(_)),
            self.traders.dom().contains(other),
        ensures
            self.after_place(
                trader,
                side,
                price_in_ticks,
                lots,
                last_valid_slot,
                last_valid_unix_timestamp_in_seconds,
            ).traders[other].base_lots_total() == self.traders[other].base_lots_total(),
            self.after_place(
                trader,
                side,
                price_in_ticks,
                lots,
                last_valid_slot,
                last_valid_unix_timestamp_in_seconds,
            ).traders[other].quote_lots_total() == self.traders[other].quote_lots_total(),
    {
    }

    /// A fill or a cancellation moves base lots from the locked to the free
    /// balance of the owner and nowhere else: the sum of the two stays what
    /// it was, for every trader.
    pub proof fn lemma_release_keeps_totals(self, id: FIFOOrderId, lots: BaseLots, other: u64)
        requires
            self.wf(),
            self.release_outcome(id, lots).is_ok(),
            self.traders.dom().contains(other),
        ensures
            self.after_release(id, lots).traders[other].base_lots_total()
                == self.traders[other].base_lots_total(),
            self.after_release(id, lots).traders[other].quote_lots_total()
                == self.traders[other].quote_lots_total(),
    {
        self.lemma_release_keeps_wf(id, lots);
    }
}

} // verus!
