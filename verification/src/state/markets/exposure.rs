//! The exposure of a trader: the base lots that the trader's resting orders
//! still hold. A market keeps the locked base lots of every trader equal to
//! the trader's exposure over both sides of the book.

use vstd::prelude::*;
use crate::state::markets::fifo::FIFOOrderId;
use crate::state::markets::fifo::FIFORestingOrder;

verus! {

/// The base lots that one order holds for a trader: its remaining size where
/// the trader owns it, nothing otherwise.
pub open spec fn lots_held(order: FIFORestingOrder, trader: u64) -> nat {
    if order.trader_index == trader {
        order.num_base_lots@ as nat
    } else {
        0
    }
}

/// The sum of the remaining sizes of the orders that a trader owns among the
/// given orders.
pub open spec fn exposure(orders: Map<FIFOOrderId, FIFORestingOrder>, trader: u64) -> nat
    decreases orders.dom().len(),
    when orders.dom().finite()
{
    if orders.dom().len() == 0 {
        0
    } else {
        let id = orders.dom().choose();
        lots_held(orders[id], trader) + exposure(orders.remove(id), trader)
    }
}

/// No orders, no exposure.
pub proof fn lemma_exposure_of_none(trader: u64)
    ensures
        exposure(Map::<FIFOOrderId, FIFORestingOrder>::empty(), trader) == 0,
{
}

/// The exposure is what any one order holds plus the exposure over the rest.
pub proof fn lemma_exposure_split(
    orders: Map<FIFOOrderId, FIFORestingOrder>,
    id: FIFOOrderId,
    trader: u64,
)
    requires
        orders.dom().finite(),
        orders.dom().contains(id),
    ensures
        exposure(orders, trader) == lots_held(orders[id], trader) + exposure(
            orders.remove(id),
            trader,
        ),
    decreases orders.dom().len(),
{
    let first = orders.dom().choose();
    if first != id {
        lemma_exposure_split(orders.remove(first), id, trader);
        lemma_exposure_split(orders.remove(id), first, trader);
        assert(orders.remove(first).remove(id) =~= orders.remove(id).remove(first));
    }
}

/// A new order adds what it holds; a new record for an order replaces what
/// the order held.
pub proof fn lemma_exposure_insert(
    orders: Map<FIFOOrderId, FIFORestingOrder>,
    id: FIFOOrderId,
    order: FIFORestingOrder,
    trader: u64,
)
    requires
        orders.dom().finite(),
    ensures
        exposure(orders.insert(id, order), trader) == exposure(orders.remove(id), trader)
            + lots_held(order, trader),
        !orders.dom().contains(id) ==> exposure(orders.insert(id, order), trader) == exposure(
            orders,
            trader,
        ) + lots_held(order, trader),
        orders.dom().contains(id) ==> exposure(orders.insert(id, order), trader) + lots_held(
            orders[id],
            trader,
        ) == exposure(orders, trader) + lots_held(order, trader),
{
    lemma_exposure_split(orders.insert(id, order), id, trader);
    assert(orders.insert(id, order).remove(id) =~= orders.remove(id));
    if orders.dom().contains(id) {
        lemma_exposure_split(orders, id, trader);
    } else {
        assert(orders.remove(id) =~= orders);
    }
}

/// An order that leaves takes what it held with it.
pub proof fn lemma_exposure_remove(
    orders: Map<FIFOOrderId, FIFORestingOrder>,
    id: FIFOOrderId,
    trader: u64,
)
    requires
        orders.dom().finite(),
        orders.dom().contains(id),
    ensures
        exposure(orders.remove(id), trader) + lots_held(orders[id], trader) == exposure(
            orders,
            trader,
        ),
{
    lemma_exposure_split(orders, id, trader);
}

/// A trader who owns none of the orders has no exposure.
pub proof fn lemma_exposure_of_stranger(orders: Map<FIFOOrderId, FIFORestingOrder>, trader: u64)
    requires
        orders.dom().finite(),
        forall|id: FIFOOrderId| #[trigger]
            orders.dom().contains(id) ==> orders[id].trader_index != trader,
    ensures
        exposure(orders, trader) == 0,
    decreases orders.dom().len(),
{
    if orders.dom().len() != 0 {
        let first = orders.dom().choose();
        lemma_exposure_of_stranger(orders.remove(first), trader);
    }
}

} // verus!
