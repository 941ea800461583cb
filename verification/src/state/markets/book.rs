//! One side of the book: the resting orders of one side under their
//! identities, kept in priority order.
//!
//! The index beneath orders its keys as integers. An identity is therefore
//! stored under a 128-bit key whose integer order is the priority order of
//! its side: the upper half ranks the price, the lower half is the sequence
//! number.

use vstd::prelude::*;
use crate::quantities::BaseLots;
use crate::quantities::Ticks;
use crate::state::enums::Side;
use crate::state::enums::BID_SEQUENCE_BIT;
use crate::state::error::MarketError;
use crate::state::markets::fifo::FIFOOrderId;
use crate::state::markets::fifo::FIFORestingOrder;
use crate::state::markets::ordered_index::index_capacity;
use crate::state::markets::ordered_index::index_entries;
use crate::state::markets::ordered_index::index_get;
use crate::state::markets::ordered_index::index_insert;
use crate::state::markets::ordered_index::index_items;
use crate::state::markets::ordered_index::index_len;
use crate::state::markets::ordered_index::index_limit;
use crate::state::markets::ordered_index::index_min;
use crate::state::markets::ordered_index::index_new;
use crate::state::markets::ordered_index::index_remove;
use crate::state::markets::ordered_index::OrderedIndex;
use crate::state::markets::ordered_index::MAX_INDEX_CAPACITY;

verus! {

/// Two to the power 64: the weight of the upper half of a key.
pub const KEY_HALF: u128 = 0x1_0000_0000_0000_0000;

/// The rank of an identity's price on its side: lower for the better price.
/// An ask ranks by its price, a bid by the distance of its price from the
/// highest price there is.
pub open spec fn price_rank(id: FIFOOrderId) -> u64 {
    match id.side() {
        Side::Ask => id.price_in_ticks@,
        Side::Bid => (u64::MAX - id.price_in_ticks@) as u64,
    }
}

/// The key under which an identity is stored: its price rank in the upper
/// half, its sequence number in the lower half.
pub open spec fn key_of(id: FIFOOrderId) -> u128 {
    (price_rank(id) * KEY_HALF + id.order_sequence_number) as u128
}

/// The identity that is stored under a key.
pub open spec fn id_of(key: u128) -> FIFOOrderId {
    let sequence = (key % KEY_HALF) as u64;
    let rank = (key / KEY_HALF) as u64;
    FIFOOrderId {
        price_in_ticks: Ticks {
            inner: if sequence >= BID_SEQUENCE_BIT {
                (u64::MAX - rank) as u64
            } else {
                rank
            },
        },
        order_sequence_number: sequence,
    }
}

/// The record under which an order is stored.
pub open spec fn words_of(order: FIFORestingOrder) -> (u64, u64, u64, u64) {
    (
        order.trader_index,
        order.num_base_lots@,
        order.last_valid_slot,
        order.last_valid_unix_timestamp_in_seconds,
    )
}

/// The order that is stored as a record.
pub open spec fn order_of(words: (u64, u64, u64, u64)) -> FIFORestingOrder {
    FIFORestingOrder {
        trader_index: words.0,
        num_base_lots: BaseLots { inner: words.1 },
        last_valid_slot: words.2,
        last_valid_unix_timestamp_in_seconds: words.3,
    }
}

/// Keys and identities stand for each other, one for one.
pub proof fn lemma_key_round_trip(id: FIFOOrderId, key: u128)
    ensures
        id_of(key_of(id)) == id,
        key_of(id_of(key)) == key,
{
}

/// Different identities are stored under different keys.
pub proof fn lemma_key_is_injective(a: FIFOOrderId, b: FIFOOrderId)
    ensures
        key_of(a) == key_of(b) <==> a == b,
{
    lemma_key_round_trip(a, 0);
    lemma_key_round_trip(b, 0);
}

/// On one side, the integer order of the keys is the priority order of the
/// identities: the lower key trades first.
pub proof fn lemma_key_order_is_priority(a: FIFOOrderId, b: FIFOOrderId)
    requires
        a.side() == b.side(),
    ensures
        key_of(a) < key_of(b) <==> a.ranks_before(&b),
{
}

/// Records and orders stand for each other, one for one.
pub proof fn lemma_words_round_trip(order: FIFORestingOrder, words: (u64, u64, u64, u64))
    ensures
        order_of(words_of(order)) == order,
        words_of(order_of(words)) == words,
{
}

/// The key of an identity.
pub fn encode_key(id: &FIFOOrderId) -> (key: u128)
    ensures
        key == key_of(*id),
{
    let rank: u64 = match Side::from_order_sequence_number(id.order_sequence_number) {
        Side::Ask => id.price_in_ticks.inner,
        Side::Bid => u64::MAX - id.price_in_ticks.inner,
    };
    (rank as u128) * KEY_HALF + (id.order_sequence_number as u128)
}

/// The identity of a key.
pub fn decode_key(key: u128) -> (id: FIFOOrderId)
    ensures
        id == id_of(key),
{
    let sequence: u64 = (key % KEY_HALF) as u64;
    let rank: u64 = (key / KEY_HALF) as u64;
    let ticks: u64 = match Side::from_order_sequence_number(sequence) {
        Side::Ask => rank,
        Side::Bid => u64::MAX - rank,
    };
    FIFOOrderId { price_in_ticks: Ticks { inner: ticks }, order_sequence_number: sequence }
}

/// The record of an order.
pub fn encode_order(order: &FIFORestingOrder) -> (words: (u64, u64, u64, u64))
    ensures
        words == words_of(*order),
{
    (
        order.trader_index,
        order.num_base_lots.inner,
        order.last_valid_slot,
        order.last_valid_unix_timestamp_in_seconds,
    )
}

/// The order of a record.
pub fn decode_order(words: (u64, u64, u64, u64)) -> (order: FIFORestingOrder)
    ensures
        order == order_of(words),
{
    FIFORestingOrder {
        trader_index: words.0,
        num_base_lots: BaseLots { inner: words.1 },
        last_valid_slot: words.2,
        last_valid_unix_timestamp_in_seconds: words.3,
    }
}

/// Whether one of the given orders carries the sequence number.
pub open spec fn holds_sequence_number(
    orders: Map<FIFOOrderId, FIFORestingOrder>,
    sequence: u64,
) -> bool {
    exists|id: FIFOOrderId| #[trigger] orders.dom().contains(id) && id.order_sequence_number == sequence
}

/// Whether no sequence number is carried by two of the given orders.
pub open spec fn sequence_numbers_are_unique(orders: Map<FIFOOrderId, FIFORestingOrder>) -> bool {
    forall|a: FIFOOrderId, b: FIFOOrderId|
        #![trigger orders.dom().contains(a), orders.dom().contains(b)]
        orders.dom().contains(a) && orders.dom().contains(b) && a.order_sequence_number
            == b.order_sequence_number ==> a == b
}

/// Whether an identity is among the given orders and trades before every
/// other of them.
pub open spec fn trades_first(orders: Map<FIFOOrderId, FIFORestingOrder>, id: FIFOOrderId) -> bool {
    &&& orders.dom().contains(id)
    &&& forall|other: FIFOOrderId| #[trigger]
        orders.dom().contains(other) && other != id ==> id.ranks_before(&other)
}

/// Whether a list holds the given orders from the first to trade to the
/// last: every order once, each before all that it trades before.
pub open spec fn in_priority(
    orders: Map<FIFOOrderId, FIFORestingOrder>,
    list: Seq<(FIFOOrderId, FIFORestingOrder)>,
) -> bool {
    &&& list.len() == orders.dom().len()
    &&& forall|i: int|
        0 <= i < list.len() ==> orders.dom().contains(#[trigger] list[i].0) && orders[list[i].0]
            == list[i].1
    &&& forall|i: int, j: int|
        0 <= i < j < list.len() ==> (#[trigger] list[i]).0.ranks_before(&(#[trigger] list[j]).0)
    &&& forall|id: FIFOOrderId|
        orders.dom().contains(id) ==> exists|i: int| 0 <= i < list.len() && #[trigger] list[i].0 == id
}

/// The first order of a list in priority trades before all others.
pub proof fn lemma_first_listed_trades_first(
    orders: Map<FIFOOrderId, FIFORestingOrder>,
    list: Seq<(FIFOOrderId, FIFORestingOrder)>,
)
    requires
        in_priority(orders, list),
        list.len() > 0,
    ensures
        trades_first(orders, list[0].0),
{
    assert forall|other: FIFOOrderId| #[trigger]
        orders.dom().contains(other) && other != list[0].0 implies list[0].0.ranks_before(&other) by {
        let i = choose|i: int| 0 <= i < list.len() && #[trigger] list[i].0 == other;
    }
}

/// One side of the book: the orders that rest on it, each under its
/// identity. Its view is the map from identities to orders.
pub struct Book {
    side: Side,
    index: OrderedIndex,
}

impl View for Book {
    type V = Map<FIFOOrderId, FIFORestingOrder>;

    closed spec fn view(&self) -> Map<FIFOOrderId, FIFORestingOrder> {
        Map::new(
            |id: FIFOOrderId| index_entries(self.index).dom().contains(key_of(id)),
            |id: FIFOOrderId| order_of(index_entries(self.index)[key_of(id)]),
        )
    }
}

impl Book {
    /// The side whose orders the book holds.
    pub closed spec fn spec_side(&self) -> Side {
        self.side
    }

    /// The number of orders the book has room for.
    pub closed spec fn spec_capacity(&self) -> nat {
        index_capacity(self.index)
    }

    /// What holds of every book: it holds no more orders than it has room
    /// for, every order in it is of the book's side, and no two orders in it
    /// carry one sequence number.
    pub closed spec fn inv(&self) -> bool {
        &&& index_entries(self.index).dom().finite()
        &&& 0 < index_capacity(self.index) <= MAX_INDEX_CAPACITY
        &&& index_entries(self.index).dom().len() <= index_capacity(self.index)
        &&& forall|key: u128| #[trigger]
            index_entries(self.index).dom().contains(key) ==> id_of(key).side() == self.side
        &&& self@.dom().finite()
        &&& self@.dom().len() == index_entries(self.index).dom().len()
        &&& sequence_numbers_are_unique(self@)
    }

    /// The consequences of `inv` for the view.
    pub proof fn lemma_inv(&self)
        requires
            self.inv(),
        ensures
            self@.dom().finite(),
            self@.dom().len() <= self.spec_capacity(),
            0 < self.spec_capacity() <= MAX_INDEX_CAPACITY,
            forall|id: FIFOOrderId| #[trigger]
                self@.dom().contains(id) ==> id.side() == self.spec_side(),
            sequence_numbers_are_unique(self@),
    {
        assert forall|id: FIFOOrderId| #[trigger] self@.dom().contains(id) implies id.side()
            == self.spec_side() by {
            lemma_key_round_trip(id, 0);
        }
    }

    /// An empty book of the given side with room for `MAX_SIZE` orders.
    pub fn with_capacity<const MAX_SIZE: usize>(side: Side) -> (book: Book)
        requires
            0 < MAX_SIZE <= MAX_INDEX_CAPACITY,
        ensures
            book.inv(),
            book@ == Map::<FIFOOrderId, FIFORestingOrder>::empty(),
            book.spec_side() == side,
            book.spec_capacity() == MAX_SIZE,
    {
        let index = index_new::<MAX_SIZE>();
        let book = Book { side, index };
        assert(book@ =~= Map::<FIFOOrderId, FIFORestingOrder>::empty());
        book
    }

    /// The side whose orders the book holds.
    pub fn side(&self) -> (side: Side)
        ensures
            side == self.spec_side(),
    {
        self.side
    }

    /// The number of orders the book has room for.
    pub fn capacity(&self) -> (limit: usize)
        ensures
            limit == self.spec_capacity(),
    {
        index_limit(&self.index)
    }

    /// The number of orders in the book.
    pub fn len(&self) -> (count: usize)
        requires
            self.inv(),
        ensures
            count == self@.dom().len(),
    {
        index_len(&self.index)
    }

    /// Whether no order is in the book.
    pub fn is_empty(&self) -> (empty: bool)
        requires
            self.inv(),
        ensures
            empty <==> self@.dom().len() == 0,
    {
        index_len(&self.index) == 0
    }

    /// The order of the given identity, if it is in the book.
    pub fn get(&self, id: &FIFOOrderId) -> (found: Option<FIFORestingOrder>)
        ensures
            found == (if self@.dom().contains(*id) {
                Some(self@[*id])
            } else {
                None
            }),
    {
        match index_get(&self.index, encode_key(id)) {
            Some(words) => Some(decode_order(words)),
            None => None,
        }
    }

    /// Whether an order of the given identity is in the book.
    pub fn contains(&self, id: &FIFOOrderId) -> (present: bool)
        ensures
            present == self@.dom().contains(*id),
    {
        index_get(&self.index, encode_key(id)).is_some()
    }

    /// Whether an order in the book carries the sequence number.
    pub fn has_sequence_number(&self, sequence: u64) -> (held: bool)
        requires
            self.inv(),
        ensures
            held == holds_sequence_number(self@, sequence),
    {
        let items = index_items(&self.index);
        let mut at: usize = 0;
        while at < items.len()
            invariant
                at <= items@.len(),
                forall|i: int|
                    0 <= i < items@.len() ==> index_entries(self.index).dom().contains(
                        #[trigger] items@[i].0,
                    ),
                forall|i: int|
                    0 <= i < at ==> id_of((#[trigger] items@[i]).0).order_sequence_number != sequence,
            decreases items@.len() - at,
        {
            let id = decode_key(items[at].0);
            if id.order_sequence_number == sequence {
                proof {
                    lemma_key_round_trip(id, items@[at as int].0);
                    assert(self@.dom().contains(id));
                }
                return true;
            }
            at = at + 1;
        }
        proof {
            assert forall|id: FIFOOrderId| #[trigger]
                self@.dom().contains(id) implies id.order_sequence_number != sequence by {
                lemma_key_round_trip(id, 0);
                let i = choose|i: int| 0 <= i < items@.len() && #[trigger] items@[i].0 == key_of(id);
            }
        }
        false
    }

    /// Puts a new order into the book. The identity must encode the book's
    /// side, its sequence number must not be carried by an order in the
    /// book, and the book must have room; otherwise the book stays as it was
    /// and the error says which of the three failed, in this order.
    pub fn insert(&mut self, id: FIFOOrderId, order: FIFORestingOrder) -> (outcome: Result<
        (),
        MarketError,
    >)
        requires
            old(self).inv(),
        ensures
            final(self).inv(),
            final(self).spec_side() == old(self).spec_side(),
            final(self).spec_capacity() == old(self).spec_capacity(),
            outcome == Self::insert_outcome(*old(self), id),
            outcome.is_ok() ==> final(self)@ == old(self)@.insert(id, order),
            outcome.is_err() ==> final(self)@ == old(self)@,
    {
        if id.order_sequence_number >= BID_SEQUENCE_BIT && self.side == Side::Ask {
            return Err(MarketError::MalformedOrderIdentity);
        }
        if id.order_sequence_number < BID_SEQUENCE_BIT && self.side == Side::Bid {
            return Err(MarketError::MalformedOrderIdentity);
        }
        if self.has_sequence_number(id.order_sequence_number) {
            return Err(MarketError::DuplicateIdentity);
        }
        if index_len(&self.index) >= index_limit(&self.index) {
            return Err(MarketError::CapacityExceeded);
        }
        self.insert_issued(id, order);
        Ok(())
    }

    /// Puts an order into the book whose sequence number is known to be new
    /// to it, as one that the market has just issued is.
    pub(crate) fn insert_issued(&mut self, id: FIFOOrderId, order: FIFORestingOrder)
        requires
            old(self).inv(),
            id.side() == old(self).spec_side(),
            !holds_sequence_number(old(self)@, id.order_sequence_number),
            old(self)@.dom().len() < old(self).spec_capacity(),
        ensures
            final(self).inv(),
            final(self).spec_side() == old(self).spec_side(),
            final(self).spec_capacity() == old(self).spec_capacity(),
            final(self)@ == old(self)@.insert(id, order),
    {
        let ghost before = *self;
        index_insert(&mut self.index, encode_key(&id), encode_order(&order));
        proof {
            Self::lemma_view_after_insert(before, *self, id, order);
        }
    }

    /// Gives an order that is in the book a new record. Where no order of
    /// the identity is in the book, the book stays as it was.
    pub fn update(&mut self, id: &FIFOOrderId, order: FIFORestingOrder) -> (outcome: Result<
        (),
        MarketError,
    >)
        requires
            old(self).inv(),
        ensures
            final(self).inv(),
            final(self).spec_side() == old(self).spec_side(),
            final(self).spec_capacity() == old(self).spec_capacity(),
            outcome == (if old(self)@.dom().contains(*id) {
                Ok::<(), MarketError>(())
            } else {
                Err::<(), MarketError>(MarketError::OrderNotFound)
            }),
            outcome.is_ok() ==> final(self)@ == old(self)@.insert(*id, order),
            outcome.is_err() ==> final(self)@ == old(self)@,
    {
        if index_get(&self.index, encode_key(id)).is_none() {
            return Err(MarketError::OrderNotFound);
        }
        self.replace(id, order);
        Ok(())
    }

    /// Gives an order that is known to be in the book a new record.
    pub(crate) fn replace(&mut self, id: &FIFOOrderId, order: FIFORestingOrder)
        requires
            old(self).inv(),
            old(self)@.dom().contains(*id),
        ensures
            final(self).inv(),
            final(self).spec_side() == old(self).spec_side(),
            final(self).spec_capacity() == old(self).spec_capacity(),
            final(self)@ == old(self)@.insert(*id, order),
    {
        let ghost before = *self;
        proof {
            before.lemma_inv();
        }
        index_insert(&mut self.index, encode_key(id), encode_order(&order));
        proof {
            Self::lemma_view_after_insert(before, *self, *id, order);
        }
    }

    /// Takes the order of the given identity out of the book and returns it.
    /// Where no such order is in the book, the book stays as it was.
    pub fn remove(&mut self, id: &FIFOOrderId) -> (removed: Option<FIFORestingOrder>)
        requires
            old(self).inv(),
        ensures
            final(self).inv(),
            final(self).spec_side() == old(self).spec_side(),
            final(self).spec_capacity() == old(self).spec_capacity(),
            removed == (if old(self)@.dom().contains(*id) {
                Some(old(self)@[*id])
            } else {
                None
            }),
            final(self)@ == old(self)@.remove(*id),
    {
        let ghost before = *self;
        let removed = index_remove(&mut self.index, encode_key(id));
        proof {
            assert forall|other: FIFOOrderId|
                index_entries(self.index).dom().contains(key_of(other)) <==> (other != *id
                    && index_entries(before.index).dom().contains(key_of(other))) by {
                lemma_key_is_injective(other, *id);
            }
            assert(self@ =~= before@.remove(*id));
        }
        match removed {
            Some(words) => Some(decode_order(words)),
            None => None,
        }
    }

    /// The order that trades first, with its identity; `None` of an empty
    /// book. The book stays as it was.
    pub fn best(&mut self) -> (best: Option<(FIFOOrderId, FIFORestingOrder)>)
        requires
            old(self).inv(),
        ensures
            final(self).inv(),
            final(self).spec_side() == old(self).spec_side(),
            final(self).spec_capacity() == old(self).spec_capacity(),
            final(self)@ == old(self)@,
            best.is_none() <==> old(self)@.dom().len() == 0,
            best.is_some() ==> trades_first(old(self)@, best.unwrap().0) && old(
                self,
            )@[best.unwrap().0] == best.unwrap().1,
    {
        let ghost before = *self;
        let least = index_min(&mut self.index);
        match least {
            Some((key, words)) => {
                let id = decode_key(key);
                proof {
                    lemma_key_round_trip(id, key);
                    assert forall|other: FIFOOrderId| #[trigger]
                        before@.dom().contains(other) && other != id implies id.ranks_before(
                        &other,
                    ) by {
                        lemma_key_is_injective(other, id);
                        lemma_key_round_trip(other, 0);
                        lemma_key_order_is_priority(id, other);
                    }
                }
                Some((id, decode_order(words)))
            },
            None => {
                proof {
                    assert(before@.dom() =~= Set::<FIFOOrderId>::empty());
                }
                None
            },
        }
    }

    /// The orders of the book with their identities, from the first to trade
    /// to the last.
    pub fn orders(&self) -> (orders: Vec<(FIFOOrderId, FIFORestingOrder)>)
        requires
            self.inv(),
        ensures
            in_priority(self@, orders@),
    {
        let items = index_items(&self.index);
        let mut orders: Vec<(FIFOOrderId, FIFORestingOrder)> = Vec::new();
        let mut at: usize = 0;
        while at < items.len()
            invariant
                at <= items@.len(),
                orders@.len() == at,
                forall|i: int|
                    0 <= i < at ==> (#[trigger] orders@[i]).0 == id_of(items@[i].0) && orders@[i].1
                        == order_of(items@[i].1),
            decreases items@.len() - at,
        {
            let (key, words) = items[at];
            orders.push((decode_key(key), decode_order(words)));
            at = at + 1;
        }
        proof {
            assert forall|i: int| 0 <= i < orders@.len() implies self@.dom().contains(
                #[trigger] orders@[i].0,
            ) && self@[orders@[i].0] == orders@[i].1 by {
                lemma_key_round_trip(orders@[i].0, items@[i].0);
            }
            assert forall|i: int, j: int| 0 <= i < j < orders@.len() implies (
            #[trigger] orders@[i]).0.ranks_before(&(#[trigger] orders@[j]).0) by {
                lemma_key_round_trip(orders@[i].0, items@[i].0);
                lemma_key_round_trip(orders@[j].0, items@[j].0);
                lemma_key_order_is_priority(orders@[i].0, orders@[j].0);
            }
            assert forall|id: FIFOOrderId| self@.dom().contains(id) implies exists|i: int|
                0 <= i < orders@.len() && #[trigger] orders@[i].0 == id by {
                lemma_key_round_trip(id, 0);
                let i = choose|i: int| 0 <= i < items@.len() && #[trigger] items@[i].0 == key_of(id);
                assert(orders@[i].0 == id);
            }
        }
        orders
    }

    /// What `insert` answers for an identity, by the state of the book.
    pub open spec fn insert_outcome(book: Book, id: FIFOOrderId) -> Result<(), MarketError> {
        if id.side() != book.spec_side() {
            Err(MarketError::MalformedOrderIdentity)
        } else if holds_sequence_number(book@, id.order_sequence_number) {
            Err(MarketError::DuplicateIdentity)
        } else if book@.dom().len() >= book.spec_capacity() {
            Err(MarketError::CapacityExceeded)
        } else {
            Ok(())
        }
    }

    /// The view of a book whose index took one entry more, or a new record
    /// for an entry.
    proof fn lemma_view_after_insert(
        before: Book,
        after: Book,
        id: FIFOOrderId,
        order: FIFORestingOrder,
    )
        requires
            before.inv(),
            after.side == before.side,
            id.side() == before.side,
            index_capacity(after.index) == index_capacity(before.index),
            index_entries(after.index) == index_entries(before.index).insert(
                key_of(id),
                words_of(order),
            ),
            before@.dom().contains(id) || index_entries(before.index).dom().len() < index_capacity(
                before.index,
            ),
            before@.dom().contains(id) || !holds_sequence_number(before@, id.order_sequence_number),
        ensures
            after.inv(),
            after@ == before@.insert(id, order),
    {
        assert forall|other: FIFOOrderId|
            index_entries(after.index).dom().contains(key_of(other)) <==> (other == id
                || index_entries(before.index).dom().contains(key_of(other))) by {
            lemma_key_is_injective(other, id);
        }
        assert forall|other: FIFOOrderId| other != id implies key_of(other) != key_of(id) by {
            lemma_key_is_injective(other, id);
        }
        lemma_words_round_trip(order, (0, 0, 0, 0));
        assert(after@ =~= before@.insert(id, order));
        lemma_key_round_trip(id, 0);
    }
}

} // verus!
