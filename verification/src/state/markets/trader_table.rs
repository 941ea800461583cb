//! The table of traders of a market: the ledger of each trader under the
//! trader's key.

use vstd::prelude::*;
use crate::quantities::BaseLots;
use crate::quantities::QuoteLots;
use crate::state::error::MarketError;
use crate::state::markets::ordered_index::index_capacity;
use crate::state::markets::ordered_index::index_entries;
use crate::state::markets::ordered_index::index_get;
use crate::state::markets::ordered_index::index_insert;
use crate::state::markets::ordered_index::index_len;
use crate::state::markets::ordered_index::index_limit;
use crate::state::markets::ordered_index::index_new;
use crate::state::markets::ordered_index::OrderedIndex;
use crate::state::markets::ordered_index::MAX_INDEX_CAPACITY;
use crate::state::trader_state::TraderState;

verus! {

/// The record under which a ledger is stored.
pub open spec fn ledger_words(state: TraderState) -> (u64, u64, u64, u64) {
    (state.quote_lots_locked@, state.quote_lots_free@, state.base_lots_locked@, state.base_lots_free@)
}

/// The ledger that is stored as a record.
pub open spec fn ledger_of(words: (u64, u64, u64, u64)) -> TraderState {
    TraderState {
        quote_lots_locked: QuoteLots { inner: words.0 },
        quote_lots_free: QuoteLots { inner: words.1 },
        base_lots_locked: BaseLots { inner: words.2 },
        base_lots_free: BaseLots { inner: words.3 },
    }
}

/// Records and ledgers stand for each other, one for one.
pub proof fn lemma_ledger_round_trip(state: TraderState, words: (u64, u64, u64, u64))
    ensures
        ledger_of(ledger_words(state)) == state,
        ledger_words(ledger_of(words)) == words,
{
}

/// The record of a ledger.
pub fn encode_ledger(state: &TraderState) -> (words: (u64, u64, u64, u64))
    ensures
        words == ledger_words(*state),
{
    (
        state.quote_lots_locked.inner,
        state.quote_lots_free.inner,
        state.base_lots_locked.inner,
        state.base_lots_free.inner,
    )
}

/// The ledger of a record.
pub fn decode_ledger(words: (u64, u64, u64, u64)) -> (state: TraderState)
    ensures
        state == ledger_of(words),
{
    TraderState {
        quote_lots_locked: QuoteLots { inner: words.0 },
        quote_lots_free: QuoteLots { inner: words.1 },
        base_lots_locked: BaseLots { inner: words.2 },
        base_lots_free: BaseLots { inner: words.3 },
    }
}

/// The traders of a market with their ledgers. A trader is known by a 64-bit
/// key, which the table orders and compares and never reads otherwise. Its
/// view is the map from keys to ledgers.
pub struct TraderTable {
    index: OrderedIndex,
}

impl View for TraderTable {
    type V = Map<u64, TraderState>;

    closed spec fn view(&self) -> Map<u64, TraderState> {
        Map::new(
            |trader: u64| index_entries(self.index).dom().contains(trader as u128),
            |trader: u64| ledger_of(index_entries(self.index)[trader as u128]),
        )
    }
}

impl TraderTable {
    /// The number of traders the table has room for.
    pub closed spec fn spec_capacity(&self) -> nat {
        index_capacity(self.index)
    }

    /// What holds of every table: it holds no more traders than it has room
    /// for.
    pub closed spec fn inv(&self) -> bool {
        &&& index_entries(self.index).dom().finite()
        &&& 0 < index_capacity(self.index) <= MAX_INDEX_CAPACITY
        &&& index_entries(self.index).dom().len() <= index_capacity(self.index)
        &&& forall|key: u128| #[trigger]
            index_entries(self.index).dom().contains(key) ==> key <= u64::MAX
        &&& self@.dom().finite()
        &&& self@.dom().len() == index_entries(self.index).dom().len()
    }

    /// The consequences of `inv` for the view.
    pub proof fn lemma_inv(&self)
        requires
            self.inv(),
        ensures
            self@.dom().finite(),
            self@.dom().len() <= self.spec_capacity(),
            0 < self.spec_capacity() <= MAX_INDEX_CAPACITY,
    {
    }

    /// An empty table with room for `MAX_SIZE` traders.
    pub fn with_capacity<const MAX_SIZE: usize>() -> (table: TraderTable)
        requires
            0 < MAX_SIZE <= MAX_INDEX_CAPACITY,
        ensures
            table.inv(),
            table@ == Map::<u64, TraderState>::empty(),
            table.spec_capacity() == MAX_SIZE,
    {
        let index = index_new::<MAX_SIZE>();
        let table = TraderTable { index };
        assert(table@ =~= Map::<u64, TraderState>::empty());
        table
    }

    /// The number of traders the table has room for.
    pub fn capacity(&self) -> (limit: usize)
        ensures
            limit == self.spec_capacity(),
    {
        index_limit(&self.index)
    }

    /// The number of traders in the table.
    pub fn len(&self) -> (count: usize)
        requires
            self.inv(),
        ensures
            count == self@.dom().len(),
    {
        index_len(&self.index)
    }

    /// The ledger of a trader, if the trader is in the table.
    pub fn get(&self, trader: u64) -> (found: Option<TraderState>)
        ensures
            found == (if self@.dom().contains(trader) {
                Some(self@[trader])
            } else {
                None
            }),
    {
        match index_get(&self.index, trader as u128) {
            Some(words) => Some(decode_ledger(words)),
            None => None,
        }
    }

    /// What `register` answers for a trader, by the state of the table.
    pub open spec fn register_outcome(table: TraderTable, trader: u64) -> Result<(), MarketError> {
        if table@.dom().contains(trader) || table@.dom().len() < table.spec_capacity() {
            Ok(())
        } else {
            Err(MarketError::CapacityExceeded)
        }
    }

    /// Makes room for a trader: a trader who is new to the table gets an
    /// empty ledger, a trader who is in it keeps the ledger. Where the trader
    /// is new and the table is full, the table stays as it was.
    pub fn register(&mut self, trader: u64) -> (outcome: Result<(), MarketError>)
        requires
            old(self).inv(),
        ensures
            final(self).inv(),
            final(self).spec_capacity() == old(self).spec_capacity(),
            outcome == Self::register_outcome(*old(self), trader),
            outcome.is_ok() && !old(self)@.dom().contains(trader) ==> final(self)@ == old(
                self,
            )@.insert(trader, TraderState::empty()),
            outcome.is_err() || old(self)@.dom().contains(trader) ==> final(self)@ == old(self)@,
    {
        if index_get(&self.index, trader as u128).is_some() {
            return Ok(());
        }
        if index_len(&self.index) >= index_limit(&self.index) {
            return Err(MarketError::CapacityExceeded);
        }
        let ghost before = *self;
        let state = TraderState::default();
        index_insert(&mut self.index, trader as u128, encode_ledger(&state));
        proof {
            Self::lemma_view_after_insert(before, *self, trader, state);
        }
        Ok(())
    }

    /// Gives a trader who is in the table a new ledger. Where the trader is
    /// not in the table, the table stays as it was.
    pub fn set(&mut self, trader: u64, state: TraderState) -> (outcome: Result<(), MarketError>)
        requires
            old(self).inv(),
        ensures
            final(self).inv(),
            final(self).spec_capacity() == old(self).spec_capacity(),
            outcome == (if old(self)@.dom().contains(trader) {
                Ok::<(), MarketError>(())
            } else {
                Err::<(), MarketError>(MarketError::TraderNotFound)
            }),
            outcome.is_ok() ==> final(self)@ == old(self)@.insert(trader, state),
            outcome.is_err() ==> final(self)@ == old(self)@,
    {
        if index_get(&self.index, trader as u128).is_none() {
            return Err(MarketError::TraderNotFound);
        }
        self.replace(trader, state);
        Ok(())
    }

    /// Gives a trader who is known to be in the table a new ledger.
    pub(crate) fn replace(&mut self, trader: u64, state: TraderState)
        requires
            old(self).inv(),
            old(self)@.dom().contains(trader),
        ensures
            final(self).inv(),
            final(self).spec_capacity() == old(self).spec_capacity(),
            final(self)@ == old(self)@.insert(trader, state),
    {
        let ghost before = *self;
        index_insert(&mut self.index, trader as u128, encode_ledger(&state));
        proof {
            Self::lemma_view_after_insert(before, *self, trader, state);
        }
    }

    /// The view of a table whose index took one entry more, or a new record
    /// for an entry.
    proof fn lemma_view_after_insert(
        before: TraderTable,
        after: TraderTable,
        trader: u64,
        state: TraderState,
    )
        requires
            before.inv(),
            index_capacity(after.index) == index_capacity(before.index),
            index_entries(after.index) == index_entries(before.index).insert(
                trader as u128,
                ledger_words(state),
            ),
            before@.dom().contains(trader) || index_entries(before.index).dom().len()
                < index_capacity(before.index),
        ensures
            after.inv(),
            after@ == before@.insert(trader, state),
    {
        lemma_ledger_round_trip(state, (0, 0, 0, 0));
        assert(after@ =~= before@.insert(trader, state));
    }
}

} // verus!
