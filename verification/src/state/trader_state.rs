//! The ledger of one trader: what is locked in resting orders and what is
//! free, in both currencies.

use vstd::prelude::*;
use crate::quantities::BaseLots;
use crate::quantities::QuoteLots;

verus! {

/// The balances of one trader in a market.
#[derive(Debug, Clone, Copy, PartialEq, Eq, Structural)]
pub struct TraderState {
    /// Quote lots locked in resting orders.
    pub quote_lots_locked: QuoteLots,
    /// Quote lots that no order holds.
    pub quote_lots_free: QuoteLots,
    /// Base lots locked in resting orders.
    pub base_lots_locked: BaseLots,
    /// Base lots that no order holds.
    pub base_lots_free: BaseLots,
}

impl TraderState {
    /// The ledger with nothing in it.
    pub open spec fn empty() -> TraderState {
        TraderState {
            quote_lots_locked: QuoteLots { inner: 0 },
            quote_lots_free: QuoteLots { inner: 0 },
            base_lots_locked: BaseLots { inner: 0 },
            base_lots_free: BaseLots { inner: 0 },
        }
    }

    /// All base lots of the trader, locked and free.
    pub open spec fn base_lots_total(&self) -> int {
        self.base_lots_locked@ + self.base_lots_free@
    }

    /// All quote lots of the trader, locked and free.
    pub open spec fn quote_lots_total(&self) -> int {
        self.quote_lots_locked@ + self.quote_lots_free@
    }

    /// The ledger after the given base lots have moved from free to locked.
    pub open spec fn with_base_lots_locked(&self, lots: BaseLots) -> TraderState {
        TraderState {
            base_lots_locked: BaseLots { inner: (self.base_lots_locked@ + lots@) as u64 },
            base_lots_free: BaseLots { inner: (self.base_lots_free@ - lots@) as u64 },
            ..*self
        }
    }

    /// The ledger after the given base lots have moved from locked to free.
    pub open spec fn with_base_lots_unlocked(&self, lots: BaseLots) -> TraderState {
        TraderState {
            base_lots_locked: BaseLots { inner: (self.base_lots_locked@ - lots@) as u64 },
            base_lots_free: BaseLots { inner: (self.base_lots_free@ + lots@) as u64 },
            ..*self
        }
    }

    /// The ledger after a deposit of free lots.
    pub open spec fn with_deposit(&self, quote_lots: QuoteLots, base_lots: BaseLots) -> TraderState {
        TraderState {
            quote_lots_free: QuoteLots { inner: (self.quote_lots_free@ + quote_lots@) as u64 },
            base_lots_free: BaseLots { inner: (self.base_lots_free@ + base_lots@) as u64 },
            ..*self
        }
    }

    /// The ledger after a withdrawal of free lots.
    pub open spec fn with_withdrawal(&self, quote_lots: QuoteLots, base_lots: BaseLots) -> TraderState {
        TraderState {
            quote_lots_free: QuoteLots { inner: (self.quote_lots_free@ - quote_lots@) as u64 },
            base_lots_free: BaseLots { inner: (self.base_lots_free@ - base_lots@) as u64 },
            ..*self
        }
    }

    /// Moves base lots from free to locked, as posting an order does.
    /// `None`, with nothing moved, where fewer lots are free or the locked
    /// lots would not fit 64 bits.
    pub fn lock_base_lots(&self, lots: BaseLots) -> (moved: Option<TraderState>)
        ensures
            moved.is_some() <==> (lots@ <= self.base_lots_free@ && self.base_lots_locked@ + lots@
                <= u64::MAX),
            moved.is_some() ==> moved.unwrap() == self.with_base_lots_locked(lots),
            moved.is_some() ==> moved.unwrap().base_lots_total() == self.base_lots_total(),
    {
        match (self.base_lots_free.checked_sub(lots), self.base_lots_locked.checked_add(lots)) {
            (Some(free), Some(locked)) => Some(
                TraderState {
                    quote_lots_locked: self.quote_lots_locked,
                    quote_lots_free: self.quote_lots_free,
                    base_lots_locked: locked,
                    base_lots_free: free,
                },
            ),
            _ => None,
        }
    }

    /// Moves base lots from locked to free, as a fill or a cancellation does.
    /// `None`, with nothing moved, where fewer lots are locked or the free
    /// lots would not fit 64 bits.
    pub fn unlock_base_lots(&self, lots: BaseLots) -> (moved: Option<TraderState>)
        ensures
            moved.is_some() <==> (lots@ <= self.base_lots_locked@ && self.base_lots_free@ + lots@
                <= u64::MAX),
            moved.is_some() ==> moved.unwrap() == self.with_base_lots_unlocked(lots),
            moved.is_some() ==> moved.unwrap().base_lots_total() == self.base_lots_total(),
    {
        match (self.base_lots_locked.checked_sub(lots), self.base_lots_free.checked_add(lots)) {
            (Some(locked), Some(free)) => Some(
                TraderState {
                    quote_lots_locked: self.quote_lots_locked,
                    quote_lots_free: self.quote_lots_free,
                    base_lots_locked: locked,
                    base_lots_free: free,
                },
            ),
            _ => None,
        }
    }

    /// Adds lots from outside the market to the free balances. `None`, with
    /// nothing added, where a free balance would not fit 64 bits.
    pub fn deposit(&self, quote_lots: QuoteLots, base_lots: BaseLots) -> (credited: Option<
        TraderState,
    >)
        ensures
            credited.is_some() <==> (self.quote_lots_free@ + quote_lots@ <= u64::MAX
                && self.base_lots_free@ + base_lots@ <= u64::MAX),
            credited.is_some() ==> credited.unwrap() == self.with_deposit(quote_lots, base_lots),
    {
        match (self.quote_lots_free.checked_add(quote_lots), self.base_lots_free.checked_add(base_lots)) {
            (Some(quote_free), Some(base_free)) => Some(
                TraderState {
                    quote_lots_locked: self.quote_lots_locked,
                    quote_lots_free: quote_free,
                    base_lots_locked: self.base_lots_locked,
                    base_lots_free: base_free,
                },
            ),
            _ => None,
        }
    }

    /// Takes lots out of the free balances and out of the market. `None`,
    /// with nothing taken, where a free balance holds fewer lots.
    pub fn withdraw(&self, quote_lots: QuoteLots, base_lots: BaseLots) -> (debited: Option<
        TraderState,
    >)
        ensures
            debited.is_some() <==> (quote_lots@ <= self.quote_lots_free@ && base_lots@
                <= self.base_lots_free@),
            debited.is_some() ==> debited.unwrap() == self.with_withdrawal(quote_lots, base_lots),
    {
        match (self.quote_lots_free.checked_sub(quote_lots), self.base_lots_free.checked_sub(base_lots)) {
            (Some(quote_free), Some(base_free)) => Some(
                TraderState {
                    quote_lots_locked: self.quote_lots_locked,
                    quote_lots_free: quote_free,
                    base_lots_locked: self.base_lots_locked,
                    base_lots_free: base_free,
                },
            ),
            _ => None,
        }
    }
}

impl Default for TraderState {
    fn default() -> (state: Self)
        ensures
            state == Self::empty(),
    {
        TraderState {
            quote_lots_locked: QuoteLots { inner: 0 },
            quote_lots_free: QuoteLots { inner: 0 },
            base_lots_locked: BaseLots { inner: 0 },
            base_lots_free: BaseLots { inner: 0 },
        }
    }
}

} // verus!
