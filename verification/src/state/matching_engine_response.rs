//! What an operation on the book reports back to its caller.

use vstd::prelude::*;
use crate::quantities::BaseLots;
use crate::quantities::QuoteLots;

verus! {

/// The whole effect of one operation on the book.
#[derive(Debug, Clone, Copy, PartialEq, Eq, Structural)]
pub struct MatchingEngineResponse {
    /// Base lots that were matched.
    pub num_base_lots_matched: BaseLots,
    /// Quote lots that were matched.
    pub num_quote_lots_matched: QuoteLots,
    /// Base lots that were posted to the book.
    pub num_base_lots_posted: BaseLots,
    /// Quote lots that are handed back to the trader's free balance.
    pub num_quote_lots_to_release: QuoteLots,
    /// Base lots that are handed back to the trader's free balance.
    pub num_base_lots_to_release: BaseLots,
}

impl MatchingEngineResponse {
    /// The response of an operation that had no effect.
    pub open spec fn empty() -> MatchingEngineResponse {
        MatchingEngineResponse {
            num_base_lots_matched: BaseLots { inner: 0 },
            num_quote_lots_matched: QuoteLots { inner: 0 },
            num_base_lots_posted: BaseLots { inner: 0 },
            num_quote_lots_to_release: QuoteLots { inner: 0 },
            num_base_lots_to_release: BaseLots { inner: 0 },
        }
    }

    /// The base lots that the response speaks of: matched, posted and
    /// released together.
    pub open spec fn base_lots_accounted(&self) -> int {
        self.num_base_lots_matched@ + self.num_base_lots_posted@ + self.num_base_lots_to_release@
    }

    /// Whether the response accounts for every base lot that the operation
    /// had committed: each is matched, posted or released, and none twice.
    pub open spec fn accounts_for(&self, committed: BaseLots) -> bool {
        self.base_lots_accounted() == committed@
    }

    /// The response that reports the given base lots as posted.
    pub fn posted(lots: BaseLots) -> (response: Self)
        ensures
            response == (MatchingEngineResponse { num_base_lots_posted: lots, ..Self::empty() }),
            response.accounts_for(lots),
    {
        MatchingEngineResponse {
            num_base_lots_matched: BaseLots { inner: 0 },
            num_quote_lots_matched: QuoteLots { inner: 0 },
            num_base_lots_posted: lots,
            num_quote_lots_to_release: QuoteLots { inner: 0 },
            num_base_lots_to_release: BaseLots { inner: 0 },
        }
    }

    /// The response that reports the given base lots as matched.
    pub fn matched(lots: BaseLots) -> (response: Self)
        ensures
            response == (MatchingEngineResponse { num_base_lots_matched: lots, ..Self::empty() }),
            response.accounts_for(lots),
    {
        MatchingEngineResponse {
            num_base_lots_matched: lots,
            num_quote_lots_matched: QuoteLots { inner: 0 },
            num_base_lots_posted: BaseLots { inner: 0 },
            num_quote_lots_to_release: QuoteLots { inner: 0 },
            num_base_lots_to_release: BaseLots { inner: 0 },
        }
    }

    /// The response that reports the given base lots as released.
    pub fn released(lots: BaseLots) -> (response: Self)
        ensures
            response == (MatchingEngineResponse { num_base_lots_to_release: lots, ..Self::empty() }),
            response.accounts_for(lots),
    {
        MatchingEngineResponse {
            num_base_lots_matched: BaseLots { inner: 0 },
            num_quote_lots_matched: QuoteLots { inner: 0 },
            num_base_lots_posted: BaseLots { inner: 0 },
            num_quote_lots_to_release: QuoteLots { inner: 0 },
            num_base_lots_to_release: lots,
        }
    }
}

impl Default for MatchingEngineResponse {
    fn default() -> (response: Self)
        ensures
            response == Self::empty(),
    {
        MatchingEngineResponse {
            num_base_lots_matched: BaseLots { inner: 0 },
            num_quote_lots_matched: QuoteLots { inner: 0 },
            num_base_lots_posted: BaseLots { inner: 0 },
            num_quote_lots_to_release: QuoteLots { inner: 0 },
            num_base_lots_to_release: BaseLots { inner: 0 },
        }
    }
}

} // verus!
