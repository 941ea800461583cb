//! The order that an operation on the book is working on.

use vstd::prelude::*;
use crate::quantities::BaseLots;
use crate::quantities::QuoteLots;
use crate::state::enums::Side;

verus! {

/// An order while it is being processed: what is still to be placed of it.
#[derive(Debug, Clone, Copy)]
pub struct InflightOrder {
    /// The side the order is on.
    pub side: Side,
    /// The base lots of the order.
    pub num_base_lots: BaseLots,
    /// The quote lots of the order, from which its price follows.
    pub num_quote_lots: QuoteLots,
}

} // verus!
