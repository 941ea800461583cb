//! The ways in which an operation on a market can fail. A failed operation
//! leaves the market as it was.

use vstd::prelude::*;

verus! {

/// Why an operation on a market did nothing.
#[derive(Debug, Clone, Copy, PartialEq, Eq, Structural)]
pub enum MarketError {
    /// The index that would take the new entry is full.
    CapacityExceeded,
    /// An order of this identity is in the book already.
    DuplicateIdentity,
    /// A quantity would exceed 64 bits.
    ArithmeticOverflow,
    /// A quantity would fall below zero.
    ArithmeticUnderflow,
    /// The side that the identity encodes is not the side it was used on.
    MalformedOrderIdentity,
    /// No order of this identity is in the book.
    OrderNotFound,
    /// No trader of this key is in the table of traders.
    TraderNotFound,
}

} // verus!
