//! The two small closed choices of the book: the side of an order and the
//! policy for an order that would trade against its own owner.

use vstd::prelude::*;

verus! {

/// The lowest sequence number that belongs to a bid: bids carry sequence
/// numbers with the top bit set, asks carry the others.
pub const BID_SEQUENCE_BIT: u64 = 0x8000_0000_0000_0000;

/// The side of the book an order rests on.
#[derive(Debug, Clone, Copy, PartialEq, Eq, Structural)]
pub enum Side {
    Bid,
    Ask,
}

impl Side {
    /// The other side.
    pub open spec fn spec_opposite(&self) -> Side {
        match self {
            Side::Bid => Side::Ask,
            Side::Ask => Side::Bid,
        }
    }

    /// The side that a sequence number encodes in its top bit.
    pub open spec fn spec_from_order_sequence_number(order_sequence_number: u64) -> Side {
        if order_sequence_number >= BID_SEQUENCE_BIT {
            Side::Bid
        } else {
            Side::Ask
        }
    }

    /// The other side.
    #[verifier::when_used_as_spec(spec_opposite)]
    pub fn opposite(&self) -> (other: Self)
        ensures
            other == self.spec_opposite(),
    {
        match self {
            Side::Bid => Side::Ask,
            Side::Ask => Side::Bid,
        }
    }

    /// The side that a sequence number encodes: `Bid` where its top bit is
    /// set, `Ask` otherwise.
    #[verifier::when_used_as_spec(spec_from_order_sequence_number)]
    pub fn from_order_sequence_number(order_sequence_number: u64) -> (side: Self)
        ensures
            side == Side::spec_from_order_sequence_number(order_sequence_number),
    {
        assert((order_sequence_number >> 63 == 1) == (order_sequence_number
            >= 0x8000_0000_0000_0000u64)) by (bit_vector);
        if order_sequence_number >> 63 == 1 {
            Side::Bid
        } else {
            Side::Ask
        }
    }

    /// Taking the other side twice gives the side back, and the other side
    /// is never the side itself.
    pub proof fn lemma_opposite_involution(side: Side)
        ensures
            side.opposite().opposite() == side,
            side.opposite() != side,
    {
    }
}

/// What to do when an incoming order would match a resting order of the same
/// trader.
#[derive(Debug, Clone, Copy, PartialEq, Eq, Structural)]
pub enum SelfTradeBehavior {
    /// Let the match happen and shrink the incoming order by it.
    DecrementTake,
    /// Cancel the resting order.
    CancelProvide,
    /// Abort the whole operation.
    AbortTransaction,
}

} // verus!
