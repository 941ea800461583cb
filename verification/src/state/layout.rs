//! The layout of the records of a market in bytes.
//!
//! A record is a run of 64-bit words, each stored with its least significant
//! byte first, one after the other in the order of the record's fields and
//! with nothing between them. A record is read from and written to the front
//! of a region of bytes; a region that is too short is refused.

use vstd::prelude::*;
use vstd::bytes::spec_u64_from_le_bytes;
use vstd::bytes::spec_u64_to_le_bytes;
use vstd::bytes::lemma_auto_spec_u64_to_from_le_bytes;
use vstd::bytes::u64_from_le_bytes;
use vstd::bytes::u64_to_le_bytes;
use vstd::slice::slice_subrange;
use crate::quantities::Ticks;
use crate::state::markets::book::decode_order;
use crate::state::markets::book::encode_order;
use crate::state::markets::book::order_of;
use crate::state::markets::book::words_of;
use crate::state::markets::fifo::FIFOOrderId;
use crate::state::markets::fifo::FIFORestingOrder;
use crate::state::markets::trader_table::decode_ledger;
use crate::state::markets::trader_table::encode_ledger;
use crate::state::markets::trader_table::ledger_of;
use crate::state::markets::trader_table::ledger_words;
use crate::state::trader_state::TraderState;

verus! {

/// The bytes of one word.
pub const WORD_BYTES: usize = 8;

/// The bytes of an order identity: its price, then its sequence number.
pub const ORDER_ID_BYTES: usize = 16;

/// The bytes of a resting order: the key of its owner, its remaining size,
/// its last valid slot, its last valid second.
pub const RESTING_ORDER_BYTES: usize = 32;

/// The bytes of a ledger: quote lots locked and free, then base lots locked
/// and free.
pub const TRADER_STATE_BYTES: usize = 32;

/// The word that a region holds at an offset.
pub open spec fn word_at(region: Seq<u8>, offset: int) -> u64 {
    spec_u64_from_le_bytes(region.subrange(offset, offset + WORD_BYTES))
}

/// The region with a word written at an offset.
pub open spec fn with_word(region: Seq<u8>, offset: int, word: u64) -> Seq<u8> {
    region.subrange(0, offset) + spec_u64_to_le_bytes(word) + region.subrange(
        offset + WORD_BYTES,
        region.len() as int,
    )
}

/// Reads the word at an offset; `None` where the region ends before the
/// word does.
pub fn read_word(region: &[u8], offset: usize) -> (word: Option<u64>)
    ensures
        word == (if offset + WORD_BYTES <= region@.len() {
            Some(word_at(region@, offset as int))
        } else {
            None
        }),
{
    if offset > region.len() || region.len() - offset < WORD_BYTES {
        return None;
    }
    Some(u64_from_le_bytes(slice_subrange(region, offset, offset + WORD_BYTES)))
}

/// Writes a word at an offset. Where the region ends before the word would,
/// nothing is written and the answer is `false`.
pub fn write_word(region: &mut [u8], offset: usize, word: u64) -> (written: bool)
    ensures
        written == (offset + WORD_BYTES <= old(region)@.len()),
        written ==> final(region)@ == with_word(old(region)@, offset as int, word),
        !written ==> final(region)@ == old(region)@,
{
    if offset > region.len() || region.len() - offset < WORD_BYTES {
        return false;
    }
    let bytes = u64_to_le_bytes(word);
    let mut at: usize = 0;
    while at < WORD_BYTES
        invariant
            at <= WORD_BYTES,
            bytes@.len() == WORD_BYTES,
            region@.len() == old(region)@.len(),
            offset + WORD_BYTES <= region@.len() <= usize::MAX,
            forall|i: int| 0 <= i < offset ==> region@[i] == old(region)@[i],
            forall|i: int| offset + WORD_BYTES <= i < region@.len() ==> region@[i] == old(region)@[i],
            forall|i: int| offset + at <= i < offset + WORD_BYTES ==> region@[i] == old(region)@[i],
            forall|i: int| 0 <= i < at ==> region@[offset + i] == bytes@[i],
        decreases WORD_BYTES - at,
    {
        region[offset + at] = bytes[at];
        at = at + 1;
    }
    true
}

/// A word that was written is the word that is read, the region keeps its
/// length, and the words beside it stay what they were.
pub proof fn lemma_word_written(region: Seq<u8>, offset: int, word: u64, other: int)
    requires
        0 <= offset,
        offset + WORD_BYTES <= region.len(),
    ensures
        with_word(region, offset, word).len() == region.len(),
        word_at(with_word(region, offset, word), offset) == word,
        0 <= other && other + WORD_BYTES <= region.len() && (other + WORD_BYTES <= offset || offset
            + WORD_BYTES <= other) ==> word_at(with_word(region, offset, word), other) == word_at(
            region,
            other,
        ),
        forall|i: int|
            0 <= i < region.len() && !(offset <= i < offset + WORD_BYTES) ==> with_word(
                region,
                offset,
                word,
            )[i] == region[i],
{
    lemma_auto_spec_u64_to_from_le_bytes();
    let written = with_word(region, offset, word);
    assert(written.subrange(offset, offset + WORD_BYTES) =~= spec_u64_to_le_bytes(word));
    if 0 <= other && other + WORD_BYTES <= region.len() && (other + WORD_BYTES <= offset || offset
        + WORD_BYTES <= other) {
        assert(written.subrange(other, other + WORD_BYTES) =~= region.subrange(
            other,
            other + WORD_BYTES,
        ));
    }
}

/// Writing the word that a region holds changes nothing.
pub proof fn lemma_word_rewritten(region: Seq<u8>, offset: int)
    requires
        0 <= offset,
        offset + WORD_BYTES <= region.len(),
    ensures
        with_word(region, offset, word_at(region, offset)) == region,
{
    lemma_auto_spec_u64_to_from_le_bytes();
}

/// The four words at the front of a region.
pub open spec fn quad_at(region: Seq<u8>) -> (u64, u64, u64, u64) {
    (word_at(region, 0), word_at(region, 8), word_at(region, 16), word_at(region, 24))
}

/// The region with four words written at its front.
pub open spec fn with_quad(region: Seq<u8>, words: (u64, u64, u64, u64)) -> Seq<u8> {
    with_word(with_word(with_word(with_word(region, 0, words.0), 8, words.1), 16, words.2), 24, words.3)
}

/// Four words that were written are the words that are read; the region
/// keeps its length and what follows the words.
pub proof fn lemma_quad_written(region: Seq<u8>, words: (u64, u64, u64, u64))
    requires
        region.len() >= 32,
    ensures
        with_quad(region, words).len() == region.len(),
        quad_at(with_quad(region, words)) == words,
        forall|i: int| 32 <= i < region.len() ==> with_quad(region, words)[i] == region[i],
{
    let first = with_word(region, 0, words.0);
    lemma_word_written(region, 0, words.0, 0);
    let second = with_word(first, 8, words.1);
    lemma_word_written(first, 8, words.1, 0);
    let third = with_word(second, 16, words.2);
    lemma_word_written(second, 16, words.2, 0);
    lemma_word_written(second, 16, words.2, 8);
    lemma_word_written(third, 24, words.3, 0);
    lemma_word_written(third, 24, words.3, 8);
    lemma_word_written(third, 24, words.3, 16);
}

/// Writing the four words that a region holds changes nothing.
pub proof fn lemma_quad_rewritten(region: Seq<u8>)
    requires
        region.len() >= 32,
    ensures
        with_quad(region, quad_at(region)) == region,
{
    lemma_word_rewritten(region, 0);
    lemma_word_rewritten(region, 8);
    lemma_word_rewritten(region, 16);
    lemma_word_rewritten(region, 24);
}

/// Reads four words from the front of a region; `None` of a region of fewer
/// than 32 bytes.
pub fn read_quad(region: &[u8]) -> (words: Option<(u64, u64, u64, u64)>)
    ensures
        words == (if region@.len() >= 32 {
            Some(quad_at(region@))
        } else {
            None
        }),
{
    match (read_word(region, 0), read_word(region, 8), read_word(region, 16), read_word(region, 24)) {
        (Some(first), Some(second), Some(third), Some(fourth)) => Some((first, second, third, fourth)),
        _ => None,
    }
}

/// Writes four words to the front of a region. Nothing is written to a
/// region of fewer than 32 bytes, and the answer is `false`.
pub fn write_quad(region: &mut [u8], words: (u64, u64, u64, u64)) -> (written: bool)
    ensures
        written == (old(region)@.len() >= 32),
        written ==> final(region)@ == with_quad(old(region)@, words),
        !written ==> final(region)@ == old(region)@,
{
    if region.len() < 32 {
        return false;
    }
    proof {
        let first = with_word(region@, 0, words.0);
        lemma_word_written(region@, 0, words.0, 0);
        let second = with_word(first, 8, words.1);
        lemma_word_written(first, 8, words.1, 0);
        lemma_word_written(second, 16, words.2, 0);
    }
    write_word(region, 0, words.0);
    write_word(region, 8, words.1);
    write_word(region, 16, words.2);
    write_word(region, 24, words.3);
    true
}

impl FIFORestingOrder {
    /// The resting order that a region holds at its front.
    pub open spec fn decoded(region: Seq<u8>) -> FIFORestingOrder {
        order_of(quad_at(region))
    }

    /// The region with this resting order written at its front.
    pub open spec fn encoded(self, region: Seq<u8>) -> Seq<u8> {
        with_quad(region, words_of(self))
    }

    /// Reads a resting order from the front of a region; `None` of a region
    /// that is too short for one.
    pub fn load(region: &[u8]) -> (order: Option<FIFORestingOrder>)
        ensures
            order == (if region@.len() >= RESTING_ORDER_BYTES {
                Some(Self::decoded(region@))
            } else {
                None
            }),
    {
        match read_quad(region) {
            Some(words) => Some(decode_order(words)),
            None => None,
        }
    }

    /// Writes this resting order to the front of a region. Nothing is
    /// written to a region that is too short, and the answer is `false`.
    pub fn store(&self, region: &mut [u8]) -> (written: bool)
        ensures
            written == (old(region)@.len() >= RESTING_ORDER_BYTES),
            written ==> final(region)@ == self.encoded(old(region)@),
            !written ==> final(region)@ == old(region)@,
    {
        write_quad(region, encode_order(self))
    }

    /// A resting order that was written to a region is the one that is read
    /// from it, whatever the region held before; the bytes behind the record
    /// stay; and writing back what was read changes nothing.
    pub proof fn lemma_layout_round_trip(self, region: Seq<u8>)
        requires
            region.len() >= RESTING_ORDER_BYTES,
        ensures
            self.encoded(region).len() == region.len(),
            Self::decoded(self.encoded(region)) == self,
            forall|i: int|
                RESTING_ORDER_BYTES <= i < region.len() ==> self.encoded(region)[i] == region[i],
            Self::decoded(region).encoded(region) == region,
    {
        lemma_quad_written(region, words_of(self));
        lemma_quad_rewritten(region);
    }
}

impl TraderState {
    /// The ledger that a region holds at its front.
    pub open spec fn decoded(region: Seq<u8>) -> TraderState {
        ledger_of(quad_at(region))
    }

    /// The region with this ledger written at its front.
    pub open spec fn encoded(self, region: Seq<u8>) -> Seq<u8> {
        with_quad(region, ledger_words(self))
    }

    /// Reads a ledger from the front of a region; `None` of a region that is
    /// too short for one.
    pub fn load(region: &[u8]) -> (state: Option<TraderState>)
        ensures
            state == (if region@.len() >= TRADER_STATE_BYTES {
                Some(Self::decoded(region@))
            } else {
                None
            }),
    {
        match read_quad(region) {
            Some(words) => Some(decode_ledger(words)),
            None => None,
        }
    }

    /// Writes this ledger to the front of a region. Nothing is written to a
    /// region that is too short, and the answer is `false`.
    pub fn store(&self, region: &mut [u8]) -> (written: bool)
        ensures
            written == (old(region)@.len() >= TRADER_STATE_BYTES),
            written ==> final(region)@ == self.encoded(old(region)@),
            !written ==> final(region)@ == old(region)@,
    {
        write_quad(region, encode_ledger(self))
    }

    /// A ledger that was written to a region is the one that is read from
    /// it, whatever the region held before; the bytes behind the record
    /// stay; and writing back what was read changes nothing.
    pub proof fn lemma_layout_round_trip(self, region: Seq<u8>)
        requires
            region.len() >= TRADER_STATE_BYTES,
        ensures
            self.encoded(region).len() == region.len(),
            Self::decoded(self.encoded(region)) == self,
            forall|i: int|
                TRADER_STATE_BYTES <= i < region.len() ==> self.encoded(region)[i] == region[i],
            Self::decoded(region).encoded(region) == region,
    {
        lemma_quad_written(region, ledger_words(self));
        lemma_quad_rewritten(region);
    }
}

impl FIFOOrderId {
    /// The identity that a region holds at its front.
    pub open spec fn decoded(region: Seq<u8>) -> FIFOOrderId {
        FIFOOrderId {
            price_in_ticks: Ticks { inner: word_at(region, 0) },
            order_sequence_number: word_at(region, 8),
        }
    }

    /// The region with this identity written at its front.
    pub open spec fn encoded(self, region: Seq<u8>) -> Seq<u8> {
        with_word(with_word(region, 0, self.price_in_ticks@), 8, self.order_sequence_number)
    }

    /// Reads an identity from the front of a region; `None` of a region that
    /// is too short for one.
    pub fn load(region: &[u8]) -> (id: Option<FIFOOrderId>)
        ensures
            id == (if region@.len() >= ORDER_ID_BYTES {
                Some(Self::decoded(region@))
            } else {
                None
            }),
    {
        match (read_word(region, 0), read_word(region, 8)) {
            (Some(price), Some(sequence)) => Some(
                FIFOOrderId { price_in_ticks: Ticks { inner: price }, order_sequence_number: sequence },
            ),
            _ => None,
        }
    }

    /// Writes this identity to the front of a region. Nothing is written to
    /// a region that is too short, and the answer is `false`.
    pub fn store(&self, region: &mut [u8]) -> (written: bool)
        ensures
            written == (old(region)@.len() >= ORDER_ID_BYTES),
            written ==> final(region)@ == self.encoded(old(region)@),
            !written ==> final(region)@ == old(region)@,
    {
        if region.len() < ORDER_ID_BYTES {
            return false;
        }
        proof {
            lemma_word_written(region@, 0, self.price_in_ticks@, 0);
        }
        write_word(region, 0, self.price_in_ticks.inner);
        write_word(region, 8, self.order_sequence_number);
        true
    }

    /// An identity that was written to a region is the one that is read from
    /// it, whatever the region held before; the bytes behind the record
    /// stay; and writing back what was read changes nothing.
    pub proof fn lemma_layout_round_trip(self, region: Seq<u8>)
        requires
            region.len() >= ORDER_ID_BYTES,
        ensures
            self.encoded(region).len() == region.len(),
            Self::decoded(self.encoded(region)) == self,
            forall|i: int| ORDER_ID_BYTES <= i < region.len() ==> self.encoded(region)[i] == region[i],
            Self::decoded(region).encoded(region) == region,
    {
        let first = with_word(region, 0, self.price_in_ticks@);
        lemma_word_written(region, 0, self.price_in_ticks@, 0);
        lemma_word_written(first, 8, self.order_sequence_number, 0);
        lemma_word_rewritten(region, 0);
        lemma_word_rewritten(region, 8);
    }
}

} // verus!
