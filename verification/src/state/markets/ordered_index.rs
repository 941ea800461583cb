//! The ordered index that both sides of the book and the table of traders
//! are kept in: a red-black tree of the `sokoban` crate, packed into one
//! block of memory whose size is fixed when the tree is made.
//!
//! Nothing in this file is proved. Each function makes one call into
//! `sokoban` and states what that call does; the rest of the library is
//! proved against these statements.

use vstd::prelude::*;
use sokoban::NodeAllocatorMap;
use sokoban::OrderedNodeAllocatorMap;
use sokoban::RedBlackTree;

verus! {

/// The largest capacity an index can be made with. The tree is built by value
/// before it moves to the heap, so its size is bounded by the stack.
pub const MAX_INDEX_CAPACITY: usize = 4096;

/// A `sokoban::RedBlackTree` from 128-bit keys, ordered as integers, to
/// records of four 64-bit words.
#[verifier::external_body]
pub struct OrderedIndex {
    tree: Box<dyn OrderedNodeAllocatorMap<u128, [u64; 4]>>,
}

/// The entries that an index holds.
pub uninterp spec fn index_entries(index: OrderedIndex) -> Map<u128, (u64, u64, u64, u64)>;

/// The number of entries that an index was made for.
pub uninterp spec fn index_capacity(index: OrderedIndex) -> nat;

/// `RedBlackTree::new`, boxed: an empty tree for up to `MAX_SIZE` entries.
#[verifier::external_body]
pub(crate) fn index_new<const MAX_SIZE: usize>() -> (index: OrderedIndex)
    requires
        0 < MAX_SIZE <= MAX_INDEX_CAPACITY,
    ensures
        index_entries(index) =~= Map::empty(),
        index_capacity(index) == MAX_SIZE,
{
    OrderedIndex { tree: Box::new(RedBlackTree::<u128, [u64; 4], MAX_SIZE>::new()) }
}

/// `NodeAllocatorMap::len`: the number of entries.
#[verifier::external_body]
pub(crate) fn index_len(index: &OrderedIndex) -> (count: usize)
    ensures
        count == index_entries(*index).dom().len(),
{
    index.tree.len()
}

/// `NodeAllocatorMap::capacity`: the number of entries the tree was made for.
#[verifier::external_body]
pub(crate) fn index_limit(index: &OrderedIndex) -> (limit: usize)
    ensures
        limit == index_capacity(*index),
{
    index.tree.capacity()
}

/// `NodeAllocatorMap::get`: the record under a key, if the key is present.
#[verifier::external_body]
pub(crate) fn index_get(index: &OrderedIndex, key: u128) -> (found: Option<(u64, u64, u64, u64)>)
    ensures
        found.is_some() <==> index_entries(*index).dom().contains(key),
        found.is_some() ==> found.unwrap() == index_entries(*index)[key],
{
    index.tree.get(&key).map(|words| (words[0], words[1], words[2], words[3]))
}

/// `NodeAllocatorMap::insert`. A key that is present gets the new record,
/// also in a full tree. A key that is absent is added with the record where
/// the tree has room, and the call returns the node's address; in a full tree
/// nothing changes and the call returns `None`.
#[verifier::external_body]
pub(crate) fn index_insert(index: &mut OrderedIndex, key: u128, words: (u64, u64, u64, u64)) -> (slot:
    Option<u32>)
    requires
        index_capacity(*old(index)) > 0,
    ensures
        index_capacity(*final(index)) == index_capacity(*old(index)),
        slot.is_some() <==> (index_entries(*old(index)).dom().contains(key) || index_entries(
            *old(index),
        ).dom().len() < index_capacity(*old(index))),
        slot.is_some() ==> index_entries(*final(index)) == index_entries(*old(index)).insert(
            key,
            words,
        ),
        slot.is_none() ==> index_entries(*final(index)) == index_entries(*old(index)),
{
    index.tree.insert(key, [words.0, words.1, words.2, words.3])
}

/// `NodeAllocatorMap::remove`: takes the entry under a key out of the tree
/// and returns its record; without such an entry nothing changes.
#[verifier::external_body]
pub(crate) fn index_remove(index: &mut OrderedIndex, key: u128) -> (removed: Option<
    (u64, u64, u64, u64),
>)
    ensures
        index_capacity(*final(index)) == index_capacity(*old(index)),
        removed.is_some() <==> index_entries(*old(index)).dom().contains(key),
        removed.is_some() ==> removed.unwrap() == index_entries(*old(index))[key],
        index_entries(*final(index)) == index_entries(*old(index)).remove(key),
{
    index.tree.remove(&key).map(|words| (words[0], words[1], words[2], words[3]))
}

/// `OrderedNodeAllocatorMap::get_min`: the entry with the least key, or
/// `None` of an empty tree. The tree is left as it was.
#[verifier::external_body]
pub(crate) fn index_min(index: &mut OrderedIndex) -> (least: Option<(u128, (u64, u64, u64, u64))>)
    ensures
        index_capacity(*final(index)) == index_capacity(*old(index)),
        index_entries(*final(index)) == index_entries(*old(index)),
        least.is_none() <==> (forall|key: u128| !index_entries(*old(index)).dom().contains(key)),
        least.is_some() ==> index_entries(*old(index)).dom().contains(least.unwrap().0)
            && index_entries(*old(index))[least.unwrap().0] == least.unwrap().1,
        least.is_some() ==> (forall|key: u128|
            index_entries(*old(index)).dom().contains(key) ==> least.unwrap().0 <= key),
{
    index.tree.get_min().map(|(key, words)| (key, (words[0], words[1], words[2], words[3])))
}

/// `NodeAllocatorMap::iter`, collected: every entry once, by rising key.
#[verifier::external_body]
pub(crate) fn index_items(index: &OrderedIndex) -> (items: Vec<(u128, (u64, u64, u64, u64))>)
    ensures
        items@.len() == index_entries(*index).dom().len(),
        forall|i: int|
            0 <= i < items@.len() ==> index_entries(*index).dom().contains(#[trigger] items@[i].0)
                && index_entries(*index)[items@[i].0] == items@[i].1,
        forall|i: int, j: int| 0 <= i < j < items@.len() ==> items@[i].0 < items@[j].0,
        forall|key: u128|
            index_entries(*index).dom().contains(key) ==> exists|i: int|
                0 <= i < items@.len() && #[trigger] items@[i].0 == key,
{
    index.tree.iter().map(|(key, words)| (*key, (words[0], words[1], words[2], words[3]))).collect()
}

} // verus!
