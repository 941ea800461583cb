//! The data model of a limit order book: quantities that carry their unit,
//! orders ranked in price-time priority, the ledgers of the traders, and the
//! market that holds them in indices of fixed capacity.
//!
//! Every function states what it returns and changes, and is proved to do so
//! and not to panic. The proofs rest on what `state::markets::ordered_index`
//! states of the tree that the indices are kept in.

pub mod quantities;
pub mod state;
