//! Market configuration-update rules for a fixed-price sale platform.
//!
//! A market is an on-ledger record offering an item at a fixed price. While a
//! market is suspended, not past its end date, and still marked mutable, its
//! owner may change its name, description, price, mutability flag and
//! per-wallet purchase cap. This crate holds the record's data model and the
//! update processor that validates and applies such a change, together with
//! proofs of the rules that govern it.

pub mod error;
pub mod laws;
pub mod state;
pub mod update;
pub mod utils;
