//! A single-item, single-round escrow auction engine.
//!
//! Participants submit bids in one fungible asset; the engine deducts a flat
//! commission per bid, tracks the highest net bid, settles the winning amount
//! to the owner on close, and lets losing bidders reclaim their escrowed funds
//! afterward. The engine never moves funds itself: every operation returns the
//! fund-transfer instruction, if any, that a ledger collaborator must execute
//! atomically with the state change.

pub mod auction;
pub mod error;
pub mod state;
