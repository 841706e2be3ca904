//! Threshold-weighted voting for organizations whose members hold stake.
//!
//! A [`ledger::VoteLedger`] mints a fixed pool of signal for each vote it
//! opens, records every member's direction, keeps a running tally, and
//! answers outcome and expiry queries from that tally alone. All arithmetic
//! is on integers, so that replaying the same calls at the same block heights
//! gives the same ledger.
//!
//! The ledger's contracts are stated over [`model::LedgerView`], the ledger
//! as a mathematical value; [`laws`] holds what is proved of every ledger
//! that calls can reach.

pub mod consistency;
pub mod dispatch;
pub mod error;
pub mod group;
pub mod laws;
pub mod ledger;
pub mod minting;
pub mod model;
pub mod opening;
pub mod permill;
pub mod registry;
pub mod tally;
pub mod threshold;
pub mod unique_id;
pub mod vote;
pub mod voting;
