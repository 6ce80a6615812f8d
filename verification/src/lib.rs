//! Verified core of an auction marketplace: price progression of bids, the
//! read-through item cache, the similar-items reference index and the
//! tracking of long-running ledger operations.
//!
//! Every decision is a function from plain values to plain values. The
//! surrounding service performs the network calls that a flow asks for and
//! hands back what came of them.

pub mod aggregates;
pub mod batch;
pub mod catalog;
pub mod config;
pub mod errors;
pub mod handover;
pub mod holdings;
pub mod items;
pub mod items_model;
pub mod json;
pub mod keys;
pub mod ledger;
pub mod ledger_model;
pub mod lifecycle;
pub mod listing;
pub mod operations;
pub mod page;
pub mod query;
pub mod removal;
pub mod responses;
pub mod retire;
pub mod retire_model;
pub mod similar;
pub mod storage;
pub mod text;
pub mod transfers;
pub mod types;
pub mod uploads;
pub mod upstream;
