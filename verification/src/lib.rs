//! A marketplace core for chain-tracked collectibles: the fee model, the
//! listing store with its status transitions, the selection of a buyer's
//! funding outputs, and the assembly of the unsigned settlement transaction.
//!
//! Every function here carries a contract that is proved, apart from the few
//! wrappers in `chain` and `clock`, whose contracts describe code of other
//! crates and are taken on trust.
//!
//! The library does no input or output. It decides on values: a caller
//! fetches, broadcasts and persists, and hands in what came back.

pub mod api;
pub mod chain;
pub mod clock;
pub mod config;
pub mod error;
pub mod fees;
pub mod funding;
pub mod indexer;
pub mod listings_db;
pub mod models;
pub mod persistence;
pub mod settlement;
pub mod store_model;
pub mod text;
pub mod tx_builder;
pub mod wallet;
