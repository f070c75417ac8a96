//! Coinbase and genesis subsystem of a block-DAG consensus engine.
//!
//! The crate computes the block subsidy schedule, encodes and decodes the
//! coinbase payload, distributes mergeset rewards into transaction outputs,
//! assembles the expected coinbase transaction, and holds the immutable
//! genesis constants of every network.

pub mod coinbase;
pub mod ghostdag;
pub mod compact_bits;
pub mod genesis;
pub mod hash;
pub mod subsidy;
pub mod tx;
