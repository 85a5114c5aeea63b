//! A verified read-only balance aggregator for fungible-token accounts.
//!
//! Given a user address and an ordered list of token contract addresses, the
//! aggregator combines the outcomes of per-token metadata queries (balance,
//! decimal precision, symbol) into an ordered result sequence, substituting
//! safe defaults for any sub-query that failed, and offers a non-zero filter
//! over such results. Issuing the remote queries themselves is transport
//! work left to the surrounding runtime; this crate holds and proves the
//! aggregation rules.

pub mod u256;
pub mod token;
pub mod reader;
