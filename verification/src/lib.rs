//! Verified core of a read-only DEX arbitrage scanner.
pub mod arb;
pub mod config;
pub mod db;
pub mod dex;
pub mod pools;
pub mod runtime;
pub mod types;
pub mod u256;
