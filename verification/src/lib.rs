//! The decisions of an agent that brokers proof requests to a proving market.
//!
//! Storage, the market and the clock are outside. The library is told what they answered, and
//! says what to keep in memory, what to store, what to send and what to report.

pub mod cleanup;
pub mod client;
pub mod config;
pub mod error;
pub mod json;
pub mod laws;
pub mod market;
pub mod offer;
pub mod promises;
pub mod prover;
pub mod response;
pub mod retry;
pub mod submission;
pub mod table;
pub mod text;
pub mod types;
pub mod u256;
pub mod units;
pub mod utils;
