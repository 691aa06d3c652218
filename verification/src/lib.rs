//! Proof-of-work mining and chain integrity for a minimal blockchain.
//!
//! A block is hashed over a canonical pre-image, mined against a difficulty
//! target, validated against its predecessor and appended to an in-memory
//! chain. The difficulty target is retargeted from observed mining time.
//!
//! - [`block`]: blocks, their pre-image, the miner and the validator;
//! - [`db`]: the chain store, and what makes a chain valid;
//! - [`utils`]: the hasher and the difficulty evaluator;
//! - [`decimal`]: how numbers are written in a pre-image;
//! - [`error`]: the kinds of rejection;
//! - [`constants`]: the genesis block and the intervals;
//! - [`transaction`]: transaction records.

pub mod block;
pub mod constants;
pub mod db;
pub mod decimal;
pub mod error;
pub mod transaction;
pub mod utils;
