//! Configuration constants of the chain.

use vstd::prelude::*;

verus! {

/// Hex digest of the genesis block's canonical pre-image.
pub const GEN_HASH: &'static str =
    "7030f6d6330f846d7e5308ddcabfc523d200f364f245ca48a47d5a65b9099230";

/// Timestamp of the genesis block, in milliseconds since the epoch.
pub const START_TIME: i64 = 1_640_995_200_000;

/// Payload of the genesis block.
pub const GENESIS_DATA: &'static str = "Genesis";

/// Difficulty of the genesis block.
pub const GENESIS_DIFFICULTY: u32 = 0;

/// Clock tolerance used when judging a block's timestamp, in milliseconds.
pub const MINUTE_IN_MILLISECOND: i64 = 60_000;

/// Expected time to mine one block, in milliseconds.
pub const BLOCK_GENERATION_INTERVAL: u32 = 10_000;

/// Number of blocks between two difficulty retargets.
pub const DIFFICULTY_ADJUSTMENT_INTERVAL: u32 = 10;

} // verus!
