//! Outcomes of a failed validation.

use vstd::prelude::*;

verus! {

/// Why a block, or a foreign chain, was rejected.
///
/// Every kind is a recoverable outcome: the rejected value is dropped and
/// the local chain stays as it was.
#[derive(Debug, Clone, Copy, PartialEq, Eq, Structural)]
pub enum ErrorKind {
    /// The block does not name its predecessor's hash.
    LinkageMismatch,
    /// The block's timestamp is too far from its predecessor's or from the clock.
    InvalidTimestamp,
    /// The block's index does not follow its predecessor's.
    IndexMismatch,
    /// The block's hash is not the digest of its pre-image.
    HashMismatch,
    /// The block's hash does not reach the block's difficulty.
    DifficultyNotMet,
    /// A foreign chain starts from another genesis block.
    GenesisMismatch,
    /// A foreign chain's genesis hash is not the digest of its genesis block.
    GenesisHashInvalid,
}

/// Why no block came out of mining onto a chain.
#[derive(Debug, Clone, Copy, PartialEq, Eq, Structural)]
pub enum MineError {
    /// No 32-bit nonce gives a hash that meets the difficulty.
    NonceSpaceExhausted,
    /// A block was mined, and the chain refused it.
    Rejected(ErrorKind),
}

impl ErrorKind {
    /// The text shown for each kind.
    pub open spec fn text(self) -> Seq<char> {
        match self {
            ErrorKind::LinkageMismatch => "New block doesn't have old block's hash"@,
            ErrorKind::InvalidTimestamp => "Invalid timestamp"@,
            ErrorKind::IndexMismatch => "New block's index is malformed"@,
            ErrorKind::HashMismatch => "Invalid block, hash doesn't correlate with data"@,
            ErrorKind::DifficultyNotMet => "Difficulty was not achieved, block is mischievous!"@,
            ErrorKind::GenesisMismatch => "Genesis block not the same"@,
            ErrorKind::GenesisHashInvalid => "Genesis block's data doesnt correlate with hash"@,
        }
    }

    /// Human-readable description of the error.
    pub fn message(&self) -> (s: &'static str)
        ensures
            s@ == self.text(),
    {
        match self {
            ErrorKind::LinkageMismatch => "New block doesn't have old block's hash",
            ErrorKind::InvalidTimestamp => "Invalid timestamp",
            ErrorKind::IndexMismatch => "New block's index is malformed",
            ErrorKind::HashMismatch => "Invalid block, hash doesn't correlate with data",
            ErrorKind::DifficultyNotMet => "Difficulty was not achieved, block is mischievous!",
            ErrorKind::GenesisMismatch => "Genesis block not the same",
            ErrorKind::GenesisHashInvalid => "Genesis block's data doesnt correlate with hash",
        }
    }
}

} // verus!
