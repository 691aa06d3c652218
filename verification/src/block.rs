//! Blocks: their canonical pre-image, the miner and the validator.

use vstd::prelude::*;
use vstd::string::*;

use crate::constants::{DIFFICULTY_ADJUSTMENT_INTERVAL, MINUTE_IN_MILLISECOND};
use crate::db::{lemma_valid_chain_indices, valid_chain, DB};
use crate::decimal::{decimal, render_signed, render_unsigned, signed_decimal};
use crate::error::{ErrorKind, MineError};
use crate::utils::{
    generate_difficulty, hash, meets_difficulty, retarget_due, retargeted_difficulty,
    scored_difficulty, sha256_hex,
};

verus! {

/// A candidate that has not been hashed yet: a block without nonce and hash.
pub struct UnresolvedBlock<'a> {
    pub index: u32,
    pub data: &'a str,
    pub prev_hash: &'a str,
    pub timestamp: i64,
    pub difficulty: u32,
}

/// A mined block.
#[derive(Debug)]
pub struct Block {
    pub index: u32,
    pub data: String,
    pub timestamp: i64,
    pub prev_hash: String,
    /// Counter that was varied until the hash met the difficulty.
    pub nonce: u32,
    /// Hex digest of the block's canonical pre-image.
    pub hash: String,
    /// Number of leading zero characters required of `hash`.
    pub difficulty: u32,
}

/// The winning nonce of a search, and the hash it gives.
pub struct BlockHashMeta(pub u32, pub String);

/// Mathematical value of an [`UnresolvedBlock`].
pub struct CandidateView {
    pub index: nat,
    pub data: Seq<char>,
    pub prev_hash: Seq<char>,
    pub timestamp: int,
    pub difficulty: nat,
}

/// Mathematical value of a [`Block`].
pub struct BlockView {
    pub index: nat,
    pub data: Seq<char>,
    pub timestamp: int,
    pub prev_hash: Seq<char>,
    pub nonce: nat,
    pub hash: Seq<char>,
    pub difficulty: nat,
}

impl<'a> View for UnresolvedBlock<'a> {
    type V = CandidateView;

    open spec fn view(&self) -> CandidateView {
        CandidateView {
            index: self.index as nat,
            data: self.data@,
            prev_hash: self.prev_hash@,
            timestamp: self.timestamp as int,
            difficulty: self.difficulty as nat,
        }
    }
}

impl View for Block {
    type V = BlockView;

    open spec fn view(&self) -> BlockView {
        BlockView {
            index: self.index as nat,
            data: self.data@,
            timestamp: self.timestamp as int,
            prev_hash: self.prev_hash@,
            nonce: self.nonce as nat,
            hash: self.hash@,
            difficulty: self.difficulty as nat,
        }
    }
}

/// The canonical pre-image: nonce, index, data, timestamp and predecessor
/// hash, in this order, the numbers in decimal, with nothing in between.
pub open spec fn preimage(
    nonce: nat,
    index: nat,
    data: Seq<char>,
    timestamp: int,
    prev_hash: Seq<char>,
) -> Seq<char> {
    decimal(nonce) + decimal(index) + data + signed_decimal(timestamp) + prev_hash
}

impl CandidateView {
    /// Digest of the candidate's pre-image under a given nonce.
    pub open spec fn digest_at(self, nonce: nat) -> Seq<char> {
        sha256_hex(preimage(nonce, self.index, self.data, self.timestamp, self.prev_hash))
    }

    /// The nonce gives a hash that meets the candidate's difficulty.
    pub open spec fn solved_by(self, nonce: nat) -> bool {
        meets_difficulty(self.digest_at(nonce), self.difficulty)
    }

    /// No nonce from `first` up to, but without, `end` solves the candidate.
    pub open spec fn unsolved_in(self, first: nat, end: nat) -> bool {
        forall|n: nat| first <= n < end ==> !self.solved_by(n)
    }

    /// The block that the candidate becomes under a nonce and its hash.
    pub open spec fn resolve(self, nonce: nat, hash: Seq<char>) -> BlockView {
        BlockView {
            index: self.index,
            data: self.data,
            timestamp: self.timestamp,
            prev_hash: self.prev_hash,
            nonce,
            hash,
            difficulty: self.difficulty,
        }
    }
}

impl BlockView {
    /// The block's canonical pre-image.
    pub open spec fn preimage(self) -> Seq<char> {
        preimage(self.nonce, self.index, self.data, self.timestamp, self.prev_hash)
    }

    /// Digest of the block's canonical pre-image.
    pub open spec fn digest(self) -> Seq<char> {
        sha256_hex(self.preimage())
    }
}

/// A candidate's timestamp is plausible when it is later than one tolerance
/// before the predecessor's, and earlier than one tolerance after the clock.
pub open spec fn timestamp_plausible(candidate: int, predecessor: int, now: int) -> bool {
    &&& predecessor - MINUTE_IN_MILLISECOND < candidate
    &&& candidate - MINUTE_IN_MILLISECOND < now
}

/// Verdict on a candidate against its predecessor, given the digest that was
/// recomputed from the candidate's fields and the time on the clock. The
/// checks run in a fixed order and the first that fails decides.
pub open spec fn validation_outcome(
    candidate: BlockView,
    predecessor: BlockView,
    recomputed: Seq<char>,
    now: int,
) -> Result<(), ErrorKind> {
    if candidate.prev_hash != predecessor.hash {
        Err(ErrorKind::LinkageMismatch)
    } else if !timestamp_plausible(candidate.timestamp, predecessor.timestamp, now) {
        Err(ErrorKind::InvalidTimestamp)
    } else if candidate.index != predecessor.index + 1 {
        Err(ErrorKind::IndexMismatch)
    } else if recomputed != candidate.hash {
        Err(ErrorKind::HashMismatch)
    } else if !meets_difficulty(candidate.hash, candidate.difficulty) {
        Err(ErrorKind::DifficultyNotMet)
    } else {
        Ok(())
    }
}

/// A chain can be extended when the next index and the next difficulty are
/// 32-bit numbers, and the history reaches back far enough wherever the next
/// block is one at which the difficulty is retargeted.
pub open spec fn extendable(history: Seq<BlockView>) -> bool {
    let latest = history.last();
    &&& history.len() > 0
    &&& latest.index < u32::MAX
    &&& retarget_due(latest.index + 1) ==> history.len() > DIFFICULTY_ADJUSTMENT_INTERVAL
    &&& 0 <= retargeted_difficulty(history, latest.index + 1, latest.difficulty) <= u32::MAX
}

/// The candidate that extends `history` with a payload at a timestamp: it
/// follows the latest block, names its hash, and carries the difficulty that
/// the history asks for.
pub open spec fn next_candidate(
    history: Seq<BlockView>,
    data: Seq<char>,
    timestamp: int,
) -> CandidateView {
    let latest = history.last();
    CandidateView {
        index: latest.index + 1,
        data,
        prev_hash: latest.hash,
        timestamp,
        difficulty: retargeted_difficulty(history, latest.index + 1, latest.difficulty) as nat,
    }
}

/// `block` is what mining makes of `candidate`: the candidate under the
/// least nonce that solves it, with the hash that this nonce gives.
pub open spec fn mined_from(candidate: CandidateView, block: BlockView) -> bool {
    &&& candidate.solved_by(block.nonce)
    &&& candidate.unsolved_in(0, block.nonce)
    &&& block == candidate.resolve(block.nonce, candidate.digest_at(block.nonce))
}

/// What [`Block::new`] makes of a chain and a payload, when the clock shows
/// `timestamp` as mining starts and `now` as the mined block is validated.
pub open spec fn mined_onto(
    before: DB,
    data: Seq<char>,
    timestamp: int,
    now: int,
    after: DB,
    mined: Result<&Block, MineError>,
) -> bool {
    let candidate = next_candidate(before@, data, timestamp);
    let plausible = timestamp_plausible(timestamp, before@.last().timestamp, now);
    match mined {
        Ok(block) => {
            &&& mined_from(candidate, block@)
            &&& plausible
            &&& after.chain@ == before.chain@.push(*block)
        },
        Err(MineError::NonceSpaceExhausted) => {
            &&& candidate.unsolved_in(0, u32::MAX as nat + 1)
            &&& after.chain@ == before.chain@
        },
        Err(MineError::Rejected(kind)) => {
            &&& !candidate.unsolved_in(0, u32::MAX as nat + 1)
            &&& !plausible
            &&& kind == ErrorKind::InvalidTimestamp
            &&& after.chain@ == before.chain@
        },
    }
}

/// A block that does not name its predecessor's hash is refused for its
/// linkage, whatever else it holds.
pub proof fn lemma_unrelated_prev_hash(
    candidate: BlockView,
    predecessor: BlockView,
    recomputed: Seq<char>,
    now: int,
)
    requires
        candidate.prev_hash != predecessor.hash,
    ensures
        validation_outcome(candidate, predecessor, recomputed, now) == Err::<(), ErrorKind>(
            ErrorKind::LinkageMismatch,
        ),
{
}

/// A block that names its predecessor's hash and has a plausible timestamp
/// is refused for its index when that is not the predecessor's plus one:
/// so when it is the predecessor's plus two.
pub proof fn lemma_wrong_index(
    candidate: BlockView,
    predecessor: BlockView,
    recomputed: Seq<char>,
    now: int,
)
    requires
        candidate.prev_hash == predecessor.hash,
        timestamp_plausible(candidate.timestamp, predecessor.timestamp, now),
        candidate.index != predecessor.index + 1,
    ensures
        validation_outcome(candidate, predecessor, recomputed, now) == Err::<(), ErrorKind>(
            ErrorKind::IndexMismatch,
        ),
{
}

/// Of a block that validates, a copy with another payload, nonce, hash or
/// difficulty is refused for its hash, unless the hash that the copy records
/// is the digest of the copy's own pre-image.
pub proof fn lemma_tampering_breaks_hash(
    block: BlockView,
    tampered: BlockView,
    predecessor: BlockView,
    now: int,
)
    requires
        validation_outcome(block, predecessor, block.digest(), now) is Ok,
        tampered.index == block.index,
        tampered.timestamp == block.timestamp,
        tampered.prev_hash == block.prev_hash,
        tampered.hash != tampered.digest(),
    ensures
        validation_outcome(tampered, predecessor, tampered.digest(), now) == Err::<(), ErrorKind>(
            ErrorKind::HashMismatch,
        ),
{
}

/// Of a block that validates, a copy that differs in the recorded hash alone
/// is refused for its hash.
pub proof fn lemma_tampered_hash_field(
    block: BlockView,
    forged_hash: Seq<char>,
    predecessor: BlockView,
    now: int,
)
    requires
        validation_outcome(block, predecessor, block.digest(), now) is Ok,
        forged_hash != block.hash,
    ensures
        ({
            let tampered = BlockView { hash: forged_hash, ..block };
            validation_outcome(tampered, predecessor, tampered.digest(), now) == Err::<
                (),
                ErrorKind,
            >(ErrorKind::HashMismatch)
        }),
{
}

/// Mining has one outcome: two nonces that both are the least to solve a
/// candidate are the same nonce.
pub proof fn lemma_least_solution_unique(candidate: CandidateView, one: nat, other: nat)
    requires
        candidate.solved_by(one),
        candidate.unsolved_in(0, one),
        candidate.solved_by(other),
        candidate.unsolved_in(0, other),
    ensures
        one == other,
{
}

/// A valid chain reaches back far enough for every retarget, so it can be
/// extended as long as the next index and the next difficulty are 32-bit
/// numbers.
pub proof fn lemma_valid_chain_extendable(history: Seq<BlockView>)
    requires
        valid_chain(history),
        history.last().index < u32::MAX,
        0 <= retargeted_difficulty(
            history,
            history.last().index + 1,
            history.last().difficulty,
        ) <= u32::MAX,
    ensures
        extendable(history),
{
    lemma_valid_chain_indices(history, history.len() - 1);
}

/// At difficulty zero the first nonce solves every candidate.
pub proof fn lemma_zero_difficulty_solved_at_once(candidate: CandidateView)
    requires
        candidate.difficulty == 0,
    ensures
        candidate.solved_by(0),
        candidate.unsolved_in(0, 0),
{
}

/// What mining makes of the candidate that extends a chain validates
/// against the chain's tip, at any clock time at which its timestamp is
/// plausible.
pub proof fn lemma_mined_block_validates(
    history: Seq<BlockView>,
    data: Seq<char>,
    timestamp: int,
    block: BlockView,
    now: int,
)
    requires
        history.len() > 0,
        mined_from(next_candidate(history, data, timestamp), block),
        timestamp_plausible(timestamp, history.last().timestamp, now),
    ensures
        validation_outcome(block, history.last(), block.digest(), now) == Ok::<(), ErrorKind>(()),
{
    let candidate = next_candidate(history, data, timestamp);
}

/// Milliseconds since the epoch on the system clock.
///
/// Calls `chrono::Utc::now` and `DateTime::timestamp_millis`. The value
/// depends on the machine's clock, so nothing is claimed of it. `Utc::now`
/// panics on a machine whose clock stands before the epoch.
#[verifier::external_body]
pub(crate) fn now_millis() -> (millis: i64) {
    chrono::Utc::now().timestamp_millis()
}

impl Block {
    /// Assembles the canonical pre-image of a block.
    pub fn block_merge(
        nonce: u32,
        index: u32,
        data: &str,
        timestamp: i64,
        prev_hash: &str,
    ) -> (merged: String)
        ensures
            merged@ == preimage(nonce as nat, index as nat, data@, timestamp as int, prev_hash@),
    {
        let mut merged = render_unsigned(nonce as u64);
        let index_digits = render_unsigned(index as u64);
        let timestamp_digits = render_signed(timestamp);
        merged.append(index_digits.as_str());
        merged.append(data);
        merged.append(timestamp_digits.as_str());
        merged.append(prev_hash);
        merged
    }

    /// Tries the nonces from `first` to `last`, both included, in increasing
    /// order, and stops at the first whose hash meets the candidate's
    /// difficulty. A search that found nothing can be taken up again at
    /// `last + 1`.
    pub fn search_nonces(block: &UnresolvedBlock, first: u32, last: u32) -> (found: Option<
        BlockHashMeta,
    >)
        ensures
            match found {
                Some(meta) => {
                    &&& first <= meta.0 <= last
                    &&& block@.solved_by(meta.0 as nat)
                    &&& block@.unsolved_in(first as nat, meta.0 as nat)
                    &&& meta.1@ == block@.digest_at(meta.0 as nat)
                },
                None => block@.unsolved_in(first as nat, last as nat + 1),
            },
    {
        if first > last {
            return None;
        }
        let mut nonce: u32 = first;
        loop
            invariant
                first <= nonce <= last,
                block@.unsolved_in(first as nat, nonce as nat),
            decreases last - nonce,
        {
            let merged = Block::block_merge(
                nonce,
                block.index,
                block.data,
                block.timestamp,
                block.prev_hash,
            );
            let block_hash = hash(merged.as_str());
            if scored_difficulty(block_hash.as_str(), block.difficulty) {
                return Some(BlockHashMeta(nonce, block_hash));
            }
            if nonce == last {
                return None;
            }
            nonce += 1;
        }
    }

    /// Mines a candidate: searches the whole nonce space from zero upwards.
    ///
    /// Returns the least nonce whose hash meets the candidate's difficulty,
    /// with that hash, or `None` when no 32-bit nonce does. At difficulty
    /// zero the first attempt succeeds.
    pub fn find_block_hash_meta(block: UnresolvedBlock) -> (found: Option<BlockHashMeta>)
        ensures
            match found {
                Some(meta) => {
                    &&& block@.solved_by(meta.0 as nat)
                    &&& block@.unsolved_in(0, meta.0 as nat)
                    &&& meta.1@ == block@.digest_at(meta.0 as nat)
                },
                None => block@.unsolved_in(0, u32::MAX as nat + 1),
            },
            block.difficulty == 0 ==> (found matches Some(meta) && meta.0 == 0),
    {
        let found = Block::search_nonces(&block, 0, u32::MAX);
        proof {
            if block.difficulty == 0 {
                lemma_zero_difficulty_solved_at_once(block@);
            }
        }
        found
    }

    /// Mines the block that extends the chain with `data` at `timestamp`.
    ///
    /// The candidate follows the latest block and carries the difficulty
    /// that the history asks for. The result is the candidate under the
    /// least nonce that solves it, or `None` when no 32-bit nonce does.
    pub fn mine(data: &str, block_chain_db: &DB, timestamp: i64) -> (mined: Option<Block>)
        requires
            extendable(block_chain_db@),
        ensures
            match mined {
                Some(block) => mined_from(
                    next_candidate(block_chain_db@, data@, timestamp as int),
                    block@,
                ),
                None => next_candidate(block_chain_db@, data@, timestamp as int).unsolved_in(
                    0,
                    u32::MAX as nat + 1,
                ),
            },
    {
        let latest_block = &block_chain_db.chain[block_chain_db.chain.len() - 1];
        let index: u32 = latest_block.index + 1;
        let inherited = UnresolvedBlock {
            index,
            data,
            prev_hash: latest_block.hash.as_str(),
            timestamp,
            difficulty: latest_block.difficulty,
        };
        let difficulty: u32 = generate_difficulty(block_chain_db, &inherited);
        let unresolved_block = UnresolvedBlock {
            index,
            data,
            prev_hash: latest_block.hash.as_str(),
            timestamp,
            difficulty,
        };
        match Block::find_block_hash_meta(unresolved_block) {
            None => None,
            Some(BlockHashMeta(nonce, hash)) => Some(
                Block {
                    index,
                    data: String::from_str(data),
                    timestamp,
                    hash,
                    prev_hash: latest_block.hash.clone(),
                    nonce,
                    difficulty,
                },
            ),
        }
    }

    /// Mines the block that extends the chain with `data`, and appends it.
    ///
    /// The clock is read twice: for the block's timestamp, and when the
    /// mined block is validated against the latest block. A block that was
    /// mined can only be refused for its timestamp, when the clock and the
    /// latest block are more than the tolerance apart.
    pub fn new<'a>(data: &str, block_chain_db: &'a mut DB) -> (mined: Result<&'a Block, MineError>)
        requires
            extendable(old(block_chain_db)@),
        ensures
            exists|timestamp: i64, now: i64| #[trigger]
                mined_onto(
                    *old(block_chain_db),
                    data@,
                    timestamp as int,
                    now as int,
                    *final(block_chain_db),
                    mined,
                ),
            valid_chain(old(block_chain_db)@) ==> valid_chain(final(block_chain_db)@),
    {
        let timestamp: i64 = now_millis();
        let ghost before = *block_chain_db;
        match Block::mine(data, block_chain_db, timestamp) {
            None => {
                assert(mined_onto(
                    before,
                    data@,
                    timestamp as int,
                    timestamp as int,
                    *block_chain_db,
                    Err(MineError::NonceSpaceExhausted),
                ));
                Err(MineError::NonceSpaceExhausted)
            },
            Some(block) => {
                let ghost mined_block = block;
                let verdict = match block_chain_db.add_block(block) {
                    Ok(_) => Ok(()),
                    Err(kind) => Err(kind),
                };
                proof {
                    let now = choose|now: i64|
                        verdict == validation_outcome(
                            mined_block@,
                            before@.last(),
                            mined_block@.digest(),
                            now as int,
                        );
                    if timestamp_plausible(
                        timestamp as int,
                        before@.last().timestamp,
                        now as int,
                    ) {
                        lemma_mined_block_validates(
                            before@,
                            data@,
                            timestamp as int,
                            mined_block@,
                            now as int,
                        );
                    }
                    let mined = match verdict {
                        Ok(()) => Ok(&block_chain_db.chain@.last()),
                        Err(kind) => Err(MineError::Rejected(kind)),
                    };
                    assert(mined_onto(
                        before,
                        data@,
                        timestamp as int,
                        now as int,
                        *block_chain_db,
                        mined,
                    ));
                }
                match verdict {
                    Ok(()) => Ok(&block_chain_db.chain[block_chain_db.chain.len() - 1]),
                    Err(kind) => Err(MineError::Rejected(kind)),
                }
            },
        }
    }

    /// Judges this block against its predecessor, given the digest recomputed
    /// from this block's fields and the time on the clock.
    pub fn check(&self, prev_block: &Block, recomputed_hash: &String, now: i64) -> (outcome: Result<
        (),
        ErrorKind,
    >)
        ensures
            outcome == validation_outcome(self@, prev_block@, recomputed_hash@, now as int),
    {
        let tolerance: i128 = MINUTE_IN_MILLISECOND as i128;
        let timestamp: i128 = self.timestamp as i128;
        let after_predecessor = (prev_block.timestamp as i128) - tolerance < timestamp;
        let before_clock = timestamp - tolerance < (now as i128);
        if self.prev_hash != prev_block.hash {
            Err(ErrorKind::LinkageMismatch)
        } else if !(after_predecessor && before_clock) {
            Err(ErrorKind::InvalidTimestamp)
        } else if prev_block.index == u32::MAX || self.index != prev_block.index + 1 {
            Err(ErrorKind::IndexMismatch)
        } else if *recomputed_hash != self.hash {
            Err(ErrorKind::HashMismatch)
        } else if !scored_difficulty(self.hash.as_str(), self.difficulty) {
            Err(ErrorKind::DifficultyNotMet)
        } else {
            Ok(())
        }
    }

    /// Validates this block against its predecessor at clock time `now`.
    ///
    /// The digest is recomputed from the block's own fields and handed to
    /// [`Block::check`].
    pub fn validate_block_at(&self, prev_block: &Block, now: i64) -> (outcome: Result<
        (),
        ErrorKind,
    >)
        ensures
            outcome == validation_outcome(self@, prev_block@, self@.digest(), now as int),
    {
        let merged = Block::block_merge(
            self.nonce,
            self.index,
            self.data.as_str(),
            self.timestamp,
            self.prev_hash.as_str(),
        );
        let recomputed = hash(merged.as_str());
        self.check(prev_block, &recomputed, now)
    }

    /// Validates this block against its predecessor at the current time.
    ///
    /// The clock is read once; the verdict is the one that
    /// [`Block::validate_block_at`] gives for the time that was read.
    pub fn validate_block(&self, prev_block: &Block) -> (outcome: Result<(), ErrorKind>)
        ensures
            exists|now: i64|
                outcome == #[trigger] validation_outcome(
                    self@,
                    prev_block@,
                    self@.digest(),
                    now as int,
                ),
    {
        let now: i64 = now_millis();
        let outcome = self.validate_block_at(prev_block, now);
        outcome
    }
}

} // verus!
