//! The hasher and the difficulty evaluator.

use vstd::prelude::*;
use vstd::std_specs::iter::IteratorSpec;
use vstd::string::*;

use crate::block::{BlockView, UnresolvedBlock};
use crate::constants::{BLOCK_GENERATION_INTERVAL, DIFFICULTY_ADJUSTMENT_INTERVAL};
use crate::db::DB;

verus! {

/// The lower-case hexadecimal SHA-256 digest of the UTF-8 encoding of `payload`.
pub uninterp spec fn sha256_hex(payload: Seq<char>) -> Seq<char>;

/// A hash meets a difficulty when it starts with at least that many `'0'`
/// characters.
pub open spec fn meets_difficulty(hash: Seq<char>, difficulty: nat) -> bool {
    &&& difficulty <= hash.len()
    &&& forall|i: int| 0 <= i < difficulty ==> hash[i] == '0'
}

/// Number of `'0'` characters at the start of a hash.
pub open spec fn leading_zeros(hash: Seq<char>) -> nat
    decreases hash.len(),
{
    if hash.len() > 0 && hash[0] == '0' {
        1 + leading_zeros(hash.drop_first())
    } else {
        0
    }
}

/// The difficulty is retargeted at every block whose index is a multiple of
/// the adjustment interval, from the second multiple on.
pub open spec fn retarget_due(index: nat) -> bool {
    &&& index > DIFFICULTY_ADJUSTMENT_INTERVAL
    &&& index % (DIFFICULTY_ADJUSTMENT_INTERVAL as nat) == 0
}

/// Half of the time that one adjustment interval is expected to take, in
/// milliseconds. The observed time is held against this half, not against
/// the whole expected time.
pub open spec fn retarget_threshold() -> int {
    (DIFFICULTY_ADJUSTMENT_INTERVAL * BLOCK_GENERATION_INTERVAL) / 2
}

/// Time between the block that lies one adjustment interval before the tip
/// of `history` and the tip itself.
pub open spec fn time_spent(history: Seq<BlockView>) -> int {
    let reference = history[history.len() - DIFFICULTY_ADJUSTMENT_INTERVAL - 1];
    history.last().timestamp - reference.timestamp
}

/// The difficulty required of a block with the given index that inherited
/// `difficulty`: one less when the last interval took longer than the
/// threshold, one more when it took less, the same otherwise and wherever
/// no retarget is due.
pub open spec fn retargeted_difficulty(
    history: Seq<BlockView>,
    index: nat,
    difficulty: nat,
) -> int {
    if !retarget_due(index) {
        difficulty as int
    } else if time_spent(history) > retarget_threshold() {
        difficulty as int - 1
    } else if time_spent(history) < retarget_threshold() {
        difficulty as int + 1
    } else {
        difficulty as int
    }
}

/// The first retarget falls on the block whose index is twice the adjustment
/// interval. There, and wherever else a retarget is due, the difficulty goes
/// down by one when the interval took longer than the threshold, up by one
/// when it took less, and stays otherwise.
pub proof fn lemma_retarget_policy(history: Seq<BlockView>, index: nat, difficulty: nat)
    ensures
        retarget_due(2 * DIFFICULTY_ADJUSTMENT_INTERVAL as nat),
        forall|earlier: nat|
            earlier < 2 * DIFFICULTY_ADJUSTMENT_INTERVAL ==> !retarget_due(earlier),
        retarget_due(index) && time_spent(history) > retarget_threshold()
            ==> retargeted_difficulty(history, index, difficulty) == difficulty - 1,
        retarget_due(index) && time_spent(history) < retarget_threshold()
            ==> retargeted_difficulty(history, index, difficulty) == difficulty + 1,
        retarget_due(index) && time_spent(history) == retarget_threshold()
            ==> retargeted_difficulty(history, index, difficulty) == difficulty,
        !retarget_due(index) ==> retargeted_difficulty(history, index, difficulty) == difficulty,
{
}

/// A hash meets exactly the difficulties up to the number of its leading
/// zero characters.
pub proof fn lemma_meets_difficulty_counts_zeros(hash: Seq<char>, difficulty: nat)
    ensures
        meets_difficulty(hash, difficulty) <==> difficulty <= leading_zeros(hash),
        leading_zeros(hash) <= hash.len(),
    decreases hash.len(),
{
    if hash.len() > 0 && hash[0] == '0' {
        let rest = hash.drop_first();
        let lower = if difficulty > 0 {
            (difficulty - 1) as nat
        } else {
            0
        };
        lemma_meets_difficulty_counts_zeros(rest, lower);
        if difficulty > 0 && meets_difficulty(rest, lower) {
            assert forall|i: int| 0 <= i < difficulty implies hash[i] == '0' by {
                if i > 0 {
                    assert(hash[i] == rest[i - 1]);
                }
            }
        }
        if difficulty > 0 && meets_difficulty(hash, difficulty) {
            assert forall|i: int| 0 <= i < lower implies rest[i] == '0' by {
                assert(rest[i] == hash[i + 1]);
            }
        }
    }
}

/// No hash meets a difficulty beyond its length, and every hash meets the
/// difficulty zero.
pub proof fn lemma_difficulty_bounds(hash: Seq<char>, difficulty: nat)
    ensures
        difficulty > hash.len() ==> !meets_difficulty(hash, difficulty),
        meets_difficulty(hash, 0),
{
}

/// Digest of a payload as a hex string.
///
/// Calls `sha256::digest`, which hashes the string's bytes with SHA-256 and
/// hex-encodes the 32 bytes of output. Nothing is proved of the digest: the
/// contract only names it, as a function of the payload.
#[verifier::external_body]
pub fn hash(values: &str) -> (digest: String)
    ensures
        digest@ == sha256_hex(values@),
{
    sha256::digest(values)
}

/// Tells whether `hash` starts with at least `difficulty` zero characters.
///
/// A difficulty of zero is met by every hash; a difficulty beyond the length
/// of the hash is met by none.
pub fn scored_difficulty(hash: &str, difficulty: u32) -> (scored: bool)
    ensures
        scored == meets_difficulty(hash@, difficulty as nat),
        scored == (difficulty <= leading_zeros(hash@)),
        difficulty == 0 ==> scored,
        difficulty > hash@.len() ==> !scored,
{
    proof {
        lemma_meets_difficulty_counts_zeros(hash@, difficulty as nat);
    }
    let mut chars = hash.chars();
    let mut seen: u32 = 0;
    while seen < difficulty
        invariant
            seen <= difficulty,
            seen <= hash@.len(),
            chars.remaining() == hash@.skip(seen as int),
            forall|i: int| 0 <= i < seen ==> hash@[i] == '0',
            meets_difficulty(hash@, difficulty as nat) <==> difficulty <= leading_zeros(hash@),
        decreases difficulty - seen,
    {
        match chars.next() {
            Some(c) => {
                if c != '0' {
                    return false;
                }
            },
            None => {
                return false;
            },
        }
        seen += 1;
    }
    true
}

/// Measures the time between the block one adjustment interval before the
/// tip and the tip, and holds it against the threshold: the result is
/// positive when the interval took longer, negative when it took less, and
/// zero when it took exactly the threshold.
pub fn retarget_drift(block_db: &DB) -> (drift: i128)
    requires
        block_db.chain@.len() > DIFFICULTY_ADJUSTMENT_INTERVAL,
    ensures
        drift == time_spent(block_db@) - retarget_threshold(),
{
    let block_chain = &block_db.chain;
    let block_len: usize = block_chain.len();
    let lookback: usize = block_len - (DIFFICULTY_ADJUSTMENT_INTERVAL as usize) - 1;
    let prev_adjusted_block = &block_chain[lookback];
    let last_mined_block = &block_chain[block_len - 1];
    let last_time: i128 = last_mined_block.timestamp as i128;
    let time_spent: i128 = last_time - (prev_adjusted_block.timestamp as i128);
    let interval: i64 = DIFFICULTY_ADJUSTMENT_INTERVAL as i64;
    let time_expected: i64 = interval * (BLOCK_GENERATION_INTERVAL as i64);
    time_spent - ((time_expected / 2) as i128)
}

/// Recomputes the difficulty for a candidate from the chain's history.
///
/// Where a retarget is due, the history must reach back one adjustment
/// interval before its tip, and the retargeted difficulty must be a `u32`.
pub fn generate_difficulty(block_db: &DB, unresolved_block: &UnresolvedBlock) -> (difficulty: u32)
    requires
        retarget_due(unresolved_block.index as nat) ==> block_db.chain@.len()
            > DIFFICULTY_ADJUSTMENT_INTERVAL,
        0 <= retargeted_difficulty(
            block_db@,
            unresolved_block.index as nat,
            unresolved_block.difficulty as nat,
        ) <= u32::MAX,
    ensures
        difficulty == retargeted_difficulty(
            block_db@,
            unresolved_block.index as nat,
            unresolved_block.difficulty as nat,
        ),
{
    let current_difficulty: u32 = unresolved_block.difficulty;
    let index: u32 = unresolved_block.index;
    if index > DIFFICULTY_ADJUSTMENT_INTERVAL && index % DIFFICULTY_ADJUSTMENT_INTERVAL == 0 {
        let drift: i128 = retarget_drift(block_db);
        if drift > 0 {
            current_difficulty - 1
        } else if drift < 0 {
            current_difficulty + 1
        } else {
            current_difficulty
        }
    } else {
        current_difficulty
    }
}

} // verus!
