//! The chain store: an ordered, append-only sequence of blocks.

use vstd::prelude::*;
use vstd::string::*;

use crate::block::{
    extendable, now_millis, timestamp_plausible, validation_outcome, Block, BlockView,
};
use crate::constants::{
    DIFFICULTY_ADJUSTMENT_INTERVAL, GENESIS_DATA, GENESIS_DIFFICULTY, GEN_HASH, START_TIME,
};
use crate::error::ErrorKind;
use crate::utils::{hash, meets_difficulty, retarget_drift};

verus! {

/// An in-memory chain of blocks; the first is the genesis block.
pub struct DB {
    pub chain: Vec<Block>,
}

impl View for DB {
    type V = Seq<BlockView>;

    open spec fn view(&self) -> Seq<BlockView> {
        self.chain@.map_values(|block: Block| block@)
    }
}

/// The genesis block that every local chain starts from.
pub open spec fn genesis_view() -> BlockView {
    BlockView {
        index: 0,
        data: GENESIS_DATA@,
        timestamp: START_TIME as int,
        prev_hash: Seq::empty(),
        nonce: 0,
        hash: GEN_HASH@,
        difficulty: GENESIS_DIFFICULTY as nat,
    }
}

/// `cur` rightly follows `prev`: its index is the next one, it names the
/// hash of `prev`, and its own hash is the digest of its pre-image and meets
/// its difficulty.
pub open spec fn linked(prev: BlockView, cur: BlockView) -> bool {
    &&& cur.index == prev.index + 1
    &&& cur.prev_hash == prev.hash
    &&& cur.hash == cur.digest()
    &&& meets_difficulty(cur.hash, cur.difficulty)
}

/// A valid chain starts with the genesis block, and each later block
/// rightly follows the one before it.
pub open spec fn valid_chain(chain: Seq<BlockView>) -> bool {
    &&& chain.len() > 0
    &&& chain[0] == genesis_view()
    &&& forall|i: int| 1 <= i < chain.len() ==> linked(chain[i - 1], #[trigger] chain[i])
}

/// Every block of a valid chain but the first validates against the block
/// before it, at any clock time at which its timestamp is plausible.
pub proof fn lemma_valid_chain_validates(chain: Seq<BlockView>, i: int, now: int)
    requires
        valid_chain(chain),
        1 <= i < chain.len(),
        timestamp_plausible(chain[i].timestamp, chain[i - 1].timestamp, now),
    ensures
        validation_outcome(chain[i], chain[i - 1], chain[i].digest(), now) == Ok::<(), ErrorKind>(
            (),
        ),
{
}

/// A block validates against the tip of a chain exactly when it rightly
/// follows the tip and its timestamp is plausible.
pub proof fn lemma_validates_iff_linked(tip: BlockView, block: BlockView, now: int)
    ensures
        validation_outcome(block, tip, block.digest(), now) is Ok <==> {
            &&& linked(tip, block)
            &&& timestamp_plausible(block.timestamp, tip.timestamp, now)
        },
{
}

/// A valid chain stays valid when a block that validates against its tip is
/// appended.
pub proof fn lemma_append_keeps_valid(chain: Seq<BlockView>, block: BlockView, now: int)
    requires
        valid_chain(chain),
        validation_outcome(block, chain.last(), block.digest(), now) is Ok,
    ensures
        valid_chain(chain.push(block)),
{
    let longer = chain.push(block);
    assert forall|i: int| 1 <= i < longer.len() implies linked(
        longer[i - 1],
        #[trigger] longer[i],
    ) by {
        if i < chain.len() {
            assert(longer[i] == chain[i] && longer[i - 1] == chain[i - 1]);
        }
    }
}

/// In a valid chain each block's index is its position.
pub proof fn lemma_valid_chain_indices(chain: Seq<BlockView>, i: int)
    requires
        valid_chain(chain),
        0 <= i < chain.len(),
    ensures
        chain[i].index == i,
    decreases i,
{
    if i > 0 {
        lemma_valid_chain_indices(chain, i - 1);
        assert(linked(chain[i - 1], chain[i]));
    }
}

/// Verdict on a foreign chain's genesis block: its recorded hash must be the
/// local genesis hash, and must be the digest recomputed from its own fields.
pub open spec fn genesis_outcome(
    local_hash: Seq<char>,
    foreign_hash: Seq<char>,
    recomputed: Seq<char>,
) -> Result<(), ErrorKind> {
    if local_hash != foreign_hash {
        Err(ErrorKind::GenesisMismatch)
    } else if recomputed != foreign_hash {
        Err(ErrorKind::GenesisHashInvalid)
    } else {
        Ok(())
    }
}

/// The verdict that the result of an append stands for.
pub open spec fn verdict_of(added: Result<&Block, ErrorKind>) -> Result<(), ErrorKind> {
    match added {
        Ok(_) => Ok(()),
        Err(kind) => Err(kind),
    }
}

impl DB {
    /// The store holds at least its genesis block.
    pub open spec fn wf(&self) -> bool {
        self.chain@.len() > 0
    }

    /// A chain that holds the genesis block and nothing else.
    pub fn new() -> (db: DB)
        ensures
            db.wf(),
            db@ == seq![genesis_view()],
            valid_chain(db@),
    {
        let genesis = Block {
            nonce: 0,
            data: String::from_str(GENESIS_DATA),
            index: 0,
            timestamp: START_TIME,
            hash: String::from_str(GEN_HASH),
            prev_hash: String::new(),
            difficulty: GENESIS_DIFFICULTY,
        };
        let mut chain: Vec<Block> = Vec::new();
        chain.push(genesis);
        DB { chain }
    }

    /// The block that was appended last.
    pub fn latest_block(&self) -> (latest: Result<&Block, &str>)
        requires
            self.wf(),
        ensures
            latest matches Ok(block) && *block == self.chain@.last(),
    {
        Ok(&self.chain[self.chain.len() - 1])
    }

    /// The first block of the chain.
    pub fn get_genesis(&self) -> (genesis: Result<&Block, &str>)
        requires
            self.wf(),
        ensures
            genesis matches Ok(block) && *block == self.chain@.first(),
    {
        Ok(&self.chain[0])
    }

    /// Tells whether a block can be mined onto the chain: whether the next
    /// index and the next difficulty are 32-bit numbers, and the history
    /// reaches back far enough for the retarget that the next block may ask
    /// for.
    pub fn can_extend(&self) -> (ok: bool)
        ensures
            ok == extendable(self@),
    {
        let len: usize = self.chain.len();
        if len == 0 {
            return false;
        }
        let latest = &self.chain[len - 1];
        if latest.index == u32::MAX {
            return false;
        }
        let index: u32 = latest.index + 1;
        if index > DIFFICULTY_ADJUSTMENT_INTERVAL && index % DIFFICULTY_ADJUSTMENT_INTERVAL == 0 {
            if len <= DIFFICULTY_ADJUSTMENT_INTERVAL as usize {
                return false;
            }
            let drift: i128 = retarget_drift(self);
            if drift > 0 {
                latest.difficulty > 0
            } else if drift < 0 {
                latest.difficulty < u32::MAX
            } else {
                true
            }
        } else {
            true
        }
    }

    /// Validates `block` against the latest block at clock time `now`, and
    /// appends it.
    ///
    /// The block is appended exactly when it validates; a block that is
    /// refused leaves the chain as it was, and the error says which check
    /// refused it.
    pub fn add_block_at(&mut self, block: Block, now: i64) -> (added: Result<&Block, ErrorKind>)
        requires
            old(self).wf(),
        ensures
            verdict_of(added) == validation_outcome(
                block@,
                old(self)@.last(),
                block@.digest(),
                now as int,
            ),
            match added {
                Ok(appended) => {
                    &&& *appended == block
                    &&& final(self).chain@ == old(self).chain@.push(block)
                },
                Err(_) => final(self).chain@ == old(self).chain@,
            },
            valid_chain(old(self)@) ==> valid_chain(final(self)@),
    {
        let verdict = block.validate_block_at(&self.chain[self.chain.len() - 1], now);
        proof {
            if verdict is Ok && valid_chain(self@) {
                lemma_append_keeps_valid(self@, block@, now as int);
                assert(self@.push(block@) =~= self.chain@.push(block).map_values(
                    |block: Block| block@,
                ));
            }
        }
        match verdict {
            Err(kind) => Err(kind),
            Ok(()) => {
                self.chain.push(block);
                Ok(&self.chain[self.chain.len() - 1])
            },
        }
    }

    /// Validates `block` against the latest block and appends it.
    ///
    /// The clock is read once; the outcome is the one that
    /// [`DB::add_block_at`] gives for the time that was read.
    pub fn add_block(&mut self, block: Block) -> (added: Result<&Block, ErrorKind>)
        requires
            old(self).wf(),
        ensures
            exists|now: i64|
                verdict_of(added) == #[trigger] validation_outcome(
                    block@,
                    old(self)@.last(),
                    block@.digest(),
                    now as int,
                ),
            match added {
                Ok(appended) => {
                    &&& *appended == block
                    &&& final(self).chain@ == old(self).chain@.push(block)
                },
                Err(_) => final(self).chain@ == old(self).chain@,
            },
            valid_chain(old(self)@) ==> valid_chain(final(self)@),
    {
        let now: i64 = now_millis();
        self.add_block_at(block, now)
    }

    /// Judges a foreign genesis block against the local one, given the digest
    /// recomputed from the foreign block's fields.
    pub fn compare_genesis(
        genesis: &Block,
        cross_genesis: &Block,
        recomputed_hash: &String,
    ) -> (outcome: Result<(), ErrorKind>)
        ensures
            outcome == genesis_outcome(genesis@.hash, cross_genesis@.hash, recomputed_hash@),
    {
        if genesis.hash != cross_genesis.hash {
            Err(ErrorKind::GenesisMismatch)
        } else if *recomputed_hash != cross_genesis.hash {
            Err(ErrorKind::GenesisHashInvalid)
        } else {
            Ok(())
        }
    }

    /// Cross-validates a foreign chain by its genesis block.
    ///
    /// The foreign genesis must record the local genesis hash, and that hash
    /// must be the digest of the foreign genesis block's own pre-image.
    pub fn validate_chain(&self, cross_db: DB) -> (outcome: Result<(), ErrorKind>)
        requires
            self.wf(),
            cross_db.wf(),
        ensures
            outcome == genesis_outcome(
                self@.first().hash,
                cross_db@.first().hash,
                cross_db@.first().digest(),
            ),
    {
        let genesis_block = &self.chain[0];
        let cross_genesis = &cross_db.chain[0];
        let cross_block_merge = Block::block_merge(
            cross_genesis.nonce,
            cross_genesis.index,
            cross_genesis.data.as_str(),
            cross_genesis.timestamp,
            cross_genesis.prev_hash.as_str(),
        );
        let recomputed = hash(cross_block_merge.as_str());
        DB::compare_genesis(genesis_block, cross_genesis, &recomputed)
    }
}

} // verus!
