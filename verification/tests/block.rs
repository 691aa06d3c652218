use blockchain::block::{Block, UnresolvedBlock};
use blockchain::constants;
use blockchain::db::DB;
use blockchain::error::{ErrorKind, MineError};
use blockchain::utils;

fn block(index: u32, data: &str, timestamp: i64, prev_hash: &str, difficulty: u32) -> Block {
    let meta = Block::find_block_hash_meta(UnresolvedBlock {
        index,
        data,
        prev_hash,
        timestamp,
        difficulty,
    })
    .unwrap();
    Block {
        index,
        data: String::from(data),
        timestamp,
        prev_hash: String::from(prev_hash),
        nonce: meta.0,
        hash: meta.1,
        difficulty,
    }
}

fn digest_of(block: &Block) -> String {
    utils::hash(&Block::block_merge(
        block.nonce,
        block.index,
        &block.data,
        block.timestamp,
        &block.prev_hash,
    ))
}

#[test]
fn generate_genesis_block() {
    let db = DB::new();
    let genesis_ref = db.get_genesis().unwrap();
    let retrieved_block: &Block = genesis_ref;

    let block_merge = Block::block_merge(
        0,
        0,
        &retrieved_block.data,
        retrieved_block.timestamp,
        &retrieved_block.prev_hash,
    );
    let block_hash = utils::hash(&block_merge);

    assert_eq!(block_hash, constants::GEN_HASH, "Invalid generic hash, hasher faulty.");
    assert_eq!(retrieved_block.index, 0, "Genesis index must be zero");
    assert_eq!(retrieved_block.timestamp, constants::START_TIME);
}

#[test]
fn generate_block() {
    let data = "hello world";
    let db = DB::new();

    let prev_block = db.latest_block().unwrap();
    assert_eq!(prev_block.index, 0);
    assert_eq!(data.len(), 11);
}

#[test]
fn validate_block() {
    let mut db = DB::new();
    let prev_block = db.latest_block().unwrap();
    assert_eq!(prev_block.index, 0);
    let data = "hello world";
    let latest_block = Block::new(data, &mut db).unwrap();

    let difficulty = 4;
    let timestamp = latest_block.timestamp + 3000;

    let new_block = UnresolvedBlock {
        index: latest_block.index + 1,
        prev_hash: &latest_block.hash,
        timestamp,
        data,
        difficulty,
    };
    let block_hash = Block::find_block_hash_meta(new_block).unwrap();

    let broadcast_block = Block {
        nonce: block_hash.0,
        difficulty,
        prev_hash: latest_block.hash.clone(),
        hash: block_hash.1,
        timestamp,
        data: String::from(data),
        index: latest_block.index + 1,
    };

    let add_res = db.add_block(broadcast_block);
    assert!(add_res.is_ok());
    assert_eq!(db.chain.len(), 3);
    assert!(db.chain[2].hash.starts_with("0000"));
}

#[test]
fn block_merge_concatenates_fields_in_order() {
    assert_eq!(Block::block_merge(3, 14, "ab", -5, "ff"), "314ab-5ff");
    assert_eq!(Block::block_merge(0, 0, "", 0, ""), "000");
    assert_eq!(
        Block::block_merge(0, 0, "Genesis", 1_640_995_200_000, ""),
        "00Genesis1640995200000"
    );
    assert_eq!(
        Block::block_merge(u32::MAX, u32::MAX, "x", i64::MIN, "y"),
        "42949672954294967295x-9223372036854775808y"
    );
}

#[test]
fn block_merge_agrees_with_std_formatting() {
    let cases: [(u32, u32, &str, i64, &str); 4] = [
        (1, 2, "payload", 1_700_000_000_123, "00ab"),
        (907, 10, "ünïcödé", -1, ""),
        (10, 100, "", i64::MAX, "prev"),
        (4_000_000_000, 7, "d", 60_000, "0"),
    ];
    for (nonce, index, data, timestamp, prev_hash) in cases {
        assert_eq!(
            Block::block_merge(nonce, index, data, timestamp, prev_hash),
            format!("{}{}{}{}{}", nonce, index, data, timestamp, prev_hash)
        );
    }
}

#[test]
fn check_accepts_a_well_formed_successor() {
    let prev = block(0, "first", 1_000_000, "", 0);
    let next = block(1, "second", 1_000_500, &prev.hash, 1);
    let recomputed = digest_of(&next);
    assert_eq!(next.check(&prev, &recomputed, 1_001_000), Ok(()));
}

#[test]
fn check_reports_linkage_mismatch_first() {
    let prev = block(0, "first", 1_000_000, "", 0);
    let mut next = block(1, "second", 1_000_500, &prev.hash, 0);
    next.prev_hash = String::from("unrelated");
    next.index = 9;
    next.timestamp = i64::MAX;
    let recomputed = String::from("whatever");
    assert_eq!(next.check(&prev, &recomputed, 0), Err(ErrorKind::LinkageMismatch));
}

#[test]
fn check_reports_invalid_timestamp_at_the_tolerance() {
    let prev = block(0, "first", 1_000_000, "", 0);
    let now = 2_000_000;

    // exactly one tolerance older than the predecessor: refused
    let old = block(1, "second", 1_000_000 - 60_000, &prev.hash, 0);
    assert_eq!(old.check(&prev, &digest_of(&old), now), Err(ErrorKind::InvalidTimestamp));
    // one millisecond younger than that: accepted
    let young = block(1, "second", 1_000_000 - 59_999, &prev.hash, 0);
    assert_eq!(young.check(&prev, &digest_of(&young), now), Ok(()));

    // exactly one tolerance ahead of the clock: refused
    let ahead = block(1, "second", now + 60_000, &prev.hash, 0);
    assert_eq!(ahead.check(&prev, &digest_of(&ahead), now), Err(ErrorKind::InvalidTimestamp));
    // one millisecond less: accepted
    let near = block(1, "second", now + 59_999, &prev.hash, 0);
    assert_eq!(near.check(&prev, &digest_of(&near), now), Ok(()));
}

#[test]
fn check_handles_extreme_timestamps() {
    let prev = block(0, "first", i64::MIN, "", 0);
    let next = block(1, "second", i64::MIN, &prev.hash, 0);
    assert_eq!(next.check(&prev, &digest_of(&next), i64::MIN), Ok(()));
    assert_eq!(next.check(&prev, &digest_of(&next), i64::MAX), Ok(()));

    let late_prev = block(0, "first", i64::MAX, "", 0);
    let late = block(1, "second", i64::MAX, &late_prev.hash, 0);
    assert_eq!(late.check(&late_prev, &digest_of(&late), i64::MAX), Ok(()));
    assert_eq!(
        late.check(&late_prev, &digest_of(&late), i64::MAX - 60_000),
        Err(ErrorKind::InvalidTimestamp)
    );
    let early = block(1, "second", i64::MIN, &late_prev.hash, 0);
    assert_eq!(
        early.check(&late_prev, &digest_of(&early), 0),
        Err(ErrorKind::InvalidTimestamp)
    );
}

#[test]
fn check_reports_index_mismatch() {
    let prev = block(5, "first", 1_000_000, "", 0);
    for index in [0, 5, 7, u32::MAX] {
        let next = block(index, "second", 1_000_500, &prev.hash, 0);
        assert_eq!(
            next.check(&prev, &digest_of(&next), 1_001_000),
            Err(ErrorKind::IndexMismatch)
        );
    }
    let next = block(6, "second", 1_000_500, &prev.hash, 0);
    assert_eq!(next.check(&prev, &digest_of(&next), 1_001_000), Ok(()));
}

#[test]
fn check_refuses_a_successor_of_the_last_index() {
    let prev = block(u32::MAX, "first", 1_000_000, "", 0);
    for index in [0, 1, u32::MAX] {
        let next = block(index, "second", 1_000_500, &prev.hash, 0);
        assert_eq!(
            next.check(&prev, &digest_of(&next), 1_001_000),
            Err(ErrorKind::IndexMismatch)
        );
    }
}

#[test]
fn check_reports_hash_mismatch() {
    let prev = block(0, "first", 1_000_000, "", 0);
    let next = block(1, "second", 1_000_500, &prev.hash, 0);
    let other = String::from("0000");
    assert_eq!(next.check(&prev, &other, 1_001_000), Err(ErrorKind::HashMismatch));
}

#[test]
fn check_reports_difficulty_not_met() {
    let prev = block(0, "first", 1_000_000, "", 0);
    let mut next = block(1, "second", 1_000_500, &prev.hash, 0);
    // difficulty is no part of the pre-image, so the digest still matches
    next.difficulty = 65;
    assert_eq!(
        next.check(&prev, &digest_of(&next), 1_001_000),
        Err(ErrorKind::DifficultyNotMet)
    );
}

#[test]
fn validate_block_accepts_a_mined_block() {
    let mut db = DB::new();
    Block::new("hello world", &mut db).unwrap();
    assert_eq!(db.chain[1].validate_block(&db.chain[0]), Ok(()));
}

#[test]
fn validate_block_detects_tampered_data() {
    let mut db = DB::new();
    Block::new("hello world", &mut db).unwrap();
    let mined = &db.chain[1];
    let tampered = Block {
        index: mined.index,
        data: String::from("hello w0rld"),
        timestamp: mined.timestamp,
        prev_hash: mined.prev_hash.clone(),
        nonce: mined.nonce,
        hash: mined.hash.clone(),
        difficulty: mined.difficulty,
    };
    assert_eq!(tampered.validate_block(&db.chain[0]), Err(ErrorKind::HashMismatch));
}

#[test]
fn validate_block_detects_tampered_nonce_and_hash() {
    let mut db = DB::new();
    Block::new("hello world", &mut db).unwrap();
    let mined = &db.chain[1];
    let other_nonce = Block {
        index: mined.index,
        data: mined.data.clone(),
        timestamp: mined.timestamp,
        prev_hash: mined.prev_hash.clone(),
        nonce: mined.nonce + 1,
        hash: mined.hash.clone(),
        difficulty: mined.difficulty,
    };
    assert_eq!(other_nonce.validate_block(&db.chain[0]), Err(ErrorKind::HashMismatch));
    let other_hash = Block {
        index: mined.index,
        data: mined.data.clone(),
        timestamp: mined.timestamp,
        prev_hash: mined.prev_hash.clone(),
        nonce: mined.nonce,
        hash: utils::hash("something else"),
        difficulty: mined.difficulty,
    };
    assert_eq!(other_hash.validate_block(&db.chain[0]), Err(ErrorKind::HashMismatch));
}

#[test]
fn validate_block_detects_index_two_ahead() {
    let mut db = DB::new();
    Block::new("hello world", &mut db).unwrap();
    let mined = &db.chain[1];
    let skipped = Block {
        index: db.chain[0].index + 2,
        data: mined.data.clone(),
        timestamp: mined.timestamp,
        prev_hash: mined.prev_hash.clone(),
        nonce: mined.nonce,
        hash: mined.hash.clone(),
        difficulty: mined.difficulty,
    };
    assert_eq!(skipped.validate_block(&db.chain[0]), Err(ErrorKind::IndexMismatch));
}

#[test]
fn validate_block_detects_unrelated_prev_hash() {
    let mut db = DB::new();
    Block::new("hello world", &mut db).unwrap();
    let mined = &db.chain[1];
    let unlinked = Block {
        index: mined.index,
        data: mined.data.clone(),
        timestamp: mined.timestamp,
        prev_hash: utils::hash("unrelated"),
        nonce: mined.nonce,
        hash: mined.hash.clone(),
        difficulty: mined.difficulty,
    };
    assert_eq!(unlinked.validate_block(&db.chain[0]), Err(ErrorKind::LinkageMismatch));
}

#[test]
fn validate_block_refuses_a_timestamp_far_ahead_of_the_clock() {
    let db = DB::new();
    let genesis = &db.chain[0];
    let future = block(1, "from the future", i64::MAX, &genesis.hash, 0);
    assert_eq!(future.validate_block(genesis), Err(ErrorKind::InvalidTimestamp));
    let past = block(1, "from the past", constants::START_TIME - 60_000, &genesis.hash, 0);
    assert_eq!(past.validate_block(genesis), Err(ErrorKind::InvalidTimestamp));
}

#[test]
fn validate_block_refuses_unearned_difficulty() {
    let mut db = DB::new();
    Block::new("hello world", &mut db).unwrap();
    let mined = &db.chain[1];
    let boastful = Block {
        index: mined.index,
        data: mined.data.clone(),
        timestamp: mined.timestamp,
        prev_hash: mined.prev_hash.clone(),
        nonce: mined.nonce,
        hash: mined.hash.clone(),
        difficulty: 65,
    };
    assert_eq!(boastful.validate_block(&db.chain[0]), Err(ErrorKind::DifficultyNotMet));
}

#[test]
fn mining_at_difficulty_zero_takes_the_first_nonce() {
    let meta = Block::find_block_hash_meta(UnresolvedBlock {
        index: 1,
        data: "hello world",
        prev_hash: constants::GEN_HASH,
        timestamp: 1_700_000_000_000,
        difficulty: 0,
    })
    .unwrap();
    assert_eq!(meta.0, 0);
    assert_eq!(
        meta.1,
        utils::hash(&Block::block_merge(
            0,
            1,
            "hello world",
            1_700_000_000_000,
            constants::GEN_HASH
        ))
    );
}

#[test]
fn mining_finds_the_least_nonce() {
    let index = 3;
    let data = "payload";
    let prev_hash = "00ab";
    let timestamp = 1_700_000_000_000;
    let difficulty = 2;
    let meta = Block::find_block_hash_meta(UnresolvedBlock {
        index,
        data,
        prev_hash,
        timestamp,
        difficulty,
    })
    .unwrap();
    assert!(meta.1.starts_with("00"));
    assert_eq!(
        meta.1,
        utils::hash(&Block::block_merge(meta.0, index, data, timestamp, prev_hash))
    );
    for nonce in 0..meta.0 {
        let earlier = utils::hash(&Block::block_merge(nonce, index, data, timestamp, prev_hash));
        assert!(!utils::scored_difficulty(&earlier, difficulty));
    }
}

#[test]
fn search_can_be_taken_up_again() {
    let candidate = UnresolvedBlock {
        index: 3,
        data: "payload",
        prev_hash: "00ab",
        timestamp: 1_700_000_000_123,
        difficulty: 2,
    };
    let whole = Block::search_nonces(&candidate, 0, u32::MAX).unwrap();
    if whole.0 > 0 {
        assert!(Block::search_nonces(&candidate, 0, whole.0 - 1).is_none());
    }
    let resumed = Block::search_nonces(&candidate, whole.0, u32::MAX).unwrap();
    assert_eq!(resumed.0, whole.0);
    assert_eq!(resumed.1, whole.1);
    let exact = Block::search_nonces(&candidate, whole.0, whole.0).unwrap();
    assert_eq!(exact.0, whole.0);
    let later = Block::search_nonces(&candidate, whole.0 + 1, u32::MAX).unwrap();
    assert!(later.0 > whole.0);
}

#[test]
fn search_over_an_empty_range_finds_nothing() {
    let candidate = UnresolvedBlock {
        index: 1,
        data: "payload",
        prev_hash: "",
        timestamp: 0,
        difficulty: 0,
    };
    assert!(Block::search_nonces(&candidate, 5, 4).is_none());
    assert_eq!(Block::search_nonces(&candidate, 5, 5).unwrap().0, 5);
    assert_eq!(Block::search_nonces(&candidate, u32::MAX, u32::MAX).unwrap().0, u32::MAX);
}

#[test]
fn search_fails_where_no_hash_can_score() {
    let candidate = UnresolvedBlock {
        index: 1,
        data: "payload",
        prev_hash: "",
        timestamp: 0,
        difficulty: 65,
    };
    assert!(Block::search_nonces(&candidate, 0, 2_000).is_none());
    assert!(Block::search_nonces(&candidate, u32::MAX - 10, u32::MAX).is_none());
}

#[test]
fn mine_builds_the_successor_of_the_latest_block() {
    let db = DB::new();
    let mined = Block::mine("hello world", &db, 1_700_000_000_000).unwrap();
    assert_eq!(mined.index, 1);
    assert_eq!(mined.data, "hello world");
    assert_eq!(mined.timestamp, 1_700_000_000_000);
    assert_eq!(mined.prev_hash, constants::GEN_HASH);
    assert_eq!(mined.difficulty, 0);
    assert_eq!(mined.nonce, 0);
    assert_eq!(mined.hash, digest_of(&mined));
    assert_eq!(
        mined.hash,
        utils::hash(&format!("01hello world1700000000000{}", constants::GEN_HASH))
    );
    assert_eq!(db.chain.len(), 1);
}

#[test]
fn new_appends_the_mined_block() {
    let data = "hello world";
    let mut db = DB::new();
    let prev_index = db.latest_block().unwrap().index;
    let prev_hash = db.latest_block().unwrap().hash.clone();
    let new_block = Block::new(data, &mut db).unwrap();

    assert_eq!(new_block.index, prev_index + 1, "Mined block isn't one index higher than prev");
    assert_eq!(new_block.prev_hash, prev_hash, "Mined block's prev hash isn't prev block's hash!");
    assert_eq!(new_block.data, data, "Mined block's data malformed");
    let hash = new_block.hash.clone();
    assert_eq!(db.chain.len(), 2);
    assert_eq!(db.latest_block().unwrap().hash, hash);
}

#[test]
fn new_reports_a_refused_timestamp() {
    // the latest block lies far in the future, so a block mined now is too old
    let genesis = block(0, "Genesis", i64::MAX, "", 0);
    let mut db = DB { chain: vec![genesis] };
    assert_eq!(
        Block::new("late", &mut db).err(),
        Some(MineError::Rejected(ErrorKind::InvalidTimestamp))
    );
    assert_eq!(db.chain.len(), 1);
}

#[test]
fn an_unmeetable_difficulty_exhausts_every_range() {
    assert_ne!(MineError::NonceSpaceExhausted, MineError::Rejected(ErrorKind::HashMismatch));
    // a difficulty that no digest of 64 characters can meet
    let candidate = UnresolvedBlock {
        index: 1,
        data: "payload",
        prev_hash: "",
        timestamp: 0,
        difficulty: u32::MAX,
    };
    assert!(Block::search_nonces(&candidate, 0, 100).is_none());
}

#[test]
fn every_block_of_a_mined_chain_validates_against_the_one_before() {
    let mut db = DB::new();
    for data in ["one", "two", "three", "four"] {
        Block::new(data, &mut db).unwrap();
    }
    assert_eq!(db.chain.len(), 5);
    for i in 1..db.chain.len() {
        assert_eq!(db.chain[i].validate_block(&db.chain[i - 1]), Ok(()));
        assert_eq!(db.chain[i].index, db.chain[i - 1].index + 1);
        assert_eq!(db.chain[i].prev_hash, db.chain[i - 1].hash);
        assert_eq!(db.chain[i].hash, digest_of(&db.chain[i]));
    }
}

#[test]
fn validate_block_at_recomputes_the_digest() {
    let prev = block(0, "first", 1_000_000, "", 0);
    let next = block(1, "second", 1_000_500, &prev.hash, 1);
    assert_eq!(next.validate_block_at(&prev, 1_001_000), Ok(()));
    assert_eq!(next.validate_block_at(&prev, 1_000_500 - 60_000), Err(ErrorKind::InvalidTimestamp));

    let tampered = Block {
        index: next.index,
        data: String::from("sec0nd"),
        timestamp: next.timestamp,
        prev_hash: next.prev_hash.clone(),
        nonce: next.nonce,
        hash: next.hash.clone(),
        difficulty: next.difficulty,
    };
    assert_eq!(tampered.validate_block_at(&prev, 1_001_000), Err(ErrorKind::HashMismatch));
}
