use no_cap::blockchain::block::Block;
use no_cap::blockchain::init::{tally, Blockchain};
use no_cap::types::blockchain::{ActionType, PayloadData, Transaction};
use no_cap::types::time::{Timestamp, MAX_SECONDS, MIN_SECONDS};
use no_cap::utils::hasher::{block_hasher, transactions_hasher};

fn tx(agent: &str, reasoning: &str, action: ActionType, text: &str) -> Transaction {
    Transaction {
        agent_id: agent.to_string(),
        signature: format!("sig{}", agent),
        reasoning_hash: reasoning.to_string(),
        action_type: action,
        payload: PayloadData {
            model_modification: None,
            model_parameters: None,
            evaluation_result: None,
            description: text.to_string(),
        },
    }
}

fn at(secs: i64, nanos: u32) -> Timestamp {
    Timestamp::new(secs, nanos).unwrap()
}

fn votes(accept: usize, reject: usize, other: usize) -> Vec<Transaction> {
    let mut all = Vec::new();
    for i in 0..other {
        all.push(tx(&format!("p{}", i), "r", ActionType::ProposeUpdate, "x"));
    }
    for i in 0..accept {
        all.push(tx(&format!("a{}", i), "r", ActionType::VoteAccept, ""));
    }
    for i in 0..reject {
        all.push(tx(&format!("n{}", i), "r", ActionType::VoteReject, ""));
    }
    all
}

const GENESIS_HASH: &str = "f37133e5f61a2266aac068edf60b00ba3980d0b15af9de8220b318c36eae77e0";
const EMPTY_DIGEST: &str = "4f53cda18c2baa0c0354bb5f9a3ecbe5ed12ab4d8e11ba873c2f11161202b945";

#[test]
fn timestamp_accepts_the_instants_of_the_calendar() {
    let t = Timestamp::new(1714566896, 789).unwrap();
    assert_eq!(t.seconds(), 1714566896);
    assert_eq!(t.nanoseconds(), 789);
    assert!(Timestamp::new(0, 0).is_some());
    assert!(Timestamp::new(-1, 999_999_999).is_some());
    assert!(Timestamp::new(MIN_SECONDS, 0).is_some());
    assert!(Timestamp::new(MAX_SECONDS, 999_999_999).is_some());
}

#[test]
fn timestamp_refuses_what_lies_outside_the_calendar() {
    assert!(Timestamp::new(MIN_SECONDS - 1, 0).is_none());
    assert!(Timestamp::new(MAX_SECONDS + 1, 0).is_none());
    assert!(Timestamp::new(i64::MIN, 0).is_none());
    assert!(Timestamp::new(i64::MAX, 0).is_none());
    assert!(Timestamp::new(0, 2_000_000_000).is_none());
    assert!(Timestamp::new(0, u32::MAX).is_none());
}

#[test]
fn timestamp_allows_a_leap_second_only_after_second_59() {
    assert!(Timestamp::new(59, 1_000_000_000).is_some());
    assert!(Timestamp::new(59, 1_999_999_999).is_some());
    assert!(Timestamp::new(-1, 1_000_000_000).is_some());
    assert!(Timestamp::new(-61, 1_500_000_000).is_some());
    assert!(Timestamp::new(58, 1_000_000_000).is_none());
    assert!(Timestamp::new(60, 1_000_000_000).is_none());
    assert!(Timestamp::new(0, 1_000_000_000).is_none());
    assert!(Timestamp::new(-2, 1_000_000_000).is_none());
}

#[test]
fn timestamp_bounds_are_those_of_chrono() {
    assert_eq!(chrono::DateTime::<chrono::Utc>::MIN_UTC.timestamp(), MIN_SECONDS);
    assert_eq!(chrono::DateTime::<chrono::Utc>::MAX_UTC.timestamp(), MAX_SECONDS);
    assert!(chrono::DateTime::from_timestamp(MIN_SECONDS - 1, 0).is_none());
    assert!(chrono::DateTime::from_timestamp(MAX_SECONDS + 1, 0).is_none());
    for (secs, nanos) in [(58i64, 1_000_000_000u32), (59, 1_000_000_000), (-1, 1_000_000_000), (-2, 1_000_000_000), (0, 2_000_000_000)] {
        assert_eq!(
            Timestamp::new(secs, nanos).is_some(),
            chrono::DateTime::from_timestamp(secs, nanos).is_some()
        );
    }
}

#[test]
fn timestamp_order_is_by_seconds_then_nanoseconds() {
    assert!(at(10, 0).is_after(&at(9, 999_999_999)));
    assert!(at(10, 1).is_after(&at(10, 0)));
    assert!(!at(10, 0).is_after(&at(10, 0)));
    assert!(!at(9, 999_999_999).is_after(&at(10, 0)));
    assert!(at(0, 0).is_after(&at(-1, 0)));
    assert!(at(59, 1_000_000_000).is_after(&at(59, 999_999_999)));
}

#[test]
fn genesis_block_has_index_zero_and_no_transactions() {
    let genesis = Block::init_at(at(1714566896, 0));
    assert_eq!(genesis.index, 0);
    assert_eq!(genesis.prev_hash, "0");
    assert!(genesis.transactions.is_empty());
    assert_eq!(genesis.timestamp, at(1714566896, 0));
    assert_eq!(genesis.hash.as_deref(), Some(GENESIS_HASH));
    assert_eq!(genesis.merkle_root.as_deref(), Some(EMPTY_DIGEST));
}

#[test]
fn genesis_hash_is_a_function_of_the_other_fields() {
    let genesis = Block::init();
    assert_eq!(genesis.index, 0);
    assert_eq!(genesis.prev_hash, "0");
    assert!(genesis.transactions.is_empty());
    let again = Block::init_at(genesis.timestamp);
    assert_eq!(again, genesis);
    let bare = Block::new_at(0, "0".to_string(), Vec::new(), genesis.timestamp);
    assert_eq!(genesis.hash, Some(block_hasher(&bare)));
    assert_eq!(genesis.merkle_root, Some(transactions_hasher(&Vec::new())));
}

#[test]
fn new_block_is_unsealed() {
    let pending = vec![tx("A", "r1", ActionType::ProposeUpdate, "bump v2")];
    let block = Block::new(4, "abc".to_string(), pending.clone());
    assert_eq!(block.index, 4);
    assert_eq!(block.prev_hash, "abc");
    assert_eq!(block.hash, None);
    assert_eq!(block.merkle_root, None);
    assert_eq!(block.transactions, pending);
}

#[test]
fn seal_sets_hash_and_digest() {
    let pending = vec![tx("A", "r1", ActionType::ProposeUpdate, "bump v2")];
    let bare = Block::new_at(4, "abc".to_string(), pending.clone(), at(1714566896, 0));
    let mut block = bare.clone();
    block.seal();
    assert_eq!(block.hash, Some(block_hasher(&bare)));
    assert_eq!(block.merkle_root, Some(transactions_hasher(&pending)));
    assert_eq!(block.index, 4);
    assert_eq!(block.prev_hash, "abc");
    assert_eq!(block.transactions, pending);
    assert_eq!(block.timestamp, bare.timestamp);
}

#[test]
fn new_ledger_holds_the_genesis_block_alone() {
    let ledger = Blockchain::init_at(at(1714566896, 0));
    assert_eq!(ledger.blocks().len(), 1);
    assert_eq!(ledger.blocks()[0], Block::init_at(at(1714566896, 0)));
    assert!(ledger.current_transactions().is_empty());
    assert!(ledger.archieved_transactions().is_empty());
    let now = Blockchain::init();
    assert_eq!(now.blocks().len(), 1);
    assert_eq!(now.blocks()[0].index, 0);
    assert_eq!(now.blocks()[0].prev_hash, "0");
    assert_eq!(now.blocks()[0], Block::init_at(now.blocks()[0].timestamp));
}

#[test]
fn last_block_of_a_new_ledger_is_the_genesis_block() {
    let ledger = Blockchain::init_at(at(1714566896, 0));
    assert_eq!(ledger.get_last_block(), Some(Block::init_at(at(1714566896, 0))));
}

#[test]
fn sealing_appends_a_block_that_holds_the_pending_transactions() {
    let mut ledger = Blockchain::init_at(at(1714566896, 0));
    let a = tx("A", "r1", ActionType::ProposeUpdate, "bump v2");
    let b = tx("B", "r1", ActionType::VoteAccept, "");
    let c = tx("C", "r1", ActionType::VoteAccept, "");
    ledger.add_transaction(a.clone());
    ledger.add_transaction(b.clone());
    ledger.add_transaction(c.clone());
    assert_eq!(ledger.current_transactions(), &vec![a.clone(), b.clone(), c.clone()]);
    let block = ledger.add_new_block_at(at(1714566900, 0));
    assert_eq!(block.index, 1);
    assert_eq!(block.prev_hash, GENESIS_HASH);
    assert_eq!(block.transactions, vec![a.clone(), b.clone(), c.clone()]);
    assert_eq!(
        block.hash.as_deref(),
        Some("358e71ee6597894cf427cfea3938e10b4fa2b7d963e6bd4496dbba468bbdb3e5")
    );
    assert_eq!(
        block.merkle_root.as_deref(),
        Some("d668df773f9deade285654a05178c01d04ca7c1f59bd4738c046080d97b9cdd6")
    );
    assert_eq!(ledger.blocks().len(), 2);
    assert_eq!(ledger.blocks()[1], block);
    assert_eq!(ledger.get_last_block(), Some(block));
    assert!(ledger.current_transactions().is_empty());
    assert_eq!(ledger.archieved_transactions(), &vec![a, b, c]);
}

#[test]
fn sealing_with_nothing_pending_appends_an_empty_block() {
    let mut ledger = Blockchain::init_at(at(1714566896, 0));
    let block = ledger.add_new_block();
    assert_eq!(block.index, 1);
    assert_eq!(block.prev_hash, GENESIS_HASH);
    assert!(block.transactions.is_empty());
    assert_eq!(block.merkle_root.as_deref(), Some(EMPTY_DIGEST));
    let bare = Block::new_at(1, GENESIS_HASH.to_string(), Vec::new(), block.timestamp);
    assert_eq!(block.hash, Some(block_hasher(&bare)));
    assert!(ledger.archieved_transactions().is_empty());
}

#[test]
fn archive_grows_with_each_seal_in_order() {
    let mut ledger = Blockchain::init_at(at(1714566896, 0));
    let a = tx("A", "r1", ActionType::ProposeUpdate, "one");
    let b = tx("B", "r2", ActionType::ProposeUpdate, "two");
    ledger.add_transaction(a.clone());
    ledger.add_new_block_at(at(1714566900, 0));
    ledger.add_transaction(b.clone());
    ledger.add_new_block_at(at(1714566901, 0));
    assert_eq!(ledger.archieved_transactions(), &vec![a.clone(), b.clone()]);
    assert_eq!(ledger.blocks()[1].transactions, vec![a]);
    assert_eq!(ledger.blocks()[2].transactions, vec![b]);
}

#[test]
fn chain_is_linked_block_by_block() {
    let mut ledger = Blockchain::init();
    for round in 0..5 {
        ledger.add_transaction(tx("A", &format!("r{}", round), ActionType::ProposeUpdate, "x"));
        ledger.add_new_block();
    }
    let blocks = ledger.blocks();
    assert_eq!(blocks.len(), 6);
    assert_eq!(blocks[0].prev_hash, "0");
    for i in 0..blocks.len() {
        assert_eq!(blocks[i].index as usize, i);
        let bare = Block::new_at(
            blocks[i].index,
            blocks[i].prev_hash.clone(),
            blocks[i].transactions.clone(),
            blocks[i].timestamp,
        );
        assert_eq!(blocks[i].hash, Some(block_hasher(&bare)));
        assert_eq!(blocks[i].merkle_root, Some(transactions_hasher(&blocks[i].transactions)));
        if i >= 1 {
            assert_eq!(Some(blocks[i].prev_hash.clone()), blocks[i - 1].hash);
        }
    }
}

#[test]
fn blocks_after_a_timestamp_are_those_strictly_later() {
    let mut ledger = Blockchain::init_at(at(100, 0));
    ledger.add_new_block_at(at(200, 0));
    ledger.add_new_block_at(at(200, 5));
    ledger.add_new_block_at(at(300, 0));
    let indices = |blocks: Vec<Block>| blocks.iter().map(|b| b.index).collect::<Vec<u32>>();
    assert_eq!(indices(ledger.get_blockchain_after_timestamp(at(0, 0))), vec![0, 1, 2, 3]);
    assert_eq!(indices(ledger.get_blockchain_after_timestamp(at(100, 0))), vec![1, 2, 3]);
    assert_eq!(indices(ledger.get_blockchain_after_timestamp(at(200, 0))), vec![2, 3]);
    assert_eq!(indices(ledger.get_blockchain_after_timestamp(at(200, 4))), vec![2, 3]);
    assert_eq!(indices(ledger.get_blockchain_after_timestamp(at(200, 5))), vec![3]);
    assert_eq!(indices(ledger.get_blockchain_after_timestamp(at(300, 0))), Vec::<u32>::new());
    let later = ledger.get_blockchain_after_timestamp(at(200, 5));
    assert_eq!(later[0], ledger.blocks()[3]);
}

#[test]
fn blocks_after_a_timestamp_keep_chain_order_when_clocks_jump() {
    let mut ledger = Blockchain::init_at(at(500, 0));
    ledger.add_new_block_at(at(100, 0));
    ledger.add_new_block_at(at(400, 0));
    let later = ledger.get_blockchain_after_timestamp(at(300, 0));
    assert_eq!(later.iter().map(|b| b.index).collect::<Vec<u32>>(), vec![0, 2]);
}

#[test]
fn two_of_three_accepting_votes_are_a_super_majority() {
    assert_eq!(tally(&votes(2, 0, 1), 4), Some(ActionType::VoteAccept));
    let mut ledger = Blockchain::init_at(at(1714566896, 0));
    for vote in votes(2, 0, 1) {
        ledger.add_transaction(vote);
    }
    assert_eq!(ledger.proof_of_work(4), Some(ActionType::VoteAccept));
}

#[test]
fn one_of_three_accepting_votes_is_no_verdict() {
    assert_eq!(tally(&votes(1, 0, 1), 4), None);
    let mut ledger = Blockchain::init_at(at(1714566896, 0));
    for vote in votes(1, 0, 1) {
        ledger.add_transaction(vote);
    }
    assert_eq!(ledger.proof_of_work(4), None);
}

#[test]
fn rejecting_votes_reach_a_verdict_by_the_same_measure() {
    assert_eq!(tally(&votes(0, 2, 1), 4), Some(ActionType::VoteReject));
    assert_eq!(tally(&votes(0, 1, 1), 4), None);
    assert_eq!(tally(&votes(1, 2, 0), 4), Some(ActionType::VoteReject));
    assert_eq!(tally(&votes(1, 1, 0), 4), None);
}

#[test]
fn acceptance_wins_where_both_sides_have_a_super_majority() {
    assert_eq!(tally(&votes(2, 2, 0), 4), Some(ActionType::VoteAccept));
    assert_eq!(tally(&votes(1, 1, 0), 2), Some(ActionType::VoteAccept));
}

#[test]
fn the_electorate_is_never_less_than_one() {
    assert_eq!(tally(&votes(0, 0, 3), 0), None);
    assert_eq!(tally(&votes(1, 0, 0), 0), Some(ActionType::VoteAccept));
    assert_eq!(tally(&votes(1, 0, 0), 1), Some(ActionType::VoteAccept));
    assert_eq!(tally(&votes(0, 1, 0), 1), Some(ActionType::VoteReject));
    assert_eq!(tally(&votes(1, 0, 0), 2), Some(ActionType::VoteAccept));
    assert_eq!(tally(&votes(1, 0, 0), 3), None);
}

#[test]
fn the_threshold_is_exactly_two_thirds() {
    assert_eq!(tally(&votes(3, 0, 0), 6), None);
    assert_eq!(tally(&votes(4, 0, 0), 6), Some(ActionType::VoteAccept));
    assert_eq!(tally(&votes(4, 0, 0), 7), Some(ActionType::VoteAccept));
    assert_eq!(tally(&votes(4, 0, 0), 8), None);
    assert_eq!(tally(&votes(5, 0, 0), 8), Some(ActionType::VoteAccept));
    assert_eq!(tally(&votes(66, 0, 0), 101), None);
    assert_eq!(tally(&votes(67, 0, 0), 101), Some(ActionType::VoteAccept));
    assert_eq!(tally(&votes(1, 0, 0), u32::MAX), None);
}

#[test]
fn only_votes_are_counted() {
    let mut pending = votes(0, 0, 5);
    pending.push(tx("x", "r", ActionType::EvaluateUpdate, ""));
    pending.push(tx("y", "r", ActionType::FlagMalicious, ""));
    pending.push(tx("z", "r", ActionType::FinalizeBlock, ""));
    assert_eq!(tally(&pending, 2), None);
    assert_eq!(tally(&Vec::new(), 4), None);
}

#[test]
fn a_copy_of_a_ledger_holds_the_same_and_lives_on_alone() {
    let mut ledger = Blockchain::init_at(at(1714566896, 0));
    ledger.add_transaction(tx("A", "r1", ActionType::ProposeUpdate, "one"));
    ledger.add_new_block_at(at(1714566900, 0));
    ledger.add_transaction(tx("B", "r2", ActionType::ProposeUpdate, "two"));
    let copy = ledger.clone();
    assert_eq!(copy, ledger);
    assert_eq!(copy.blocks(), ledger.blocks());
    assert_eq!(copy.current_transactions(), ledger.current_transactions());
    assert_eq!(copy.archieved_transactions(), ledger.archieved_transactions());
    ledger.add_new_block_at(at(1714566901, 0));
    assert_eq!(copy.blocks().len(), 2);
    assert_eq!(copy.current_transactions().len(), 1);
    assert_eq!(ledger.blocks().len(), 3);
}

#[test]
fn the_last_block_is_the_one_sealed_last() {
    let mut ledger = Blockchain::init_at(at(1714566896, 0));
    let first = ledger.add_new_block_at(at(1714566900, 0));
    assert_eq!(ledger.get_last_block(), Some(first));
    let second = ledger.add_new_block_at(at(1714566901, 0));
    assert_eq!(second.index, 2);
    assert_eq!(ledger.get_last_block(), Some(second));
}

#[test]
fn timestamp_takes_exactly_what_chrono_takes() {
    let seconds = [
        i64::MIN,
        MIN_SECONDS - 1,
        MIN_SECONDS,
        MIN_SECONDS + 1,
        MIN_SECONDS + 59,
        -86_401,
        -86_400,
        -121,
        -61,
        -60,
        -59,
        -2,
        -1,
        0,
        1,
        58,
        59,
        60,
        119,
        86_399,
        86_400,
        1_483_228_799,
        1_714_566_896,
        MAX_SECONDS - 60,
        MAX_SECONDS - 1,
        MAX_SECONDS,
        MAX_SECONDS + 1,
        i64::MAX,
    ];
    let nanoseconds =
        [0, 1, 999_999_999, 1_000_000_000, 1_000_000_001, 1_999_999_999, 2_000_000_000, u32::MAX];
    for secs in seconds {
        for nanos in nanoseconds {
            let ours = Timestamp::new(secs, nanos);
            let theirs = chrono::DateTime::from_timestamp(secs, nanos);
            assert_eq!(ours.is_some(), theirs.is_some(), "{} {}", secs, nanos);
            if let (Some(ours), Some(theirs)) = (ours, theirs) {
                assert_eq!(ours.seconds(), theirs.timestamp());
                assert_eq!(ours.nanoseconds(), theirs.timestamp_subsec_nanos());
            }
        }
    }
}

#[test]
fn timestamp_order_is_that_of_chrono() {
    let instants = [
        (-61i64, 1_500_000_000u32),
        (-61, 999_999_999),
        (-60, 0),
        (-1, 0),
        (0, 0),
        (0, 1),
        (59, 999_999_999),
        (59, 1_000_000_000),
        (60, 0),
        (1_714_566_896, 5),
    ];
    for a in instants {
        for b in instants {
            let lhs = chrono::DateTime::from_timestamp(a.0, a.1).unwrap();
            let rhs = chrono::DateTime::from_timestamp(b.0, b.1).unwrap();
            assert_eq!(at(a.0, a.1).is_after(&at(b.0, b.1)), lhs > rhs, "{:?} {:?}", a, b);
        }
    }
}
