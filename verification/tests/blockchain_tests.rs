use p2p_blockchain::block::Block;
use p2p_blockchain::blockchain::{Admission, Blockchain, Fault, Violation};

/// The chain [G, B1, B2] with timestamps 1000, 2000, 3000.
fn three_blocks() -> Vec<Block> {
    let genesis = Block::genesis_at(1000);
    let first = Block::with_timestamp(2000, genesis.hash.clone(), 1);
    let second = Block::with_timestamp(3000, first.hash.clone(), 2);
    vec![genesis, first, second]
}

fn chain_of(blocks: Vec<Block>) -> Blockchain {
    Blockchain::from_blocks(blocks).expect("the blocks form a valid chain")
}

#[test]
fn new_chain_holds_one_genesis_block() {
    let chain = Blockchain::new().expect("the clock is past the epoch");
    assert_eq!(chain.len(), 1);
    assert_eq!(chain.get_blocks().len(), 1);
    let genesis = chain.get_last_block().unwrap();
    assert_eq!(genesis.get_height(), 0);
    assert_eq!(genesis.get_prev_hash(), "0".repeat(64));
    assert!(genesis.is_sealed());
    assert!(chain.is_valid());
    assert_eq!(chain.first_violation(), None);
}

#[test]
fn add_block_makes_the_block_the_tip() {
    let mut chain = Blockchain::new().expect("the clock is past the epoch");
    let old_tip = chain.get_last_block().unwrap().clone();
    let block = Block::new_block(old_tip.get_hash(), old_tip.get_height() + 1)
        .expect("the clock is past the epoch");
    assert!(chain.add_block(block.clone()));
    let tip = chain.get_last_block().unwrap();
    assert_eq!(*tip, block);
    assert_eq!(tip.get_prev_hash(), old_tip.get_hash());
    assert_eq!(chain.len(), 2);
    assert_eq!(chain.get_blocks()[0], old_tip);
    assert!(chain.is_valid());
}

#[test]
fn block_with_stale_predecessor_is_rejected() {
    let genesis = Block::genesis_at(1000);
    let mut chain = chain_of(vec![genesis.clone()]);
    let first = Block::with_timestamp(2000, genesis.hash.clone(), 1);
    assert!(chain.add_block(first.clone()));
    let stale = Block::with_timestamp(3000, genesis.hash.clone(), 2);
    assert!(!chain.add_block(stale));
    assert_eq!(chain.len(), 2);
    assert_eq!(chain.get_blocks(), &vec![genesis, first]);
}

#[test]
fn chain_of_one_genesis_rejects_block_that_names_another_genesis() {
    let first_genesis = Block::genesis_at(1000);
    let second_genesis = Block::genesis_at(1001);
    assert_ne!(first_genesis.hash, second_genesis.hash);
    let mut chain = chain_of(vec![second_genesis.clone()]);
    let block = Block::with_timestamp(2000, first_genesis.hash.clone(), 1);
    assert_eq!(chain.admission(&block), Admission::PrevHashMismatch);
    assert!(!chain.add_block(block));
    assert_eq!(chain.get_blocks(), &vec![second_genesis]);
}

#[test]
fn redelivered_tip_is_rejected_and_not_duplicated() {
    let blocks = three_blocks();
    let mut chain = chain_of(blocks.clone());
    assert!(!chain.add_block(blocks[2].clone()));
    assert_eq!(chain.get_blocks(), &blocks);
}

#[test]
fn redelivered_earlier_blocks_are_rejected() {
    let blocks = three_blocks();
    let mut chain = chain_of(blocks.clone());
    assert!(!chain.add_block(blocks[0].clone()));
    assert!(!chain.add_block(blocks[1].clone()));
    assert_eq!(chain.get_blocks(), &blocks);
}

#[test]
fn block_with_wrong_hash_is_rejected_though_it_names_the_tip() {
    let blocks = three_blocks();
    let mut chain = chain_of(blocks.clone());
    let mut forged = Block::with_timestamp(4000, blocks[2].hash.clone(), 3);
    forged.timestamp = 4001;
    assert_eq!(chain.admission(&forged), Admission::HashMismatch);
    assert!(!chain.add_block(forged));
    assert_eq!(chain.get_blocks(), &blocks);
}

#[test]
fn stale_predecessor_is_reported_before_a_wrong_hash() {
    let chain = chain_of(three_blocks());
    let block = Block {
        timestamp: 1,
        prev_block_hash: "nowhere".to_string(),
        hash: "nothing".to_string(),
        height: 3,
    };
    assert_eq!(chain.admission(&block), Admission::PrevHashMismatch);
}

#[test]
fn admission_accepts_without_appending() {
    let blocks = three_blocks();
    let chain = chain_of(blocks.clone());
    let next = Block::with_timestamp(4000, blocks[2].hash.clone(), 3);
    assert_eq!(chain.admission(&next), Admission::Accepted);
    assert_eq!(chain.len(), 3);
}

#[test]
fn submit_block_answers_and_appends_only_on_acceptance() {
    let blocks = three_blocks();
    let mut chain = chain_of(blocks.clone());
    let stale = Block::with_timestamp(4000, blocks[1].hash.clone(), 3);
    assert_eq!(chain.submit_block(stale), Admission::PrevHashMismatch);
    assert_eq!(chain.len(), 3);
    let next = Block::with_timestamp(4000, blocks[2].hash.clone(), 3);
    assert_eq!(chain.submit_block(next.clone()), Admission::Accepted);
    assert_eq!(chain.len(), 4);
    assert_eq!(chain.get_last_block(), Some(&next));
}

#[test]
fn height_is_not_judged_on_append_but_is_on_validation() {
    let blocks = three_blocks();
    let mut chain = chain_of(blocks.clone());
    let misplaced = Block::with_timestamp(4000, blocks[2].hash.clone(), 17);
    assert!(chain.add_block(misplaced));
    assert_eq!(chain.len(), 4);
    assert!(!chain.is_valid());
    assert_eq!(
        chain.first_violation(),
        Some(Violation { index: 3, fault: Fault::BadHeight })
    );
}

#[test]
fn empty_sequence_is_an_empty_chain_without_tip() {
    let mut chain = chain_of(Vec::new());
    assert_eq!(chain.len(), 0);
    assert!(chain.is_valid());
    assert_eq!(chain.get_last_block(), None);
    assert_eq!(chain.get_block(0), None);
    let genesis = Block::genesis_at(5);
    assert_eq!(chain.admission(&genesis), Admission::EmptyChain);
    assert!(!chain.add_block(genesis));
    assert_eq!(chain.len(), 0);
}

#[test]
fn from_blocks_takes_a_valid_chain_as_it_is() {
    let blocks = three_blocks();
    let chain = chain_of(blocks.clone());
    assert!(chain.is_valid());
    assert_eq!(chain.get_blocks(), &blocks);
    assert_eq!(chain.get_last_block(), Some(&blocks[2]));
}

#[test]
fn blocks_of_a_valid_chain_reload_as_the_same_chain() {
    let mut chain = Blockchain::new().expect("the clock is past the epoch");
    for _ in 0..3 {
        let tip = chain.get_last_block().unwrap();
        let block = Block::new_block(tip.get_hash(), tip.get_height() + 1)
            .expect("the clock is past the epoch");
        assert!(chain.add_block(block));
    }
    let stored: Vec<Block> = chain.get_blocks().clone();
    let reloaded = Blockchain::from_blocks(stored).expect("a valid chain reloads");
    assert!(reloaded.is_valid());
    assert_eq!(reloaded.len(), 4);
    for (kept, loaded) in chain.get_blocks().iter().zip(reloaded.get_blocks()) {
        assert_eq!(loaded.timestamp, kept.timestamp);
        assert_eq!(loaded.prev_block_hash, kept.prev_block_hash);
        assert_eq!(loaded.hash, kept.hash);
        assert_eq!(loaded.height, kept.height);
    }
}

#[test]
fn from_blocks_refuses_a_broken_link() {
    let mut blocks = three_blocks();
    blocks[2] = Block::with_timestamp(3000, blocks[0].hash.clone(), 2);
    let refused = Blockchain::from_blocks(blocks).unwrap_err();
    assert_eq!(refused, Violation { index: 2, fault: Fault::BrokenLink });
}

#[test]
fn from_blocks_refuses_a_wrong_hash() {
    let mut blocks = three_blocks();
    blocks[1].timestamp = 2001;
    let refused = Blockchain::from_blocks(blocks).unwrap_err();
    assert_eq!(refused, Violation { index: 1, fault: Fault::BadHash });
}

#[test]
fn from_blocks_refuses_a_wrong_height() {
    let mut blocks = three_blocks();
    blocks[2].height = 5;
    let refused = Blockchain::from_blocks(blocks).unwrap_err();
    assert_eq!(refused, Violation { index: 2, fault: Fault::BadHeight });
}

#[test]
fn first_block_may_name_any_predecessor() {
    let rooted_elsewhere = Block::with_timestamp(1000, "f".repeat(64), 0);
    let chain = chain_of(vec![rooted_elsewhere.clone()]);
    assert!(chain.is_valid());
    assert_eq!(chain.first_violation(), None);
    assert_eq!(chain.get_blocks(), &vec![rooted_elsewhere]);

    let short_name = Block::with_timestamp(5, "abc".to_string(), 0);
    let next = Block::with_timestamp(6, short_name.hash.clone(), 1);
    let chain = chain_of(vec![short_name.clone(), next.clone()]);
    assert!(chain.is_valid());
    assert_eq!(chain.get_blocks(), &vec![short_name, next]);
}

#[test]
fn fault_behind_an_unusual_first_block_is_found_where_it_is() {
    let first = Block::with_timestamp(5, "abc".to_string(), 0);
    let second = Block::with_timestamp(6, first.hash.clone(), 1);
    let mut third = Block::with_timestamp(7, second.hash.clone(), 2);
    third.height = 9;
    let refused = Blockchain::from_blocks(vec![first, second, third]).unwrap_err();
    assert_eq!(refused, Violation { index: 2, fault: Fault::BadHeight });
}

#[test]
fn from_blocks_refuses_a_first_block_that_is_out_of_order() {
    let raised = Block::with_timestamp(1000, "0".repeat(64), 1);
    let refused = Blockchain::from_blocks(vec![raised]).unwrap_err();
    assert_eq!(refused, Violation { index: 0, fault: Fault::BadHeight });

    let mut unsealed = Block::genesis_at(1000);
    unsealed.timestamp = 999;
    let refused = Blockchain::from_blocks(vec![unsealed]).unwrap_err();
    assert_eq!(refused, Violation { index: 0, fault: Fault::BadHash });
}

#[test]
fn tampered_timestamp_is_found_at_its_index() {
    for index in 0..3 {
        let mut blocks = three_blocks();
        blocks[index].timestamp += 1;
        let refused = Blockchain::from_blocks(blocks).unwrap_err();
        assert_eq!(refused, Violation { index, fault: Fault::BadHash });
    }
}

#[test]
fn tampered_predecessor_hash_is_found_at_its_index() {
    for index in 1..3 {
        let mut blocks = three_blocks();
        blocks[index].prev_block_hash = "1".repeat(64);
        let refused = Blockchain::from_blocks(blocks).unwrap_err();
        assert_eq!(refused, Violation { index, fault: Fault::BrokenLink });
    }
}

#[test]
fn tampered_predecessor_hash_of_the_first_block_breaks_its_seal() {
    let mut blocks = three_blocks();
    blocks[0].prev_block_hash = "1".repeat(64);
    let refused = Blockchain::from_blocks(blocks).unwrap_err();
    assert_eq!(refused, Violation { index: 0, fault: Fault::BadHash });
}

#[test]
fn resealed_block_breaks_the_link_of_its_successor() {
    let mut blocks = three_blocks();
    blocks[1] = Block::with_timestamp(2500, blocks[0].hash.clone(), 1);
    let refused = Blockchain::from_blocks(blocks).unwrap_err();
    assert_eq!(refused, Violation { index: 2, fault: Fault::BrokenLink });
}

#[test]
fn the_first_of_several_faults_is_reported() {
    let mut blocks = three_blocks();
    blocks[2].height = 9;
    blocks[1].timestamp = 1;
    let refused = Blockchain::from_blocks(blocks).unwrap_err();
    assert_eq!(refused, Violation { index: 1, fault: Fault::BadHash });
}

#[test]
fn faults_of_one_block_are_judged_link_then_hash_then_height() {
    let mut blocks = three_blocks();
    blocks[1].prev_block_hash = "2".repeat(64);
    blocks[1].height = 8;
    let refused = Blockchain::from_blocks(blocks).unwrap_err();
    assert_eq!(refused, Violation { index: 1, fault: Fault::BrokenLink });

    let mut blocks = three_blocks();
    blocks[1].timestamp = 7;
    blocks[1].height = 8;
    let refused = Blockchain::from_blocks(blocks).unwrap_err();
    assert_eq!(refused, Violation { index: 1, fault: Fault::BadHash });
}

#[test]
fn get_block_finds_blocks_by_position() {
    let blocks = three_blocks();
    let chain = chain_of(blocks.clone());
    assert_eq!(chain.get_block(0), Some(&blocks[0]));
    assert_eq!(chain.get_block(2), Some(&blocks[2]));
    assert_eq!(chain.get_block(3), None);
    assert_eq!(chain.get_block(usize::MAX), None);
}
