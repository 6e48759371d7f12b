use aptos_network::identity::PeerId;
use std::collections::HashSet;
use aptos_network::partitioner::{
    get_anchor_shard_id, AnalyzedTransaction, NoOpPartitioner, PartitionState, PartitionerV2,
    StateKey,
};

fn set(indices: &[usize]) -> HashSet<usize> {
    indices.iter().copied().collect()
}

fn key(id: u64) -> StateKey {
    StateKey { id }
}

fn peer(low: u128) -> PeerId {
    PeerId { high: 0, low }
}

fn txn(sender: u128, reads: &[u64], writes: &[u64]) -> AnalyzedTransaction {
    AnalyzedTransaction {
        sender: peer(sender),
        read_hints: reads.iter().map(|k| key(*k)).collect(),
        write_hints: writes.iter().map(|k| key(*k)).collect(),
    }
}

#[test]
fn init_indexes_senders_and_keys_in_order_of_first_occurrence() {
    let txns = vec![
        txn(7, &[100, 200], &[300]),
        txn(9, &[200], &[100, 300]),
        txn(7, &[], &[400, 400]),
    ];
    let mut state = PartitionState::new(txns, 4);
    PartitionerV2::init(&mut state);

    assert_eq!(state.sender_idx_table, vec![peer(7), peer(9)]);
    assert_eq!(state.sender_idxs, vec![Some(0), Some(1), Some(0)]);
    assert_eq!(state.key_idx_table, vec![key(100), key(200), key(300), key(400)]);
    assert_eq!(state.read_sets, vec![set(&[0, 1]), set(&[1]), set(&[])]);
    assert_eq!(state.write_sets, vec![set(&[2]), set(&[0, 2]), set(&[3])]);
    assert_eq!(state.trackers.len(), 4);
    assert_eq!(state.trackers[0].storage_location, key(100));
    assert_eq!(state.trackers[0].pending_reads, set(&[0]));
    assert_eq!(state.trackers[0].pending_writes, set(&[1]));
    assert_eq!(state.trackers[1].pending_reads, set(&[0, 1]));
    assert!(state.trackers[1].pending_writes.is_empty());
    assert_eq!(state.trackers[2].pending_writes, set(&[0, 1]));
    assert_eq!(state.trackers[3].pending_writes, set(&[2]));
}

#[test]
fn init_anchors_each_tracker_by_its_key() {
    let mut state = PartitionState::new(vec![txn(1, &[10, 7], &[5])], 4);
    PartitionerV2::init(&mut state);
    assert_eq!(state.trackers[0].anchor_shard_id, 2);
    assert_eq!(state.trackers[1].anchor_shard_id, 3);
    assert_eq!(state.trackers[2].anchor_shard_id, 1);
    assert_eq!(get_anchor_shard_id(&key(10), 4), 2);
    assert_eq!(get_anchor_shard_id(&key(10), 1), 0);
}

#[test]
fn init_on_an_empty_block_records_nothing() {
    let mut state = PartitionState::new(vec![], 2);
    PartitionerV2::init(&mut state);
    assert_eq!(state.num_txns(), 0);
    assert!(state.sender_idx_table.is_empty());
    assert!(state.key_idx_table.is_empty());
    assert!(state.trackers.is_empty());
}

#[test]
fn no_op_partitioner_keeps_the_block_in_one_sub_block() {
    let blocks = NoOpPartitioner {}.partition(vec![11u32, 22, 33], 1);
    assert_eq!(blocks.len(), 1);
    assert_eq!(blocks[0].shard_id, 0);
    assert_eq!(blocks[0].sub_blocks.len(), 1);
    let sub_block = &blocks[0].sub_blocks[0];
    assert_eq!(sub_block.start_index, 0);
    let txns: Vec<u32> = sub_block.transactions.iter().map(|t| t.txn).collect();
    assert_eq!(txns, vec![11, 22, 33]);
    assert!(sub_block
        .transactions
        .iter()
        .all(|t| t.cross_shard_dependencies.required_edges.is_empty()
            && t.cross_shard_dependencies.dependent_edges.is_empty()));
}
