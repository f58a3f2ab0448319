use blake2b_ref::Blake2bBuilder;
use gw_chain::block::{serialize_block_key, L2Block};
use gw_chain::error::StateError;
use gw_chain::hash::header_hash;
use gw_chain::state::{State, StateImpl};
use gw_chain::tree::MerkleTree;
use sparse_merkle_tree::blake2b::Blake2bHasher;
use sparse_merkle_tree::{CompiledMerkleProof, H256};

const ZERO: [u8; 32] = [0u8; 32];

fn verifies(proof: &[u8], root: [u8; 32], key: [u8; 32], value: [u8; 32]) -> bool {
    let compiled = CompiledMerkleProof(proof.to_vec());
    let leaves = vec![(H256::from(key), H256::from(value))];
    matches!(compiled.verify::<Blake2bHasher>(&H256::from(root), leaves), Ok(true))
}

fn reference_hash(data: &[u8]) -> [u8; 32] {
    let mut digest = [0u8; 32];
    let mut hasher = Blake2bBuilder::new(32).personal(b"ckb-default-hash").build();
    hasher.update(data);
    hasher.finalize(&mut digest);
    digest
}

#[test]
fn block_key_is_big_endian() {
    let mut expected = [0u8; 32];
    expected[7] = 7;
    assert_eq!(serialize_block_key(7), expected);
    let mut expected = [0u8; 32];
    expected[..8].copy_from_slice(&[1, 2, 3, 4, 5, 6, 7, 8]);
    assert_eq!(serialize_block_key(0x0102_0304_0506_0708), expected);
}

#[test]
fn block_key_edges() {
    assert_eq!(serialize_block_key(0), ZERO);
    let mut expected = [0u8; 32];
    expected[..8].copy_from_slice(&[0xff; 8]);
    assert_eq!(serialize_block_key(u64::MAX), expected);
    let mut expected = [0u8; 32];
    expected[6] = 1;
    assert_eq!(serialize_block_key(256), expected);
}

#[test]
fn block_key_matches_std() {
    for number in [1u64, 255, 256, 65_535, 1 << 32, 0xdead_beef_0bad_f00d] {
        let key = serialize_block_key(number);
        assert_eq!(&key[..8], &number.to_be_bytes());
        assert_eq!(&key[8..], &[0u8; 24]);
    }
}

#[test]
fn block_keys_sort_with_their_numbers() {
    assert!(serialize_block_key(255) < serialize_block_key(256));
    assert!(serialize_block_key(1) < serialize_block_key(1 << 56));
}

#[test]
fn header_hash_of_nothing() {
    let expected: [u8; 32] = [
        0x44, 0xf4, 0xc6, 0x97, 0x44, 0xd5, 0xf8, 0xc5, 0x5d, 0x64, 0x20, 0x62, 0x94, 0x9d, 0xca,
        0xe4, 0x9b, 0xc4, 0xe7, 0xef, 0x43, 0xd3, 0x88, 0xc5, 0xa1, 0x2f, 0x42, 0xb5, 0x63, 0x3d,
        0x16, 0x3e,
    ];
    assert_eq!(header_hash(&[]), expected);
}

#[test]
fn header_hash_is_personalised_blake2b() {
    let data = b"raw header of block seven";
    assert_eq!(header_hash(data), reference_hash(data));
    assert_ne!(header_hash(data), header_hash(b"raw header of block eight"));
    let mut plain = [0u8; 32];
    let mut hasher = Blake2bBuilder::new(32).build();
    hasher.update(data);
    hasher.finalize(&mut plain);
    assert_ne!(header_hash(data), plain);
}

#[test]
fn block_accessors() {
    let block = L2Block::new(7, vec![1, 2, 3]);
    assert_eq!(block.number(), 7);
    assert_eq!(block.raw(), &[1u8, 2, 3][..]);
}

#[test]
fn push_block_records_the_header_hash() {
    let header = b"raw header of block seven".to_vec();
    let mut state = StateImpl::default();
    assert_eq!(state.push_block(L2Block::new(7, header.clone())), Ok(()));
    assert_eq!(state.block_hash(7), Ok(reference_hash(&header)));
    assert_eq!(state.block_hash(8), Ok(ZERO));
    assert_ne!(state.block_root(), ZERO);
    assert_eq!(state.calculate_root(), Ok(ZERO));
    assert_eq!(state.block_count(), 1);
}

#[test]
fn push_block_scenario() {
    let header = b"raw header of block seven".to_vec();
    let hash = reference_hash(&header);
    let mut state = StateImpl::default();
    state.push_block(L2Block::new(7, header)).unwrap();
    let root = state.block_root();

    let proof = state.block_merkle_proof(7).unwrap();
    assert!(verifies(&proof, root, serialize_block_key(7), hash));
    assert!(!verifies(&proof, root, serialize_block_key(7), ZERO));

    let proof = state.block_merkle_proof(8).unwrap();
    assert!(verifies(&proof, root, serialize_block_key(8), ZERO));
    assert!(!verifies(&proof, root, serialize_block_key(8), hash));
}

#[test]
fn record_block_equals_push_block() {
    let header = vec![0xabu8; 100];
    let mut pushed = StateImpl::default();
    pushed.push_block(L2Block::new(3, header.clone())).unwrap();
    let mut recorded = StateImpl::default();
    recorded.record_block(3, reference_hash(&header)).unwrap();
    assert_eq!(pushed.block_root(), recorded.block_root());
}

#[test]
fn block_proofs_over_several_blocks() {
    let mut state = StateImpl::default();
    for number in 0u64..5 {
        state.push_block(L2Block::new(number, vec![number as u8; 10])).unwrap();
    }
    let root = state.block_root();
    for number in 0u64..5 {
        let proof = state.block_merkle_proof(number).unwrap();
        let hash = reference_hash(&vec![number as u8; 10]);
        assert_eq!(state.block_hash(number), Ok(hash));
        assert!(verifies(&proof, root, serialize_block_key(number), hash));
    }
    let proof = state.block_merkle_proof(5).unwrap();
    assert!(verifies(&proof, root, serialize_block_key(5), ZERO));
}

#[test]
fn block_proof_on_an_empty_tree() {
    let state = StateImpl::default();
    let proof = state.block_merkle_proof(1).unwrap();
    assert!(verifies(&proof, ZERO, serialize_block_key(1), ZERO));
}

#[test]
fn pushing_a_block_again_replaces_its_hash() {
    let mut state = StateImpl::default();
    state.push_block(L2Block::new(1, vec![1])).unwrap();
    let first = state.block_root();
    state.push_block(L2Block::new(1, vec![2])).unwrap();
    assert_ne!(state.block_root(), first);
    assert_eq!(state.block_hash(1), Ok(reference_hash(&[2])));
}

#[test]
fn block_count_counts_each_number_once() {
    let mut state = StateImpl::default();
    assert_eq!(state.block_count(), 0);
    state.push_block(L2Block::new(1, vec![1])).unwrap();
    assert_eq!(state.block_count(), 1);
    state.push_block(L2Block::new(2, vec![2])).unwrap();
    assert_eq!(state.block_count(), 2);
    state.push_block(L2Block::new(1, vec![3])).unwrap();
    assert_eq!(state.block_count(), 2);
    assert_eq!(state.block_hash(1), Ok(reference_hash(&[3])));
    assert_eq!(state.block_hash(2), Ok(reference_hash(&[2])));
}

#[test]
fn block_count_follows_record_block() {
    let mut state = StateImpl::default();
    for number in 0u64..10 {
        assert_eq!(state.record_block(number, [number as u8 + 1; 32]), Ok(()));
        assert_eq!(state.block_count(), number + 1);
    }
    for number in 0u64..10 {
        assert_eq!(state.record_block(number, [0xee; 32]), Ok(()));
        assert_eq!(state.block_count(), 10);
    }
}

#[test]
fn block_count_goes_on_from_what_was_given() {
    let mut blocks = MerkleTree::new();
    blocks.update(serialize_block_key(0), [1u8; 32]).unwrap();
    let mut state = StateImpl::new(MerkleTree::new(), 0, blocks, 1);
    state.record_block(0, [2u8; 32]).unwrap();
    assert_eq!(state.block_count(), 1);
    state.record_block(1, [3u8; 32]).unwrap();
    assert_eq!(state.block_count(), 2);
}

#[test]
fn block_count_leaves_the_account_side_alone() {
    let mut state = StateImpl::default();
    state.update_raw([1u8; 32], [2u8; 32]).unwrap();
    state.set_account_count(4).unwrap();
    let root = state.calculate_root();
    state.push_block(L2Block::new(9, vec![9])).unwrap();
    assert_eq!(state.block_count(), 1);
    assert_eq!(state.get_account_count(), Ok(4));
    assert_eq!(state.calculate_root(), root);
    state.update_raw([3u8; 32], [4u8; 32]).unwrap();
    state.set_account_count(5).unwrap();
    assert_eq!(state.block_count(), 1);
}

#[test]
fn full_block_count_refuses_a_new_number() {
    let mut blocks = MerkleTree::new();
    blocks.update(serialize_block_key(5), [1u8; 32]).unwrap();
    let mut state = StateImpl::new(MerkleTree::new(), 0, blocks, u64::MAX);
    let root = state.block_root();

    assert_eq!(state.record_block(6, [2u8; 32]), Err(StateError::BlockCountFull));
    assert_eq!(state.push_block(L2Block::new(7, vec![7])), Err(StateError::BlockCountFull));
    assert_eq!(state.block_root(), root);
    assert_eq!(state.block_hash(6), Ok(ZERO));
    assert_eq!(state.block_hash(7), Ok(ZERO));
    assert_eq!(state.block_count(), u64::MAX);

    assert_eq!(state.record_block(5, [3u8; 32]), Ok(()));
    assert_eq!(state.block_hash(5), Ok([3u8; 32]));
    assert_eq!(state.block_count(), u64::MAX);
    assert_ne!(state.block_root(), root);
}

#[test]
fn last_free_count_is_still_taken() {
    let mut state = StateImpl::new(MerkleTree::new(), 0, MerkleTree::new(), u64::MAX - 1);
    assert_eq!(state.record_block(1, [1u8; 32]), Ok(()));
    assert_eq!(state.block_count(), u64::MAX);
    assert_eq!(state.record_block(2, [1u8; 32]), Err(StateError::BlockCountFull));
}

#[test]
fn tree_tells_its_leaves() {
    let mut tree = MerkleTree::new();
    assert_eq!(tree.contains(&[1u8; 32]), Ok(false));
    tree.update([1u8; 32], [2u8; 32]).unwrap();
    assert_eq!(tree.contains(&[1u8; 32]), Ok(true));
    assert_eq!(tree.contains(&[2u8; 32]), Ok(false));
    tree.update([1u8; 32], ZERO).unwrap();
    assert_eq!(tree.contains(&[1u8; 32]), Ok(false));
}
