//! The state engine: the account tree and the block tree, each with its
//! counter, and the interface through which every view of the account state
//! is read and written.

use crate::block::{block_key, serialize_block_key, L2Block};
use crate::error::StateError;
use crate::hash::{blake2b_256, header_hash, header_personal};
use crate::model::EngineView;
use crate::overlay::OverlayState;
use crate::smt::{
    compiled_proof, distinct_keys, key_bytes, leaf_value, leaves_after, merkle_root, no_leaves,
    proper_leaves,
    zero_slot,
};
use crate::tree::MerkleTree;
use vstd::prelude::*;

verus! {

/// The keys of `leaves`, in their order.
pub open spec fn leaf_keys(leaves: Seq<([u8; 32], [u8; 32])>) -> Seq<[u8; 32]> {
    Seq::new(leaves.len(), |i: int| leaves[i].0)
}

/// Copies the keys out of `leaves`.
pub fn keys_of(leaves: &Vec<([u8; 32], [u8; 32])>) -> (keys: Vec<[u8; 32]>)
    ensures
        keys@ == leaf_keys(leaves@),
{
    let mut keys: Vec<[u8; 32]> = Vec::new();
    let mut i: usize = 0;
    while i < leaves.len()
        invariant
            i <= leaves.len(),
            keys@.len() == i,
            forall|j: int| 0 <= j < i ==> keys@[j] == leaves@[j].0,
        decreases leaves.len() - i,
    {
        keys.push(leaves[i].0);
        i += 1;
    }
    assert(keys@ =~= leaf_keys(leaves@));
    keys
}

/// What every view of the account state offers: the engine itself, and each
/// overlay forked from it.
pub trait State {
    /// The leaves of the account tree: each written key with its value.
    spec fn accounts(&self) -> Map<Seq<u8>, Seq<u8>>;

    /// The account counter.
    spec fn count(&self) -> u32;

    /// The value at `key`; zero for a key that was never written. Never an
    /// error.
    fn get_raw(&self, key: &[u8; 32]) -> (r: Result<[u8; 32], StateError>)
        ensures
            r is Ok,
            r.unwrap()@ == leaf_value(merkle_root(self.accounts()), self.accounts(), key@),
            proper_leaves(self.accounts()),
    ;

    /// Writes `value` at `key`. The counter stays.
    fn update_raw(&mut self, key: [u8; 32], value: [u8; 32]) -> (r: Result<(), StateError>)
        ensures
            r is Ok,
            final(self).accounts() == leaves_after(old(self).accounts(), key@, value@),
            final(self).count() == old(self).count(),
            proper_leaves(final(self).accounts()),
    ;

    /// The account counter.
    fn get_account_count(&self) -> (r: Result<u32, StateError>)
        ensures
            r == Ok::<u32, StateError>(self.count()),
    ;

    /// Sets the account counter. The tree stays.
    fn set_account_count(&mut self, count: u32) -> (r: Result<(), StateError>)
        ensures
            r is Ok,
            final(self).count() == count,
            final(self).accounts() == old(self).accounts(),
    ;

    /// The root of the account tree: a function of its leaves alone.
    fn calculate_root(&self) -> (r: Result<[u8; 32], StateError>)
        ensures
            r is Ok,
            r.unwrap()@ == merkle_root(self.accounts()),
            proper_leaves(self.accounts()),
    ;

    /// The compiled proof for the keys of `leaves`. The values are the
    /// caller's claim: they are not compared with the tree, and the verifier
    /// is the one to hold them against the root.
    fn merkle_proof(&self, leaves: Vec<([u8; 32], [u8; 32])>) -> (r: Result<Vec<u8>, StateError>)
        ensures
            leaves@.len() == 0 ==> r == Err::<Vec<u8>, StateError>(StateError::EmptyKeys),
            leaves@.len() > 0 && !distinct_keys(leaf_keys(leaves@)) ==> r == Err::<
                Vec<u8>,
                StateError,
            >(StateError::RepeatedKey),
            leaves@.len() > 0 && distinct_keys(leaf_keys(leaves@)) ==> r is Ok
                && r.unwrap()@ == compiled_proof(
                self.accounts(),
                key_bytes(leaf_keys(leaves@)),
            ),
            proper_leaves(self.accounts()),
    ;
}

/// The state engine.
pub struct StateImpl {
    tree: MerkleTree,
    account_count: u32,
    // The block tree has a store of its own: no node of one tree can stand
    // where the other looks for its own.
    block_tree: MerkleTree,
    block_count: u64,
}

impl StateImpl {
    /// The engine as a value.
    pub closed spec fn view(&self) -> EngineView {
        EngineView {
            accounts: self.tree@,
            count: self.account_count,
            blocks: self.block_tree@,
            block_total: self.block_count,
        }
    }

    /// The engine over the two trees and the two counters given.
    pub fn new(
        account_tree: MerkleTree,
        account_count: u32,
        block_tree: MerkleTree,
        block_count: u64,
    ) -> (state: Self)
        ensures
            state@.accounts == account_tree@,
            state@.count == account_count,
            state@.blocks == block_tree@,
            state@.block_total == block_count,
    {
        StateImpl { tree: account_tree, account_count, block_tree, block_count }
    }

    /// A view of the account state as it is now, to write to without the
    /// engine seeing any of it.
    pub fn new_overlay(&self) -> (r: Result<OverlayState, StateError>)
        ensures
            r is Ok,
            r.unwrap()@ == self@.overlay(),
            proper_leaves(self@.accounts),
    {
        match self.get_account_count() {
            Ok(account_count) => Ok(OverlayState::new(self.tree.fork(), account_count)),
            Err(err) => Err(err),
        }
    }

    /// Takes over what the overlay has come to: its tree and its counter
    /// replace the engine's own. The block tree stays.
    pub fn merge(&mut self, overlay: OverlayState)
        ensures
            final(self)@ == old(self)@.merge(overlay@),
    {
        let (tree, account_count) = overlay.into_parts();
        self.tree = tree;
        self.account_count = account_count;
    }

    /// Records `block_hash` as the hash of block `number`, and counts the
    /// block where that number had no leaf. Nothing but the block tree and
    /// its counter changes. Where the counter cannot go higher, nothing is
    /// written at all.
    pub fn record_block(&mut self, number: u64, block_hash: [u8; 32]) -> (r: Result<
        (),
        StateError,
    >)
        ensures
            old(self)@.block_count_full(number) ==> r == Err::<(), StateError>(
                StateError::BlockCountFull,
            ) && final(self)@ == old(self)@,
            !old(self)@.block_count_full(number) ==> r is Ok && final(self)@
                == old(self)@.record_block(number, block_hash@),
            proper_leaves(final(self)@.blocks),
    {
        let key = serialize_block_key(number);
        let recorded = match self.block_tree.contains(&key) {
            Ok(recorded) => recorded,
            Err(err) => return Err(err),
        };
        if !recorded && self.block_count == u64::MAX {
            return Err(StateError::BlockCountFull);
        }
        match self.block_tree.update(key, block_hash) {
            Ok(()) => {
                if !recorded {
                    self.block_count = self.block_count + 1;
                }
                Ok(())
            },
            Err(err) => Err(err),
        }
    }

    /// Records the block: the hash of its raw header, under the key of its
    /// number, counted where that number had no leaf. Nothing but the block
    /// tree and its counter changes.
    pub fn push_block(&mut self, block: L2Block) -> (r: Result<(), StateError>)
        ensures
            old(self)@.block_count_full(block.spec_number()) ==> r == Err::<(), StateError>(
                StateError::BlockCountFull,
            ) && final(self)@ == old(self)@,
            !old(self)@.block_count_full(block.spec_number()) ==> r is Ok && final(self)@
                == old(self)@.record_block(
                block.spec_number(),
                blake2b_256(header_personal(), block.spec_raw()),
            ),
            proper_leaves(final(self)@.blocks),
    {
        let block_hash = header_hash(block.raw());
        self.record_block(block.number(), block_hash)
    }

    /// The hash recorded for block `number`; zero where none was.
    pub fn block_hash(&self, number: u64) -> (r: Result<[u8; 32], StateError>)
        ensures
            r is Ok,
            r.unwrap()@ == self@.block_hash(number),
            proper_leaves(self@.blocks),
    {
        let key = serialize_block_key(number);
        self.block_tree.get(&key)
    }

    /// The block counter: what the engine was made with, and one more for
    /// each block recorded since under a number that had no leaf.
    pub fn block_count(&self) -> (count: u64)
        ensures
            count == self@.block_total,
    {
        self.block_count
    }

    /// The root of the block tree: a function of its leaves alone.
    pub fn block_root(&self) -> (root: [u8; 32])
        ensures
            root@ == self@.block_root(),
            proper_leaves(self@.blocks),
    {
        self.block_tree.root()
    }

    /// The compiled proof for the one key of block `number`, whether or not
    /// that block was recorded.
    pub fn block_merkle_proof(&self, number: u64) -> (r: Result<Vec<u8>, StateError>)
        ensures
            r is Ok,
            r.unwrap()@ == compiled_proof(self@.blocks, seq![block_key(number)]),
            proper_leaves(self@.blocks),
    {
        let key = serialize_block_key(number);
        let mut keys: Vec<[u8; 32]> = Vec::new();
        keys.push(key);
        assert(key_bytes(keys@) =~= seq![block_key(number)]);
        self.block_tree.merkle_proof(&keys)
    }
}

impl Default for StateImpl {
    /// The engine of a fresh chain: two empty trees, both counters zero.
    fn default() -> (state: Self)
        ensures
            state@.accounts == no_leaves(),
            state@.count == 0,
            state@.blocks == no_leaves(),
            state@.block_total == 0,
            state@.root() == zero_slot(),
            state@.block_root() == zero_slot(),
    {
        StateImpl {
            tree: MerkleTree::new(),
            account_count: 0,
            block_tree: MerkleTree::new(),
            block_count: 0,
        }
    }
}

impl State for StateImpl {
    open spec fn accounts(&self) -> Map<Seq<u8>, Seq<u8>> {
        self@.accounts
    }

    open spec fn count(&self) -> u32 {
        self@.count
    }

    fn get_raw(&self, key: &[u8; 32]) -> (r: Result<[u8; 32], StateError>) {
        self.tree.get(key)
    }

    fn update_raw(&mut self, key: [u8; 32], value: [u8; 32]) -> (r: Result<(), StateError>)
        ensures
            final(self)@ == old(self)@.update_raw(key@, value@),
    {
        self.tree.update(key, value)
    }

    fn get_account_count(&self) -> (r: Result<u32, StateError>) {
        Ok(self.account_count)
    }

    fn set_account_count(&mut self, count: u32) -> (r: Result<(), StateError>)
        ensures
            final(self)@ == old(self)@.set_account_count(count),
    {
        self.account_count = count;
        Ok(())
    }

    fn calculate_root(&self) -> (r: Result<[u8; 32], StateError>) {
        Ok(self.tree.root())
    }

    fn merkle_proof(&self, leaves: Vec<([u8; 32], [u8; 32])>) -> (r: Result<Vec<u8>, StateError>) {
        let keys = keys_of(&leaves);
        self.tree.merkle_proof(&keys)
    }
}

} // verus!
