//! The overlay: a view forked from the engine's account state, to write to
//! while a batch runs, and to merge or to drop when it is done.

use crate::error::StateError;
use crate::model::OverlayView;
use crate::state::{keys_of, State};
use crate::tree::MerkleTree;
use vstd::prelude::*;

verus! {

/// An account tree and an account counter of its own. Nothing written here
/// reaches the engine it was forked from, nor another overlay.
pub struct OverlayState {
    tree: MerkleTree,
    account_count: u32,
}

impl OverlayState {
    /// The overlay as a value.
    pub closed spec fn view(&self) -> OverlayView {
        OverlayView { accounts: self.tree@, count: self.account_count }
    }

    /// The overlay over this tree and this counter.
    pub fn new(tree: MerkleTree, account_count: u32) -> (overlay: Self)
        ensures
            overlay@.accounts == tree@,
            overlay@.count == account_count,
    {
        OverlayState { tree, account_count }
    }

    /// Gives up the overlay for its tree and its counter.
    pub fn into_parts(self) -> (parts: (MerkleTree, u32))
        ensures
            parts.0@ == self@.accounts,
            parts.1 == self@.count,
    {
        (self.tree, self.account_count)
    }
}

impl State for OverlayState {
    open spec fn accounts(&self) -> Map<Seq<u8>, Seq<u8>> {
        self@.accounts
    }

    open spec fn count(&self) -> u32 {
        self@.count
    }

    fn get_raw(&self, key: &[u8; 32]) -> (r: Result<[u8; 32], StateError>) {
        self.tree.get(key)
    }

    fn update_raw(&mut self, key: [u8; 32], value: [u8; 32]) -> (r: Result<(), StateError>)
        ensures
            final(self)@ == old(self)@.update_raw(key@, value@),
    {
        self.tree.update(key, value)
    }

    fn get_account_count(&self) -> (r: Result<u32, StateError>) {
        Ok(self.account_count)
    }

    fn set_account_count(&mut self, count: u32) -> (r: Result<(), StateError>)
        ensures
            final(self)@ == old(self)@.set_account_count(count),
    {
        self.account_count = count;
        Ok(())
    }

    fn calculate_root(&self) -> (r: Result<[u8; 32], StateError>) {
        Ok(self.tree.root())
    }

    fn merkle_proof(&self, leaves: Vec<([u8; 32], [u8; 32])>) -> (r: Result<Vec<u8>, StateError>) {
        let keys = keys_of(&leaves);
        self.tree.merkle_proof(&keys)
    }
}

} // verus!
