//! A sparse Merkle tree over 32-byte keys and values, seen as the mapping of
//! its leaves.

use crate::error::StateError;
use crate::smt::{
    compiled_proof, distinct_keys, key_bytes, leaf_value, leaves_after, merkle_root, no_leaves,
    proper_leaves,
    tree_built, tree_compiled_proof, tree_empty, tree_fork, tree_get, tree_leaf, tree_leaves,
    tree_root,
    tree_root_bytes, tree_update, zero_slot, Smt,
};
use vstd::prelude::*;

verus! {

/// One tree with its own store. Its view is the mapping from each written
/// key to its value; a key that was never written, or was written with zero
/// last, is not in it. Every method says so of the tree it is called on:
/// its leaves are `proper_leaves`.
pub struct MerkleTree {
    inner: Smt,
}

/// Whether the two slots hold the same bytes.
pub fn same_slot(a: &[u8; 32], b: &[u8; 32]) -> (same: bool)
    ensures
        same == (a@ == b@),
{
    let mut i: usize = 0;
    while i < 32
        invariant
            i <= 32,
            forall|j: int| 0 <= j < i ==> a@[j] == b@[j],
        decreases 32 - i,
    {
        if a[i] != b[i] {
            return false;
        }
        i += 1;
    }
    assert(a@ =~= b@);
    true
}

/// Whether no key occurs twice in `keys`.
pub fn all_distinct(keys: &Vec<[u8; 32]>) -> (distinct: bool)
    ensures
        distinct == distinct_keys(keys@),
{
    let mut i: usize = 0;
    while i < keys.len()
        invariant
            i <= keys.len(),
            forall|a: int, b: int| 0 <= a < b < i ==> keys@[a]@ != keys@[b]@,
        decreases keys.len() - i,
    {
        let mut j: usize = 0;
        while j < i
            invariant
                j <= i,
                i < keys.len(),
                forall|a: int| 0 <= a < j ==> keys@[a]@ != keys@[i as int]@,
            decreases i - j,
        {
            if same_slot(&keys[j], &keys[i]) {
                return false;
            }
            j += 1;
        }
        i += 1;
    }
    true
}

impl MerkleTree {
    #[verifier::type_invariant]
    spec fn well_formed(self) -> bool {
        &&& tree_built(self.inner)
        &&& tree_root(self.inner) == merkle_root(tree_leaves(self.inner))
        &&& proper_leaves(tree_leaves(self.inner))
    }

    /// The leaves of the tree.
    pub closed spec fn view(self) -> Map<Seq<u8>, Seq<u8>> {
        tree_leaves(self.inner)
    }

    /// The empty tree: no leaf, and the zero root.
    pub fn new() -> (tree: Self)
        ensures
            tree@ == no_leaves(),
            merkle_root(tree@) == zero_slot(),
    {
        MerkleTree { inner: tree_empty() }
    }

    /// The root: a function of the leaves alone.
    pub fn root(&self) -> (root: [u8; 32])
        ensures
            root@ == merkle_root(self@),
            proper_leaves(self@),
    {
        proof {
            use_type_invariant(self);
        }
        tree_root_bytes(&self.inner)
    }

    /// The value at `key`: zero for a key that has no leaf.
    pub fn get(&self, key: &[u8; 32]) -> (r: Result<[u8; 32], StateError>)
        ensures
            r is Ok,
            r.unwrap()@ == leaf_value(merkle_root(self@), self@, key@),
            proper_leaves(self@),
    {
        proof {
            use_type_invariant(self);
        }
        match tree_get(&self.inner, key) {
            Ok(value) => Ok(value),
            Err(_) => Err(StateError::Tree),
        }
    }

    /// Whether the tree holds a leaf at `key`.
    pub fn contains(&self, key: &[u8; 32]) -> (r: Result<bool, StateError>)
        ensures
            r == Ok::<bool, StateError>(self@.contains_key(key@)),
            proper_leaves(self@),
    {
        proof {
            use_type_invariant(self);
        }
        match tree_leaf(&self.inner, key) {
            Ok(leaf) => Ok(leaf.is_some()),
            Err(_) => Err(StateError::Tree),
        }
    }

    /// Writes `value` at `key`; the zero value removes the leaf.
    pub fn update(&mut self, key: [u8; 32], value: [u8; 32]) -> (r: Result<(), StateError>)
        ensures
            r is Ok,
            final(self)@ == leaves_after(old(self)@, key@, value@),
            proper_leaves(final(self)@),
    {
        proof {
            use_type_invariant(&*self);
        }
        // The tree is taken out for the write and an empty one stands in for
        // it meanwhile: what `self` holds is a whole tree at every moment.
        let mut tree = tree_empty();
        std::mem::swap(&mut tree, &mut self.inner);
        let written = tree_update(&mut tree, key, value);
        self.inner = tree;
        match written {
            Ok(()) => Ok(()),
            Err(_) => Err(StateError::Tree),
        }
    }

    /// The compiled proof for `keys`, which a verifier checks against the
    /// root and the values it claims for them.
    pub fn merkle_proof(&self, keys: &Vec<[u8; 32]>) -> (r: Result<Vec<u8>, StateError>)
        ensures
            keys@.len() == 0 ==> r == Err::<Vec<u8>, StateError>(StateError::EmptyKeys),
            keys@.len() > 0 && !distinct_keys(keys@) ==> r == Err::<Vec<u8>, StateError>(
                StateError::RepeatedKey,
            ),
            keys@.len() > 0 && distinct_keys(keys@) ==> r is Ok && r.unwrap()@ == compiled_proof(
                self@,
                key_bytes(keys@),
            ),
            proper_leaves(self@),
    {
        proof {
            use_type_invariant(self);
        }
        if keys.len() == 0 {
            return Err(StateError::EmptyKeys);
        }
        if !all_distinct(keys) {
            return Err(StateError::RepeatedKey);
        }
        match tree_compiled_proof(&self.inner, keys) {
            Ok(proof) => Ok(proof),
            Err(_) => Err(StateError::Tree),
        }
    }

    /// A second tree with the same leaves. Writing to either leaves the
    /// other as it was.
    pub fn fork(&self) -> (copy: Self)
        ensures
            copy@ == self@,
            proper_leaves(copy@),
    {
        proof {
            use_type_invariant(self);
        }
        MerkleTree { inner: tree_fork(&self.inner) }
    }
}

} // verus!
