//! The boundary to the sparse Merkle tree engine.
//!
//! The engine is the `sparse-merkle-tree` crate, used with its own BLAKE2b
//! hasher and its own in-memory store. Verus does not look inside it: every
//! function of this file is believed as stated, and everything else in the
//! library is proved from these statements.

use sparse_merkle_tree::blake2b::Blake2bHasher;
use sparse_merkle_tree::default_store::DefaultStore;
use sparse_merkle_tree::traits::StoreReadOps;
use sparse_merkle_tree::{SparseMerkleTree, H256};
use vstd::prelude::*;

verus! {

/// `sparse_merkle_tree::H256`: 32 bytes, a key, a value or a root.
#[verifier::external_type_specification]
#[verifier::external_body]
pub struct ExH256(H256);

/// `sparse_merkle_tree::blake2b::Blake2bHasher`: the hasher of the tree's
/// nodes.
#[verifier::external_type_specification]
#[verifier::external_body]
pub struct ExBlake2bHasher(Blake2bHasher);

/// `sparse_merkle_tree::default_store::DefaultStore`: the nodes of one tree,
/// in two hash maps.
#[verifier::external_type_specification]
#[verifier::external_body]
#[verifier::reject_recursive_types(V)]
pub struct ExDefaultStore<V>(DefaultStore<V>);

/// `sparse_merkle_tree::SparseMerkleTree`: a store and the root over it.
#[verifier::external_type_specification]
#[verifier::external_body]
#[verifier::reject_recursive_types(H)]
#[verifier::reject_recursive_types(V)]
#[verifier::reject_recursive_types(S)]
pub struct ExSparseMerkleTree<H, V, S>(SparseMerkleTree<H, V, S>);

/// `sparse_merkle_tree::error::Error`: what the tree reports when it fails.
#[verifier::external_type_specification]
#[verifier::external_body]
pub struct ExTreeError(sparse_merkle_tree::error::Error);

/// The tree as the library holds it: 32-byte keys and values, hashed with
/// BLAKE2b, nodes kept in memory.
pub type Smt = SparseMerkleTree<Blake2bHasher, H256, DefaultStore<H256>>;

/// The leaves that the tree's store holds: each key with its value.
pub uninterp spec fn tree_leaves(tree: Smt) -> Map<Seq<u8>, Seq<u8>>;

/// The root that the tree currently reports.
pub uninterp spec fn tree_root(tree: Smt) -> Seq<u8>;

/// Whether the tree is one that `update` builds, step by step, from the empty
/// tree: its store then holds exactly the branch nodes of its leaves, and its
/// root is the hash over them.
pub uninterp spec fn tree_built(tree: Smt) -> bool;

/// The root of the tree that holds exactly `leaves`.
pub uninterp spec fn merkle_root(leaves: Map<Seq<u8>, Seq<u8>>) -> Seq<u8>;

/// The compiled proof that the tree holding exactly `leaves` gives for `keys`.
pub uninterp spec fn compiled_proof(leaves: Map<Seq<u8>, Seq<u8>>, keys: Seq<Seq<u8>>) -> Seq<u8>;

/// The all-zero slot: the value of every key that was never written, and the
/// root of the empty tree.
pub open spec fn zero_slot() -> Seq<u8> {
    Seq::new(32, |i: int| 0u8)
}

/// The mapping with no leaf.
pub open spec fn no_leaves() -> Map<Seq<u8>, Seq<u8>> {
    Map::empty()
}

/// Whether `leaves` are what a tree can hold: keys and values of 32 bytes,
/// and no value that is zero, since writing zero removes the leaf.
pub open spec fn proper_leaves(leaves: Map<Seq<u8>, Seq<u8>>) -> bool {
    forall|key: Seq<u8>| #[trigger]
        leaves.contains_key(key) ==> key.len() == 32 && leaves[key].len() == 32 && leaves[key]
            != zero_slot()
}

/// The leaves after `value` is written at `key`: writing the zero slot
/// removes the leaf.
pub open spec fn leaves_after(leaves: Map<Seq<u8>, Seq<u8>>, key: Seq<u8>, value: Seq<u8>) -> Map<
    Seq<u8>,
    Seq<u8>,
> {
    if value == zero_slot() {
        leaves.remove(key)
    } else {
        leaves.insert(key, value)
    }
}

/// What a lookup of `key` gives in a tree with this root and these leaves:
/// a tree with the zero root answers zero for every key, any other tree
/// answers with the leaf, or with zero where there is none.
pub open spec fn leaf_value(root: Seq<u8>, leaves: Map<Seq<u8>, Seq<u8>>, key: Seq<u8>) -> Seq<u8> {
    if root != zero_slot() && leaves.contains_key(key) {
        leaves[key]
    } else {
        zero_slot()
    }
}

/// The keys as plain byte sequences.
pub open spec fn key_bytes(keys: Seq<[u8; 32]>) -> Seq<Seq<u8>> {
    Seq::new(keys.len(), |i: int| keys[i]@)
}

/// No two positions of `keys` hold the same bytes.
pub open spec fn distinct_keys(keys: Seq<[u8; 32]>) -> bool {
    forall|i: int, j: int| 0 <= i < j < keys.len() ==> keys[i]@ != keys[j]@
}

/// `SparseMerkleTree::default`: the tree over an empty store, with the zero
/// root.
#[verifier::external_body]
pub(crate) fn tree_empty() -> (tree: Smt)
    ensures
        tree_built(tree),
        tree_leaves(tree) == no_leaves(),
        tree_root(tree) == zero_slot(),
        tree_root(tree) == merkle_root(tree_leaves(tree)),
{
    SparseMerkleTree::default()
}

/// `SparseMerkleTree::root`: the root field, copied out.
#[verifier::external_body]
pub(crate) fn tree_root_bytes(tree: &Smt) -> (root: [u8; 32])
    ensures
        root@ == tree_root(*tree),
{
    (*tree.root()).into()
}

/// `SparseMerkleTree::get`: zero when the root is zero, else what the store
/// holds for the key, zero where it holds nothing. The in-memory store never
/// fails, so neither does the lookup.
#[verifier::external_body]
pub(crate) fn tree_get(tree: &Smt, key: &[u8; 32]) -> (r: Result<
    [u8; 32],
    sparse_merkle_tree::error::Error,
>)
    ensures
        r is Ok,
        r.unwrap()@ == leaf_value(tree_root(*tree), tree_leaves(*tree), key@),
{
    tree.get(&H256::from(*key)).map(|value| value.into())
}

/// `DefaultStore::get_leaf` on `SparseMerkleTree::store`: the leaf that the
/// store holds for the key, whatever the root is. The in-memory store never
/// fails.
#[verifier::external_body]
pub(crate) fn tree_leaf(tree: &Smt, key: &[u8; 32]) -> (r: Result<
    Option<[u8; 32]>,
    sparse_merkle_tree::error::Error,
>)
    ensures
        r is Ok,
        r.unwrap().is_some() == tree_leaves(*tree).contains_key(key@),
        r.unwrap().is_some() ==> r.unwrap().unwrap()@ == tree_leaves(*tree)[key@],
{
    tree.store().get_leaf(&H256::from(*key)).map(|leaf| leaf.map(|value| value.into()))
}

/// `SparseMerkleTree::update`: stores the leaf, or removes it where the value
/// is zero, rewrites the branch nodes above it and sets the root. On a tree
/// that was built by updates the new root is that of the new leaves. The
/// in-memory store never fails, so neither does the update.
#[verifier::external_body]
pub(crate) fn tree_update(tree: &mut Smt, key: [u8; 32], value: [u8; 32]) -> (r: Result<
    (),
    sparse_merkle_tree::error::Error,
>)
    requires
        tree_built(*old(tree)),
    ensures
        r is Ok,
        tree_built(*final(tree)),
        tree_leaves(*final(tree)) == leaves_after(tree_leaves(*old(tree)), key@, value@),
        tree_root(*final(tree)) == merkle_root(tree_leaves(*final(tree))),
{
    tree.update(key.into(), value.into()).map(|_root| ())
}

/// `SparseMerkleTree::merkle_proof`, then `MerkleProof::compile` with the
/// same keys. The first panics on some inputs that repeat a key, and fails on
/// an empty list: both are left out. On what is left the two walk the keys in
/// the same order, so the second finds the path that the first recorded, and
/// the bytes depend on the leaves and the keys alone.
#[verifier::external_body]
pub(crate) fn tree_compiled_proof(tree: &Smt, keys: &Vec<[u8; 32]>) -> (r: Result<
    Vec<u8>,
    sparse_merkle_tree::error::Error,
>)
    requires
        tree_built(*tree),
        keys@.len() > 0,
        distinct_keys(keys@),
    ensures
        r is Ok,
        r.unwrap()@ == compiled_proof(tree_leaves(*tree), key_bytes(keys@)),
{
    let keys: Vec<H256> = keys.iter().map(|key| H256::from(*key)).collect();
    tree.merkle_proof(keys.clone())?.compile(keys).map(|proof| proof.0)
}

/// `SparseMerkleTree::new` on the root of `tree` and a clone of its store:
/// a second tree with the same nodes, which shares nothing with the first.
#[verifier::external_body]
pub(crate) fn tree_fork(tree: &Smt) -> (copy: Smt)
    ensures
        tree_built(copy) == tree_built(*tree),
        tree_leaves(copy) == tree_leaves(*tree),
        tree_root(copy) == tree_root(*tree),
{
    SparseMerkleTree::new(*tree.root(), tree.store().clone())
}

} // verus!
