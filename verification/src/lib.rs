//! The state-commitment layer of a rollup node: an account tree and a block
//! tree, both sparse Merkle trees, with their counters and inclusion proofs.

pub mod block;
pub mod error;
pub mod hash;
pub mod laws;
pub mod model;
pub mod overlay;
pub mod smt;
pub mod state;
pub mod threads;
pub mod tree;
