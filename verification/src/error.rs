//! The errors of the state engine.

use vstd::prelude::*;

verus! {

/// Why an operation of the state engine failed.
#[derive(Debug, Clone, Copy, PartialEq, Eq, Structural)]
pub enum StateError {
    /// The tree engine reported a failure: a node that is missing or
    /// corrupt, a store that could not be read or written, a proof that
    /// could not be compiled.
    Tree,
    /// A proof was asked for no leaf at all.
    EmptyKeys,
    /// A proof was asked for leaves of which two have the same key.
    RepeatedKey,
    /// A block under a number not yet recorded was to be counted, and the
    /// block counter cannot go higher.
    BlockCountFull,
}

} // verus!
