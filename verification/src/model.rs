//! The state engine as a value: what the contracts of the engine and of its
//! overlays speak of.

use crate::block::block_key;
use crate::smt::{leaf_value, leaves_after, merkle_root};
use vstd::prelude::*;

verus! {

/// One write: a key and the value written there.
pub type Update = (Seq<u8>, Seq<u8>);

/// The leaves after the writes of `updates`, first to last.
pub open spec fn apply_updates(leaves: Map<Seq<u8>, Seq<u8>>, updates: Seq<Update>) -> Map<
    Seq<u8>,
    Seq<u8>,
>
    decreases updates.len(),
{
    if updates.len() == 0 {
        leaves
    } else {
        leaves_after(
            apply_updates(leaves, updates.drop_last()),
            updates.last().0,
            updates.last().1,
        )
    }
}

/// An overlay: account leaves and an account counter.
#[verifier::ext_equal]
pub struct OverlayView {
    pub accounts: Map<Seq<u8>, Seq<u8>>,
    pub count: u32,
}

impl OverlayView {
    /// The root of the account tree.
    pub open spec fn root(self) -> Seq<u8> {
        merkle_root(self.accounts)
    }

    /// What a lookup of `key` gives.
    pub open spec fn get_raw(self, key: Seq<u8>) -> Seq<u8> {
        leaf_value(self.root(), self.accounts, key)
    }

    /// The overlay after `value` is written at `key`.
    pub open spec fn update_raw(self, key: Seq<u8>, value: Seq<u8>) -> OverlayView {
        OverlayView { accounts: leaves_after(self.accounts, key, value), ..self }
    }

    /// The overlay after the writes of `updates`, first to last.
    pub open spec fn update_all(self, updates: Seq<Update>) -> OverlayView {
        OverlayView { accounts: apply_updates(self.accounts, updates), ..self }
    }

    /// The overlay after its counter is set.
    pub open spec fn set_account_count(self, count: u32) -> OverlayView {
        OverlayView { count, ..self }
    }
}

/// The engine: account leaves and block leaves, each with a counter.
#[verifier::ext_equal]
pub struct EngineView {
    pub accounts: Map<Seq<u8>, Seq<u8>>,
    pub count: u32,
    pub blocks: Map<Seq<u8>, Seq<u8>>,
    pub block_total: u64,
}

impl EngineView {
    /// The root of the account tree.
    pub open spec fn root(self) -> Seq<u8> {
        merkle_root(self.accounts)
    }

    /// The root of the block tree.
    pub open spec fn block_root(self) -> Seq<u8> {
        merkle_root(self.blocks)
    }

    /// What a lookup of `key` in the account tree gives.
    pub open spec fn get_raw(self, key: Seq<u8>) -> Seq<u8> {
        leaf_value(self.root(), self.accounts, key)
    }

    /// What the block tree holds for block `number`.
    pub open spec fn block_hash(self, number: u64) -> Seq<u8> {
        leaf_value(self.block_root(), self.blocks, block_key(number))
    }

    /// The engine after `value` is written at `key` of the account tree.
    pub open spec fn update_raw(self, key: Seq<u8>, value: Seq<u8>) -> EngineView {
        EngineView { accounts: leaves_after(self.accounts, key, value), ..self }
    }

    /// The engine after the writes of `updates`, first to last.
    pub open spec fn update_all(self, updates: Seq<Update>) -> EngineView {
        EngineView { accounts: apply_updates(self.accounts, updates), ..self }
    }

    /// The engine after its account counter is set.
    pub open spec fn set_account_count(self, count: u32) -> EngineView {
        EngineView { count, ..self }
    }

    /// Whether the block tree holds a leaf for block `number`.
    pub open spec fn is_recorded(self, number: u64) -> bool {
        self.blocks.contains_key(block_key(number))
    }

    /// Whether recording block `number` would have to count past the
    /// highest number that the block counter can hold.
    pub open spec fn block_count_full(self, number: u64) -> bool {
        !self.is_recorded(number) && self.block_total == u64::MAX
    }

    /// The engine after `hash` is recorded for block `number`: the leaf is
    /// written, and the counter goes up by one where the number had no leaf.
    pub open spec fn record_block(self, number: u64, hash: Seq<u8>) -> EngineView {
        EngineView {
            blocks: leaves_after(self.blocks, block_key(number), hash),
            block_total: if self.is_recorded(number) {
                self.block_total
            } else {
                (self.block_total + 1) as u64
            },
            ..self
        }
    }

    /// The overlay that a fork of the engine starts as.
    pub open spec fn overlay(self) -> OverlayView {
        OverlayView { accounts: self.accounts, count: self.count }
    }

    /// The engine after it has taken over `overlay`.
    pub open spec fn merge(self, overlay: OverlayView) -> EngineView {
        EngineView { accounts: overlay.accounts, count: overlay.count, ..self }
    }
}

} // verus!
