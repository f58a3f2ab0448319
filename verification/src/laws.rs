//! What holds of the state engine whatever it is given.

use crate::block::{be_byte, block_key};
use crate::model::{apply_updates, EngineView, OverlayView, Update};
use crate::smt::{leaf_value, leaves_after, merkle_root, zero_slot};
use vstd::prelude::*;

verus! {

/// No two writes of `updates` go to the same key.
pub open spec fn distinct_targets(updates: Seq<Update>) -> bool {
    forall|i: int, j: int| 0 <= i < j < updates.len() ==> updates[i].0 != updates[j].0
}

/// Whether one of `updates` goes to `key`.
pub open spec fn targets(updates: Seq<Update>, key: Seq<u8>) -> bool {
    exists|i: int| 0 <= i < updates.len() && updates[i].0 == key
}

/// Whether `leaves` hold what `update` wrote: its value at its key, or no
/// leaf there where the value is zero.
pub open spec fn holds_update(leaves: Map<Seq<u8>, Seq<u8>>, update: Update) -> bool {
    &&& leaves.contains_key(update.0) == (update.1 != zero_slot())
    &&& update.1 != zero_slot() ==> leaves[update.0] == update.1
}

/// Whether `after` holds at `key` what `before` held there.
pub open spec fn same_at(
    before: Map<Seq<u8>, Seq<u8>>,
    after: Map<Seq<u8>, Seq<u8>>,
    key: Seq<u8>,
) -> bool {
    &&& after.contains_key(key) == before.contains_key(key)
    &&& before.contains_key(key) ==> after[key] == before[key]
}

/// After writes to distinct keys, a key that was written holds what was
/// written there, and every other key holds what it held before.
proof fn lemma_apply_pointwise(leaves: Map<Seq<u8>, Seq<u8>>, updates: Seq<Update>)
    requires
        distinct_targets(updates),
    ensures
        forall|i: int|
            0 <= i < updates.len() ==> holds_update(
                apply_updates(leaves, updates),
                #[trigger] updates[i],
            ),
        forall|key: Seq<u8>|
            !targets(updates, key) ==> #[trigger] same_at(
                leaves,
                apply_updates(leaves, updates),
                key,
            ),
    decreases updates.len(),
{
    let after = apply_updates(leaves, updates);
    if updates.len() > 0 {
        let front = updates.drop_last();
        let last = updates.last();
        assert(distinct_targets(front)) by {
            assert forall|i: int, j: int| 0 <= i < j < front.len() implies front[i].0
                != front[j].0 by {
                assert(front[i] == updates[i]);
                assert(front[j] == updates[j]);
            }
        }
        lemma_apply_pointwise(leaves, front);
        let before = apply_updates(leaves, front);
        assert(after == leaves_after(before, last.0, last.1));
        assert forall|i: int| 0 <= i < updates.len() implies holds_update(
            after,
            #[trigger] updates[i],
        ) by {
            if i < updates.len() - 1 {
                assert(front[i] == updates[i]);
                assert(holds_update(before, front[i]));
                assert(updates[i].0 != updates[updates.len() - 1].0);
            }
        }
        assert forall|key: Seq<u8>| !targets(updates, key) implies #[trigger] same_at(
            leaves,
            after,
            key,
        ) by {
            assert(updates[updates.len() - 1].0 != key);
            if targets(front, key) {
                let i = choose|i: int| 0 <= i < front.len() && front[i].0 == key;
                assert(front[i] == updates[i]);
                assert(false);
            }
            assert(same_at(leaves, before, key));
        }
    } else {
        assert forall|key: Seq<u8>| !targets(updates, key) implies #[trigger] same_at(
            leaves,
            after,
            key,
        ) by {}
    }
}

/// A rearrangement of writes to distinct keys is again a list of writes to
/// distinct keys, and each of the two lists holds every write of the other.
proof fn lemma_rearranged(first: Seq<Update>, second: Seq<Update>)
    requires
        first.to_multiset() == second.to_multiset(),
        distinct_targets(first),
    ensures
        distinct_targets(second),
        forall|i: int| 0 <= i < first.len() ==> second.contains(#[trigger] first[i]),
        forall|i: int| 0 <= i < second.len() ==> first.contains(#[trigger] second[i]),
{
    broadcast use vstd::seq_lib::group_to_multiset_ensures;

    assert forall|i: int| 0 <= i < first.len() implies second.contains(#[trigger] first[i]) by {
        assert(first.contains(first[i]));
        assert(first.to_multiset().count(first[i]) > 0);
    }
    assert forall|i: int| 0 <= i < second.len() implies first.contains(#[trigger] second[i]) by {
        assert(second.contains(second[i]));
        assert(second.to_multiset().count(second[i]) > 0);
    }
    assert(first.no_duplicates());
    first.lemma_multiset_has_no_duplicates();
    second.lemma_multiset_has_no_duplicates_conv();
    assert forall|i: int, j: int| 0 <= i < j < second.len() implies second[i].0
        != second[j].0 by {
        assert(second[i] != second[j]);
        assert(first.contains(second[i]));
        assert(first.contains(second[j]));
        let p = choose|p: int| 0 <= p < first.len() && first[p] == second[i];
        let q = choose|q: int| 0 <= q < first.len() && first[q] == second[j];
        assert(p != q);
        if p < q {
            assert(first[p].0 != first[q].0);
        } else {
            assert(first[q].0 != first[p].0);
        }
    }
}

/// Order independence. Writes to distinct keys leave the same leaves, and
/// with them the same root, in whatever order they are applied.
pub proof fn law_order_independence(
    leaves: Map<Seq<u8>, Seq<u8>>,
    first: Seq<Update>,
    second: Seq<Update>,
)
    requires
        first.to_multiset() == second.to_multiset(),
        distinct_targets(first),
    ensures
        apply_updates(leaves, first) == apply_updates(leaves, second),
        merkle_root(apply_updates(leaves, first)) == merkle_root(apply_updates(leaves, second)),
{
    lemma_rearranged(first, second);
    lemma_apply_pointwise(leaves, first);
    lemma_apply_pointwise(leaves, second);
    let one = apply_updates(leaves, first);
    let two = apply_updates(leaves, second);
    assert forall|key: Seq<u8>| #[trigger] same_at(one, two, key) by {
        if targets(first, key) {
            let i = choose|i: int| 0 <= i < first.len() && first[i].0 == key;
            assert(second.contains(first[i]));
            let j = choose|j: int| 0 <= j < second.len() && second[j] == first[i];
            assert(holds_update(one, first[i]));
            assert(holds_update(two, second[j]));
        } else {
            if targets(second, key) {
                let j = choose|j: int| 0 <= j < second.len() && second[j].0 == key;
                assert(first.contains(second[j]));
                let i = choose|i: int| 0 <= i < first.len() && first[i] == second[j];
                assert(false);
            }
            assert(same_at(leaves, one, key));
            assert(same_at(leaves, two, key));
        }
    }
    assert forall|key: Seq<u8>| #[trigger]
        one.dom().contains(key) == two.dom().contains(key) by {
        assert(same_at(one, two, key));
    }
    assert forall|key: Seq<u8>| one.dom().contains(key) implies #[trigger] one[key]
        == two[key] by {
        assert(same_at(one, two, key));
    }
    assert(one =~= two);
}

/// Round-trip identity. The counter that was set is the counter that is
/// read, on the engine and on an overlay, and setting it touches no tree.
pub proof fn law_count_round_trip(engine: EngineView, overlay: OverlayView, count: u32)
    ensures
        engine.set_account_count(count).count == count,
        engine.set_account_count(count).accounts == engine.accounts,
        engine.set_account_count(count).blocks == engine.blocks,
        overlay.set_account_count(count).count == count,
        overlay.set_account_count(count).accounts == overlay.accounts,
{
}

/// Namespace isolation. A write to the account tree leaves the block tree
/// with its leaves and its root, and recording a block leaves the account
/// tree with its leaves, its root and every lookup.
pub proof fn law_namespace_isolation(
    engine: EngineView,
    key: Seq<u8>,
    value: Seq<u8>,
    number: u64,
    hash: Seq<u8>,
)
    ensures
        engine.update_raw(key, value).blocks == engine.blocks,
        engine.update_raw(key, value).block_root() == engine.block_root(),
        engine.update_raw(key, value).block_hash(number) == engine.block_hash(number),
        engine.record_block(number, hash).accounts == engine.accounts,
        engine.record_block(number, hash).root() == engine.root(),
        engine.record_block(number, hash).get_raw(key) == engine.get_raw(key),
        engine.record_block(number, hash).count == engine.count,
        engine.update_raw(key, value).block_total == engine.block_total,
{
}

/// The block counter mirrors the block tree. Recording a hash for a number
/// that has a leaf replaces the leaf and counts nothing; for a number that
/// has none it adds one leaf and counts one. So the counter and the number
/// of leaves move together, and the counter never goes down.
pub proof fn law_block_count_mirrors(engine: EngineView, number: u64, hash: Seq<u8>)
    requires
        engine.blocks.dom().finite(),
        hash != zero_slot(),
        !engine.block_count_full(number),
    ensures
        engine.record_block(number, hash).is_recorded(number),
        engine.record_block(number, hash).block_total >= engine.block_total,
        engine.record_block(number, hash).block_total - engine.block_total
            == engine.record_block(number, hash).blocks.len() - engine.blocks.len(),
        engine.is_recorded(number) ==> engine.record_block(number, hash).block_total
            == engine.block_total,
        !engine.is_recorded(number) ==> engine.record_block(number, hash).block_total
            == engine.block_total + 1,
{
    let after = engine.record_block(number, hash);
    assert(after.blocks == engine.blocks.insert(block_key(number), hash));
    assert(after.blocks.dom() =~= engine.blocks.dom().insert(block_key(number)));
}

/// Overlay isolation. A fork starts from the engine's account leaves and
/// counter. Whatever is then written to it, the engine is a value of its
/// own and holds what it held; only a merge hands the result over, and the
/// merge gives the engine exactly what the overlay has come to, leaving
/// the block tree alone.
pub proof fn law_overlay_isolation(engine: EngineView, updates: Seq<Update>, count: u32)
    ensures
        engine.overlay().accounts == engine.accounts,
        engine.overlay().root() == engine.root(),
        engine.overlay().count == engine.count,
        engine.merge(engine.overlay()) == engine,
        ({
            let overlay = engine.overlay().update_all(updates).set_account_count(count);
            let merged = engine.merge(overlay);
            &&& merged.accounts == apply_updates(engine.accounts, updates)
            &&& merged.root() == overlay.root()
            &&& merged.count == count
            &&& merged.blocks == engine.blocks
            &&& merged.block_total == engine.block_total
        }),
{
}

/// A key that has no leaf reads as zero.
pub proof fn law_absent_key_reads_zero(leaves: Map<Seq<u8>, Seq<u8>>, key: Seq<u8>)
    requires
        !leaves.contains_key(key),
    ensures
        leaf_value(merkle_root(leaves), leaves, key) == zero_slot(),
{
}

/// Two block numbers never share a key of the block tree.
pub proof fn law_block_keys_distinct(a: u64, b: u64)
    requires
        a != b,
    ensures
        block_key(a) != block_key(b),
{
    if block_key(a) == block_key(b) {
        assert forall|i: int| 0 <= i < 8 implies be_byte(a, i) == be_byte(b, i) by {
            assert(block_key(a)[i] == be_byte(a, i));
            assert(block_key(b)[i] == be_byte(b, i));
        }
        assert(be_byte(a, 0) == be_byte(b, 0));
        assert(be_byte(a, 1) == be_byte(b, 1));
        assert(be_byte(a, 2) == be_byte(b, 2));
        assert(be_byte(a, 3) == be_byte(b, 3));
        assert(be_byte(a, 4) == be_byte(b, 4));
        assert(be_byte(a, 5) == be_byte(b, 5));
        assert(be_byte(a, 6) == be_byte(b, 6));
        assert(be_byte(a, 7) == be_byte(b, 7));
        assert(a == b) by (bit_vector)
            requires
                ((a >> 56u64) & 0xff) as u8 == ((b >> 56u64) & 0xff) as u8,
                ((a >> 48u64) & 0xff) as u8 == ((b >> 48u64) & 0xff) as u8,
                ((a >> 40u64) & 0xff) as u8 == ((b >> 40u64) & 0xff) as u8,
                ((a >> 32u64) & 0xff) as u8 == ((b >> 32u64) & 0xff) as u8,
                ((a >> 24u64) & 0xff) as u8 == ((b >> 24u64) & 0xff) as u8,
                ((a >> 16u64) & 0xff) as u8 == ((b >> 16u64) & 0xff) as u8,
                ((a >> 8u64) & 0xff) as u8 == ((b >> 8u64) & 0xff) as u8,
                ((a >> 0u64) & 0xff) as u8 == ((b >> 0u64) & 0xff) as u8,
        ;
    }
}

} // verus!
