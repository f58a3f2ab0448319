//! Block records: how a block number becomes a key of the block tree.

use vstd::prelude::*;

verus! {

/// The size in bytes of every key and value of a tree.
pub const SLOT_BYTES: usize = 32;

/// Byte `i` of the big-endian encoding of `number`, for `i` in `0..8`.
pub open spec fn be_byte(number: u64, i: int) -> u8 {
    ((number >> ((8 * (7 - i)) as u64)) & 0xff) as u8
}

/// The key under which block `number` is recorded: its eight big-endian
/// bytes, followed by zeros up to the width of a key.
pub open spec fn block_key(number: u64) -> Seq<u8> {
    Seq::new(32, |i: int| if i < 8 { be_byte(number, i) } else { 0u8 })
}

/// Derives the block-tree key of block `number`.
pub fn serialize_block_key(number: u64) -> (key: [u8; 32])
    ensures
        key@ == block_key(number),
{
    let mut key: [u8; 32] = [0u8; 32];
    let mut i: usize = 0;
    while i < 8
        invariant
            i <= 8,
            forall|j: int| 0 <= j < i ==> key@[j] == be_byte(number, j),
            forall|j: int| i <= j < 32 ==> key@[j] == 0u8,
        decreases 8 - i,
    {
        let shift: u32 = 8 * (7 - i as u32);
        let byte: u8 = ((number >> shift) & 0xff) as u8;
        key[i] = byte;
        i += 1;
    }
    assert(key@ =~= block_key(number));
    key
}

/// A block as the state engine records it: its number, and the raw bytes of
/// its header, without the signature and whatever else follows the header.
pub struct L2Block {
    number: u64,
    raw: Vec<u8>,
}

impl L2Block {
    /// The block with this number and these header bytes.
    pub fn new(number: u64, raw: Vec<u8>) -> (block: Self)
        ensures
            block.spec_number() == number,
            block.spec_raw() == raw@,
    {
        L2Block { number, raw }
    }

    /// The number of the block.
    pub closed spec fn spec_number(self) -> u64 {
        self.number
    }

    /// The raw bytes of the header.
    pub closed spec fn spec_raw(self) -> Seq<u8> {
        self.raw@
    }

    /// The number of the block.
    pub fn number(&self) -> (number: u64)
        ensures
            number == self.spec_number(),
    {
        self.number
    }

    /// The raw bytes of the header.
    pub fn raw(&self) -> (raw: &[u8])
        ensures
            raw@ == self.spec_raw(),
    {
        self.raw.as_slice()
    }
}

} // verus!
