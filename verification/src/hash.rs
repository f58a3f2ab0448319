//! The hash that names a block.

use blake2b_ref::Blake2bBuilder;
use vstd::prelude::*;

verus! {

/// The BLAKE2b digest of 32 bytes over `data`, with no key and no salt,
/// personalised with `personal`.
pub uninterp spec fn blake2b_256(personal: Seq<u8>, data: Seq<u8>) -> Seq<u8>;

/// The personalisation under which block headers are hashed.
pub open spec fn header_personal() -> Seq<u8> {
    seq![
        0x63u8, 0x6b, 0x62, 0x2d, 0x64, 0x65, 0x66, 0x61, 0x75, 0x6c, 0x74, 0x2d, 0x68, 0x61,
        0x73, 0x68,
    ]
}

/// `Blake2bBuilder::new(32)`, `personal`, `build`, then `Blake2b::update`
/// once and `finalize`: the digest of `data`. The builder panics on a
/// personalisation of more than 16 bytes, which is left out.
#[verifier::external_body]
pub(crate) fn blake2b_digest(personal: &[u8], data: &[u8]) -> (digest: [u8; 32])
    requires
        personal@.len() <= 16,
    ensures
        digest@ == blake2b_256(personal@, data@),
{
    let mut digest = [0u8; 32];
    let mut hasher = Blake2bBuilder::new(32).personal(personal).build();
    hasher.update(data);
    hasher.finalize(&mut digest);
    digest
}

/// The hash of a block: BLAKE2b-256 over the raw bytes of its header.
pub fn header_hash(raw_header: &[u8]) -> (hash: [u8; 32])
    ensures
        hash@ == blake2b_256(header_personal(), raw_header@),
{
    // "ckb-default-hash"
    let personal: [u8; 16] = [
        0x63, 0x6b, 0x62, 0x2d, 0x64, 0x65, 0x66, 0x61, 0x75, 0x6c, 0x74, 0x2d, 0x68, 0x61, 0x73,
        0x68,
    ];
    assert(personal@ =~= header_personal());
    blake2b_digest(personal.as_slice(), raw_header)
}

} // verus!
