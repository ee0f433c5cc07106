//! Derivation of compressed-NFT asset identities.
//!
//! A bonded compressed NFT is identified by the program address derived from
//! its merkle tree and its leaf nonce. The derivation is a hash computed by
//! the `mpl-bubblegum` crate; the rest of the library only stores and
//! compares the resulting 32 bytes.

use vstd::prelude::*;

verus! {

/// The asset id derived from a 32-byte merkle-tree address and a leaf nonce.
/// The derivation is a program-address hash: a pure function of the two
/// arguments, the same in every process, but far too long to state here.
pub uninterp spec fn asset_id_of(tree: Seq<u8>, nonce: u64) -> Seq<u8>;

/// Relies on `mpl_bubblegum::utils::get_asset_id`: finds the program address
/// for seeds `["asset", tree, nonce]`, a deterministic function of the
/// arguments alone, returning a 32-byte key.
#[verifier::external_body]
pub(crate) fn derive_asset_id(tree: &Vec<u8>, nonce: u64) -> (r: Vec<u8>)
    requires
        tree@.len() == 32,
    ensures
        r@ == asset_id_of(tree@, nonce),
        r@.len() == 32,
{
    let arr: [u8; 32] = tree.as_slice().try_into().unwrap();
    let key = solana_program::pubkey::Pubkey::new_from_array(arr);
    mpl_bubblegum::utils::get_asset_id(&key, nonce).to_bytes().to_vec()
}

/// An owned copy of an identity value.
pub fn clone_bytes(v: &Vec<u8>) -> (r: Vec<u8>)
    ensures
        r@ == v@,
{
    let mut r: Vec<u8> = Vec::new();
    let mut i: usize = 0;
    while i < v.len()
        invariant
            0 <= i <= v@.len(),
            r@ == v@.subrange(0, i as int),
        decreases v@.len() - i,
    {
        r.push(v[i]);
        assert(r@ =~= v@.subrange(0, i + 1 as int));
        i += 1;
    }
    assert(r@ =~= v@);
    r
}

/// Byte-for-byte equality of two identity values.
pub fn bytes_eq(a: &Vec<u8>, b: &Vec<u8>) -> (r: bool)
    ensures
        r == (a@ == b@),
{
    if a.len() != b.len() {
        assert(a@ != b@);
        return false;
    }
    let mut i: usize = 0;
    while i < a.len()
        invariant
            0 <= i <= a@.len(),
            a@.len() == b@.len(),
            forall|j: int| 0 <= j < i ==> a@[j] == b@[j],
        decreases a@.len() - i,
    {
        if a[i] != b[i] {
            return false;
        }
        i += 1;
    }
    assert(a@ =~= b@);
    true
}

} // verus!
