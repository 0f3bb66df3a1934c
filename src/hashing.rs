use vstd::prelude::*;

verus! {

/// The Keccak-256 digest of a byte string.
pub uninterp spec fn keccak256(data: Seq<u8>) -> Seq<u8>;

/// Relies on `solana_program::keccak::hash`: the 32-byte Keccak-256 digest of
/// the bytes it is given, a function of those bytes alone.
#[verifier::external_body]
pub(crate) fn keccak_hash(data: &Vec<u8>) -> (r: [u8; 32])
    ensures
        r@ == keccak256(data@),
{
    solana_program::keccak::hash(data.as_slice()).to_bytes()
}

/// Byte-wise equality of two 32-byte values.
pub fn bytes32_eq(a: &[u8; 32], b: &[u8; 32]) -> (r: bool)
    ensures
        r == (a@ == b@),
{
    let mut i: usize = 0;
    while i < 32
        invariant
            0 <= i <= 32,
            a@.len() == 32,
            b@.len() == 32,
            forall|j: int| 0 <= j < i ==> a@[j] == b@[j],
        decreases 32 - i,
    {
        if a[i] != b[i] {
            return false;
        }
        i = i + 1;
    }
    assert(a@ =~= b@);
    true
}

} // verus!
