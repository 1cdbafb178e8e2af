use vstd::prelude::*;

use numext_fixed_hash::H256;

verus! {

/// Calls `H256::from_slice` of numext-fixed-hash and hands out the 32 bytes.
/// Per its source, `from_slice` fails exactly when the input is not 32 bytes
/// long, and otherwise copies the input into the hash.
#[verifier::external_body]
pub(crate) fn h256_from_slice(input: &[u8]) -> (r: Option<[u8; 32]>)
    ensures
        r is Some <==> input@.len() == 32,
        r matches Some(h) ==> h@ == input@,
{
    H256::from_slice(input).ok().map(|h| h.0)
}

} // verus!
