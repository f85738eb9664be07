//! The linked browser runtime: whether it still is the system's browser.

use vstd::prelude::*;

verus! {

/// What `blake3::hash` gives for a sequence of bytes.
pub uninterp spec fn blake3_digest(bytes: Seq<u8>) -> Seq<u8>;

/// `blake3::hash`, as bytes. What is claimed: the digest is a function of the bytes, and 32 bytes
/// long.
#[verifier::external_body]
fn digest(bytes: &[u8]) -> (r: Vec<u8>)
    ensures
        r@ == blake3_digest(bytes@),
        r@.len() == 32,
{
    blake3::hash(bytes).as_bytes().to_vec()
}

/// The digest of a browser that reads as `contents`.
pub fn hasher(contents: &Vec<u8>) -> (r: Vec<u8>)
    ensures
        r@ == blake3_digest(contents@),
        r@.len() == 32,
{
    digest(contents.as_slice())
}

/// Whether two digests differ.
pub fn digests_differ(a: &Vec<u8>, b: &Vec<u8>) -> (r: bool)
    ensures
        r == (a@ != b@),
{
    if a.len() != b.len() {
        return true;
    }
    let mut i: usize = 0;
    while i < a.len()
        invariant
            i <= a.len() == b.len(),
            forall|j: int| 0 <= j < i ==> a@[j] == b@[j],
        decreases a.len() - i,
    {
        if a[i] != b[i] {
            return true;
        }
        i = i + 1;
    }
    assert(a@ =~= b@);
    false
}

/// Whether the linked browser binary is another than the system's, judged by their digests.
pub fn runtime_outdated(system: &Vec<u8>, linked: &Vec<u8>) -> (r: bool)
    ensures
        r == (blake3_digest(system@) != blake3_digest(linked@)),
{
    digests_differ(&hasher(system), &hasher(linked))
}

} // verus!
