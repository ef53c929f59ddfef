//! Content hashing of manifests: SHA-256, written as lower-case hex.

use vstd::prelude::*;

use sha2::Digest;

verus! {

/// The SHA-256 digest of `data`.
pub uninterp spec fn sha256_of(data: Seq<u8>) -> Seq<u8>;

/// Relies on sha2's `Sha256::digest` (through digest's `Digest` trait): the
/// digest depends on the bytes alone and is 32 bytes long (`OutputSize = U32`).
#[verifier::external_body]
fn sha256_digest(data: &[u8]) -> (r: Vec<u8>)
    ensures
        r@ == sha256_of(data@),
        r@.len() == 32,
{
    sha2::Sha256::digest(data).to_vec()
}

pub open spec fn hex_digits() -> Seq<char> {
    seq!['0', '1', '2', '3', '4', '5', '6', '7', '8', '9', 'a', 'b', 'c', 'd', 'e', 'f']
}

/// Each byte as two lower-case hex digits, most significant first.
pub open spec fn hex_of(b: Seq<u8>) -> Seq<char>
    decreases b.len(),
{
    if b.len() == 0 {
        seq![]
    } else {
        hex_of(b.drop_last()) + seq![
            hex_digits()[b.last() as int / 16],
            hex_digits()[b.last() as int % 16],
        ]
    }
}

/// Lower-case hex encoding of `b`.
pub fn to_hex(b: &[u8]) -> (r: String)
    ensures
        r@ == hex_of(b@),
{
    let digits = "0123456789abcdef";
    proof {
        reveal_strlit("0123456789abcdef");
    }
    assert(digits@ =~= hex_digits());
    let mut r = String::new();
    let n = b.len();
    let mut i: usize = 0;
    assert(b@.take(0) =~= seq![]);
    while i < n
        invariant
            i <= n,
            n == b@.len(),
            digits@ == hex_digits(),
            r@ == hex_of(b@.take(i as int)),
        decreases n - i,
    {
        let byte = b[i];
        let hi = (byte / 16) as usize;
        let lo = (byte % 16) as usize;
        assert(b@.take(i + 1).drop_last() =~= b@.take(i as int));
        assert(b@.take(i + 1).last() == byte);
        r.append(digits.substring_char(hi, hi + 1));
        r.append(digits.substring_char(lo, lo + 1));
        assert(r@ =~= hex_of(b@.take(i + 1)));
        i = i + 1;
    }
    assert(b@.take(n as int) =~= b@);
    r
}

/// The hash recorded for a manifest: the lower-case hex SHA-256 of its raw
/// bytes.
pub fn manifest_hash(content: &[u8]) -> (r: String)
    ensures
        r@ == hex_of(sha256_of(content@)),
{
    let d = sha256_digest(content);
    to_hex(d.as_slice())
}

} // verus!
