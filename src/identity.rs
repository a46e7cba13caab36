use vstd::prelude::*;
use crate::bytes::append_bytes;
use crate::digest::{keccak, keccak_of};

verus! {

/// A BLS public key as its affine G1 point: the two coordinates, each as
/// big-endian bytes (leading zero bytes allowed).
pub struct PublicKeyPoint {
    pub x: Vec<u8>,
    pub y: Vec<u8>,
}

/// The minimal big-endian form of the number that `b` writes in big-endian:
/// no leading zero bytes, and a single zero byte for zero.
pub open spec fn minimal_be(b: Seq<u8>) -> Seq<u8>
    decreases b.len(),
{
    if b.len() == 0 {
        seq![0u8]
    } else if b[0] == 0 && b.len() > 1 {
        minimal_be(b.drop_first())
    } else {
        b
    }
}

/// The operator id of a public key with coordinates `x` and `y`: the digest
/// of the minimal big-endian bytes of `x` followed by those of `y`.
pub open spec fn operator_id_of(x: Seq<u8>, y: Seq<u8>) -> Seq<u8> {
    keccak_of(minimal_be(x) + minimal_be(y))
}

/// Relies on `num_bigint::BigUint::from_bytes_be`, which reads the bytes as a
/// big-endian number (empty is zero), and `BigUint::to_bytes_be`, which writes
/// it back without leading zero bytes (a single zero byte for zero).
#[verifier::external_body]
fn minimal_big_endian(b: &[u8]) -> (r: Vec<u8>)
    ensures
        r@ == minimal_be(b@),
{
    num_bigint::BigUint::from_bytes_be(b).to_bytes_be()
}

/// Derives the operator id of a BLS public key: each coordinate in minimal
/// big-endian form, `x` then `y` with no separator, hashed with Keccak-256.
pub fn operator_id_from_key(key: &PublicKeyPoint) -> (r: [u8; 32])
    ensures
        r@ == operator_id_of(key.x@, key.y@),
{
    let mut bytes = minimal_big_endian(key.x.as_slice());
    let y = minimal_big_endian(key.y.as_slice());
    append_bytes(&mut bytes, y.as_slice());
    keccak(bytes.as_slice())
}

/// Leading zero bytes do not change a coordinate's minimal form.
pub proof fn lemma_minimal_be_skips_zero(b: Seq<u8>)
    ensures
        minimal_be(seq![0u8] + b) == minimal_be(b),
{
    let z = seq![0u8] + b;
    if b.len() == 0 {
        assert(z =~= seq![0u8]);
    } else {
        assert(z.drop_first() =~= b);
    }
}

/// Stability of the operator id: the same point written with an extra
/// leading zero byte on either coordinate keeps its id.
pub proof fn lemma_operator_id_stable(x: Seq<u8>, y: Seq<u8>)
    ensures
        operator_id_of(seq![0u8] + x, y) == operator_id_of(x, y),
        operator_id_of(x, seq![0u8] + y) == operator_id_of(x, y),
{
    lemma_minimal_be_skips_zero(x);
    lemma_minimal_be_skips_zero(y);
}

} // verus!
