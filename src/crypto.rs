//! Byte helpers, the canonical encoding primitives, and the cryptographic
//! capabilities that the verification layer relies on.
use vstd::prelude::*;
use fastcrypto::bls12381::min_sig::{BLS12381AggregateSignature, BLS12381PublicKey, BLS12381Signature};
use fastcrypto::ed25519::{Ed25519PublicKey, Ed25519Signature};
use fastcrypto::hash::HashFunction;
use fastcrypto::traits::{AggregateAuthenticator, ToFromBytes, VerifyingKey};

verus! {

/// Whether `sig` is a valid BLS12-381 (min-sig) signature of `msg` under the
/// public key `pk`; false when either byte string does not parse.
pub uninterp spec fn bls_verifies(pk: Seq<u8>, msg: Seq<u8>, sig: Seq<u8>) -> bool;

/// Whether `sig` is a valid BLS12-381 (min-sig) aggregate signature of `msg`
/// by all of the public keys `pks`; false when any byte string does not parse.
pub uninterp spec fn bls_aggregate_verifies(pks: Seq<Seq<u8>>, msg: Seq<u8>, sig: Seq<u8>) -> bool;

/// Whether `sig` is a valid Ed25519 signature of `msg` under `pk`.
pub uninterp spec fn ed25519_verifies(pk: Seq<u8>, msg: Seq<u8>, sig: Seq<u8>) -> bool;

/// The SHA3-256 digest of `data`.
pub uninterp spec fn sha3_256(data: Seq<u8>) -> Seq<u8>;

/// Relies on fastcrypto's `BLS12381PublicKey::from_bytes`, `BLS12381Signature::from_bytes`
/// and `VerifyingKey::verify` (min-sig scheme): the answer depends on the bytes alone.
#[verifier::external_body]
pub(crate) fn verify_bls(pk: &Vec<u8>, msg: &Vec<u8>, sig: &Vec<u8>) -> (r: bool)
    ensures
        r == bls_verifies(pk@, msg@, sig@),
{
    match (BLS12381PublicKey::from_bytes(pk), BLS12381Signature::from_bytes(sig)) {
        (Ok(pk), Ok(sig)) => pk.verify(msg, &sig).is_ok(),
        _ => false,
    }
}

/// Relies on fastcrypto's `BLS12381AggregateSignature::verify` (min-sig scheme), after
/// parsing each key and the signature with `from_bytes`: the answer depends on the bytes alone.
#[verifier::external_body]
pub(crate) fn verify_bls_aggregate(pks: &Vec<Vec<u8>>, msg: &Vec<u8>, sig: &Vec<u8>) -> (r: bool)
    ensures
        r == bls_aggregate_verifies(pks@.map_values(|k: Vec<u8>| k@), msg@, sig@),
{
    let keys: Result<Vec<BLS12381PublicKey>, _> =
        pks.iter().map(|k| BLS12381PublicKey::from_bytes(k)).collect();
    match (keys, BLS12381AggregateSignature::from_bytes(sig)) {
        (Ok(keys), Ok(sig)) => sig.verify(&keys, msg).is_ok(),
        _ => false,
    }
}

/// Relies on fastcrypto's `Ed25519PublicKey::from_bytes`, `Ed25519Signature::from_bytes`
/// and `VerifyingKey::verify`: the answer depends on the bytes alone.
#[verifier::external_body]
pub(crate) fn verify_ed25519(pk: &Vec<u8>, msg: &Vec<u8>, sig: &Vec<u8>) -> (r: bool)
    ensures
        r == ed25519_verifies(pk@, msg@, sig@),
{
    match (Ed25519PublicKey::from_bytes(pk), Ed25519Signature::from_bytes(sig)) {
        (Ok(pk), Ok(sig)) => pk.verify(msg, &sig).is_ok(),
        _ => false,
    }
}

/// Relies on fastcrypto's `Sha3_256::digest`: a 32-byte digest of the bytes.
#[verifier::external_body]
pub(crate) fn hash_sha3_256(data: &Vec<u8>) -> (r: Vec<u8>)
    ensures
        r@ == sha3_256(data@),
        r@.len() == 32,
{
    fastcrypto::hash::Sha3_256::digest(data).to_vec()
}

/// Byte-wise equality of two byte strings.
pub fn bytes_equal(a: &Vec<u8>, b: &Vec<u8>) -> (r: bool)
    ensures
        r == (a@ == b@),
{
    if a.len() != b.len() {
        return false;
    }
    let mut i: usize = 0;
    while i < a.len()
        invariant
            a@.len() == b@.len(),
            i <= a@.len(),
            a@.subrange(0, i as int) == b@.subrange(0, i as int),
        decreases a@.len() - i,
    {
        if a[i] != b[i] {
            assert(a@[i as int] != b@[i as int]);
            return false;
        }
        assert(a@.subrange(0, i + 1) =~= a@.subrange(0, i as int).push(a@[i as int]));
        assert(b@.subrange(0, i + 1) =~= b@.subrange(0, i as int).push(b@[i as int]));
        i = i + 1;
    }
    assert(a@ =~= a@.subrange(0, i as int));
    assert(b@ =~= b@.subrange(0, i as int));
    true
}

/// A fresh copy of `b`.
pub fn copy_bytes(b: &Vec<u8>) -> (r: Vec<u8>)
    ensures
        r@ == b@,
{
    let mut r: Vec<u8> = Vec::new();
    let mut i: usize = 0;
    while i < b.len()
        invariant
            i <= b@.len(),
            r@ == b@.subrange(0, i as int),
        decreases b@.len() - i,
    {
        r.push(b[i]);
        i = i + 1;
        assert(r@ =~= b@.subrange(0, i as int));
    }
    assert(b@.subrange(0, i as int) =~= b@);
    r
}

/// Byte `j` (counting from the least significant) of `x`.
pub open spec fn le_byte(x: u64, j: int) -> u8 {
    ((x >> ((8 * j) as u64)) & 0xffu64) as u8
}

/// The eight little-endian bytes of `x`.
pub open spec fn enc_u64(x: u64) -> Seq<u8> {
    Seq::new(8, |j: int| le_byte(x, j))
}

/// A byte string prefixed by its length.
pub open spec fn enc_bytes(b: Seq<u8>) -> Seq<u8> {
    enc_u64(b.len() as u64) + b
}

/// A flag byte: 1 for true, 0 for false.
pub open spec fn enc_bool(b: bool) -> Seq<u8> {
    if b { seq![1u8] } else { seq![0u8] }
}

/// Appends the eight little-endian bytes of `x`.
pub fn push_u64(out: &mut Vec<u8>, x: u64)
    ensures
        final(out)@ == old(out)@ + enc_u64(x),
{
    let mut i: u64 = 0;
    while i < 8
        invariant
            i <= 8,
            out@ == old(out)@ + Seq::new(i as nat, |j: int| le_byte(x, j)),
        decreases 8 - i,
    {
        out.push(((x >> (8 * i)) & 0xffu64) as u8);
        i = i + 1;
        assert(out@ =~= old(out)@ + Seq::new(i as nat, |j: int| le_byte(x, j)));
    }
    assert(enc_u64(x) =~= Seq::new(8, |j: int| le_byte(x, j)));
}

/// Appends `b`, prefixed by its length.
pub fn push_bytes(out: &mut Vec<u8>, b: &Vec<u8>)
    ensures
        final(out)@ == old(out)@ + enc_bytes(b@),
{
    push_u64(out, b.len() as u64);
    let ghost mid = out@;
    let mut i: usize = 0;
    while i < b.len()
        invariant
            i <= b@.len(),
            mid == old(out)@ + enc_u64(b@.len() as u64),
            out@ == mid + b@.subrange(0, i as int),
        decreases b@.len() - i,
    {
        out.push(b[i]);
        i = i + 1;
        assert(out@ =~= mid + b@.subrange(0, i as int));
    }
    assert(b@.subrange(0, i as int) =~= b@);
    assert(out@ =~= old(out)@ + enc_bytes(b@));
}

/// Appends a flag byte.
pub fn push_bool(out: &mut Vec<u8>, b: bool)
    ensures
        final(out)@ == old(out)@ + enc_bool(b),
{
    if b {
        out.push(1u8);
    } else {
        out.push(0u8);
    }
    assert(out@ =~= old(out)@ + enc_bool(b));
}

} // verus!
