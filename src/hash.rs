//! The domain hash: bytes to a scalar, by rln's hash-to-field followed by a
//! one-input Poseidon permutation.
use vstd::prelude::*;
use ark_bn254::Fr;
use ark_ff::{BigInt, PrimeField};
use crate::scalar::{scalar_modulus, Scalar};

verus! {

/// The field element that rln's `hash_to_field` gives for a byte string.
pub uninterp spec fn hash_to_field_of(signal: Seq<u8>) -> nat;

/// The field element that rln's `poseidon_hash` gives for the one input `x`.
pub uninterp spec fn poseidon_of(x: nat) -> nat;

/// The domain hash of a byte string.
pub open spec fn domain_hash(input: Seq<u8>) -> nat {
    poseidon_of(hash_to_field_of(input))
}

/// Relies on rln's `hashers::hash_to_field`: Keccak-256 of the bytes, read as
/// a little-endian integer and reduced into the field; it depends on the bytes
/// alone and never fails.
#[verifier::external_body]
fn field_of_signal(signal: &[u8]) -> (r: Scalar)
    ensures
        r@ == hash_to_field_of(signal@),
        r@ < scalar_modulus(),
{
    Scalar { limbs: rln::hashers::hash_to_field(signal).into_bigint().0 }
}

/// Relies on rln's `hashers::poseidon_hash` on one input, a width its fixed
/// round parameters support, so the call does not fail; the result depends on
/// the input alone.
#[verifier::external_body]
fn poseidon_single(x: &Scalar) -> (r: Scalar)
    ensures
        r@ == poseidon_of(x@),
        r@ < scalar_modulus(),
{
    let input = [Fr::from(BigInt::new(x.limbs))];
    Scalar { limbs: rln::hashers::poseidon_hash(&input).into_bigint().0 }
}

/// Hashes arbitrary bytes to a scalar.
pub fn hash_to_fr(input: &[u8]) -> (r: Scalar)
    ensures
        r@ == domain_hash(input@),
{
    let field = field_of_signal(input);
    poseidon_single(&field)
}

} // verus!
