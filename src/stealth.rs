//! Stealth commitments: the sender's side, which publishes a one-time point and
//! a view tag, and the receiver's side, which filters by the tag and recovers
//! the private key of that point.
use vstd::prelude::*;
use crate::group::{
    compute_shared_point, derive_public_key, display_bytes_of, point_add, public_key_of,
    shared_point_of, Point,
};
use crate::hash::{domain_hash, hash_to_fr};
use crate::scalar::{field_add, limb_base, os_random_scalar, scalar_modulus, Scalar};

verus! {

/// The scalar hashed from a shared point of logarithm `shared`: the domain
/// hash of the point's canonical text.
pub open spec fn stealth_scalar_of(shared: nat) -> nat {
    domain_hash(display_bytes_of(shared))
}

/// The view tag of a stealth scalar: the low 64 bits of its canonical
/// little-endian encoding.
pub open spec fn tag_of(h: nat) -> nat {
    h % limb_base()
}

/// The logarithm of the commitment that a sender publishes for the receiver's
/// viewing and spending public keys, with an ephemeral private key.
pub open spec fn commitment_point_of(viewing_pk: nat, spending_pk: nat, ephemeral_sk: nat) -> nat {
    (public_key_of(stealth_scalar_of(shared_point_of(ephemeral_sk, viewing_pk))) + spending_pk)
        % scalar_modulus()
}

/// The view tag that a sender publishes beside the commitment.
pub open spec fn commitment_tag_of(viewing_pk: nat, ephemeral_sk: nat) -> nat {
    tag_of(stealth_scalar_of(shared_point_of(ephemeral_sk, viewing_pk)))
}

/// What the receiver recovers from the ephemeral public key, their own viewing
/// and spending private keys and the published tag: the stealth private key
/// when the tag matches, nothing otherwise.
pub open spec fn recovered_key_of(ephemeral_pk: nat, viewing_sk: nat, spending_sk: nat, tag: nat) -> Option<nat> {
    let h = stealth_scalar_of(shared_point_of(viewing_sk, ephemeral_pk));
    if tag_of(h) == tag {
        Some((spending_sk + h) % scalar_modulus())
    } else {
        None
    }
}

/// A fresh private key drawn from the operating system's secure source.
pub fn generate_random_fr() -> (r: Scalar)
    ensures
        r@ < scalar_modulus(),
{
    os_random_scalar()
}

/// A fresh key pair: a random private key and its public key.
pub fn random_keypair() -> (r: (Scalar, Point))
    ensures
        r.1@ == public_key_of(r.0@),
{
    let private_key = generate_random_fr();
    let public_key = derive_public_key(private_key);
    (private_key, public_key)
}

/// The sender's side: the stealth commitment for the receiver's viewing and
/// spending public keys under an ephemeral private key, with its view tag.
pub fn generate_stealth_commitment(
    viewing_public_key: Point,
    spending_public_key: Point,
    ephemeral_private_key: Scalar,
) -> (r: (Point, u64))
    ensures
        r.0@ == commitment_point_of(viewing_public_key@, spending_public_key@, ephemeral_private_key@),
        r.1 as nat == commitment_tag_of(viewing_public_key@, ephemeral_private_key@),
{
    let q = compute_shared_point(ephemeral_private_key, viewing_public_key);
    let inputs = q.encode();
    let q_hashed = hash_to_fr(inputs.as_slice());
    let q_hashed_in_g1 = derive_public_key(q_hashed);
    let view_tag = q_hashed.view_tag();
    (point_add(&q_hashed_in_g1, &spending_public_key), view_tag)
}

/// The receiver's side: recomputes the shared point from the ephemeral public
/// key and the viewing private key, and returns the stealth private key
/// `spending_key + hash` only when the recomputed view tag is the expected one.
pub fn generate_stealth_private_key(
    ephemeral_public_key: Point,
    viewing_key: Scalar,
    spending_key: Scalar,
    expected_view_tag: u64,
) -> (r: Option<Scalar>)
    ensures
        match recovered_key_of(ephemeral_public_key@, viewing_key@, spending_key@, expected_view_tag as nat) {
            Some(k) => r is Some && r->0@ == k,
            None => r is None,
        },
{
    let q_receiver = compute_shared_point(viewing_key, ephemeral_public_key);
    let inputs_receiver = q_receiver.encode();
    let q_receiver_hashed = hash_to_fr(inputs_receiver.as_slice());
    let view_tag = q_receiver_hashed.view_tag();
    if view_tag == expected_view_tag {
        Some(field_add(&spending_key, &q_receiver_hashed))
    } else {
        None
    }
}

} // verus!
