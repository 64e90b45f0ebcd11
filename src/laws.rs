//! Laws relating the operations of the scheme, stated over the models that
//! their contracts use.
use vstd::prelude::*;
use vstd::arithmetic::div_mod::{
    lemma_add_mod_noop_right, lemma_mul_mod_noop_left, lemma_small_mod,
};
use vstd::arithmetic::mul::lemma_mul_is_commutative;
use crate::group::{public_key_of, shared_point_of};
use crate::scalar::scalar_modulus;
use crate::stealth::{
    commitment_point_of, commitment_tag_of, recovered_key_of, stealth_scalar_of,
};

verus! {

/// The public key of a private key below r has the private key as its
/// logarithm.
proof fn lemma_public_key_log(sk: nat)
    requires
        sk < scalar_modulus(),
    ensures
        public_key_of(sk) == sk,
{
    lemma_small_mod(sk, scalar_modulus());
}

/// Distinct private keys (below r) have distinct public keys.
pub proof fn lemma_public_key_injective(sk1: nat, sk2: nat)
    requires
        sk1 < scalar_modulus(),
        sk2 < scalar_modulus(),
        sk1 != sk2,
    ensures
        public_key_of(sk1) != public_key_of(sk2),
{
    lemma_public_key_log(sk1);
    lemma_public_key_log(sk2);
}

/// ECDH commutes: one party's private key on the other's public key gives the
/// same shared point as the other way round.
pub proof fn lemma_shared_point_commutes(sk1: nat, sk2: nat)
    ensures
        shared_point_of(sk1, public_key_of(sk2)) == shared_point_of(sk2, public_key_of(sk1)),
{
    let m = scalar_modulus() as int;
    lemma_mul_mod_noop_left(sk2 as int, sk1 as int, m);
    lemma_mul_mod_noop_left(sk1 as int, sk2 as int, m);
    lemma_mul_is_commutative(sk1 as int, sk2 as int);
    assert(public_key_of(sk2) == sk2 % scalar_modulus());
    assert(public_key_of(sk1) == sk1 % scalar_modulus());
}

/// The sender's shared point for the receiver's viewing key is the one that
/// the receiver computes from the ephemeral public key.
proof fn lemma_receiver_sees_sender_point(viewing_sk: nat, ephemeral_sk: nat)
    ensures
        shared_point_of(ephemeral_sk, public_key_of(viewing_sk)) == shared_point_of(
            viewing_sk,
            public_key_of(ephemeral_sk),
        ),
{
    lemma_shared_point_commutes(ephemeral_sk, viewing_sk);
}

/// Round trip: with the tag that the sender published, the receiver recovers a
/// private key, and its public key is the published commitment.
pub proof fn lemma_stealth_round_trip(viewing_sk: nat, spending_sk: nat, ephemeral_sk: nat)
    requires
        viewing_sk < scalar_modulus(),
        spending_sk < scalar_modulus(),
        ephemeral_sk < scalar_modulus(),
    ensures
        ({
            let tag = commitment_tag_of(public_key_of(viewing_sk), ephemeral_sk);
            let recovered = recovered_key_of(
                public_key_of(ephemeral_sk),
                viewing_sk,
                spending_sk,
                tag,
            );
            &&& recovered is Some
            &&& public_key_of(recovered->0) == commitment_point_of(
                public_key_of(viewing_sk),
                public_key_of(spending_sk),
                ephemeral_sk,
            )
        }),
{
    let m = scalar_modulus() as int;
    lemma_receiver_sees_sender_point(viewing_sk, ephemeral_sk);
    let h = stealth_scalar_of(shared_point_of(ephemeral_sk, public_key_of(viewing_sk)));
    let k = (spending_sk + h) % scalar_modulus();
    lemma_public_key_log(spending_sk);
    lemma_public_key_log(k);
    assert(public_key_of(h) == h % scalar_modulus());
    lemma_add_mod_noop_right(spending_sk as int, h as int, m);
    assert(commitment_point_of(public_key_of(viewing_sk), public_key_of(spending_sk), ephemeral_sk)
        == (h % scalar_modulus() + spending_sk) % scalar_modulus());
}

/// A tag other than the one the sender published is rejected: the receiver
/// recovers nothing.
pub proof fn lemma_wrong_tag_rejected(
    viewing_sk: nat,
    spending_sk: nat,
    ephemeral_sk: nat,
    tag: nat,
)
    requires
        tag != commitment_tag_of(public_key_of(viewing_sk), ephemeral_sk),
    ensures
        recovered_key_of(public_key_of(ephemeral_sk), viewing_sk, spending_sk, tag) is None,
{
    lemma_receiver_sees_sender_point(viewing_sk, ephemeral_sk);
}

} // verus!
