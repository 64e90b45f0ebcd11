//! Points of the BN254 group G1.
//!
//! G1 is cyclic of prime order r, generated by a fixed point G, so every point
//! is k·G for exactly one k modulo r. A point is modelled by that discrete
//! logarithm: the ghost `log` carried beside ark's point, whose view is
//! `log mod r`. The trusted items below state how each operation of ark moves
//! the logarithm; nothing ever computes one.
use vstd::prelude::*;
use ark_bn254::g1::{G1_GENERATOR_X, G1_GENERATOR_Y};
use ark_bn254::{Fr, G1Affine, G1Projective};
use ark_ff::BigInt;
use crate::scalar::{scalar_modulus, Scalar};

verus! {

/// ark's projective point, kept opaque: Verus refuses a declaration of the
/// generic `Projective<P: SWCurveConfig>`. Only the trusted items of this
/// module look inside.
#[verifier::external_body]
pub(crate) struct G1Point {
    p: G1Projective,
}

impl Clone for G1Point {
    /// Relies on ark_ec's `Copy` for `Projective`: the copy is the same point.
    #[verifier::external_body]
    fn clone(&self) -> (r: G1Point)
        ensures
            r == *self,
    {
        G1Point { p: self.p }
    }
}

impl Copy for G1Point {

}

/// A point of G1: a public key, a shared point or a stealth commitment.
#[derive(Clone, Copy)]
pub struct Point {
    pub(crate) inner: G1Point,
    pub(crate) log: Ghost<int>,
}

impl View for Point {
    type V = nat;

    /// The discrete logarithm of the point to the generator, in `[0, r)`.
    closed spec fn view(&self) -> nat {
        (self.log@ % (scalar_modulus() as int)) as nat
    }
}

/// Relies on ark_bn254's G1 generator constants and `G1Affine::new`, which
/// accepts them (they are on the curve and in the subgroup): the point G, of
/// logarithm 1.
#[verifier::external_body]
pub(crate) fn generator() -> (r: Point)
    ensures
        r@ == generator_log(),
{
    let g = G1Affine::new(G1_GENERATOR_X, G1_GENERATOR_Y);
    Point { inner: G1Point { p: G1Projective::from(g) }, log: Ghost(1int) }
}

/// Relies on ark_ec's `Projective * Fr`: the scalar multiple k·P, whose
/// logarithm is log(P)·k.
#[verifier::external_body]
pub(crate) fn scalar_mul(p: &Point, k: &Scalar) -> (r: Point)
    ensures
        r@ == multiple_of(p@, k@),
{
    let k_fr = Fr::from(BigInt::new(k.limbs));
    Point { inner: G1Point { p: p.inner.p * k_fr }, log: Ghost((p@ * k@) as int) }
}

/// Relies on ark_ec's `Projective + Projective`: the group sum P + Q, whose
/// logarithm is log(P) + log(Q).
#[verifier::external_body]
pub(crate) fn point_add(p: &Point, q: &Point) -> (r: Point)
    ensures
        r@ == (p@ + q@) % scalar_modulus(),
{
    Point { inner: G1Point { p: p.inner.p + q.inner.p }, log: Ghost((p@ + q@) as int) }
}

/// Relies on ark_ec's `PartialEq` for `Projective`, which compares the points
/// themselves, not their coordinates: equal exactly when the logarithms are.
#[verifier::external_body]
fn same_point(p: &Point, q: &Point) -> (r: bool)
    ensures
        r == (p@ == q@),
{
    p.inner.p == q.inner.p
}

/// The UTF-8 bytes of the text that ark prints for the point of logarithm
/// `log`: "infinity", or "(x, y)" with the affine coordinates in decimal.
pub uninterp spec fn display_bytes_of(log: nat) -> Seq<u8>;

/// Relies on ark_ec's `Display` for `Projective`, which prints the affine form
/// of the point; the text depends on the point alone.
#[verifier::external_body]
fn display_bytes(p: &Point) -> (r: Vec<u8>)
    ensures
        r@ == display_bytes_of(p@),
{
    p.inner.p.to_string().into_bytes()
}

impl Point {
    /// The canonical text of the point as bytes, the input of the domain hash.
    pub fn encode(&self) -> (r: Vec<u8>)
        ensures
            r@ == display_bytes_of(self@),
    {
        display_bytes(self)
    }
}

impl PartialEq for Point {
    fn eq(&self, o: &Point) -> (r: bool) {
        same_point(self, o)
    }
}

impl vstd::std_specs::cmp::PartialEqSpecImpl for Point {
    open spec fn obeys_eq_spec() -> bool {
        true
    }

    open spec fn eq_spec(&self, o: &Point) -> bool {
        self@ == o@
    }
}

/// The logarithm of the generator G.
pub open spec fn generator_log() -> nat {
    1
}

/// The logarithm of `k·P`, for a point P of logarithm `p`.
pub open spec fn multiple_of(p: nat, k: nat) -> nat {
    (p * k) % scalar_modulus()
}

/// The logarithm of the public key `sk·G`.
pub open spec fn public_key_of(sk: nat) -> nat {
    multiple_of(generator_log(), sk)
}

/// The logarithm of the ECDH shared point `sk·Pk`, for a public key of
/// logarithm `pk`.
pub open spec fn shared_point_of(sk: nat, pk: nat) -> nat {
    multiple_of(pk, sk)
}

/// The public key of a private key: `sk·G`. As the private key is below r,
/// its logarithm is the private key itself.
pub fn derive_public_key(private_key: Scalar) -> (r: Point)
    ensures
        r@ == public_key_of(private_key@),
        r@ == private_key@,
{
    proof {
        use_type_invariant(&private_key);
    }
    let g = generator();
    let r = scalar_mul(&g, &private_key);
    proof {
        vstd::arithmetic::div_mod::lemma_small_mod(private_key@, scalar_modulus());
    }
    r
}

/// The ECDH shared point: the other party's public key times this party's
/// private key.
pub fn compute_shared_point(private_key: Scalar, other_public_key: Point) -> (r: Point)
    ensures
        r@ == shared_point_of(private_key@, other_public_key@),
{
    scalar_mul(&other_public_key, &private_key)
}

} // verus!
