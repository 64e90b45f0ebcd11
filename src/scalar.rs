//! Elements of the BN254 scalar field, held as canonical little-endian limbs.
use vstd::prelude::*;
use ark_bn254::Fr;
use ark_ff::{BigInt, PrimeField, UniformRand};
use ark_std::rand::rngs::OsRng;
use vstd::arithmetic::div_mod::lemma_fundamental_div_mod_converse;

verus! {

/// 2^64, the weight of one limb.
pub open spec fn limb_base() -> nat {
    0x1_0000_0000_0000_0000
}

/// The order r of the BN254 scalar field (and of the group G1).
pub open spec fn scalar_modulus() -> nat {
    0x43e1f593f0000001 + limb_base() * (0x2833e84879b97091 + limb_base() * (0xb85045b68181585d
        + limb_base() * 0x30644e72e131a029))
}

/// The integer that four little-endian 64-bit limbs stand for.
pub open spec fn limbs_value(l: Seq<u64>) -> nat {
    l[0] as nat + limb_base() * (l[1] as nat + limb_base() * (l[2] as nat + limb_base() * (
        l[3] as nat)))
}

/// The lowest limb is the value modulo 2^64, and the others are its quotient.
proof fn lemma_split_low_limb(l: Seq<u64>)
    requires
        l.len() == 4,
    ensures
        limbs_value(l) % limb_base() == l[0] as nat,
        limbs_value(l) / limb_base() == l[1] as nat + limb_base() * (l[2] as nat + limb_base() * (
        l[3] as nat)),
{
    let hi = l[1] as nat + limb_base() * (l[2] as nat + limb_base() * (l[3] as nat));
    lemma_fundamental_div_mod_converse(
        limbs_value(l) as int,
        limb_base() as int,
        hi as int,
        l[0] as int,
    );
}

/// Two limb sequences with the same value are the same.
proof fn lemma_limbs_injective(a: Seq<u64>, b: Seq<u64>)
    requires
        a.len() == 4,
        b.len() == 4,
        limbs_value(a) == limbs_value(b),
    ensures
        a == b,
{
    lemma_split_low_limb(a);
    lemma_split_low_limb(b);
    let a1 = a[1] as nat + limb_base() * (a[2] as nat + limb_base() * (a[3] as nat));
    let b1 = b[1] as nat + limb_base() * (b[2] as nat + limb_base() * (b[3] as nat));
    lemma_fundamental_div_mod_converse(
        a1 as int,
        limb_base() as int,
        (a[2] as nat + limb_base() * (a[3] as nat)) as int,
        a[1] as int,
    );
    lemma_fundamental_div_mod_converse(
        b1 as int,
        limb_base() as int,
        (b[2] as nat + limb_base() * (b[3] as nat)) as int,
        b[1] as int,
    );
    let a2 = a[2] as nat + limb_base() * (a[3] as nat);
    let b2 = b[2] as nat + limb_base() * (b[3] as nat);
    lemma_fundamental_div_mod_converse(a2 as int, limb_base() as int, a[3] as int, a[2] as int);
    lemma_fundamental_div_mod_converse(b2 as int, limb_base() as int, b[3] as int, b[2] as int);
    assert(a =~= b);
}

/// Comparing a two-digit number in base 2^64 compares the high digits first.
proof fn lemma_compare_digits(lo_a: nat, hi_a: nat, lo_b: nat, hi_b: nat)
    requires
        lo_a < limb_base(),
        lo_b < limb_base(),
    ensures
        (lo_a + limb_base() * hi_a < lo_b + limb_base() * hi_b) == (hi_a < hi_b || (hi_a == hi_b
            && lo_a < lo_b)),
{
    let b = limb_base();
    if hi_a < hi_b {
        assert(lo_a + b * hi_a < lo_b + b * hi_b) by (nonlinear_arith)
            requires
                lo_a < b,
                hi_a < hi_b,
        ;
    } else if hi_a > hi_b {
        assert(lo_b + b * hi_b < lo_a + b * hi_a) by (nonlinear_arith)
            requires
                lo_b < b,
                hi_b < hi_a,
        ;
    }
}

/// Whether the value of `a` is below the value of `b`, digit by digit from the
/// top.
fn limbs_below(a: &[u64; 4], b: &[u64; 4]) -> (r: bool)
    ensures
        r == (limbs_value(a@) < limbs_value(b@)),
{
    let a2 = Ghost(a[2] as nat + limb_base() * (a[3] as nat));
    let b2 = Ghost(b[2] as nat + limb_base() * (b[3] as nat));
    let a1 = Ghost(a[1] as nat + limb_base() * a2@);
    let b1 = Ghost(b[1] as nat + limb_base() * b2@);
    proof {
        lemma_compare_digits(a[2] as nat, a[3] as nat, b[2] as nat, b[3] as nat);
        lemma_compare_digits(a[1] as nat, a2@, b[1] as nat, b2@);
        lemma_compare_digits(a[0] as nat, a1@, b[0] as nat, b1@);
    }
    if a[3] != b[3] {
        a[3] < b[3]
    } else if a[2] != b[2] {
        a[2] < b[2]
    } else if a[1] != b[1] {
        a[1] < b[1]
    } else {
        a[0] < b[0]
    }
}

/// An element of the scalar field: a private key, a hash output or a shared
/// scalar. The limbs are the canonical little-endian representation, so the
/// value is always below the field order.
#[derive(Clone, Copy, Debug)]
pub struct Scalar {
    pub(crate) limbs: [u64; 4],
}

impl View for Scalar {
    type V = nat;

    closed spec fn view(&self) -> nat {
        limbs_value(self.limbs@)
    }
}

impl Scalar {
    #[verifier::type_invariant]
    pub(crate) open spec fn canonical(self) -> bool {
        self@ < scalar_modulus()
    }

    /// The scalar whose value is the integer `v`.
    pub fn from_u64(v: u64) -> (r: Scalar)
        ensures
            r@ == v as nat,
    {
        let r = Scalar { limbs: [v, 0, 0, 0] };
        assert(r.limbs@ =~= seq![v, 0u64, 0u64, 0u64]);
        r
    }

    /// The scalar of the given little-endian limbs, or `None` when their value
    /// is not below the field order.
    pub fn from_limbs(limbs: [u64; 4]) -> (r: Option<Scalar>)
        ensures
            limbs_value(limbs@) < scalar_modulus() <==> r is Some,
            r is Some ==> r->0@ == limbs_value(limbs@),
    {
        let modulus: [u64; 4] = [
            0x43e1f593f0000001,
            0x2833e84879b97091,
            0xb85045b68181585d,
            0x30644e72e131a029,
        ];
        assert(limbs_value(modulus@) == scalar_modulus());
        if limbs_below(&limbs, &modulus) {
            Some(Scalar { limbs })
        } else {
            None
        }
    }

    /// The canonical little-endian limbs of the scalar.
    pub fn to_limbs(&self) -> (r: [u64; 4])
        ensures
            limbs_value(r@) == self@,
    {
        self.limbs
    }

    /// The view tag: the low 64 bits of the canonical little-endian encoding.
    pub fn view_tag(&self) -> (r: u64)
        ensures
            r as nat == self@ % limb_base(),
    {
        let r = self.limbs[0];
        proof {
            lemma_split_low_limb(self.limbs@);
        }
        r
    }
}

/// Relies on ark_ff's `Fr + Fr`: addition modulo r, handed back in canonical
/// form by `into_bigint`.
#[verifier::external_body]
pub(crate) fn field_add(a: &Scalar, b: &Scalar) -> (r: Scalar)
    ensures
        r@ == (a@ + b@) % scalar_modulus(),
{
    let sum = Fr::from(BigInt::new(a.limbs)) + Fr::from(BigInt::new(b.limbs));
    Scalar { limbs: sum.into_bigint().0 }
}

/// Relies on ark_ff's `Fr::rand` over ark_std's `OsRng`: a field element drawn
/// from the operating system's secure source, which panics rather than fall
/// back to a weaker one. Nothing is known of the value but that it is canonical.
#[verifier::external_body]
pub(crate) fn os_random_scalar() -> (r: Scalar)
    ensures
        r@ < scalar_modulus(),
{
    let mut rng = OsRng;
    Scalar { limbs: Fr::rand(&mut rng).into_bigint().0 }
}

impl PartialEq for Scalar {
    fn eq(&self, o: &Scalar) -> (r: bool) {
        let r = self.limbs[0] == o.limbs[0] && self.limbs[1] == o.limbs[1] && self.limbs[2]
            == o.limbs[2] && self.limbs[3] == o.limbs[3];
        proof {
            if r {
                assert(self.limbs@ =~= o.limbs@);
            } else if self@ == o@ {
                lemma_limbs_injective(self.limbs@, o.limbs@);
            }
        }
        r
    }
}

impl vstd::std_specs::cmp::PartialEqSpecImpl for Scalar {
    open spec fn obeys_eq_spec() -> bool {
        true
    }

    open spec fn eq_spec(&self, o: &Scalar) -> bool {
        self@ == o@
    }
}

} // verus!
