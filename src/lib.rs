//! Non-interactive stealth addresses over the BN254 curve: key derivation,
//! ECDH shared points, stealth commitments with view tags, and recovery of
//! the stealth private key by the receiver.
//!
//! Scalars are canonical little-endian limbs below the group order r; points
//! are ark's G1 points, modelled in contracts by their discrete logarithm to
//! the generator.
use vstd::prelude::*;

pub mod group;
pub mod hash;
pub mod laws;
pub mod scalar;
pub mod stealth;

pub use group::{compute_shared_point, derive_public_key, Point};
pub use hash::hash_to_fr;
pub use scalar::Scalar;
pub use stealth::{
    generate_random_fr, generate_stealth_commitment, generate_stealth_private_key, random_keypair,
};

verus! {

} // verus!
