use stealth_address::group::{compute_shared_point, derive_public_key};
use stealth_address::hash::hash_to_fr;
use stealth_address::scalar::Scalar;
use stealth_address::stealth::{
    generate_random_fr, generate_stealth_commitment, generate_stealth_private_key, random_keypair,
};

const G2_TEXT: &str = "(1368015179489954701390400359078579693043519447331113978918064868415326638035, 9918110051302171585080402603319702774565515993150576347155970296011118125764)";
const G3_TEXT: &str = "(3353031288059533942658390886683067124040920775575537747144343083137631628272, 19321533766552368860946552437480515441416830039777911637913418824951667761761)";
const G7_TEXT: &str = "(10415861484417082502655338383609494480414113902179649885744799961447382638712, 10196215078179488638353184030336251401353352596818396260819493263908881608606)";

#[test]
fn test_random_keypair() {
    let (key, pub_key) = random_keypair();
    // Check the derived key matches the one generated from original key
    assert!(derive_public_key(key) == pub_key);
}

#[test]
fn test_hash_to_fr() {
    // Test that hash_to_fr(input_1) != hash_to_fr(input_2) when input_1 != input_2
    let input_1 = b"input_1";
    let input_2 = b"input_2";
    assert_ne!(hash_to_fr(input_1), hash_to_fr(input_2));
}

#[test]
fn test_compute_shared_point() {
    // In a multiple participant scenario, any participant's public key
    // combined with any other participant's private key should arrive at the same shared key
    let (key1, pub_key1) = random_keypair();
    let (key2, pub_key2) = random_keypair();

    let shared1 = compute_shared_point(key1, pub_key2);
    let shared2 = compute_shared_point(key2, pub_key1);

    // Compare the affine forms of the two points
    assert_eq!(shared1.encode(), shared2.encode());
    assert!(shared1 == shared2);
}

#[test]
fn test_stealth_commitment_generation() {
    let (spending_key, spending_public_key) = random_keypair();
    let (viewing_key, viewing_public_key) = random_keypair();

    // generate ephemeral keypair
    let (ephemeral_private_key, ephemeral_public_key) = random_keypair();

    let (stealth_commitment, view_tag) = generate_stealth_commitment(
        viewing_public_key,
        spending_public_key,
        ephemeral_private_key,
    );

    let stealth_private_key_opt =
        generate_stealth_private_key(ephemeral_public_key, viewing_key, spending_key, view_tag);

    if stealth_private_key_opt.is_none() {
        panic!("View tags did not match");
    }

    let derived_commitment = derive_public_key(stealth_private_key_opt.unwrap());
    assert!(derived_commitment == stealth_commitment);
}

#[test]
fn generator_text_is_one_two() {
    let g = derive_public_key(Scalar::from_u64(1));
    assert_eq!(g.encode(), b"(1, 2)".to_vec());
}

#[test]
fn public_keys_of_small_scalars() {
    assert_eq!(derive_public_key(Scalar::from_u64(2)).encode(), G2_TEXT.as_bytes().to_vec());
    assert_eq!(derive_public_key(Scalar::from_u64(3)).encode(), G3_TEXT.as_bytes().to_vec());
    assert_eq!(derive_public_key(Scalar::from_u64(7)).encode(), G7_TEXT.as_bytes().to_vec());
}

#[test]
fn shared_point_of_literal_keys() {
    let pk3 = derive_public_key(Scalar::from_u64(3));
    let shared = compute_shared_point(Scalar::from_u64(7), pk3);
    let g21 = derive_public_key(Scalar::from_u64(21));
    assert!(shared == g21);
    assert!(shared != derive_public_key(Scalar::from_u64(10)));
}

#[test]
fn distinct_private_keys_give_distinct_public_keys() {
    let a = generate_random_fr();
    let b = generate_random_fr();
    assert!(a != b);
    assert!(derive_public_key(a) != derive_public_key(b));
    assert!(derive_public_key(Scalar::from_u64(5)) != derive_public_key(Scalar::from_u64(6)));
}

#[test]
fn hash_is_deterministic() {
    assert_eq!(hash_to_fr(b"input_1"), hash_to_fr(b"input_1"));
    assert_ne!(hash_to_fr(b""), hash_to_fr(b"input_1"));
    assert_ne!(hash_to_fr(b"(1, 2)"), hash_to_fr(b"(1, 3)"));
}

#[test]
fn view_tag_is_low_limb() {
    assert_eq!(Scalar::from_u64(0).view_tag(), 0);
    assert_eq!(Scalar::from_u64(0xdead_beef).view_tag(), 0xdead_beef);
    assert_eq!(Scalar::from_u64(u64::MAX).view_tag(), u64::MAX);
}

#[test]
fn wrong_view_tag_is_rejected() {
    let viewing_key = Scalar::from_u64(11);
    let spending_key = Scalar::from_u64(13);
    let ephemeral_key = Scalar::from_u64(17);
    let (_, tag) = generate_stealth_commitment(
        derive_public_key(viewing_key),
        derive_public_key(spending_key),
        ephemeral_key,
    );
    let wrong_tag = tag ^ 1;
    let recovered = generate_stealth_private_key(
        derive_public_key(ephemeral_key),
        viewing_key,
        spending_key,
        wrong_tag,
    );
    assert!(recovered.is_none());
}

#[test]
fn literal_keys_round_trip() {
    let spending_key = Scalar::from_u64(3);
    let viewing_key = Scalar::from_u64(7);
    let ephemeral_key = Scalar::from_u64(2);
    let spending_public_key = derive_public_key(spending_key);
    let viewing_public_key = derive_public_key(viewing_key);
    let ephemeral_public_key = derive_public_key(ephemeral_key);
    assert_eq!(spending_public_key.encode(), G3_TEXT.as_bytes().to_vec());
    assert_eq!(viewing_public_key.encode(), G7_TEXT.as_bytes().to_vec());
    assert_eq!(ephemeral_public_key.encode(), G2_TEXT.as_bytes().to_vec());

    let (commitment, tag) =
        generate_stealth_commitment(viewing_public_key, spending_public_key, ephemeral_key);
    let (commitment_again, tag_again) =
        generate_stealth_commitment(viewing_public_key, spending_public_key, ephemeral_key);
    assert!(commitment == commitment_again);
    assert_eq!(tag, tag_again);
    // The commitment is not the spending key itself: the hashed point was added.
    assert!(commitment != spending_public_key);

    let recovered =
        generate_stealth_private_key(ephemeral_public_key, viewing_key, spending_key, tag);
    let stealth_key = recovered.unwrap();
    assert!(stealth_key != spending_key);
    assert!(derive_public_key(stealth_key) == commitment);
}

#[test]
fn third_party_does_not_recover() {
    let (_, spending_public_key) = random_keypair();
    let (_, viewing_public_key) = random_keypair();
    let (ephemeral_private_key, ephemeral_public_key) = random_keypair();
    let (commitment, tag) =
        generate_stealth_commitment(viewing_public_key, spending_public_key, ephemeral_private_key);
    let mut trial: u32 = 0;
    while trial < 8 {
        let other_viewing = generate_random_fr();
        let other_spending = generate_random_fr();
        match generate_stealth_private_key(ephemeral_public_key, other_viewing, other_spending, tag) {
            Some(key) => assert!(derive_public_key(key) != commitment),
            None => {}
        }
        trial += 1;
    }
}

#[test]
fn limbs_round_trip_and_bound() {
    let r_minus_one: [u64; 4] = [
        0x43e1f593f0000000,
        0x2833e84879b97091,
        0xb85045b68181585d,
        0x30644e72e131a029,
    ];
    let r: [u64; 4] = [
        0x43e1f593f0000001,
        0x2833e84879b97091,
        0xb85045b68181585d,
        0x30644e72e131a029,
    ];
    let top = Scalar::from_limbs(r_minus_one).unwrap();
    assert_eq!(top.to_limbs(), r_minus_one);
    assert_eq!(top.view_tag(), 0x43e1f593f0000000);
    assert!(Scalar::from_limbs(r).is_none());
    assert!(Scalar::from_limbs([u64::MAX; 4]).is_none());
    assert_eq!(Scalar::from_limbs([9, 0, 0, 0]), Some(Scalar::from_u64(9)));
}

#[test]
fn public_key_of_minus_one_is_negated_generator() {
    let r_minus_one: [u64; 4] = [
        0x43e1f593f0000000,
        0x2833e84879b97091,
        0xb85045b68181585d,
        0x30644e72e131a029,
    ];
    let pk = derive_public_key(Scalar::from_limbs(r_minus_one).unwrap());
    let expected = "(1, 21888242871839275222246405745257275088696311157297823662689037894645226208581)";
    assert_eq!(pk.encode(), expected.as_bytes().to_vec());
}

#[test]
fn hash_view_tag_is_low_limb_of_hash() {
    let h = hash_to_fr(b"input_1");
    assert_eq!(h.view_tag(), h.to_limbs()[0]);
}

#[test]
fn hash_of_fixed_inputs() {
    let h1 = hash_to_fr(b"input_1");
    let h2 = hash_to_fr(b"input_2");
    assert_eq!(
        h1.to_limbs(),
        [0x393541fe67c4d832, 0xf6ad6329e682ebb8, 0x0aca803852103269, 0x3003591ded920f81]
    );
    assert_eq!(
        h2.to_limbs(),
        [0x9b6bcd19986f6e80, 0x4a5bd47ea13f606e, 0x975a8c5019ff6d9a, 0x2a305506e7f1493a]
    );
}

#[test]
fn fixed_keys_give_fixed_commitment() {
    let spending_key = Scalar::from_u64(3);
    let viewing_key = Scalar::from_u64(7);
    let ephemeral_key = Scalar::from_u64(2);
    let (commitment, tag) = generate_stealth_commitment(
        derive_public_key(viewing_key),
        derive_public_key(spending_key),
        ephemeral_key,
    );
    let expected = "(1544982648205202195785695138495874351134393300220150733910352903289198868653, 3878982192516118623100540608983317463745271684284090548335648958250975036875)";
    assert_eq!(commitment.encode(), expected.as_bytes().to_vec());
    assert_eq!(tag, 11125084453569605379);

    let stealth_key = generate_stealth_private_key(
        derive_public_key(ephemeral_key),
        viewing_key,
        spending_key,
        11125084453569605379,
    )
    .unwrap();
    assert_eq!(
        stealth_key.to_limbs(),
        [0x9a643d5e073caf06, 0xf9febdb754f0b28a, 0x08bdc98d43ddbd7e, 0x03663e33c1609a98]
    );
    assert!(derive_public_key(stealth_key) == commitment);
}
