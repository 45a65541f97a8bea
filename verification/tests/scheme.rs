use aes::cipher::generic_array::GenericArray;
use aes::cipher::{BlockEncrypt, KeyInit};
use aes::Aes256;
use amanita_lib::{
    compact_test, setup_algorithm, Cryptogram, DecryptionKey, G1Point, IbeError,
    MasterPublicKey, MasterSecretKey, NetworkIdentifier, Scalar, UserIdentifier,
};
use dusk_bls12_381::{BlsScalar, G1Affine, G1Projective, G2Affine};
use ff::Field;
use group::Group;
use sha2::{Digest, Sha256};
use rand_core::{impls::fill_bytes_via_next, Error, RngCore};

struct FakeRng(u64);

impl RngCore for FakeRng {
    fn next_u32(&mut self) -> u32 {
        self.next_u64() as u32
    }

    fn next_u64(&mut self) -> u64 {
        self.0 += 1;
        self.0
    }

    fn fill_bytes(&mut self, dest: &mut [u8]) {
        fill_bytes_via_next(self, dest)
    }

    fn try_fill_bytes(&mut self, dest: &mut [u8]) -> Result<(), Error> {
        Ok(self.fill_bytes(dest))
    }
}

fn draw_scalar(rng: &mut FakeRng) -> Scalar {
    let mut buf = [0u8; 64];
    rng.fill_bytes(&mut buf);
    Scalar::from_bytes_wide(&buf)
}

fn draw_g1(rng: &mut FakeRng) -> G1Point {
    let point = G1Affine::from(G1Projective::random(rng));
    G1Point::from_compressed(&point.to_compressed()).unwrap()
}

fn draw_payload(rng: &mut FakeRng) -> [u8; 16] {
    let mut bytes = [0u8; 16];
    rng.fill_bytes(&mut bytes);
    bytes
}

#[test]
fn lib_it_works() {
    let mut rng = FakeRng(27u64);
    let alpha = draw_scalar(&mut rng);
    let beta = draw_scalar(&mut rng);
    let w0 = draw_g1(&mut rng);
    let (msk, mpk) = setup_algorithm(alpha, beta, w0);
    let uid = UserIdentifier::new_random(draw_payload(&mut rng));
    let id = NetworkIdentifier::new(1);
    let cryptogram = mpk.encryption_algorithm(draw_scalar(&mut rng), &id, &uid);
    let decryption_key = msk.key_generation_algorithm(draw_scalar(&mut rng), &id);
    let uid2 = decryption_key.decryption_algorithm(&cryptogram).unwrap();
    println!("cryptogram: {:?}", cryptogram);
    assert_eq!(uid.id, uid2.id);
}

#[test]
fn try_compact_test() {
    let mut rng = FakeRng(0u64);
    let alpha = draw_scalar(&mut rng);
    let beta = draw_scalar(&mut rng);
    let w0 = draw_g1(&mut rng);
    let payload = draw_payload(&mut rng);
    let rho = draw_scalar(&mut rng);
    let gamma = draw_scalar(&mut rng);
    assert!(compact_test(alpha, beta, w0, payload, rho, gamma));
}

#[test]
fn main_it_works() {
    let two = G1Point::generator().scale(&Scalar::from_u64(2));
    let result = two.plus(&two);
    assert_eq!(result, G1Point::generator().scale(&Scalar::from_u64(4)));
}

fn hex(bytes: &[u8]) -> String {
    let mut text = String::new();
    for byte in bytes {
        text.push_str(&format!("{:02x}", byte));
    }
    text
}

fn keys(seed: u64) -> (MasterSecretKey, MasterPublicKey) {
    let mut rng = FakeRng(seed);
    let alpha = draw_scalar(&mut rng);
    let beta = draw_scalar(&mut rng);
    let w0 = draw_g1(&mut rng);
    setup_algorithm(alpha, beta, w0)
}

fn key_for(msk: &MasterSecretKey, gamma: u64, id: u64) -> DecryptionKey {
    msk.key_generation_algorithm(Scalar::from_u64(gamma), &NetworkIdentifier::new(id))
}

fn encrypt(mpk: &MasterPublicKey, rho: u64, id: u64, payload: [u8; 16]) -> Cryptogram {
    mpk.encryption_algorithm(
        Scalar::from_u64(rho),
        &NetworkIdentifier::new(id),
        &UserIdentifier::new_random(payload),
    )
}

#[test]
fn the_key_of_an_identifier_recovers_the_payload() {
    let (msk, mpk) = keys(3);
    let payloads = [[0u8; 16], [0xffu8; 16], *b"sixteen byte msg"];
    for id in [0u64, 1, 2, 77, u64::MAX] {
        for payload in payloads {
            let cryptogram = encrypt(&mpk, 1000 + id % 5, id, payload);
            let key = key_for(&msk, 2000 + id % 7, id);
            assert_eq!(
                key.decryption_algorithm(&cryptogram),
                Ok(UserIdentifier { id: payload })
            );
        }
    }
}

#[test]
fn the_payload_comes_back_with_random_draws() {
    let mut rng = FakeRng(99);
    for _ in 0..4 {
        let alpha = draw_scalar(&mut rng);
        let beta = draw_scalar(&mut rng);
        let w0 = draw_g1(&mut rng);
        let (msk, mpk) = setup_algorithm(alpha, beta, w0);
        let id = NetworkIdentifier::new(rng.next_u64());
        let uid = UserIdentifier::new_random(draw_payload(&mut rng));
        let cryptogram = mpk.encryption_algorithm(draw_scalar(&mut rng), &id, &uid);
        let key = msk.key_generation_algorithm(draw_scalar(&mut rng), &id);
        assert_eq!(key.decryption_algorithm(&cryptogram), Ok(uid));
    }
}

#[test]
fn the_payload_comes_back_with_the_smallest_draws() {
    let zero = Scalar::from_u64(0);
    let (msk, mpk) = setup_algorithm(zero, zero, G1Point::generator().scale(&zero));
    let payload = *b"0123456789abcdef";
    let cryptogram = encrypt(&mpk, 0, 5, payload);
    let key = key_for(&msk, 0, 5);
    assert_eq!(
        key.decryption_algorithm(&cryptogram),
        Ok(UserIdentifier { id: payload })
    );
}

#[test]
fn the_key_of_another_identifier_recovers_something_else() {
    let (msk, mpk) = keys(5);
    let payload = *b"for identifier 1";
    let mut misses = 0;
    for trial in 0..8u64 {
        let cryptogram = encrypt(&mpk, 31 + trial, 1, payload);
        let other = key_for(&msk, 47 + trial, 2 + trial);
        let recovered = other.decryption_algorithm(&cryptogram).unwrap();
        if recovered.id != payload {
            misses += 1;
        }
    }
    assert_eq!(misses, 8);
}

#[test]
fn the_key_of_another_authority_recovers_something_else() {
    let (_, mpk) = keys(5);
    let (other_msk, _) = keys(6);
    let payload = *b"for identifier 1";
    let cryptogram = encrypt(&mpk, 31, 1, payload);
    let recovered = key_for(&other_msk, 47, 1).decryption_algorithm(&cryptogram);
    assert!(recovered.is_ok());
    assert_ne!(recovered, Ok(UserIdentifier { id: payload }));
}

#[test]
fn the_same_draws_give_the_same_outputs() {
    let (msk, mpk) = keys(11);
    let (msk_again, mpk_again) = keys(11);
    assert_eq!(msk, msk_again);
    assert_eq!(mpk, mpk_again);
    assert_eq!(key_for(&msk, 8, 3), key_for(&msk_again, 8, 3));
    assert_eq!(key_for(&msk, 8, 3).to_bytes(), key_for(&msk_again, 8, 3).to_bytes());
    let payload = [9u8; 16];
    assert_eq!(encrypt(&mpk, 4, 3, payload), encrypt(&mpk_again, 4, 3, payload));
    assert_eq!(
        encrypt(&mpk, 4, 3, payload).to_bytes(),
        encrypt(&mpk_again, 4, 3, payload).to_bytes()
    );
}

#[test]
fn other_draws_give_other_outputs() {
    let (msk, mpk) = keys(11);
    let (other_msk, other_mpk) = keys(12);
    assert_ne!(msk, other_msk);
    assert_ne!(mpk, other_mpk);
    let payload = [9u8; 16];
    assert_ne!(encrypt(&mpk, 4, 3, payload), encrypt(&mpk, 5, 3, payload));
    assert_ne!(encrypt(&mpk, 4, 3, payload), encrypt(&mpk, 4, 2, payload));
    assert_ne!(encrypt(&mpk, 4, 3, payload).c, encrypt(&mpk, 4, 3, [8u8; 16]).c);
    assert_ne!(encrypt(&mpk, 4, 3, payload).c, payload);
}

#[test]
fn keys_of_one_identifier_differ_and_both_decrypt() {
    let (msk, mpk) = keys(13);
    let first = key_for(&msk, 100, 42);
    let second = key_for(&msk, 101, 42);
    let (first_a0, first_b0) = first.to_bytes();
    let (second_a0, second_b0) = second.to_bytes();
    assert_ne!(first_a0, second_a0);
    assert_ne!(first_b0, second_b0);
    let payload = *b"two keys, one id";
    let cryptogram = encrypt(&mpk, 7, 42, payload);
    assert_eq!(
        first.decryption_algorithm(&cryptogram),
        Ok(UserIdentifier { id: payload })
    );
    assert_eq!(
        second.decryption_algorithm(&cryptogram),
        Ok(UserIdentifier { id: payload })
    );
}

#[test]
fn malformed_points_are_an_invalid_encoding() {
    let (msk, mpk) = keys(17);
    let good = encrypt(&mpk, 7, 1, [1u8; 16]);
    let key = key_for(&msk, 9, 1);
    assert!(key.decryption_algorithm(&good).is_ok());
    for bad in [[0u8; 96], [0xffu8; 96]] {
        let broken_x1 = Cryptogram { x1: bad, ..good };
        assert_eq!(
            key.decryption_algorithm(&broken_x1),
            Err(IbeError::InvalidEncoding)
        );
        let broken_y1 = Cryptogram { y1: bad, ..good };
        assert_eq!(
            key.decryption_algorithm(&broken_y1),
            Err(IbeError::InvalidEncoding)
        );
        let broken_both = Cryptogram { x1: bad, y1: bad, ..good };
        assert_eq!(
            key.decryption_algorithm(&broken_both),
            Err(IbeError::InvalidEncoding)
        );
    }
    let mut off_curve = good;
    off_curve.x1[95] ^= 1;
    if G2Affine::from_compressed(&off_curve.x1).is_none().into() {
        assert_eq!(
            key.decryption_algorithm(&off_curve),
            Err(IbeError::InvalidEncoding)
        );
    } else {
        assert!(key.decryption_algorithm(&off_curve).is_ok());
    }
}

#[test]
fn a_changed_block_decrypts_to_another_payload() {
    let (msk, mpk) = keys(17);
    let payload = [1u8; 16];
    let mut cryptogram = encrypt(&mpk, 7, 1, payload);
    cryptogram.c[0] ^= 1;
    let recovered = key_for(&msk, 9, 1).decryption_algorithm(&cryptogram).unwrap();
    assert_ne!(recovered.id, payload);
}

#[test]
fn key_derivation_follows_its_formula() {
    let mut rng = FakeRng(21);
    let alpha = BlsScalar::random(&mut rng);
    let beta = BlsScalar::random(&mut rng);
    let w0 = G1Affine::from(G1Projective::random(&mut rng));
    let gamma = BlsScalar::random(&mut rng);
    let id = BlsScalar::from(6u64);
    let generator = G1Affine::generator();
    let a0 = G1Affine::from(w0 + (generator * alpha * id + generator * beta) * gamma);
    let b0 = G1Affine::from(generator * gamma);

    let mut rng = FakeRng(21);
    let (msk, _) = {
        let alpha = draw_scalar(&mut rng);
        let beta = draw_scalar(&mut rng);
        let w0 = draw_g1(&mut rng);
        setup_algorithm(alpha, beta, w0)
    };
    let key = msk.key_generation_algorithm(draw_scalar(&mut rng), &NetworkIdentifier::new(6));
    assert_eq!(key.to_bytes(), (a0.to_compressed(), b0.to_compressed()));
}

#[test]
fn encryption_follows_its_formula() {
    let mut rng = FakeRng(23);
    let alpha = BlsScalar::random(&mut rng);
    let beta = BlsScalar::random(&mut rng);
    let w0 = G1Affine::from(G1Projective::random(&mut rng));
    let rho = BlsScalar::random(&mut rng);
    let id = BlsScalar::from(6u64);
    let generator = G2Affine::generator();
    let x1 = G2Affine::from(generator * rho);
    let y1 = G2Affine::from((generator * alpha * id + generator * beta) * rho);
    let z = dusk_bls12_381::pairing(&w0, &generator) * rho;
    let mut hasher = Sha256::new();
    hasher.update(x1.to_compressed());
    hasher.update(y1.to_compressed());
    hasher.update(format!("{}", z).as_bytes());
    let k = hasher.finalize();
    let payload = *b"formula payload.";
    let mut block = GenericArray::clone_from_slice(&payload);
    Aes256::new(&k).encrypt_block(&mut block);
    let c: [u8; 16] = block.into();

    let mut rng = FakeRng(23);
    let (_, mpk) = {
        let alpha = draw_scalar(&mut rng);
        let beta = draw_scalar(&mut rng);
        let w0 = draw_g1(&mut rng);
        setup_algorithm(alpha, beta, w0)
    };
    let cryptogram = mpk.encryption_algorithm(
        draw_scalar(&mut rng),
        &NetworkIdentifier::new(6),
        &UserIdentifier::new_random(payload),
    );
    assert_eq!(
        cryptogram,
        Cryptogram { x1: x1.to_compressed(), y1: y1.to_compressed(), c }
    );
}

#[test]
fn drawing_a_scalar_is_sampling_a_field_element() {
    let mut rng = FakeRng(5);
    let expected = G1Affine::from(G1Affine::generator() * BlsScalar::random(&mut rng));
    let mut rng = FakeRng(5);
    let scaled = G1Point::generator().scale(&draw_scalar(&mut rng));
    assert_eq!(scaled.to_compressed(), expected.to_compressed());
}

#[test]
fn identifiers_are_made_of_their_number() {
    assert_eq!(NetworkIdentifier::new(9).id, Scalar::from_u64(9));
    assert_ne!(NetworkIdentifier::new(9), NetworkIdentifier::new(10));
    let bytes = *b"ABCDEFGHIJKLMNOP";
    assert_eq!(UserIdentifier::new_random(bytes).id, bytes);
}

#[test]
fn compact_test_holds_for_other_draws() {
    for seed in [1u64, 2, 1 << 40] {
        let mut rng = FakeRng(seed);
        let alpha = draw_scalar(&mut rng);
        let beta = draw_scalar(&mut rng);
        let w0 = draw_g1(&mut rng);
        let payload = draw_payload(&mut rng);
        let rho = draw_scalar(&mut rng);
        let gamma = draw_scalar(&mut rng);
        assert!(compact_test(alpha, beta, w0, payload, rho, gamma));
    }
}

#[test]
fn end_to_end_with_a_seeded_generator() {
    let mut rng = FakeRng(27u64);
    let alpha = draw_scalar(&mut rng);
    let beta = draw_scalar(&mut rng);
    let w0 = draw_g1(&mut rng);
    assert_eq!(
        hex(&w0.to_compressed()),
        "96016a60223349de58b93e97b09c43e9d011050006ccbd1796e86b41f099d9fc6b020507cd41a0997692c448552d3212"
    );
    let (msk, mpk) = setup_algorithm(alpha, beta, w0);
    let uid = UserIdentifier::new_random(draw_payload(&mut rng));
    assert_eq!(hex(&uid.id), "39000000000000003a00000000000000");
    let id = NetworkIdentifier::new(1);
    let cryptogram = mpk.encryption_algorithm(draw_scalar(&mut rng), &id, &uid);
    assert_eq!(
        hex(&cryptogram.x1),
        "88305f850aacc725bbc461a18636d58d33a22bb22704ab18c26815c7cceb4e2e9dd0c6a6974f12a8080693b9dc5dcfb40a60bd40f8d10fa38cb5584a07fd19f98deb0d70c17f6db09a863f43224a5e8d946e5ea4b29cac57e98a8e0614d3be22"
    );
    assert_eq!(
        hex(&cryptogram.y1),
        "a2214362e4daa1bf651aabed162ebe472b41637f8f1a5c21f556675fb8728d774fd94d9bc66d7fb6fa2249a1e38954390b50e947fe3e4ef474ec20cbc22169a0840fa2edb841cdbd3c3d11f1dd2f3aaaf77b9002b5d5426b8ecf56fb53d463fa"
    );
    assert_eq!(hex(&cryptogram.c), "a6db2b2c265ac628af4f1f0bd638b02e");
    let key = msk.key_generation_algorithm(draw_scalar(&mut rng), &id);
    let (a0, b0) = key.to_bytes();
    assert_eq!(
        hex(&a0),
        "8e6750923d8a9e580c3fccc2bb4d44955209c8dbdba1e826bda6cb1aa814af16a85ece6759f33ddfe322303ea459da76"
    );
    assert_eq!(
        hex(&b0),
        "8455645aee7d77a8f38c9112133428a4d3770f2dc243ca549f905c4862405e9732170690f50915c231b607a2fed4c0ae"
    );
    let recovered = key.decryption_algorithm(&cryptogram).unwrap();
    assert_eq!(recovered.id, uid.id);
}
