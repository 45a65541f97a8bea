//! The four algorithms of the scheme: setup, key derivation, encryption and
//! decryption.
//!
//! Every algorithm is a function of its arguments. The randomness that setup,
//! key derivation and encryption need is drawn by the caller and handed in as
//! scalars (see [`Scalar::from_bytes_wide`]) and, for setup, as an element of
//! G1.
//!
//! The contracts speak of keys through their models: for each group element a
//! key holds, how many times the generator of its group it is.

use crate::bytes::{append, same};
use crate::curve::{
    g2_log, g2_multiple, gt_multiple, is_g2_encoding, pairing, G1Point, G2Point, GtElement,
};
use crate::scalar::{add_mod, group_order, mul_mod, sub_mod, Scalar};
use crate::symmetric::{
    aes256_decrypt_block, aes256_decrypted, aes256_encrypt_block, aes256_encrypted, sha256,
    sha256_digest,
};
use vstd::arithmetic::div_mod::{
    lemma_add_mod_noop, lemma_mul_mod_noop_left, lemma_mul_mod_noop_right, lemma_sub_mod_noop,
};
use vstd::prelude::*;

verus! {

/// Why a call failed.
#[derive(Clone, Copy, Debug, PartialEq, Eq)]
pub enum IbeError {
    /// A point field of a cryptogram is not the compressed encoding of an
    /// element of G2.
    InvalidEncoding,
    /// The randomness source could not supply what a call needed.
    RandomnessUnavailable,
}

/// Hands on what the randomness source supplied, or reports that it failed.
pub fn drawn<T>(draw: Option<T>) -> (r: Result<T, IbeError>)
    ensures
        r == match draw {
            Some(v) => Ok::<T, IbeError>(v),
            None => Err::<T, IbeError>(IbeError::RandomnessUnavailable),
        },
{
    match draw {
        Some(v) => Ok(v),
        None => Err(IbeError::RandomnessUnavailable),
    }
}

/// The model of a master secret key: `u0` and `v0` are the two secret scalars
/// behind the public key, and `w0` belongs to the random element of G1.
pub struct SecretKeyModel {
    pub u0: nat,
    pub v0: nat,
    pub w0: nat,
}

/// The model of a master public key.
pub struct PublicKeyModel {
    pub u1: nat,
    pub v1: nat,
    pub w: nat,
}

/// The model of a decryption key.
pub struct DecryptionKeyModel {
    pub a0: nat,
    pub b0: nat,
}

/// The master secret key that setup makes of the scalars `alpha` and `beta`
/// and of `w0` times the generator of G1.
pub open spec fn master_secret(alpha: nat, beta: nat, w0: nat) -> SecretKeyModel {
    SecretKeyModel { u0: alpha, v0: beta, w0 }
}

/// The master public key that belongs to `master_secret(alpha, beta, w0)`.
pub open spec fn master_public(alpha: nat, beta: nat, w0: nat) -> PublicKeyModel {
    PublicKeyModel { u1: alpha, v1: beta, w: w0 }
}

/// The element `id * U + V` that stands for an identifier under a key with
/// the elements `u` and `v`.
pub open spec fn identity_element(u: nat, v: nat, id: nat) -> nat {
    add_mod(mul_mod(u, id), v)
}

/// The decryption key for `id` that `msk` gives with the fresh scalar `gamma`.
pub open spec fn derived_key(msk: SecretKeyModel, gamma: nat, id: nat) -> DecryptionKeyModel {
    DecryptionKeyModel {
        a0: add_mod(msk.w0, mul_mod(identity_element(msk.u0, msk.v0, id), gamma)),
        b0: gamma,
    }
}

/// The symmetric key for the encodings of two elements of G2 and one of Gt:
/// the SHA-256 digest of the compressed `x1`, then the compressed `y1`, then
/// the text of `z`. Each of the three encodings is canonical, so equal
/// elements give equal keys.
pub open spec fn symmetric_key(x1: Seq<u8>, y1: Seq<u8>, z: Seq<u8>) -> Seq<u8> {
    sha256_digest(x1 + y1 + z)
}

/// Whether `c` is the cryptogram of `payload` for `id` under `mpk`, made with
/// the fresh scalar `rho`: its points are `rho` times the generator of G2 and
/// `rho` times the identifier's element, and its block is the payload,
/// enciphered under the key of the two points and of `rho` times `mpk.w`.
/// That key deciphers the block to the payload again.
pub open spec fn is_encryption(
    c: Cryptogram,
    mpk: PublicKeyModel,
    rho: nat,
    id: nat,
    payload: Seq<u8>,
) -> bool {
    let y = mul_mod(identity_element(mpk.u1, mpk.v1, id), rho);
    let k = symmetric_key(c.x1@, c.y1@, gt_multiple(mul_mod(mpk.w, rho)));
    &&& c.x1@ == g2_multiple(rho)
    &&& is_g2_encoding(c.x1@)
    &&& g2_log(c.x1@) == rho
    &&& c.y1@ == g2_multiple(y)
    &&& is_g2_encoding(c.y1@)
    &&& g2_log(c.y1@) == y
    &&& c.c@ == aes256_encrypted(k, payload)
    &&& aes256_decrypted(k, c.c@) == payload
}

/// What decryption with `key` makes of `c`: the deciphered block, or no
/// payload where a point field of `c` is no element of G2.
pub open spec fn decrypted(key: DecryptionKeyModel, c: Cryptogram) -> Result<Seq<u8>, IbeError> {
    if is_g2_encoding(c.x1@) && is_g2_encoding(c.y1@) {
        let z = sub_mod(mul_mod(key.a0, g2_log(c.x1@)), mul_mod(key.b0, g2_log(c.y1@)));
        Ok(aes256_decrypted(symmetric_key(c.x1@, c.y1@, gt_multiple(z)), c.c@))
    } else {
        Err(IbeError::InvalidEncoding)
    }
}

/// The address that a cryptogram is made for.
#[derive(Clone, Copy, Debug, PartialEq, Eq)]
pub struct NetworkIdentifier {
    pub id: Scalar,
}

impl NetworkIdentifier {
    /// The identifier of the number `id`.
    pub fn new(id: u64) -> (r: NetworkIdentifier)
        ensures
            r.id.wf(),
            r.id@ == id,
    {
        NetworkIdentifier { id: Scalar::from_u64(id) }
    }
}

/// The payload of a cryptogram: one cipher block.
#[derive(Clone, Copy, Debug, PartialEq, Eq)]
pub struct UserIdentifier {
    pub id: [u8; 16],
}

impl UserIdentifier {
    /// The payload made of 16 bytes that the caller drew at random.
    pub fn new_random(randomness: [u8; 16]) -> (r: UserIdentifier)
        ensures
            r.id@ == randomness@,
    {
        UserIdentifier { id: randomness }
    }
}

/// A ciphertext: two compressed elements of G2 and one cipher block.
#[derive(Clone, Copy, Debug, PartialEq, Eq)]
pub struct Cryptogram {
    pub x1: [u8; 96],
    pub y1: [u8; 96],
    pub c: [u8; 16],
}

impl Cryptogram {
    /// The wire format: `x1`, then `y1`, then `c`, 208 bytes in all.
    pub fn to_bytes(&self) -> (r: [u8; 208])
        ensures
            r@ == self.x1@ + self.y1@ + self.c@,
    {
        let mut r = [0u8; 208];
        let mut i: usize = 0;
        while i < 96
            invariant
                i <= 96,
                forall|j: int| 0 <= j < i ==> r@[j] == self.x1@[j],
                forall|j: int| 0 <= j < i ==> r@[96 + j] == self.y1@[j],
            decreases 96 - i,
        {
            r[i] = self.x1[i];
            r[96 + i] = self.y1[i];
            i += 1;
        }
        let mut i: usize = 0;
        while i < 16
            invariant
                i <= 16,
                forall|j: int| 0 <= j < 96 ==> r@[j] == self.x1@[j],
                forall|j: int| 0 <= j < 96 ==> r@[96 + j] == self.y1@[j],
                forall|j: int| 0 <= j < i ==> r@[192 + j] == self.c@[j],
            decreases 16 - i,
        {
            r[192 + i] = self.c[i];
            i += 1;
        }
        assert(r@ =~= self.x1@ + self.y1@ + self.c@);
        r
    }

    /// Reads the wire format.
    pub fn from_bytes(bytes: &[u8; 208]) -> (r: Cryptogram)
        ensures
            r.x1@ == bytes@.subrange(0, 96),
            r.y1@ == bytes@.subrange(96, 192),
            r.c@ == bytes@.subrange(192, 208),
    {
        let mut x1 = [0u8; 96];
        let mut y1 = [0u8; 96];
        let mut c = [0u8; 16];
        let mut i: usize = 0;
        while i < 96
            invariant
                i <= 96,
                forall|j: int| 0 <= j < i ==> x1@[j] == bytes@[j],
                forall|j: int| 0 <= j < i ==> y1@[j] == bytes@[96 + j],
            decreases 96 - i,
        {
            x1[i] = bytes[i];
            y1[i] = bytes[96 + i];
            i += 1;
        }
        let mut i: usize = 0;
        while i < 16
            invariant
                i <= 16,
                forall|j: int| 0 <= j < i ==> c@[j] == bytes@[192 + j],
            decreases 16 - i,
        {
            c[i] = bytes[192 + i];
            i += 1;
        }
        assert(x1@ =~= bytes@.subrange(0, 96));
        assert(y1@ =~= bytes@.subrange(96, 192));
        assert(c@ =~= bytes@.subrange(192, 208));
        Cryptogram { x1, y1, c }
    }
}

/// The trust authority's secret: three elements of G1.
#[derive(Clone, Copy, Debug, PartialEq, Eq)]
pub struct MasterSecretKey {
    u0: G1Point,
    v0: G1Point,
    w0: G1Point,
}

/// The public parameters: two elements of G2 and one of Gt.
#[derive(Clone, Copy, Debug, PartialEq, Eq)]
pub struct MasterPublicKey {
    u1: G2Point,
    v1: G2Point,
    w: GtElement,
}

/// The secret key of one identifier: two elements of G1.
#[derive(Clone, Copy, Debug, PartialEq, Eq)]
pub struct DecryptionKey {
    a0: G1Point,
    b0: G1Point,
}

impl View for MasterSecretKey {
    type V = SecretKeyModel;

    closed spec fn view(&self) -> SecretKeyModel {
        SecretKeyModel { u0: self.u0@, v0: self.v0@, w0: self.w0@ }
    }
}

impl View for MasterPublicKey {
    type V = PublicKeyModel;

    closed spec fn view(&self) -> PublicKeyModel {
        PublicKeyModel { u1: self.u1@, v1: self.v1@, w: self.w@ }
    }
}

impl View for DecryptionKey {
    type V = DecryptionKeyModel;

    closed spec fn view(&self) -> DecryptionKeyModel {
        DecryptionKeyModel { a0: self.a0@, b0: self.b0@ }
    }
}

/// Makes a master key pair of two random scalars and a random element of G1.
pub fn setup_algorithm(
    alpha: Scalar,
    beta: Scalar,
    w0: G1Point,
) -> (keys: (MasterSecretKey, MasterPublicKey))
    ensures
        keys.0.wf(),
        keys.1.wf(),
        keys.0@ == master_secret(alpha@, beta@, w0@),
        keys.1@ == master_public(alpha@, beta@, w0@),
{
    let g1 = G1Point::generator();
    let g2 = G2Point::generator();
    let u0 = g1.scale(&alpha);
    let u1 = g2.scale(&alpha);
    let v0 = g1.scale(&beta);
    let v1 = g2.scale(&beta);
    let w = pairing(&w0, &g2);
    proof {
        use_type_invariant(alpha);
        use_type_invariant(beta);
        use_type_invariant(w0);
    }
    (MasterSecretKey { u0, v0, w0 }, MasterPublicKey { u1, v1, w })
}

impl MasterSecretKey {
    /// Every element of the key is an element of G1.
    pub closed spec fn wf(self) -> bool {
        self.u0.wf() && self.v0.wf() && self.w0.wf()
    }

    /// The compressed encodings of `u0`, `v0` and `w0`.
    pub closed spec fn encodings(self) -> (Seq<u8>, Seq<u8>, Seq<u8>) {
        (self.u0.encoding(), self.v0.encoding(), self.w0.encoding())
    }

    /// Issues the decryption key of `id`, blinded by the fresh scalar `gamma`.
    pub fn key_generation_algorithm(
        &self,
        gamma: Scalar,
        id: &NetworkIdentifier,
    ) -> (key: DecryptionKey)
        ensures
            key.wf(),
            key@ == derived_key(self@, gamma@, id.id@),
    {
        let g1 = G1Point::generator();
        let a0 = self.w0.plus(&self.u0.scale(&id.id).plus(&self.v0).scale(&gamma));
        let b0 = g1.scale(&gamma);
        proof {
            use_type_invariant(gamma);
        }
        DecryptionKey { a0, b0 }
    }
}

impl MasterPublicKey {
    /// Every element of the key is an element of its group.
    pub closed spec fn wf(self) -> bool {
        self.u1.wf() && self.v1.wf() && self.w.wf()
    }

    /// The compressed encodings of `u1` and `v1`, and the encoding of `w`.
    pub closed spec fn encodings(self) -> (Seq<u8>, Seq<u8>, Seq<u8>) {
        (self.u1.encoding(), self.v1.encoding(), self.w.encoding())
    }

    /// Encrypts the payload `uid` for `id`, with the fresh scalar `rho`.
    pub fn encryption_algorithm(
        &self,
        rho: Scalar,
        id: &NetworkIdentifier,
        uid: &UserIdentifier,
    ) -> (c: Cryptogram)
        ensures
            is_encryption(c, self@, rho@, id.id@, uid.id@),
    {
        let g2 = G2Point::generator();
        let x1 = g2.scale(&rho);
        let y1 = self.u1.scale(&id.id).plus(&self.v1).scale(&rho);
        let z = self.w.scale(&rho);
        let k = hash_key(&x1, &y1, &z);
        let c = aes256_encrypt_block(&k, &uid.id);
        proof {
            use_type_invariant(rho);
        }
        Cryptogram { x1: x1.to_compressed(), y1: y1.to_compressed(), c }
    }
}

/// Derives the symmetric key of a cryptogram from its two points and from the
/// element of Gt that sender and receiver share.
pub fn hash_key(x1: &G2Point, y1: &G2Point, z: &GtElement) -> (k: [u8; 32])
    ensures
        k@ == symmetric_key(x1.encoding(), y1.encoding(), z.encoding()),
{
    let mut input: Vec<u8> = Vec::new();
    let x1_bytes = x1.to_compressed();
    let y1_bytes = y1.to_compressed();
    let z_bytes = z.to_bytes();
    append(&mut input, x1_bytes.as_slice());
    append(&mut input, y1_bytes.as_slice());
    append(&mut input, z_bytes.as_slice());
    assert(input@ == x1.encoding() + y1.encoding() + z.encoding());
    sha256(input.as_slice())
}

impl DecryptionKey {
    /// Both elements of the key are elements of G1.
    pub closed spec fn wf(self) -> bool {
        self.a0.wf() && self.b0.wf()
    }

    /// The compressed encodings of `a0` and `b0`.
    pub closed spec fn encodings(self) -> (Seq<u8>, Seq<u8>) {
        (self.a0.encoding(), self.b0.encoding())
    }

    /// Recovers the payload of `c`. Fails where a point field of `c` is not
    /// the compressed encoding of an element of G2, and only there: a key of
    /// another identifier is not told apart, and the payload it gives is
    /// unrelated to the sender's.
    pub fn decryption_algorithm(&self, c: &Cryptogram) -> (r: Result<UserIdentifier, IbeError>)
        ensures
            match r {
                Ok(uid) => decrypted(self@, *c) == Ok::<Seq<u8>, IbeError>(uid.id@),
                Err(e) => decrypted(self@, *c) == Err::<Seq<u8>, IbeError>(e),
            },
            r is Err <==> !is_g2_encoding(c.x1@) || !is_g2_encoding(c.y1@),
            r matches Err(e) ==> e == IbeError::InvalidEncoding,
    {
        let x1 = match G2Point::from_compressed(&c.x1) {
            Some(p) => p,
            None => {
                return Err(IbeError::InvalidEncoding);
            },
        };
        let y1 = match G2Point::from_compressed(&c.y1) {
            Some(p) => p,
            None => {
                return Err(IbeError::InvalidEncoding);
            },
        };
        let z = pairing(&self.a0, &x1).minus(&pairing(&self.b0, &y1));
        let k = hash_key(&x1, &y1, &z);
        let id = aes256_decrypt_block(&k, &c.c);
        Ok(UserIdentifier { id })
    }

    /// Writes the key: `a0` compressed and `b0` compressed.
    pub fn to_bytes(&self) -> (r: ([u8; 48], [u8; 48]))
        ensures
            (r.0@, r.1@) == self.encodings(),
    {
        (self.a0.to_compressed(), self.b0.to_compressed())
    }
}

/// Runs the whole scheme once, for the identifier 1: sets up with `alpha`,
/// `beta` and `w0`, encrypts the payload `randomness` with `rho`, derives the
/// key with `gamma` and decrypts. Says whether decryption gave the payload
/// back, which it always does.
pub fn compact_test(
    alpha: Scalar,
    beta: Scalar,
    w0: G1Point,
    randomness: [u8; 16],
    rho: Scalar,
    gamma: Scalar,
) -> (ok: bool)
    ensures
        exists|c: Cryptogram|
            {
                &&& #[trigger] is_encryption(
                    c,
                    master_public(alpha@, beta@, w0@),
                    rho@,
                    1,
                    randomness@,
                )
                &&& ok == (decrypted(
                    derived_key(master_secret(alpha@, beta@, w0@), gamma@, 1),
                    c,
                ) == Ok::<Seq<u8>, IbeError>(randomness@))
            },
        ok,
{
    let (msk, mpk) = setup_algorithm(alpha, beta, w0);
    let uid = UserIdentifier::new_random(randomness);
    let id = NetworkIdentifier::new(1);
    let cryptogram = mpk.encryption_algorithm(rho, &id, &uid);
    let decryption_key = msk.key_generation_algorithm(gamma, &id);
    proof {
        lemma_round_trip(alpha@, beta@, w0@, gamma@, rho@, id.id@, uid.id@, cryptogram);
    }
    match decryption_key.decryption_algorithm(&cryptogram) {
        Ok(uid2) => same(uid.id.as_slice(), uid2.id.as_slice()),
        Err(_) => false,
    }
}

/// The arithmetic behind decryption: with `a` the identifier's element, the
/// blinding `g * a` that key derivation adds to `w` cancels against the
/// second pairing, and `r` times `w` is left.
pub proof fn lemma_unblinding(w: nat, a: nat, g: nat, r: nat)
    ensures
        sub_mod(mul_mod(add_mod(w, mul_mod(a, g)), r), mul_mod(g, mul_mod(a, r))) == mul_mod(w, r),
{
    let m = group_order() as int;
    let w = w as int;
    let a = a as int;
    let g = g as int;
    let r = r as int;
    let ag = (a * g) % m;
    let x = ((w + ag) % m * r) % m;
    let y = (g * ((a * r) % m)) % m;
    assert(x == (w * r + a * g * r) % m) by {
        lemma_mul_mod_noop_left(w + ag, r, m);
        assert((w + ag) * r == w * r + ag * r) by (nonlinear_arith);
        lemma_add_mod_noop(w * r, ag * r, m);
        lemma_mul_mod_noop_left(a * g, r, m);
        lemma_add_mod_noop(w * r, a * g * r, m);
    }
    assert(y == (a * g * r) % m) by {
        lemma_mul_mod_noop_right(g, a * r, m);
        assert(g * (a * r) == a * g * r) by (nonlinear_arith);
    }
    assert((x - y) % m == (w * r) % m) by {
        lemma_sub_mod_noop(w * r + a * g * r, a * g * r, m);
    }
}

/// Round trip: whatever setup drew (`alpha`, `beta`, `w0`), whatever key
/// derivation drew (`gamma`) and whatever encryption drew (`rho`), the key
/// derived for an identifier decrypts every cryptogram made for that
/// identifier to its payload.
pub proof fn lemma_round_trip(
    alpha: nat,
    beta: nat,
    w0: nat,
    gamma: nat,
    rho: nat,
    id: nat,
    payload: Seq<u8>,
    c: Cryptogram,
)
    requires
        is_encryption(c, master_public(alpha, beta, w0), rho, id, payload),
    ensures
        decrypted(derived_key(master_secret(alpha, beta, w0), gamma, id), c) == Ok::<
            Seq<u8>,
            IbeError,
        >(payload),
{
    lemma_unblinding(w0, identity_element(alpha, beta, id), gamma, rho);
}

/// Setup is a function of what it drew: two key pairs made of the same
/// `alpha`, `beta` and `w0` agree byte for byte.
pub proof fn lemma_setup_is_deterministic(
    alpha: nat,
    beta: nat,
    w0: nat,
    first: (MasterSecretKey, MasterPublicKey),
    second: (MasterSecretKey, MasterPublicKey),
)
    requires
        first.0.wf() && first.1.wf(),
        first.0@ == master_secret(alpha, beta, w0),
        first.1@ == master_public(alpha, beta, w0),
        second.0.wf() && second.1.wf(),
        second.0@ == master_secret(alpha, beta, w0),
        second.1@ == master_public(alpha, beta, w0),
    ensures
        first.0.encodings() == second.0.encodings(),
        first.1.encodings() == second.1.encodings(),
{
}

/// Key derivation is a function of the master secret key, of what it drew and
/// of the identifier: two keys derived from the same of these agree byte for
/// byte.
pub proof fn lemma_key_derivation_is_deterministic(
    msk: SecretKeyModel,
    gamma: nat,
    id: nat,
    first: DecryptionKey,
    second: DecryptionKey,
)
    requires
        first.wf(),
        first@ == derived_key(msk, gamma, id),
        second.wf(),
        second@ == derived_key(msk, gamma, id),
    ensures
        first.encodings() == second.encodings(),
{
}

/// Encryption is a function of the public key, of what it drew, of the
/// identifier and of the payload: two cryptograms made of the same of these
/// agree byte for byte.
pub proof fn lemma_encryption_is_deterministic(
    mpk: PublicKeyModel,
    rho: nat,
    id: nat,
    payload: Seq<u8>,
    first: Cryptogram,
    second: Cryptogram,
)
    requires
        is_encryption(first, mpk, rho, id, payload),
        is_encryption(second, mpk, rho, id, payload),
    ensures
        first.x1@ == second.x1@,
        first.y1@ == second.y1@,
        first.c@ == second.c@,
        first == second,
{
    assert(first.x1 == second.x1);
    assert(first.y1 == second.y1);
    assert(first.c == second.c);
}

/// Re-randomisation: two keys that one master secret key gives for one
/// identifier with different scalars `gamma` differ in their bytes (in those
/// of `b0` at least), and each of them decrypts what was encrypted for the
/// identifier.
pub proof fn lemma_rerandomization(
    alpha: nat,
    beta: nat,
    w0: nat,
    id: nat,
    first_gamma: nat,
    second_gamma: nat,
    first: DecryptionKey,
    second: DecryptionKey,
    rho: nat,
    payload: Seq<u8>,
    c: Cryptogram,
)
    requires
        first@ == derived_key(master_secret(alpha, beta, w0), first_gamma, id),
        second@ == derived_key(master_secret(alpha, beta, w0), second_gamma, id),
        first_gamma != second_gamma,
        is_encryption(c, master_public(alpha, beta, w0), rho, id, payload),
    ensures
        first.encodings().1 != second.encodings().1,
        first.encodings() != second.encodings(),
        decrypted(first@, c) == Ok::<Seq<u8>, IbeError>(payload),
        decrypted(second@, c) == Ok::<Seq<u8>, IbeError>(payload),
{
    lemma_round_trip(alpha, beta, w0, first_gamma, rho, id, payload, c);
    lemma_round_trip(alpha, beta, w0, second_gamma, rho, id, payload, c);
}

/// Decryption does not tell a wrong key from the right one: whatever the key,
/// a cryptogram that encryption made decrypts to some payload.
pub proof fn lemma_any_key_decrypts(
    key: DecryptionKeyModel,
    mpk: PublicKeyModel,
    rho: nat,
    id: nat,
    payload: Seq<u8>,
    c: Cryptogram,
)
    requires
        is_encryption(c, mpk, rho, id, payload),
    ensures
        decrypted(key, c) is Ok,
{
}

/// The wire format has 208 bytes, and reading it gives the fields back.
pub proof fn lemma_wire_format(c: Cryptogram, wire: Seq<u8>)
    requires
        wire == c.x1@ + c.y1@ + c.c@,
    ensures
        wire.len() == 208,
        wire.subrange(0, 96) == c.x1@,
        wire.subrange(96, 192) == c.y1@,
        wire.subrange(192, 208) == c.c@,
{
}

} // verus!
