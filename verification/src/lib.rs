//! Identity-based encryption over the BLS12-381 pairing groups.
//!
//! A trust authority sets up a master key pair. Anyone encrypts a 16-byte
//! payload to an identifier with the public key alone; the authority derives,
//! from the secret key, the one key per identifier that decrypts it.

pub mod bytes;
pub mod curve;
pub mod scalar;
pub mod scheme;
pub mod symmetric;

pub use curve::{pairing, G1Point, G2Point, GtElement};
pub use scalar::Scalar;
pub use scheme::{
    compact_test, drawn, hash_key, setup_algorithm, Cryptogram, DecryptionKey, IbeError,
    MasterPublicKey, MasterSecretKey, NetworkIdentifier, UserIdentifier,
};
