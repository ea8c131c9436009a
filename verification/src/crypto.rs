//! Operations on the 256-bit prime curve, on raw byte encodings of points
//! and scalars.

pub mod curve;
pub mod elgamal;
pub mod signing;

pub use self::elgamal::{ecc256_decrypt, ecc256_encrypt, ecc256_encrypt_with};
pub use self::signing::{ecc256_public_key, ecdsa_sha256_sign, ecdsa_sha256_verify};
