//! The symmetric primitives that this crate takes from the `cmac`, `hmac`,
//! `sha2`, `aes` and `cbc` crates. Nothing in this module is proved: each
//! function states what the outside code is trusted to compute.

use cbc::cipher::block_padding::NoPadding;
use cbc::cipher::{BlockModeDecrypt, KeyIvInit};
use cmac::{KeyInit, Mac};
use vstd::prelude::*;

verus! {

/// The AES-128 CMAC tag of `message` under `key`: 16 bytes.
pub uninterp spec fn aes_cmac(key: Seq<u8>, message: Seq<u8>) -> Seq<u8>;

/// The HMAC-SHA-256 tag of `message` under `key`.
pub uninterp spec fn hmac_sha256(key: Seq<u8>, message: Seq<u8>) -> Seq<u8>;

/// What AES-128 in CBC mode decrypts `data` to under `key` and `iv`, padding
/// included.
pub uninterp spec fn aes_cbc_plain(key: Seq<u8>, iv: Seq<u8>, data: Seq<u8>) -> Seq<u8>;

/// `Cmac::<Aes128>`: key, one update with the message, finalize. The tag is
/// a function of key and message.
#[verifier::external_body]
pub(crate) fn cmac_aes128(key: &[u8; 16], message: &[u8]) -> (tag: [u8; 16])
    ensures
        tag@ == aes_cmac(key@, message@),
{
    let mut mac = cmac::Cmac::<aes::Aes128>::new_from_slice(key).unwrap();
    mac.update(message);
    mac.finalize().into_bytes().into()
}

/// `Hmac::<Sha256>::verify_slice`: accepts a tag exactly when it is the tag
/// of the message under the key, compared in constant time. An accepted tag
/// has 32 bytes.
#[verifier::external_body]
pub(crate) fn hmac_sha256_matches(key: &[u8], message: &[u8], tag: &[u8]) -> (r: bool)
    ensures
        r == (tag@ == hmac_sha256(key@, message@)),
        r ==> tag@.len() == 32,
{
    let mut mac = hmac::Hmac::<sha2::Sha256>::new_from_slice(key).unwrap();
    mac.update(message);
    mac.verify_slice(tag).is_ok()
}

/// `cbc::Decryptor::<Aes128>::decrypt_padded` without removal of padding: as
/// many bytes come out as went in, and they are a function of key, vector and
/// input.
#[verifier::external_body]
pub(crate) fn aes128_cbc_decrypt(key: &[u8; 16], iv: &[u8; 16], data: &[u8]) -> (r: Vec<u8>)
    requires
        data@.len() % 16 == 0,
    ensures
        r@ == aes_cbc_plain(key@, iv@, data@),
        r@.len() == data@.len(),
{
    let mut buffer = data.to_vec();
    let cipher = cbc::Decryptor::<aes::Aes128>::new_from_slices(key, iv).unwrap();
    cipher.decrypt_padded::<NoPadding>(&mut buffer).unwrap();
    buffer
}

} // verus!
