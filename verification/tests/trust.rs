use drm_trust::bcert::{BCertChain, USAGE_ENCRYPT_KEY, USAGE_SIGN};
use drm_trust::crypto::{ecc256_public_key, ecdsa_sha256_sign};
use drm_trust::error::{CdmError, ChainFault};
use drm_trust::trust::verify_chain;

fn scalar(last: u8) -> [u8; 32] {
    let mut k = [0u8; 32];
    k[0] = 0x11;
    k[31] = last;
    k
}

fn attribute(tag: u16, payload: &[u8]) -> Vec<u8> {
    let mut out = Vec::new();
    out.extend_from_slice(&0u16.to_be_bytes());
    out.extend_from_slice(&tag.to_be_bytes());
    out.extend_from_slice(&((payload.len() + 8) as u32).to_be_bytes());
    out.extend_from_slice(payload);
    out
}

fn key_attribute(keys: &[(&[u8], u32)]) -> Vec<u8> {
    let mut p = Vec::new();
    p.extend_from_slice(&(keys.len() as u32).to_be_bytes());
    for (key, usage) in keys {
        p.extend_from_slice(&1u16.to_be_bytes());
        p.extend_from_slice(&((key.len() * 8) as u16).to_be_bytes());
        p.extend_from_slice(&0u32.to_be_bytes());
        p.extend_from_slice(key);
        p.extend_from_slice(&1u32.to_be_bytes());
        p.extend_from_slice(&usage.to_be_bytes());
    }
    attribute(6, &p)
}

/// A certificate with the given keys, signed by `issuer` where there is one.
fn certificate(keys: &[(&[u8], u32)], issuer: Option<&[u8; 32]>) -> Vec<u8> {
    let body = key_attribute(keys);
    let signed_length = 16 + body.len();
    let signature_len = if issuer.is_some() { 8 + 4 + 64 + 4 + 64 } else { 0 };
    let mut cert = Vec::new();
    cert.extend_from_slice(b"CERT");
    cert.extend_from_slice(&1u32.to_be_bytes());
    cert.extend_from_slice(&((signed_length + signature_len) as u32).to_be_bytes());
    cert.extend_from_slice(&(signed_length as u32).to_be_bytes());
    cert.extend_from_slice(&body);
    if let Some(sk) = issuer {
        let signature = ecdsa_sha256_sign(sk, &cert).unwrap();
        let mut p = Vec::new();
        p.extend_from_slice(&1u16.to_be_bytes());
        p.extend_from_slice(&64u16.to_be_bytes());
        p.extend_from_slice(&signature);
        p.extend_from_slice(&512u32.to_be_bytes());
        p.extend_from_slice(&ecc256_public_key(sk).unwrap());
        cert.extend_from_slice(&attribute(8, &p));
    }
    cert
}

fn chain(certs: &[Vec<u8>]) -> BCertChain {
    let mut out = Vec::new();
    out.extend_from_slice(b"CHAI");
    out.extend_from_slice(&1u32.to_be_bytes());
    out.extend_from_slice(&0u32.to_be_bytes());
    out.extend_from_slice(&0u32.to_be_bytes());
    out.extend_from_slice(&(certs.len() as u32).to_be_bytes());
    for c in certs {
        out.extend_from_slice(c);
    }
    BCertChain::from_bytes(&out).unwrap()
}

struct Keys {
    root_sk: [u8; 32],
    root_pk: [u8; 64],
    mid_sk: [u8; 32],
    mid_pk: [u8; 64],
    leaf_sign: [u8; 64],
    leaf_enc: [u8; 64],
}

fn keys() -> Keys {
    let root_sk = scalar(1);
    let mid_sk = scalar(2);
    Keys {
        root_sk,
        root_pk: ecc256_public_key(&root_sk).unwrap(),
        mid_sk,
        mid_pk: ecc256_public_key(&mid_sk).unwrap(),
        leaf_sign: ecc256_public_key(&scalar(3)).unwrap(),
        leaf_enc: ecc256_public_key(&scalar(4)).unwrap(),
    }
}

fn three(k: &Keys) -> Vec<Vec<u8>> {
    vec![
        certificate(
            &[(&k.leaf_enc[..], USAGE_ENCRYPT_KEY), (&k.leaf_sign[..], USAGE_SIGN)],
            Some(&k.mid_sk),
        ),
        certificate(&[(&k.mid_pk[..], USAGE_SIGN)], Some(&k.root_sk)),
        certificate(&[(&k.root_pk[..], USAGE_SIGN)], None),
    ]
}

#[test]
fn chain_that_leads_to_the_anchor_is_trusted() {
    let k = keys();
    let verified = verify_chain(&chain(&three(&k)), &k.root_pk).unwrap();
    assert_eq!(verified.signing_key.unwrap(), k.leaf_sign.to_vec());
    assert_eq!(verified.encryption_key.unwrap(), k.leaf_enc.to_vec());
}

#[test]
fn chain_under_another_anchor_is_untrusted() {
    let k = keys();
    assert_eq!(
        verify_chain(&chain(&three(&k)), &k.mid_pk).unwrap_err(),
        CdmError::ChainUntrusted(ChainFault::RootNotTrusted)
    );
    assert_eq!(
        verify_chain(&chain(&three(&k)), &k.root_pk[..63]).unwrap_err(),
        CdmError::ChainUntrusted(ChainFault::RootNotTrusted)
    );
}

#[test]
fn signature_over_other_bytes_breaks_the_chain() {
    let k = keys();
    let mut certs = three(&k);
    // The intermediate certificate carries a signature that the root made
    // over other bytes.
    let other = certificate(&[(&k.leaf_sign[..], USAGE_SIGN)], Some(&k.root_sk));
    let n = certs[1].len();
    let m = other.len();
    certs[1][n - 136..].copy_from_slice(&other[m - 136..]);
    assert_eq!(
        verify_chain(&chain(&certs), &k.root_pk).unwrap_err(),
        CdmError::ChainUntrusted(ChainFault::SignatureMismatch(1))
    );
}

#[test]
fn tampered_signed_bytes_break_the_chain() {
    let k = keys();
    let mut certs = three(&k);
    certs[0][46] ^= 1;
    assert_eq!(
        verify_chain(&chain(&certs), &k.root_pk).unwrap_err(),
        CdmError::ChainUntrusted(ChainFault::SignatureMismatch(0))
    );
}

#[test]
fn certificate_signed_by_a_stranger_breaks_the_chain() {
    let k = keys();
    let mut certs = three(&k);
    certs[0] = certificate(&[(&k.leaf_sign[..], USAGE_SIGN)], Some(&scalar(9)));
    assert_eq!(
        verify_chain(&chain(&certs), &k.root_pk).unwrap_err(),
        CdmError::ChainUntrusted(ChainFault::SignatureMismatch(0))
    );
}

#[test]
fn missing_parts_are_named() {
    let k = keys();
    let mut unsigned = three(&k);
    unsigned[0] = certificate(&[(&k.leaf_sign[..], USAGE_SIGN)], None);
    assert_eq!(
        verify_chain(&chain(&unsigned), &k.root_pk).unwrap_err(),
        CdmError::ChainUntrusted(ChainFault::MissingSignature(0))
    );
    let mut keyless = three(&k);
    keyless[1] = certificate(&[(&k.mid_pk[..], USAGE_ENCRYPT_KEY)], Some(&k.root_sk));
    assert_eq!(
        verify_chain(&chain(&keyless), &k.root_pk).unwrap_err(),
        CdmError::ChainUntrusted(ChainFault::MissingSigningKey(1))
    );
    let mut short_key = three(&k);
    short_key[1] = certificate(&[(&k.mid_pk[..32], USAGE_SIGN)], Some(&k.root_sk));
    assert_eq!(
        verify_chain(&chain(&short_key), &k.root_pk).unwrap_err(),
        CdmError::ChainUntrusted(ChainFault::MissingSigningKey(1))
    );
    assert_eq!(
        verify_chain(&chain(&[]), &k.root_pk).unwrap_err(),
        CdmError::ChainUntrusted(ChainFault::Empty)
    );
}

#[test]
fn single_certificate_is_trusted_only_as_the_anchor() {
    let k = keys();
    let root = certificate(&[(&k.root_pk[..], USAGE_SIGN)], None);
    let verified = verify_chain(&chain(&[root.clone()]), &k.root_pk).unwrap();
    assert_eq!(verified.signing_key.unwrap(), k.root_pk.to_vec());
    assert!(verified.encryption_key.is_none());
    assert_eq!(
        verify_chain(&chain(&[root]), &k.leaf_sign).unwrap_err(),
        CdmError::ChainUntrusted(ChainFault::RootNotTrusted)
    );
}

#[test]
fn leaf_without_keys_is_still_verified() {
    let k = keys();
    let leaf = certificate(&[], Some(&k.root_sk));
    let root = certificate(&[(&k.root_pk[..], USAGE_SIGN)], None);
    let verified = verify_chain(&chain(&[leaf, root]), &k.root_pk).unwrap();
    assert!(verified.signing_key.is_none());
    assert!(verified.encryption_key.is_none());
}

#[test]
fn signed_bytes_verify_again_after_parsing() {
    let k = keys();
    let parsed = chain(&three(&k));
    let leaf = &parsed.certificates[0];
    let block = leaf.signature_info().unwrap();
    drm_trust::crypto::ecdsa_sha256_verify(&k.mid_pk, leaf.signed_bytes(), &block.signature)
        .unwrap();
    assert_eq!(block.signing_key, k.mid_pk.to_vec());
}

#[test]
fn signed_length_beyond_the_certificate_is_refused() {
    let k = keys();
    let mut certs = three(&k);
    let n = certs[0].len() as u32;
    certs[0][12..16].copy_from_slice(&(n + 1).to_be_bytes());
    assert_eq!(
        verify_chain(&chain(&certs), &k.root_pk).unwrap_err(),
        CdmError::ChainUntrusted(ChainFault::SignedLength(0))
    );
    let parsed = chain(&certs);
    assert!(!parsed.certificates[0].signed_length_fits());
    assert!(parsed.certificates[1].signed_length_fits());
}
