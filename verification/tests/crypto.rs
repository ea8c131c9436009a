use drm_trust::crypto::{
    ecc256_decrypt, ecc256_encrypt, ecc256_encrypt_with, ecc256_public_key, ecdsa_sha256_sign,
    ecdsa_sha256_verify,
};
use drm_trust::error::CdmError;
use p256::ecdsa::signature::Signer;
use p256::elliptic_curve::rand_core::OsRng;
use p256::elliptic_curve::sec1::ToEncodedPoint;
use p256::elliptic_curve::Field;
use p256::{AffinePoint, ProjectivePoint, Scalar};

fn serialize_point(point: &AffinePoint) -> [u8; 64] {
    let encoded = point.to_encoded_point(false);
    let mut out = [0u8; 64];
    out.copy_from_slice(&encoded.as_bytes()[1..65]);
    out
}

fn generate_keypair() -> ([u8; 32], [u8; 64]) {
    let sk = Scalar::random(&mut OsRng);
    let pk = (ProjectivePoint::GENERATOR * sk).to_affine();
    let encoded = pk.to_encoded_point(false);

    let mut private_key = [0u8; 32];
    private_key.copy_from_slice(&sk.to_bytes());

    let mut public_key = [0u8; 64];
    public_key.copy_from_slice(&encoded.as_bytes()[1..65]);

    (private_key, public_key)
}

fn scalar(last: u8) -> [u8; 32] {
    let mut k = [0u8; 32];
    k[31] = last;
    k
}

const GENERATOR: [u8; 64] = [
    0x6b, 0x17, 0xd1, 0xf2, 0xe1, 0x2c, 0x42, 0x47, 0xf8, 0xbc, 0xe6, 0xe5, 0x63, 0xa4, 0x40, 0xf2,
    0x77, 0x03, 0x7d, 0x81, 0x2d, 0xeb, 0x33, 0xa0, 0xf4, 0xa1, 0x39, 0x45, 0xd8, 0x98, 0xc2, 0x96,
    0x4f, 0xe3, 0x42, 0xe2, 0xfe, 0x1a, 0x7f, 0x9b, 0x8e, 0xe7, 0xeb, 0x4a, 0x7c, 0x0f, 0x9e, 0x16,
    0x2b, 0xce, 0x33, 0x57, 0x6b, 0x31, 0x5e, 0xce, 0xcb, 0xb6, 0x40, 0x68, 0x37, 0xbf, 0x51, 0xf5,
];

const ORDER: [u8; 32] = [
    0xff, 0xff, 0xff, 0xff, 0x00, 0x00, 0x00, 0x00, 0xff, 0xff, 0xff, 0xff, 0xff, 0xff, 0xff, 0xff,
    0xbc, 0xe6, 0xfa, 0xad, 0xa7, 0x17, 0x9e, 0x84, 0xf3, 0xb9, 0xca, 0xc2, 0xfc, 0x63, 0x25, 0x51,
];

#[test]
fn encrypt_decrypt_round_trip() {
    // Generate a random keypair for the "recipient"
    let sk = Scalar::random(&mut OsRng);
    let pk = (ProjectivePoint::GENERATOR * sk).to_affine();
    let pk_bytes = serialize_point(&pk);

    let mut private_key = [0u8; 32];
    private_key.copy_from_slice(&sk.to_bytes());

    // Generate a random message point
    let msg_scalar = Scalar::random(&mut OsRng);
    let msg_point = (ProjectivePoint::GENERATOR * msg_scalar).to_affine();
    let msg_bytes = serialize_point(&msg_point);

    // Encrypt and decrypt
    let ciphertext = ecc256_encrypt(&pk_bytes, &msg_bytes).unwrap();
    assert_eq!(ciphertext.len(), 128);

    let decrypted_x = ecc256_decrypt(&private_key, &ciphertext).unwrap();

    // The decrypted x-coordinate should match the original message point's x
    let original_encoded = msg_point.to_encoded_point(false);
    let original_x = original_encoded.x().unwrap();
    assert_eq!(decrypted_x, original_x.as_slice());
}

#[test]
fn decrypt_wrong_key_gives_wrong_result() {
    let sk1 = Scalar::random(&mut OsRng);
    let first_pk = (ProjectivePoint::GENERATOR * sk1).to_affine();

    let sk2 = Scalar::random(&mut OsRng);

    let msg_scalar = Scalar::random(&mut OsRng);
    let msg_point = (ProjectivePoint::GENERATOR * msg_scalar).to_affine();

    let ciphertext =
        ecc256_encrypt(&serialize_point(&first_pk), &serialize_point(&msg_point)).unwrap();

    let mut wrong_key = [0u8; 32];
    wrong_key.copy_from_slice(&sk2.to_bytes());

    let decrypted_x = ecc256_decrypt(&wrong_key, &ciphertext).unwrap();

    let original_encoded = msg_point.to_encoded_point(false);
    let original_x = original_encoded.x().unwrap();
    assert_ne!(decrypted_x, original_x.as_slice());
}

#[test]
fn decrypt_too_short_ciphertext() {
    let key = [0x01u8; 32];
    assert!(ecc256_decrypt(&key, &[0u8; 127]).is_err());
}

#[test]
fn sign_verify_round_trip() {
    let (sk, pk) = generate_keypair();
    let message = b"test message for ECDSA signing";

    let sig = ecdsa_sha256_sign(&sk, message).unwrap();
    assert_eq!(sig.len(), 64);

    ecdsa_sha256_verify(&pk, message, &sig).unwrap();
}

#[test]
fn verify_rejects_tampered_message() {
    let (sk, pk) = generate_keypair();
    let message = b"original message";

    let sig = ecdsa_sha256_sign(&sk, message).unwrap();
    let result = ecdsa_sha256_verify(&pk, b"tampered message", &sig);
    assert!(result.is_err());
}

#[test]
fn verify_rejects_wrong_key() {
    let (sk1, _first_pk) = generate_keypair();
    let (_sk2, second_pk) = generate_keypair();
    let message = b"test";

    let sig = ecdsa_sha256_sign(&sk1, message).unwrap();
    let result = ecdsa_sha256_verify(&second_pk, message, &sig);
    assert!(result.is_err());
}

#[test]
fn deterministic_signatures() {
    let (sk, _pk) = generate_keypair();
    let message = b"deterministic test";

    let sig1 = ecdsa_sha256_sign(&sk, message).unwrap();
    let sig2 = ecdsa_sha256_sign(&sk, message).unwrap();
    // RFC 6979: same key + same message = same signature
    assert_eq!(sig1, sig2);
}

#[test]
fn short_ciphertext_is_a_length_error() {
    let key = scalar(1);
    assert_eq!(
        ecc256_decrypt(&key, &[0u8; 127]).unwrap_err(),
        CdmError::CiphertextTooShort { have: 127 }
    );
    assert_eq!(ecc256_decrypt(&key, &[]).unwrap_err(), CdmError::CiphertextTooShort { have: 0 });
}

#[test]
fn trailing_bytes_of_a_ciphertext_are_not_read() {
    let (sk, pk) = generate_keypair();
    let ciphertext = ecc256_encrypt_with(&pk, &GENERATOR, &scalar(9)).unwrap();
    let mut longer = ciphertext.to_vec();
    longer.extend_from_slice(&[0xEE; 40]);
    assert_eq!(
        ecc256_decrypt(&sk, &longer).unwrap(),
        ecc256_decrypt(&sk, &ciphertext).unwrap()
    );
    assert_eq!(ecc256_decrypt(&sk, &longer).unwrap(), &GENERATOR[..32]);
}

#[test]
fn points_off_the_curve_are_refused() {
    let (sk, pk) = generate_keypair();
    let mut off = GENERATOR;
    off[63] ^= 1;
    assert_eq!(ecc256_encrypt(&off, &GENERATOR).unwrap_err(), CdmError::PointNotOnCurve);
    assert_eq!(ecc256_encrypt(&pk, &off).unwrap_err(), CdmError::PointNotOnCurve);
    assert_eq!(ecc256_encrypt(&pk, &[0u8; 64]).unwrap_err(), CdmError::PointNotOnCurve);
    let mut ciphertext = [0u8; 128];
    ciphertext[..64].copy_from_slice(&GENERATOR);
    ciphertext[64..].copy_from_slice(&off);
    assert_eq!(ecc256_decrypt(&sk, &ciphertext).unwrap_err(), CdmError::PointNotOnCurve);
    assert_eq!(
        ecdsa_sha256_verify(&off, b"m", &[1u8; 64]).unwrap_err(),
        CdmError::PointNotOnCurve
    );
}

#[test]
fn scalars_out_of_range_are_refused() {
    let ciphertext = ecc256_encrypt_with(&GENERATOR, &GENERATOR, &scalar(3)).unwrap();
    assert_eq!(ecc256_decrypt(&ORDER, &ciphertext).unwrap_err(), CdmError::InvalidScalar);
    assert_eq!(ecc256_decrypt(&[0xFF; 32], &ciphertext).unwrap_err(), CdmError::InvalidScalar);
    assert_eq!(
        ecc256_encrypt_with(&GENERATOR, &GENERATOR, &ORDER).unwrap_err(),
        CdmError::InvalidScalar
    );
    assert_eq!(ecdsa_sha256_sign(&ORDER, b"m").unwrap_err(), CdmError::InvalidScalar);
    assert_eq!(ecdsa_sha256_sign(&[0u8; 32], b"m").unwrap_err(), CdmError::InvalidScalar);
    assert_eq!(ecc256_public_key(&ORDER).unwrap_err(), CdmError::InvalidScalar);
    assert_eq!(ecc256_public_key(&[0u8; 32]).unwrap_err(), CdmError::IdentityPoint);
}

#[test]
fn encryption_with_a_given_scalar_is_the_formula() {
    // k = 1: C1 = G, C2 = M + PK. With PK = G and M = G, C2 = 2G.
    let two_g = ecc256_public_key(&scalar(2)).unwrap();
    let ciphertext = ecc256_encrypt_with(&GENERATOR, &GENERATOR, &scalar(1)).unwrap();
    assert_eq!(&ciphertext[..64], &GENERATOR[..]);
    assert_eq!(&ciphertext[64..], &two_g[..]);
    // k = 0: C1 would be the identity, which cannot be written.
    assert_eq!(
        ecc256_encrypt_with(&GENERATOR, &GENERATOR, &scalar(0)).unwrap_err(),
        CdmError::IdentityPoint
    );
    // Decrypting with sk = 1: C2 - C1 = G.
    assert_eq!(ecc256_decrypt(&scalar(1), &ciphertext).unwrap(), &GENERATOR[..32]);
    // sk = 0 leaves C2 as it is.
    assert_eq!(ecc256_decrypt(&scalar(0), &ciphertext).unwrap(), &two_g[..32]);
}

#[test]
fn decryption_to_the_identity_is_an_error() {
    // C1 = G, C2 = G, sk = 1: C2 - sk * C1 is the identity.
    let mut ciphertext = [0u8; 128];
    ciphertext[..64].copy_from_slice(&GENERATOR);
    ciphertext[64..].copy_from_slice(&GENERATOR);
    assert_eq!(
        ecc256_decrypt(&scalar(1), &ciphertext).unwrap_err(),
        CdmError::DecryptedToIdentity
    );
}

#[test]
fn public_key_of_one_is_the_generator() {
    assert_eq!(ecc256_public_key(&scalar(1)).unwrap(), GENERATOR);
    let (sk, pk) = generate_keypair();
    assert_eq!(ecc256_public_key(&sk).unwrap(), pk);
}

#[test]
fn two_encryptions_differ_and_both_decrypt() {
    let (sk, pk) = generate_keypair();
    let a = ecc256_encrypt(&pk, &GENERATOR).unwrap();
    let b = ecc256_encrypt(&pk, &GENERATOR).unwrap();
    assert_ne!(a, b);
    assert_eq!(ecc256_decrypt(&sk, &a).unwrap(), &GENERATOR[..32]);
    assert_eq!(ecc256_decrypt(&sk, &b).unwrap(), &GENERATOR[..32]);
}

#[test]
fn der_signatures_are_accepted() {
    let (sk, pk) = generate_keypair();
    let message = b"signed in der";
    let key = p256::ecdsa::SigningKey::from_bytes((&sk).into()).unwrap();
    let signature: p256::ecdsa::Signature = key.sign(message);
    let der = signature.to_der();
    ecdsa_sha256_verify(&pk, message, der.as_bytes()).unwrap();
    assert_eq!(ecdsa_sha256_sign(&sk, message).unwrap(), signature.to_bytes().as_slice());
    assert_eq!(
        ecdsa_sha256_verify(&pk, b"other", der.as_bytes()).unwrap_err(),
        CdmError::EcdsaSignatureMismatch
    );
}

#[test]
fn malformed_signatures_are_mismatches() {
    let (_sk, pk) = generate_keypair();
    for sig in [&[0u8; 64][..], &[0xFF; 64][..], &[][..], &[0x30, 0x01][..], &[7u8; 63][..]] {
        assert_eq!(
            ecdsa_sha256_verify(&pk, b"m", sig).unwrap_err(),
            CdmError::EcdsaSignatureMismatch
        );
    }
}
