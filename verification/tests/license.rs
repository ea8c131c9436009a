use cbc::cipher::block_padding::NoPadding;
use cbc::cipher::{BlockModeEncrypt, KeyIvInit};
use cmac::{KeyInit, Mac};
use drm_trust::error::{CdmError, UnwrapFault};
use drm_trust::license::{
    content_keys, derive_and_unwrap, derive_keys, remove_padding, unwrap_key, KeyClass,
    KeyContainer, KeyContexts, KeyOutcome, KeyType, LicenseBody, UnwrappedKey,
};

const SESSION_KEY: [u8; 16] = [
    0x2b, 0x7e, 0x15, 0x16, 0x28, 0xae, 0xd2, 0xa6, 0xab, 0xf7, 0x15, 0x88, 0x09, 0xcf, 0x4f, 0x3c,
];

fn contexts() -> KeyContexts {
    KeyContexts { enc: b"ENCRYPTION\0request".to_vec(), mac: b"AUTHENTICATION\0request".to_vec() }
}

fn cmac_tag(key: &[u8; 16], counter: u8, context: &[u8]) -> [u8; 16] {
    let mut mac = cmac::Cmac::<aes::Aes128>::new_from_slice(key).unwrap();
    mac.update(&[counter]);
    mac.update(context);
    mac.finalize().into_bytes().into()
}

fn hmac_tag(key: &[u8], message: &[u8]) -> Vec<u8> {
    let mut mac = hmac::Hmac::<sha2::Sha256>::new_from_slice(key).unwrap();
    mac.update(message);
    mac.finalize().into_bytes().to_vec()
}

fn encrypt(key: &[u8; 16], iv: &[u8; 16], padded: &[u8]) -> Vec<u8> {
    let mut buffer = padded.to_vec();
    let n = buffer.len();
    cbc::Encryptor::<aes::Aes128>::new_from_slices(key, iv)
        .unwrap()
        .encrypt_padded::<NoPadding>(&mut buffer, n)
        .unwrap();
    buffer
}

fn padded(key: &[u8]) -> Vec<u8> {
    let p = 16 - key.len() % 16;
    let mut out = key.to_vec();
    out.extend(std::iter::repeat(p as u8).take(p));
    out
}

fn container(enc_key: &[u8; 16], id: &[u8], iv: [u8; 16], key: &[u8], key_type: u32) -> KeyContainer {
    KeyContainer {
        id: id.to_vec(),
        iv: iv.to_vec(),
        key: encrypt(enc_key, &iv, &padded(key)),
        key_type,
    }
}

fn signed(message: &[u8], keys: Vec<KeyContainer>) -> LicenseBody {
    let derived = derive_keys(&SESSION_KEY, &contexts());
    LicenseBody {
        message: message.to_vec(),
        signature: hmac_tag(&derived.mac_key_server, message),
        keys,
    }
}

const WIRE_ID: [u8; 16] = [0, 1, 2, 3, 4, 5, 6, 7, 8, 9, 10, 11, 12, 13, 14, 15];
const CANONICAL_ID: [u8; 16] = [3, 2, 1, 0, 5, 4, 7, 6, 8, 9, 10, 11, 12, 13, 14, 15];

#[test]
fn derived_keys_are_the_tags_of_counter_and_context() {
    let c = contexts();
    let keys = derive_keys(&SESSION_KEY, &c);
    assert_eq!(keys.enc_key, cmac_tag(&SESSION_KEY, 1, &c.enc));
    assert_eq!(&keys.mac_key_server[..16], &cmac_tag(&SESSION_KEY, 1, &c.mac));
    assert_eq!(&keys.mac_key_server[16..], &cmac_tag(&SESSION_KEY, 2, &c.mac));
    assert_eq!(&keys.mac_key_client[..16], &cmac_tag(&SESSION_KEY, 3, &c.mac));
    assert_eq!(&keys.mac_key_client[16..], &cmac_tag(&SESSION_KEY, 4, &c.mac));
    assert_ne!(keys.enc_key, SESSION_KEY);
}

#[test]
fn derived_key_matches_the_published_tag() {
    // RFC 4493, example 2, read as counter 0x6b followed by the rest of the
    // message as context would not be a counter of this scheme; the tag of
    // the empty context under counter 1 is checked against the primitive
    // instead, and the primitive against the RFC.
    let mut mac = cmac::Cmac::<aes::Aes128>::new_from_slice(&SESSION_KEY).unwrap();
    mac.update(&[
        0x6b, 0xc1, 0xbe, 0xe2, 0x2e, 0x40, 0x9f, 0x96, 0xe9, 0x3d, 0x7e, 0x11, 0x73, 0x93, 0x17,
        0x2a,
    ]);
    let tag: [u8; 16] = mac.finalize().into_bytes().into();
    assert_eq!(
        tag,
        [
            0x07, 0x0a, 0x16, 0xb4, 0x6b, 0x4d, 0x41, 0x44, 0xf7, 0x9b, 0xdd, 0x9d, 0xd0, 0x4a,
            0x28, 0x7c
        ]
    );
    let keys = derive_keys(&SESSION_KEY, &KeyContexts { enc: vec![], mac: vec![] });
    assert_eq!(keys.enc_key, cmac_tag(&SESSION_KEY, 1, &[]));
    assert_eq!(&keys.mac_key_server[..16], &keys.enc_key);
}

#[test]
fn authenticated_licence_yields_its_keys() {
    let derived = derive_keys(&SESSION_KEY, &contexts());
    let content = [0xC0u8; 16];
    let signing = [0x51u8; 32];
    let license = signed(
        b"licence payload",
        vec![
            container(&derived.enc_key, &WIRE_ID, [7; 16], &content, 2),
            container(&derived.enc_key, &[9; 16], [8; 16], &signing, 1),
        ],
    );
    let outcomes = derive_and_unwrap(&SESSION_KEY, &contexts(), &license).unwrap();
    assert_eq!(
        outcomes,
        vec![
            KeyOutcome::Unwrapped(UnwrappedKey {
                kid: CANONICAL_ID,
                key: content.to_vec(),
                class: KeyClass::Typed(KeyType::Content),
            }),
            KeyOutcome::Unwrapped(UnwrappedKey {
                kid: [9; 16],
                key: signing.to_vec(),
                class: KeyClass::Typed(KeyType::Signing),
            }),
        ]
    );
    let surfaced = content_keys(&outcomes);
    assert_eq!(surfaced.len(), 1);
    assert_eq!(surfaced[0].kid, CANONICAL_ID);
    assert_eq!(surfaced[0].key, content.to_vec());
    assert_eq!(surfaced[0].key_type, KeyType::Content);
}

#[test]
fn unauthenticated_licence_is_refused_whole() {
    let derived = derive_keys(&SESSION_KEY, &contexts());
    let mut license = signed(
        b"licence payload",
        vec![container(&derived.enc_key, &WIRE_ID, [7; 16], &[1; 16], 2)],
    );
    license.message[0] ^= 1;
    assert_eq!(
        derive_and_unwrap(&SESSION_KEY, &contexts(), &license).unwrap_err(),
        CdmError::ResponseAuthenticationFailed
    );
    let mut short = signed(b"m", vec![]);
    short.signature.pop();
    assert_eq!(
        derive_and_unwrap(&SESSION_KEY, &contexts(), &short).unwrap_err(),
        CdmError::ResponseAuthenticationFailed
    );
    let mut other_session = SESSION_KEY;
    other_session[0] ^= 1;
    assert_eq!(
        derive_and_unwrap(&other_session, &contexts(), &signed(b"m", vec![])).unwrap_err(),
        CdmError::ResponseAuthenticationFailed
    );
    // signed with the session key itself instead of the derived server key
    let raw = LicenseBody {
        message: b"m".to_vec(),
        signature: hmac_tag(&SESSION_KEY, b"m"),
        keys: vec![],
    };
    assert_eq!(
        derive_and_unwrap(&SESSION_KEY, &contexts(), &raw).unwrap_err(),
        CdmError::ResponseAuthenticationFailed
    );
}

#[test]
fn untyped_keys_are_unwrapped_and_kept_but_not_surfaced() {
    let derived = derive_keys(&SESSION_KEY, &contexts());
    let license = signed(
        b"p",
        vec![
            container(&derived.enc_key, &WIRE_ID, [1; 16], &[0xAA; 16], 0),
            container(&derived.enc_key, &WIRE_ID, [2; 16], &[0xBB; 16], 77),
            container(&derived.enc_key, &WIRE_ID, [3; 16], &[0xCC; 16], 3),
        ],
    );
    let outcomes = derive_and_unwrap(&SESSION_KEY, &contexts(), &license).unwrap();
    assert_eq!(outcomes.len(), 3);
    assert_eq!(
        outcomes[0],
        KeyOutcome::Unwrapped(UnwrappedKey {
            kid: CANONICAL_ID,
            key: vec![0xAA; 16],
            class: KeyClass::Untyped,
        })
    );
    assert!(matches!(
        &outcomes[1],
        KeyOutcome::Unwrapped(k) if k.class == KeyClass::Untyped && k.key == vec![0xBB; 16]
    ));
    assert!(matches!(
        &outcomes[2],
        KeyOutcome::Unwrapped(k) if k.class == KeyClass::Typed(KeyType::KeyControl)
    ));
    assert!(content_keys(&outcomes).is_empty());
}

#[test]
fn one_failed_key_does_not_stop_the_others() {
    let derived = derive_keys(&SESSION_KEY, &contexts());
    let good = container(&derived.enc_key, &WIRE_ID, [1; 16], &[0xAA; 16], 2);
    let mut bad_padding = container(&derived.enc_key, &[5; 16], [2; 16], &[0xBB; 16], 2);
    bad_padding.key = encrypt(&derived.enc_key, &[2; 16], &[0u8; 16]);
    let short_id = container(&derived.enc_key, &[5; 15], [3; 16], &[0xCC; 16], 2);
    let mut short_iv = container(&derived.enc_key, &[6; 16], [4; 16], &[0xDD; 16], 2);
    short_iv.iv.pop();
    let mut ragged = container(&derived.enc_key, &[7; 16], [5; 16], &[0xEE; 16], 2);
    ragged.key.pop();
    let mut empty = container(&derived.enc_key, &[8; 16], [6; 16], &[0xEE; 16], 2);
    empty.key.clear();
    let last = container(&derived.enc_key, &[0xF0; 16], [7; 16], &[0x11; 5], 2);
    let license =
        signed(b"p", vec![good, bad_padding, short_id, short_iv, ragged, empty, last]);
    let outcomes = derive_and_unwrap(&SESSION_KEY, &contexts(), &license).unwrap();
    assert_eq!(outcomes.len(), 7);
    assert!(matches!(&outcomes[0], KeyOutcome::Unwrapped(k) if k.key == vec![0xAA; 16]));
    assert_eq!(
        outcomes[1],
        KeyOutcome::Failed { id: vec![5; 16], fault: UnwrapFault::Padding }
    );
    assert_eq!(
        outcomes[2],
        KeyOutcome::Failed { id: vec![5; 15], fault: UnwrapFault::KeyIdLength }
    );
    assert_eq!(
        outcomes[3],
        KeyOutcome::Failed { id: vec![6; 16], fault: UnwrapFault::IvLength }
    );
    assert_eq!(
        outcomes[4],
        KeyOutcome::Failed { id: vec![7; 16], fault: UnwrapFault::CiphertextLength }
    );
    assert_eq!(
        outcomes[5],
        KeyOutcome::Failed { id: vec![8; 16], fault: UnwrapFault::CiphertextLength }
    );
    assert!(matches!(&outcomes[6], KeyOutcome::Unwrapped(k) if k.key == vec![0x11; 5]));
    assert_eq!(content_keys(&outcomes).len(), 2);
}

#[test]
fn key_is_decrypted_with_its_own_vector() {
    let derived = derive_keys(&SESSION_KEY, &contexts());
    let c = container(&derived.enc_key, &WIRE_ID, [0x24; 16], &[0x42; 16], 2);
    assert_ne!(&c.key[..16], &[0x42; 16][..]);
    match unwrap_key(&derived.enc_key, &c) {
        KeyOutcome::Unwrapped(k) => assert_eq!(k.key, vec![0x42; 16]),
        other => panic!("unexpected outcome {:?}", other),
    }
    let mut wrong_iv = c.clone();
    wrong_iv.iv[15] ^= 1;
    match unwrap_key(&derived.enc_key, &wrong_iv) {
        KeyOutcome::Unwrapped(k) => assert_ne!(k.key, vec![0x42; 16]),
        KeyOutcome::Failed { .. } => panic!("only the first block depends on the vector"),
    }
}

#[test]
fn padding_is_removed_only_where_it_is_well_formed() {
    assert_eq!(remove_padding(&[1, 2, 3, 1]), Some(&[1u8, 2, 3][..]));
    assert_eq!(remove_padding(&[9, 2, 2]), Some(&[9u8][..]));
    assert_eq!(remove_padding(&[16; 16]), Some(&[][..]));
    assert_eq!(remove_padding(&[3, 3, 3]), Some(&[][..]));
    assert_eq!(remove_padding(&[]), None);
    assert_eq!(remove_padding(&[1, 2, 3, 0]), None);
    assert_eq!(remove_padding(&[17; 32]), None);
    assert_eq!(remove_padding(&[1, 3, 3]), None);
    assert_eq!(remove_padding(&[4, 4, 4]), None);
    assert_eq!(remove_padding(&[5, 9, 2]), None);
}

#[test]
fn wire_values_name_the_kinds_of_key() {
    assert_eq!(KeyClass::from_wire(0), KeyClass::Untyped);
    assert_eq!(KeyClass::from_wire(1), KeyClass::Typed(KeyType::Signing));
    assert_eq!(KeyClass::from_wire(2), KeyClass::Typed(KeyType::Content));
    assert_eq!(KeyClass::from_wire(4), KeyClass::Typed(KeyType::OperatorSession));
    assert_eq!(KeyClass::from_wire(5), KeyClass::Typed(KeyType::Entitlement));
    assert_eq!(KeyClass::from_wire(6), KeyClass::Typed(KeyType::OemContent));
    assert_eq!(KeyClass::from_wire(7), KeyClass::Untyped);
    assert_eq!(KeyClass::from_wire(258), KeyClass::Untyped);
}

#[test]
fn failed_key_is_an_error_of_its_own_kind() {
    let failed = KeyOutcome::Failed { id: vec![1, 2], fault: UnwrapFault::Padding };
    assert_eq!(failed.key().unwrap_err(), CdmError::KeyUnwrapFailed(UnwrapFault::Padding));
    let key = UnwrappedKey { kid: [1; 16], key: vec![2; 16], class: KeyClass::Untyped };
    assert_eq!(KeyOutcome::Unwrapped(key.clone()).key().unwrap(), &key);
}
