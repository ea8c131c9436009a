use drm_trust::bcert::{
    AttributeData, AttributeTag, BCert, BCertChain, CertType, KeyUsage, CERT_MAGIC, CHAIN_MAGIC,
    USAGE_ENCRYPT_KEY, USAGE_SIGN,
};
use drm_trust::error::FormatError;
use drm_trust::reader::Reader;

fn attribute(flags: u16, tag: u16, payload: &[u8]) -> Vec<u8> {
    let mut out = Vec::new();
    out.extend_from_slice(&flags.to_be_bytes());
    out.extend_from_slice(&tag.to_be_bytes());
    out.extend_from_slice(&((payload.len() + 8) as u32).to_be_bytes());
    out.extend_from_slice(payload);
    out
}

fn basic_payload(security_level: u32) -> Vec<u8> {
    let mut p = Vec::new();
    p.extend_from_slice(&[0x01; 16]);
    p.extend_from_slice(&security_level.to_be_bytes());
    p.extend_from_slice(&0u32.to_be_bytes());
    p.extend_from_slice(&2u32.to_be_bytes());
    p.extend_from_slice(&[0x02; 32]);
    p.extend_from_slice(&0xFFFFFFFFu32.to_be_bytes());
    p.extend_from_slice(&[0x03; 16]);
    p
}

fn certificate(body: &[u8], signed: u32) -> Vec<u8> {
    let mut cert = Vec::new();
    cert.extend_from_slice(&CERT_MAGIC);
    cert.extend_from_slice(&1u32.to_be_bytes());
    cert.extend_from_slice(&((16 + body.len()) as u32).to_be_bytes());
    cert.extend_from_slice(&signed.to_be_bytes());
    cert.extend_from_slice(body);
    cert
}

fn chain(certs: &[Vec<u8>]) -> Vec<u8> {
    let total: usize = 20 + certs.iter().map(|c| c.len()).sum::<usize>();
    let mut out = Vec::new();
    out.extend_from_slice(&CHAIN_MAGIC);
    out.extend_from_slice(&1u32.to_be_bytes());
    out.extend_from_slice(&(total as u32).to_be_bytes());
    out.extend_from_slice(&0u32.to_be_bytes());
    out.extend_from_slice(&(certs.len() as u32).to_be_bytes());
    for c in certs {
        out.extend_from_slice(c);
    }
    out
}

/// Build a minimal BCert chain for testing.
fn build_test_chain() -> Vec<u8> {
    // Build a minimal cert with just a BasicInfo attribute
    let mut cert_body = Vec::new();

    // BasicInfo attribute: flags(2) + tag(2) + length(4) + data(84)
    let basic_data_len = 16 + 4 + 4 + 4 + 32 + 4 + 16; // = 80
    let attr_total_len = 8 + basic_data_len;
    cert_body.extend_from_slice(&0x0001u16.to_be_bytes()); // flags: MUST_UNDERSTAND
    cert_body.extend_from_slice(&0x0001u16.to_be_bytes()); // tag: Basic
    cert_body.extend_from_slice(&(attr_total_len as u32).to_be_bytes());
    cert_body.extend_from_slice(&[0x01; 16]); // cert_id
    cert_body.extend_from_slice(&3000u32.to_be_bytes()); // security_level
    cert_body.extend_from_slice(&0u32.to_be_bytes()); // flags
    cert_body.extend_from_slice(&2u32.to_be_bytes()); // cert_type = Device
    cert_body.extend_from_slice(&[0x02; 32]); // public_key_digest
    cert_body.extend_from_slice(&0xFFFFFFFFu32.to_be_bytes()); // expiration (never)
    cert_body.extend_from_slice(&[0x03; 16]); // client_id

    // Build CERT wrapper
    let cert_length = cert_body.len() as u32;
    let total_length = 16 + cert_length; // CERT(4) + version(4) + total_length(4) + cert_length(4) + body
    let mut cert = Vec::new();
    cert.extend_from_slice(&CERT_MAGIC);
    cert.extend_from_slice(&1u32.to_be_bytes()); // version
    cert.extend_from_slice(&total_length.to_be_bytes());
    cert.extend_from_slice(&(cert_body.len() as u32).to_be_bytes()); // certificate_length
    cert.extend_from_slice(&cert_body);

    // Build CHAI wrapper
    let chain_total = 20 + cert.len(); // CHAI(4) + version(4) + total(4) + flags(4) + count(4) + certs
    let mut chain = Vec::new();
    chain.extend_from_slice(&CHAIN_MAGIC);
    chain.extend_from_slice(&1u32.to_be_bytes()); // version
    chain.extend_from_slice(&(chain_total as u32).to_be_bytes());
    chain.extend_from_slice(&0u32.to_be_bytes()); // flags
    chain.extend_from_slice(&1u32.to_be_bytes()); // cert_count
    chain.extend_from_slice(&cert);

    chain
}

#[test]
fn parse_basic_chain() {
    let data = build_test_chain();
    let chain = BCertChain::from_bytes(&data).unwrap();

    assert_eq!(chain.version, 1);
    assert_eq!(chain.certificates.len(), 1);

    let cert = &chain.certificates[0];
    let basic = cert.basic_info().unwrap();
    assert_eq!(basic.cert_id, [0x01; 16]);
    assert_eq!(basic.security_level, 3000);
    assert_eq!(basic.cert_type, CertType::Device.code());
    assert_eq!(basic.public_key_digest, [0x02; 32]);
    assert_eq!(basic.expiration_date, 0xFFFFFFFF);
    assert_eq!(basic.client_id, [0x03; 16]);
}

#[test]
fn leaf_and_root() {
    let data = build_test_chain();
    let chain = BCertChain::from_bytes(&data).unwrap();

    // With one cert, leaf and root are the same
    assert!(chain.leaf().is_some());
    assert!(chain.root().is_some());
    assert_eq!(
        chain.leaf().unwrap().basic_info().unwrap().cert_id,
        chain.root().unwrap().basic_info().unwrap().cert_id,
    );
}

#[test]
fn bad_chain_magic() {
    let data = b"XXXX\x00\x00\x00\x01";
    let err = BCertChain::from_bytes(data).unwrap_err();
    assert!(matches!(err, FormatError::InvalidMagic { .. }));
}

#[test]
fn unknown_attribute_tag() {
    // Build a cert with an unknown tag
    let mut cert_body = Vec::new();
    cert_body.extend_from_slice(&0x0000u16.to_be_bytes()); // flags
    cert_body.extend_from_slice(&0xFFFDu16.to_be_bytes()); // tag: unknown
    cert_body.extend_from_slice(&12u32.to_be_bytes()); // length (8 header + 4 data)
    cert_body.extend_from_slice(&[0xAA; 4]); // data

    let total_length = 16 + cert_body.len() as u32;
    let mut cert = Vec::new();
    cert.extend_from_slice(&CERT_MAGIC);
    cert.extend_from_slice(&1u32.to_be_bytes());
    cert.extend_from_slice(&total_length.to_be_bytes());
    cert.extend_from_slice(&(cert_body.len() as u32).to_be_bytes());
    cert.extend_from_slice(&cert_body);

    let chain_total = 20 + cert.len();
    let mut chain = Vec::new();
    chain.extend_from_slice(&CHAIN_MAGIC);
    chain.extend_from_slice(&1u32.to_be_bytes());
    chain.extend_from_slice(&(chain_total as u32).to_be_bytes());
    chain.extend_from_slice(&0u32.to_be_bytes());
    chain.extend_from_slice(&1u32.to_be_bytes());
    chain.extend_from_slice(&cert);

    let parsed = BCertChain::from_bytes(&chain).unwrap();
    assert_eq!(parsed.certificates[0].attributes.len(), 1);
    assert!(matches!(
        parsed.certificates[0].attributes[0].data,
        AttributeData::Unknown(_)
    ));
}

#[test]
fn unknown_attribute_keeps_its_payload() {
    let body = attribute(0, 0xFFFD, &[0xAA; 4]);
    let parsed = BCertChain::from_bytes(&chain(&[certificate(&body, 0)])).unwrap();
    let attr = &parsed.certificates[0].attributes[0];
    assert_eq!(attr.tag, 0xFFFD);
    assert_eq!(attr.flags, 0);
    assert_eq!(attr.data, AttributeData::Unknown(vec![0xAA; 4]));
}

#[test]
fn two_certificate_chain_exposes_leaf_security_level() {
    let leaf = certificate(&attribute(1, 1, &basic_payload(3000)), 88);
    let root = certificate(&attribute(1, 1, &basic_payload(150)), 88);
    let parsed = BCertChain::from_bytes(&chain(&[leaf, root])).unwrap();
    assert_eq!(parsed.certificates.len(), 2);
    let basic = parsed.leaf().unwrap().basic_info().unwrap();
    assert_eq!(basic.security_level, 3000);
    assert_eq!(basic.cert_type, 2);
    assert_eq!(basic.expiration_date, 0xFFFFFFFF);
    assert_eq!(parsed.root().unwrap().basic_info().unwrap().security_level, 150);
}

#[test]
fn empty_chain_has_neither_leaf_nor_root() {
    let parsed = BCertChain::from_bytes(&chain(&[])).unwrap();
    assert!(parsed.leaf().is_none());
    assert!(parsed.root().is_none());
}

#[test]
fn truncated_chain_header_names_the_missing_offset() {
    assert_eq!(
        BCertChain::from_bytes(b"CH").unwrap_err(),
        FormatError::UnexpectedEof { needed: 4, have: 2 }
    );
    assert_eq!(
        BCertChain::from_bytes(b"CHAI\x00\x00\x00\x01\x00\x00").unwrap_err(),
        FormatError::UnexpectedEof { needed: 12, have: 10 }
    );
}

#[test]
fn bad_magic_reports_what_was_found() {
    assert_eq!(
        BCertChain::from_bytes(b"XXXX\x00\x00\x00\x01").unwrap_err(),
        FormatError::InvalidMagic { expected: "CHAI", got: "XXXX".to_string() }
    );
    let mut bad = certificate(&[], 0);
    bad[0] = b'Z';
    assert_eq!(
        BCertChain::from_bytes(&chain(&[bad])).unwrap_err(),
        FormatError::InvalidMagic { expected: "CERT", got: "ZERT".to_string() }
    );
}

#[test]
fn missing_certificate_is_truncation() {
    let mut data = chain(&[]);
    data[19] = 1;
    assert_eq!(
        BCertChain::from_bytes(&data).unwrap_err(),
        FormatError::UnexpectedEof { needed: 24, have: 20 }
    );
}

#[test]
fn short_basic_payload_is_refused() {
    let body = attribute(0, 1, &[0u8; 18]);
    assert_eq!(
        BCertChain::from_bytes(&chain(&[certificate(&body, 0)])).unwrap_err(),
        FormatError::UnexpectedEof { needed: 20, have: 18 }
    );
}

#[test]
fn attribute_longer_than_input_is_refused() {
    let mut body = Vec::new();
    body.extend_from_slice(&0u16.to_be_bytes());
    body.extend_from_slice(&0xFFFDu16.to_be_bytes());
    body.extend_from_slice(&100u32.to_be_bytes());
    body.extend_from_slice(&[0u8; 4]);
    let data = chain(&[certificate(&body, 0)]);
    assert_eq!(
        BCertChain::from_bytes(&data).unwrap_err(),
        FormatError::UnexpectedEof { needed: 20 + 16 + 8 + 92, have: data.len() }
    );
}

#[test]
fn attribute_length_below_header_has_empty_payload() {
    let mut body = Vec::new();
    body.extend_from_slice(&0u16.to_be_bytes());
    body.extend_from_slice(&0xFFFDu16.to_be_bytes());
    body.extend_from_slice(&3u32.to_be_bytes());
    let parsed = BCertChain::from_bytes(&chain(&[certificate(&body, 0)])).unwrap();
    assert_eq!(parsed.certificates[0].attributes.len(), 1);
    assert_eq!(parsed.certificates[0].attributes[0].data, AttributeData::Unknown(vec![]));
}

#[test]
fn trailing_bytes_inside_certificate_are_skipped() {
    let first = certificate(&attribute(1, 1, &basic_payload(7)), 0);
    let mut body = attribute(0, 0xFFFD, &[1, 2, 3, 4]);
    body.extend_from_slice(&[9, 9, 9]);
    let last = certificate(&body, 0);
    let parsed = BCertChain::from_bytes(&chain(&[first, last])).unwrap();
    assert_eq!(parsed.certificates.len(), 2);
    assert_eq!(parsed.certificates[0].basic_info().unwrap().security_level, 7);
    assert_eq!(parsed.certificates[1].attributes.len(), 1);
}

#[test]
fn attribute_may_overrun_its_certificate() {
    // The first certificate declares 24 bytes but its attribute takes 12 more:
    // the attribute is read whole, and the next certificate starts at the
    // declared end of the first.
    let mut first = certificate(&attribute(0, 0xFFFD, &[1, 2, 3, 4]), 0);
    first[8..12].copy_from_slice(&24u32.to_be_bytes());
    let parsed = BCertChain::from_bytes(&chain(&[first])).unwrap();
    assert_eq!(parsed.certificates[0].attributes.len(), 1);
    assert_eq!(parsed.certificates[0].total_length, 24);
    assert_eq!(parsed.certificates[0].signed_bytes().len(), 0);
}

fn key_entry(key: &[u8], usages: &[u32]) -> Vec<u8> {
    let mut p = Vec::new();
    p.extend_from_slice(&1u16.to_be_bytes());
    p.extend_from_slice(&((key.len() * 8) as u16).to_be_bytes());
    p.extend_from_slice(&0x55u32.to_be_bytes());
    p.extend_from_slice(key);
    p.extend_from_slice(&(usages.len() as u32).to_be_bytes());
    for u in usages {
        p.extend_from_slice(&u.to_be_bytes());
    }
    p
}

fn key_list(entries: &[Vec<u8>]) -> Vec<u8> {
    let mut p = Vec::new();
    p.extend_from_slice(&(entries.len() as u32).to_be_bytes());
    for e in entries {
        p.extend_from_slice(e);
    }
    p
}

fn parse_single(body: &[u8], signed: u32) -> BCert {
    let parsed = BCertChain::from_bytes(&chain(&[certificate(body, signed)])).unwrap();
    parsed.certificates[0].clone()
}

#[test]
fn keys_are_chosen_by_usage_not_position() {
    let keys = key_list(&[
        key_entry(&[0xE1; 64], &[USAGE_ENCRYPT_KEY]),
        key_entry(&[0x51; 64], &[7, USAGE_SIGN]),
        key_entry(&[0x52; 64], &[USAGE_SIGN]),
    ]);
    let cert = parse_single(&attribute(1, 6, &keys), 0);
    let info = cert.key_info().unwrap();
    assert_eq!(info.keys.len(), 3);
    assert_eq!(info.keys[1].usages, vec![7, 1]);
    assert_eq!(info.keys[0].flags, 0x55);
    assert_eq!(cert.signing_key().unwrap(), &[0x51; 64][..]);
    assert_eq!(cert.encryption_key().unwrap(), &[0xE1; 64][..]);
    assert_eq!(cert.key_for_usage(7).unwrap(), &[0x51; 64][..]);
    assert!(cert.key_for_usage(9).is_none());
}

#[test]
fn keys_are_searched_across_key_attributes_in_order() {
    let mut body = attribute(1, 6, &key_list(&[key_entry(&[0xE1; 64], &[USAGE_ENCRYPT_KEY])]));
    body.extend_from_slice(&attribute(1, 6, &key_list(&[key_entry(&[0x51; 64], &[USAGE_SIGN])])));
    let cert = parse_single(&body, 0);
    assert_eq!(cert.signing_key().unwrap(), &[0x51; 64][..]);
    assert_eq!(cert.encryption_key().unwrap(), &[0xE1; 64][..]);
}

#[test]
fn certificate_without_keys_has_no_signing_key() {
    let cert = parse_single(&attribute(1, 1, &basic_payload(1)), 0);
    assert!(cert.signing_key().is_none());
    assert!(cert.encryption_key().is_none());
    assert!(cert.key_info().is_none());
    assert!(cert.signature_info().is_none());
}

#[test]
fn signature_block_is_decoded() {
    let mut p = Vec::new();
    p.extend_from_slice(&1u16.to_be_bytes());
    p.extend_from_slice(&64u16.to_be_bytes());
    p.extend_from_slice(&[0x77; 64]);
    p.extend_from_slice(&512u32.to_be_bytes());
    p.extend_from_slice(&[0x88; 64]);
    let cert = parse_single(&attribute(1, 8, &p), 0);
    let sig = cert.signature_info().unwrap();
    assert_eq!(sig.signature_type, 1);
    assert_eq!(sig.signature, vec![0x77; 64]);
    assert_eq!(sig.signing_key, vec![0x88; 64]);
}

#[test]
fn signed_bytes_are_the_prefix_of_the_received_bytes() {
    let body = attribute(1, 1, &basic_payload(3000));
    let raw = certificate(&body, 20);
    let cert = parse_single(&body, 20);
    assert_eq!(cert.signed_bytes(), &raw[..20]);
    let whole = parse_single(&body, 5000);
    assert_eq!(whole.signed_bytes(), &certificate(&body, 5000)[..]);
}

#[test]
fn manufacturer_strings_are_padded_to_four_bytes() {
    let mut p = Vec::new();
    p.extend_from_slice(&9u32.to_be_bytes());
    p.extend_from_slice(&4u32.to_be_bytes());
    p.extend_from_slice(b"Acme");
    p.extend_from_slice(&3u32.to_be_bytes());
    p.extend_from_slice(b"tv\0\0");
    p.extend_from_slice(&5u32.to_be_bytes());
    p.extend_from_slice(b"X-100\0\0\0");
    let cert = parse_single(&attribute(0, 7, &p), 0);
    match &cert.attributes[0].data {
        AttributeData::Manufacturer(m) => {
            assert_eq!(m.flags, 9);
            assert_eq!(m.name, "Acme");
            assert_eq!(m.model_name, "tv");
            assert_eq!(m.model_number, "X-100");
        }
        other => panic!("unexpected attribute {:?}", other),
    }
}

#[test]
fn small_attributes_are_decoded() {
    let mut body = attribute(0, 3, &7u32.to_be_bytes());
    let mut device = Vec::new();
    device.extend_from_slice(&1u32.to_be_bytes());
    device.extend_from_slice(&2u32.to_be_bytes());
    device.extend_from_slice(&3u32.to_be_bytes());
    body.extend_from_slice(&attribute(0, 4, &device));
    let mut feature = Vec::new();
    feature.extend_from_slice(&2u32.to_be_bytes());
    feature.extend_from_slice(&13u32.to_be_bytes());
    feature.extend_from_slice(&9u32.to_be_bytes());
    body.extend_from_slice(&attribute(0, 5, &feature));
    body.extend_from_slice(&attribute(0, 0x0F, &30u32.to_be_bytes()));
    let mut version = Vec::new();
    version.extend_from_slice(&5u32.to_be_bytes());
    version.extend_from_slice(&6u32.to_be_bytes());
    body.extend_from_slice(&attribute(0, 0x11, &version));
    let cert = parse_single(&body, 0);
    assert_eq!(cert.attributes.len(), 5);
    match &cert.attributes[0].data {
        AttributeData::Pc(p) => assert_eq!(p.security_version, 7),
        other => panic!("unexpected attribute {:?}", other),
    }
    match &cert.attributes[1].data {
        AttributeData::Device(d) => {
            assert_eq!((d.max_license, d.max_header, d.max_chain_depth), (1, 2, 3))
        }
        other => panic!("unexpected attribute {:?}", other),
    }
    match &cert.attributes[2].data {
        AttributeData::Feature(f) => assert_eq!(f.features, vec![13, 9]),
        other => panic!("unexpected attribute {:?}", other),
    }
    match &cert.attributes[3].data {
        AttributeData::Server(s) => assert_eq!(s.warning_days, 30),
        other => panic!("unexpected attribute {:?}", other),
    }
    match &cert.attributes[4].data {
        AttributeData::SecurityVersion(v) => {
            assert_eq!((v.security_version, v.platform_identifier), (5, 6))
        }
        other => panic!("unexpected attribute {:?}", other),
    }
}

#[test]
fn feature_list_is_capped() {
    let mut feature = Vec::new();
    feature.extend_from_slice(&40u32.to_be_bytes());
    for i in 0..40u32 {
        feature.extend_from_slice(&i.to_be_bytes());
    }
    let cert = parse_single(&attribute(0, 5, &feature), 0);
    match &cert.attributes[0].data {
        AttributeData::Feature(f) => {
            assert_eq!(f.features.len(), 32);
            assert_eq!(f.features[31], 31);
        }
        other => panic!("unexpected attribute {:?}", other),
    }
}

#[test]
fn attribute_tags_and_certificate_types_have_codes() {
    assert_eq!(AttributeTag::try_from(0x0008).unwrap(), AttributeTag::Signature);
    assert_eq!(AttributeTag::Signature.code(), 8);
    assert_eq!(
        AttributeTag::try_from(0xFFFD).unwrap_err(),
        FormatError::InvalidEnumValue { kind: "AttributeTag", value: 0xFFFD }
    );
    assert_eq!(CertType::try_from(14).unwrap(), CertType::RprovModelAuth);
    assert_eq!(
        CertType::try_from(0x1_0005).unwrap_err(),
        FormatError::InvalidEnumValue { kind: "CertType", value: 5 }
    );
    assert_ne!(KeyUsage::Sign, KeyUsage::EncryptKey);
}

#[test]
fn single_certificate_is_parsed_from_a_reader() {
    let raw = certificate(&attribute(1, 1, &basic_payload(42)), 0);
    let mut padded = vec![0xEE; 3];
    padded.extend_from_slice(&raw);
    padded.extend_from_slice(&[0xEE; 5]);
    let mut r = Reader::new(&padded);
    r.seek(3);
    let cert = BCert::parse(&mut r).unwrap();
    assert_eq!(cert.basic_info().unwrap().security_level, 42);
    assert_eq!(r.position(), 3 + raw.len());
}

#[test]
fn parse_chain_is_the_entry_point_by_name() {
    let data = build_test_chain();
    assert_eq!(
        drm_trust::bcert::parse_chain(&data).unwrap(),
        BCertChain::from_bytes(&data).unwrap()
    );
    assert_eq!(KeyUsage::Sign.code(), USAGE_SIGN);
    assert_eq!(KeyUsage::EncryptKey.code(), USAGE_ENCRYPT_KEY);
    assert_eq!(KeyUsage::IssuerRprovModelAuth.code(), 24);
}
