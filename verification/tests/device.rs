use drm_trust::device::Device;
use drm_trust::error::{CdmError, FormatError};

fn chain_with_level(level: u32) -> Vec<u8> {
    let mut basic = Vec::new();
    basic.extend_from_slice(&[0x01; 16]);
    basic.extend_from_slice(&level.to_be_bytes());
    basic.extend_from_slice(&0u32.to_be_bytes());
    basic.extend_from_slice(&2u32.to_be_bytes());
    basic.extend_from_slice(&[0x02; 32]);
    basic.extend_from_slice(&0xFFFFFFFFu32.to_be_bytes());
    basic.extend_from_slice(&[0x03; 16]);
    let mut cert = Vec::new();
    cert.extend_from_slice(b"CERT");
    cert.extend_from_slice(&1u32.to_be_bytes());
    cert.extend_from_slice(&((16 + 8 + basic.len()) as u32).to_be_bytes());
    cert.extend_from_slice(&((8 + basic.len()) as u32).to_be_bytes());
    cert.extend_from_slice(&1u16.to_be_bytes());
    cert.extend_from_slice(&1u16.to_be_bytes());
    cert.extend_from_slice(&((8 + basic.len()) as u32).to_be_bytes());
    cert.extend_from_slice(&basic);
    let mut chain = Vec::new();
    chain.extend_from_slice(b"CHAI");
    chain.extend_from_slice(&1u32.to_be_bytes());
    chain.extend_from_slice(&((20 + cert.len()) as u32).to_be_bytes());
    chain.extend_from_slice(&0u32.to_be_bytes());
    chain.extend_from_slice(&1u32.to_be_bytes());
    chain.extend_from_slice(&cert);
    chain
}

fn v3_file(group: u8, cert: &[u8]) -> Vec<u8> {
    let mut data = b"PRD\x03".to_vec();
    data.extend_from_slice(&[group; 96]);
    data.extend_from_slice(&[0xBB; 96]);
    data.extend_from_slice(&[0xCC; 96]);
    data.extend_from_slice(&(cert.len() as u32).to_be_bytes());
    data.extend_from_slice(cert);
    data
}

fn v2_file(cert: &[u8]) -> Vec<u8> {
    let mut data = b"PRD\x02".to_vec();
    data.extend_from_slice(&(cert.len() as u32).to_be_bytes());
    data.extend_from_slice(cert);
    data.extend_from_slice(&[0xBB; 96]);
    data.extend_from_slice(&[0xCC; 96]);
    data
}

#[test]
fn device_bad_magic() {
    let err = Device::from_bytes(b"XYZ\x03").unwrap_err();
    assert!(matches!(err, CdmError::PrdBadMagic));
}

#[test]
fn unsupported_version() {
    let err = Device::from_bytes(b"PRD\x01").unwrap_err();
    assert!(matches!(err, CdmError::PrdUnsupportedVersion(1)));
}

#[test]
fn truncated_input() {
    let err = Device::from_bytes(b"PR").unwrap_err();
    assert!(matches!(err, CdmError::PrdTruncated));
}

#[test]
fn empty_input() {
    let err = Device::from_bytes(b"").unwrap_err();
    assert!(matches!(err, CdmError::PrdTruncated));
}

#[test]
fn v2_truncated_cert_len() {
    // Magic + version 2 + only 2 bytes of cert_len
    let err = Device::from_bytes(b"PRD\x02\x00\x00").unwrap_err();
    assert!(matches!(err, CdmError::PrdTruncated));
}

#[test]
fn v3_truncated_keys() {
    // Magic + version 3 + only a few bytes (not enough for 3 keypairs)
    let mut data = b"PRD\x03".to_vec();
    data.extend(&[0u8; 50]); // not enough for 288 bytes of keys
    let err = Device::from_bytes(&data).unwrap_err();
    assert!(matches!(err, CdmError::PrdTruncated));
}

#[test]
fn version_three_device_is_loaded_and_written_back() {
    let chain = chain_with_level(3000);
    let data = v3_file(0xAA, &chain);
    let device = Device::from_bytes(&data).unwrap();
    assert_eq!(device.security_level, 3000);
    assert_eq!(device.encryption_public_key(), &[0xBB; 64]);
    assert_eq!(device.signing_public_key(), &[0xCC; 64]);
    assert_eq!(device.encryption_private_key(), &[0xBB; 32]);
    assert_eq!(device.signing_private_key(), &[0xCC; 32]);
    assert_eq!(device.to_bytes(), data);
    let parsed = device.group_certificate_chain().unwrap();
    assert_eq!(parsed.certificates.len(), 1);
    assert_eq!(Device::from_bytes(&device.to_bytes()).unwrap(), device);
}

#[test]
fn zero_group_key_counts_as_absent() {
    let chain = chain_with_level(150);
    let with_zero = Device::from_bytes(&v3_file(0, &chain)).unwrap();
    let from_v2 = Device::from_bytes(&v2_file(&chain)).unwrap();
    assert_eq!(with_zero, from_v2);
    assert_eq!(from_v2.security_level, 150);
    assert_eq!(from_v2.to_bytes(), v3_file(0, &chain));
}

#[test]
fn base64_round_trip() {
    let device = Device::from_bytes(&v2_file(&chain_with_level(2000))).unwrap();
    let text = device.to_base64();
    assert!(text.starts_with("UFJEAw"));
    assert_eq!(Device::from_base64(text.as_bytes()).unwrap(), device);
    assert_eq!(Device::from_base64(b"not base64!").unwrap_err(), CdmError::InvalidBase64);
    assert_eq!(Device::from_base64(b"UFI=").unwrap_err(), CdmError::PrdTruncated);
}

#[test]
fn certificate_faults_are_told_apart() {
    assert_eq!(
        Device::from_bytes(&v2_file(b"")).unwrap_err(),
        CdmError::Format(FormatError::UnexpectedEof { needed: 4, have: 0 })
    );
    let mut empty_chain = Vec::new();
    empty_chain.extend_from_slice(b"CHAI");
    empty_chain.extend_from_slice(&[0u8; 16]);
    assert_eq!(Device::from_bytes(&v2_file(&empty_chain)).unwrap_err(), CdmError::NoCertificates);
    let mut no_basic = Vec::new();
    no_basic.extend_from_slice(b"CHAI");
    no_basic.extend_from_slice(&1u32.to_be_bytes());
    no_basic.extend_from_slice(&36u32.to_be_bytes());
    no_basic.extend_from_slice(&0u32.to_be_bytes());
    no_basic.extend_from_slice(&1u32.to_be_bytes());
    no_basic.extend_from_slice(b"CERT");
    no_basic.extend_from_slice(&1u32.to_be_bytes());
    no_basic.extend_from_slice(&16u32.to_be_bytes());
    no_basic.extend_from_slice(&0u32.to_be_bytes());
    assert_eq!(Device::from_bytes(&v3_file(1, &no_basic)).unwrap_err(), CdmError::NoBasicInfo);
    let mut short = v3_file(1, &chain_with_level(1));
    short.pop();
    assert_eq!(Device::from_bytes(&short).unwrap_err(), CdmError::PrdTruncated);
}
