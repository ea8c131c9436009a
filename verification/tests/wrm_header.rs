use drm_trust::error::FormatError;
use drm_trust::wrm_header::{
    kid_to_uuid, uuid_to_kid, AlgId, PlayReadyHeader, PlayReadyObject, SignedKeyId, WrmHeader,
    WrmHeaderVersion, RECORD_TYPE_WRM_HEADER,
};

#[test]
fn kid_to_uuid_swap() {
    let kid: [u8; 16] = [
        0x00, 0x01, 0x02, 0x03, 0x04, 0x05, 0x06, 0x07, 0x08, 0x09, 0x0A, 0x0B, 0x0C, 0x0D,
        0x0E, 0x0F,
    ];
    let uuid = kid_to_uuid(&kid);
    assert_eq!(
        uuid,
        [
            0x03, 0x02, 0x01, 0x00, 0x05, 0x04, 0x07, 0x06, 0x08, 0x09, 0x0A, 0x0B, 0x0C, 0x0D,
            0x0E, 0x0F
        ]
    );
}

#[test]
fn kid_uuid_round_trip() {
    let original: [u8; 16] = [
        0xAA, 0xBB, 0xCC, 0xDD, 0xEE, 0xFF, 0x11, 0x22, 0x33, 0x44, 0x55, 0x66, 0x77, 0x88,
        0x99, 0x00,
    ];
    assert_eq!(uuid_to_kid(&kid_to_uuid(&original)), original);
}

#[test]
fn parse_prh_binary() {
    let xml_str = "<WRMHEADER version=\"4.3.0.0\"><DATA></DATA></WRMHEADER>";
    let xml_utf16: Vec<u8> = xml_str
        .encode_utf16()
        .flat_map(|c| c.to_le_bytes())
        .collect();

    let mut prh = Vec::new();
    let record_len = xml_utf16.len() as u16;
    let total_len = (6 + 4 + xml_utf16.len()) as u32;
    prh.extend_from_slice(&total_len.to_le_bytes());
    prh.extend_from_slice(&1u16.to_le_bytes());
    prh.extend_from_slice(&1u16.to_le_bytes());
    prh.extend_from_slice(&record_len.to_le_bytes());
    prh.extend_from_slice(&xml_utf16);

    let header = PlayReadyHeader::from_bytes(&prh).unwrap();
    assert_eq!(header.records.len(), 1);
    assert_eq!(header.records[0].record_type, RECORD_TYPE_WRM_HEADER);

    let xml = header.wrm_header_xml().unwrap().unwrap();
    assert!(xml.contains("WRMHEADER"));
}

#[test]
fn wrm_header_version_display() {
    assert_eq!(WrmHeaderVersion::V4_0_0_0.to_string(), "4.0.0.0");
    assert_eq!(WrmHeaderVersion::V4_3_0_0.to_string(), "4.3.0.0");
}

#[test]
fn wrm_header_version_from_str() {
    assert_eq!(
        "4.0.0.0".parse::<WrmHeaderVersion>().unwrap(),
        WrmHeaderVersion::V4_0_0_0
    );
    assert!("5.0.0.0".parse::<WrmHeaderVersion>().is_err());
}

#[test]
fn alg_id_round_trip() {
    for alg in [AlgId::AesCtr, AlgId::AesCbc, AlgId::Cocktail] {
        let name = alg.to_name();
        let parsed: AlgId = name.parse().unwrap();
        assert_eq!(parsed, alg);
    }
    assert!("UNKNOWN".parse::<AlgId>().is_err());
}

#[test]
fn swap_is_its_own_inverse() {
    let mut kid = [0u8; 16];
    for (i, b) in kid.iter_mut().enumerate() {
        *b = (i as u8) * 17 + 3;
    }
    assert_eq!(kid_to_uuid(&kid_to_uuid(&kid)), kid);
    assert_eq!(uuid_to_kid(&kid), kid_to_uuid(&kid));
    assert_eq!(&kid_to_uuid(&kid)[8..], &kid[8..]);
}

#[test]
fn record_text_drops_one_final_nul() {
    let object = PlayReadyObject { record_type: 1, data: vec![b'h', 0, b'i', 0, 0, 0] };
    assert_eq!(object.as_utf16le_string().unwrap(), "hi");
    let two = PlayReadyObject { record_type: 1, data: vec![b'h', 0, 0, 0, 0, 0] };
    assert_eq!(two.as_utf16le_string().unwrap(), "h\0");
    let empty = PlayReadyObject { record_type: 1, data: vec![] };
    assert_eq!(empty.as_utf16le_string().unwrap(), "");
}

#[test]
fn record_text_refuses_bad_utf16() {
    let odd = PlayReadyObject { record_type: 1, data: vec![b'h', 0, b'i'] };
    assert_eq!(
        odd.as_utf16le_string().unwrap_err(),
        FormatError::InvalidUtf16("odd byte count".to_string())
    );
    let lone = PlayReadyObject { record_type: 1, data: vec![0x00, 0xD8] };
    assert!(matches!(lone.as_utf16le_string().unwrap_err(), FormatError::InvalidUtf16(_)));
}

#[test]
fn header_without_text_record_has_no_text() {
    let mut prh = Vec::new();
    prh.extend_from_slice(&14u32.to_le_bytes());
    prh.extend_from_slice(&2u16.to_le_bytes());
    prh.extend_from_slice(&2u16.to_le_bytes());
    prh.extend_from_slice(&1u16.to_le_bytes());
    prh.push(0x7F);
    prh.extend_from_slice(&3u16.to_le_bytes());
    prh.extend_from_slice(&0u16.to_le_bytes());
    let header = PlayReadyHeader::from_bytes(&prh).unwrap();
    assert_eq!(header.records.len(), 2);
    assert_eq!(header.records[0].data, vec![0x7F]);
    assert_eq!(header.records[1].record_type, 3);
    assert!(header.wrm_header_xml().is_none());
}

#[test]
fn truncated_header_is_refused() {
    assert_eq!(
        PlayReadyHeader::from_bytes(&[1, 0, 0]).unwrap_err(),
        FormatError::UnexpectedEof { needed: 4, have: 3 }
    );
    let mut prh = Vec::new();
    prh.extend_from_slice(&0u32.to_le_bytes());
    prh.extend_from_slice(&1u16.to_le_bytes());
    prh.extend_from_slice(&1u16.to_le_bytes());
    prh.extend_from_slice(&9u16.to_le_bytes());
    prh.extend_from_slice(&[0u8; 4]);
    assert_eq!(
        PlayReadyHeader::from_bytes(&prh).unwrap_err(),
        FormatError::UnexpectedEof { needed: 19, have: 14 }
    );
}

#[test]
fn header_types_hold_what_they_are_given() {
    let kid = SignedKeyId { key_id: [7; 16], alg_id: Some(AlgId::AesCbc), checksum: None };
    let header = WrmHeader {
        version: WrmHeaderVersion::V4_2_0_0,
        kids: vec![kid.clone()],
        la_url: Some("https://example.com".to_string()),
        lui_url: None,
        ds_id: None,
    };
    assert_eq!(header.kids[0], kid);
    assert_eq!(header.version.to_name(), "4.2.0.0");
    assert_eq!(WrmHeaderVersion::from_name(b" 4.1.0.0 "), Some(WrmHeaderVersion::V4_1_0_0));
    assert_eq!(AlgId::from_name(b"aesctr"), Some(AlgId::AesCtr));
    assert_eq!(AlgId::Cocktail.to_string(), "COCKTAIL");
}
