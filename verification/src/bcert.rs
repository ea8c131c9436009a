//! Certificate chains in their binary form: the typed model, the parser and
//! the accessors that chain verification rests on.

pub mod access;
pub mod model;
pub mod parse;
pub mod payload;

pub use self::model::{
    AttributeData, AttributeDataView, AttributeTag, BCert, BCertAttribute, BCertAttributeView,
    BCertChain, BCertChainView, BCertView, BasicInfo, BasicInfoView, CertKey, CertKeyView,
    CertType, DeviceInfo, DomainInfo, DomainInfoView, ExtDataSignKeyInfo, ExtDataSignKeyInfoView,
    FeatureInfo, KeyInfo, KeyUsage, ManufacturerInfo, ManufacturerInfoView, MeteringInfo,
    MeteringInfoView, PcInfo, SecurityVersionInfo, ServerInfo, SignatureInfo, SignatureInfoView,
    SilverlightInfo, USAGE_ENCRYPT_KEY, USAGE_SIGN,
};
pub use self::parse::{
    attribute_at, attributes_from, cert_at, certs_from, chain_of, parse_chain, payload_of,
    CERT_MAGIC, CHAIN_MAGIC,
};
pub use self::access::{
    all_signed_from, first_basic, first_key_info, first_signature, has_usage, key_in_list,
    key_with_usage, signed_in, stands_at,
};
