//! The typed form of a certificate chain, and the mathematical value that
//! each type stands for.

use vstd::prelude::*;

use crate::error::{FormatError, FormatErrorView};

verus! {

/// Tag of a certificate attribute.
#[derive(Debug, Clone, Copy, PartialEq, Eq, Hash, Structural)]
pub enum AttributeTag {
    Basic,
    Domain,
    Pc,
    Device,
    Feature,
    Key,
    Manufacturer,
    Signature,
    Silverlight,
    Metering,
    ExtDataSignKey,
    ExtDataContainer,
    ExtDataSignature,
    ExtDataHwid,
    Server,
    SecurityVersion,
    SecurityVersion2,
}

/// Kind of certificate, as the basic-identity attribute names it.
#[derive(Debug, Clone, Copy, PartialEq, Eq, Hash, Structural)]
pub enum CertType {
    Unknown,
    Pc,
    Device,
    Domain,
    Issuer,
    CrlSigner,
    Service,
    Silverlight,
    Application,
    Metering,
    KeyFileSigner,
    Server,
    LicenseSigner,
    SecureTimeServer,
    RprovModelAuth,
}

/// What an embedded key may be used for.
#[derive(Debug, Clone, Copy, PartialEq, Eq, Hash, Structural)]
pub enum KeyUsage {
    Unknown,
    Sign,
    EncryptKey,
    SignCrl,
    IssuerAll,
    IssuerIndiv,
    IssuerDevice,
    IssuerLink,
    IssuerDomain,
    IssuerSilverlight,
    IssuerApplication,
    IssuerCrl,
    IssuerMetering,
    IssuerSignKeyfile,
    SignKeyfile,
    IssuerServer,
    EncryptKeySampleProtectionRc4,
    Reserved2,
    IssuerSignLicense,
    SignLicense,
    SignResponse,
    PrndEncryptKeyDeprecated,
    EncryptKeySampleProtectionAes128Ctr,
    IssuerSecureTimeServer,
    IssuerRprovModelAuth,
}

/// Usage code of a key that signs.
pub const USAGE_SIGN: u32 = 1;

/// Usage code of a key that encrypts keys.
pub const USAGE_ENCRYPT_KEY: u32 = 2;

/// Basic identity of a certificate: who it is for, at which security level,
/// of which type, and until when.
#[derive(Debug, Clone, PartialEq, Eq)]
pub struct BasicInfo {
    pub cert_id: [u8; 16],
    pub security_level: u32,
    pub flags: u32,
    pub cert_type: u32,
    pub public_key_digest: [u8; 32],
    pub expiration_date: u32,
    pub client_id: [u8; 16],
}

/// [`BasicInfo`] as a mathematical value.
pub struct BasicInfoView {
    pub cert_id: Seq<u8>,
    pub security_level: u32,
    pub flags: u32,
    pub cert_type: u32,
    pub public_key_digest: Seq<u8>,
    pub expiration_date: u32,
    pub client_id: Seq<u8>,
}

impl View for BasicInfo {
    type V = BasicInfoView;

    open spec fn view(&self) -> BasicInfoView {
        BasicInfoView {
            cert_id: self.cert_id@,
            security_level: self.security_level,
            flags: self.flags,
            cert_type: self.cert_type,
            public_key_digest: self.public_key_digest@,
            expiration_date: self.expiration_date,
            client_id: self.client_id@,
        }
    }
}

/// Domain that a certificate belongs to.
#[derive(Debug, Clone, PartialEq, Eq)]
pub struct DomainInfo {
    pub service_id: [u8; 16],
    pub account_id: [u8; 16],
    pub revision_timestamp: u32,
    pub domain_url: String,
}

/// [`DomainInfo`] as a mathematical value.
pub struct DomainInfoView {
    pub service_id: Seq<u8>,
    pub account_id: Seq<u8>,
    pub revision_timestamp: u32,
    pub domain_url: Seq<char>,
}

impl View for DomainInfo {
    type V = DomainInfoView;

    open spec fn view(&self) -> DomainInfoView {
        DomainInfoView {
            service_id: self.service_id@,
            account_id: self.account_id@,
            revision_timestamp: self.revision_timestamp,
            domain_url: self.domain_url@,
        }
    }
}

/// Security version of a PC client.
#[derive(Debug, Clone, PartialEq, Eq)]
pub struct PcInfo {
    pub security_version: u32,
}

/// Limits of a device.
#[derive(Debug, Clone, PartialEq, Eq)]
pub struct DeviceInfo {
    pub max_license: u32,
    pub max_header: u32,
    pub max_chain_depth: u32,
}

/// The features that a certificate grants, as codes.
#[derive(Debug, Clone, PartialEq, Eq)]
pub struct FeatureInfo {
    pub features: Vec<u32>,
}

/// One embedded key: its type, its raw bytes, and what it may be used for.
#[derive(Debug, Clone, PartialEq, Eq)]
pub struct CertKey {
    pub key_type: u16,
    /// Raw public key: X followed by Y.
    pub key: Vec<u8>,
    pub flags: u32,
    pub usages: Vec<u32>,
}

/// [`CertKey`] as a mathematical value.
pub struct CertKeyView {
    pub key_type: u16,
    pub key: Seq<u8>,
    pub flags: u32,
    pub usages: Seq<u32>,
}

impl View for CertKey {
    type V = CertKeyView;

    open spec fn view(&self) -> CertKeyView {
        CertKeyView {
            key_type: self.key_type,
            key: self.key@,
            flags: self.flags,
            usages: self.usages@,
        }
    }
}

/// The keys of a list as mathematical values, in order.
pub open spec fn keys_view(keys: Seq<CertKey>) -> Seq<CertKeyView> {
    keys.map_values(|k: CertKey| k@)
}

/// The embedded keys of a certificate, in order.
#[derive(Debug, Clone, PartialEq, Eq)]
pub struct KeyInfo {
    pub keys: Vec<CertKey>,
}

impl View for KeyInfo {
    type V = Seq<CertKeyView>;

    open spec fn view(&self) -> Seq<CertKeyView> {
        keys_view(self.keys@)
    }
}

/// Who made the device, and which model it is.
#[derive(Debug, Clone, PartialEq, Eq)]
pub struct ManufacturerInfo {
    pub flags: u32,
    pub name: String,
    pub model_name: String,
    pub model_number: String,
}

/// [`ManufacturerInfo`] as a mathematical value.
pub struct ManufacturerInfoView {
    pub flags: u32,
    pub name: Seq<char>,
    pub model_name: Seq<char>,
    pub model_number: Seq<char>,
}

impl View for ManufacturerInfo {
    type V = ManufacturerInfoView;

    open spec fn view(&self) -> ManufacturerInfoView {
        ManufacturerInfoView {
            flags: self.flags,
            name: self.name@,
            model_name: self.model_name@,
            model_number: self.model_number@,
        }
    }
}

/// The signature block of a certificate: the signature over the signed
/// prefix of the certificate, and the issuer's key that made it.
#[derive(Debug, Clone, PartialEq, Eq)]
pub struct SignatureInfo {
    pub signature_type: u16,
    pub signature: Vec<u8>,
    pub signing_key: Vec<u8>,
}

/// [`SignatureInfo`] as a mathematical value.
pub struct SignatureInfoView {
    pub signature_type: u16,
    pub signature: Seq<u8>,
    pub signing_key: Seq<u8>,
}

impl View for SignatureInfo {
    type V = SignatureInfoView;

    open spec fn view(&self) -> SignatureInfoView {
        SignatureInfoView {
            signature_type: self.signature_type,
            signature: self.signature@,
            signing_key: self.signing_key@,
        }
    }
}

/// Security version and platform of a Silverlight client.
#[derive(Debug, Clone, PartialEq, Eq)]
pub struct SilverlightInfo {
    pub security_version: u32,
    pub platform_identifier: u32,
}

/// Where metering data is sent.
#[derive(Debug, Clone, PartialEq, Eq)]
pub struct MeteringInfo {
    pub metering_id: [u8; 16],
    pub metering_url: String,
}

/// [`MeteringInfo`] as a mathematical value.
pub struct MeteringInfoView {
    pub metering_id: Seq<u8>,
    pub metering_url: Seq<char>,
}

impl View for MeteringInfo {
    type V = MeteringInfoView;

    open spec fn view(&self) -> MeteringInfoView {
        MeteringInfoView { metering_id: self.metering_id@, metering_url: self.metering_url@ }
    }
}

/// The key that signs extended data.
#[derive(Debug, Clone, PartialEq, Eq)]
pub struct ExtDataSignKeyInfo {
    pub key_type: u16,
    pub flags: u32,
    pub key: Vec<u8>,
}

/// [`ExtDataSignKeyInfo`] as a mathematical value.
pub struct ExtDataSignKeyInfoView {
    pub key_type: u16,
    pub flags: u32,
    pub key: Seq<u8>,
}

impl View for ExtDataSignKeyInfo {
    type V = ExtDataSignKeyInfoView;

    open spec fn view(&self) -> ExtDataSignKeyInfoView {
        ExtDataSignKeyInfoView { key_type: self.key_type, flags: self.flags, key: self.key@ }
    }
}

/// Days of warning before a server certificate expires.
#[derive(Debug, Clone, PartialEq, Eq)]
pub struct ServerInfo {
    pub warning_days: u32,
}

/// Security version and platform of the client.
#[derive(Debug, Clone, PartialEq, Eq)]
pub struct SecurityVersionInfo {
    pub security_version: u32,
    pub platform_identifier: u32,
}

/// The payload of an attribute, decoded by its tag. A tag without a decoder
/// keeps its payload as bytes.
#[derive(Debug, Clone, PartialEq, Eq)]
pub enum AttributeData {
    Basic(BasicInfo),
    Domain(DomainInfo),
    Pc(PcInfo),
    Device(DeviceInfo),
    Feature(FeatureInfo),
    Key(KeyInfo),
    Manufacturer(ManufacturerInfo),
    Signature(SignatureInfo),
    Silverlight(SilverlightInfo),
    Metering(MeteringInfo),
    ExtDataSignKey(ExtDataSignKeyInfo),
    Server(ServerInfo),
    SecurityVersion(SecurityVersionInfo),
    Unknown(Vec<u8>),
}

/// [`AttributeData`] as a mathematical value.
pub enum AttributeDataView {
    Basic(BasicInfoView),
    Domain(DomainInfoView),
    Pc { security_version: u32 },
    Device { max_license: u32, max_header: u32, max_chain_depth: u32 },
    Feature(Seq<u32>),
    Key(Seq<CertKeyView>),
    Manufacturer(ManufacturerInfoView),
    Signature(SignatureInfoView),
    Silverlight { security_version: u32, platform_identifier: u32 },
    Metering(MeteringInfoView),
    ExtDataSignKey(ExtDataSignKeyInfoView),
    Server { warning_days: u32 },
    SecurityVersion { security_version: u32, platform_identifier: u32 },
    Unknown(Seq<u8>),
}

impl View for AttributeData {
    type V = AttributeDataView;

    open spec fn view(&self) -> AttributeDataView {
        match *self {
            AttributeData::Basic(i) => AttributeDataView::Basic(i@),
            AttributeData::Domain(i) => AttributeDataView::Domain(i@),
            AttributeData::Pc(i) => AttributeDataView::Pc { security_version: i.security_version },
            AttributeData::Device(i) => AttributeDataView::Device {
                max_license: i.max_license,
                max_header: i.max_header,
                max_chain_depth: i.max_chain_depth,
            },
            AttributeData::Feature(i) => AttributeDataView::Feature(i.features@),
            AttributeData::Key(i) => AttributeDataView::Key(i@),
            AttributeData::Manufacturer(i) => AttributeDataView::Manufacturer(i@),
            AttributeData::Signature(i) => AttributeDataView::Signature(i@),
            AttributeData::Silverlight(i) => AttributeDataView::Silverlight {
                security_version: i.security_version,
                platform_identifier: i.platform_identifier,
            },
            AttributeData::Metering(i) => AttributeDataView::Metering(i@),
            AttributeData::ExtDataSignKey(i) => AttributeDataView::ExtDataSignKey(i@),
            AttributeData::Server(i) => AttributeDataView::Server { warning_days: i.warning_days },
            AttributeData::SecurityVersion(i) => AttributeDataView::SecurityVersion {
                security_version: i.security_version,
                platform_identifier: i.platform_identifier,
            },
            AttributeData::Unknown(b) => AttributeDataView::Unknown(b@),
        }
    }
}

/// One attribute of a certificate: flags, tag and decoded payload.
#[derive(Debug, Clone, PartialEq, Eq)]
pub struct BCertAttribute {
    pub flags: u16,
    pub tag: u16,
    pub data: AttributeData,
}

/// [`BCertAttribute`] as a mathematical value.
pub struct BCertAttributeView {
    pub flags: u16,
    pub tag: u16,
    pub data: AttributeDataView,
}

impl View for BCertAttribute {
    type V = BCertAttributeView;

    open spec fn view(&self) -> BCertAttributeView {
        BCertAttributeView { flags: self.flags, tag: self.tag, data: self.data@ }
    }
}

/// The attributes of a certificate as mathematical values, in order.
pub open spec fn attributes_view(attrs: Seq<BCertAttribute>) -> Seq<BCertAttributeView> {
    attrs.map_values(|a: BCertAttribute| a@)
}

/// One certificate. Besides its decoded fields it keeps the bytes it was
/// read from, so that the signed prefix is the very bytes that were signed.
#[derive(Debug, Clone, PartialEq, Eq)]
pub struct BCert {
    pub version: u32,
    pub total_length: u32,
    pub certificate_length: u32,
    pub attributes: Vec<BCertAttribute>,
    pub(crate) raw: Vec<u8>,
}

/// [`BCert`] as a mathematical value.
pub struct BCertView {
    pub version: u32,
    pub total_length: u32,
    pub certificate_length: u32,
    pub attributes: Seq<BCertAttributeView>,
    pub raw: Seq<u8>,
}

impl View for BCert {
    type V = BCertView;

    open(crate) spec fn view(&self) -> BCertView {
        BCertView {
            version: self.version,
            total_length: self.total_length,
            certificate_length: self.certificate_length,
            attributes: attributes_view(self.attributes@),
            raw: self.raw@,
        }
    }
}

/// A chain of certificates: the leaf first, the root last.
#[derive(Debug, Clone, PartialEq, Eq)]
pub struct BCertChain {
    pub version: u32,
    pub flags: u32,
    pub certificates: Vec<BCert>,
}

/// [`BCertChain`] as a mathematical value.
pub struct BCertChainView {
    pub version: u32,
    pub flags: u32,
    pub certificates: Seq<BCertView>,
}

/// The certificates of a chain as mathematical values, in order.
pub open spec fn certificates_view(certs: Seq<BCert>) -> Seq<BCertView> {
    certs.map_values(|c: BCert| c@)
}

impl View for BCertChain {
    type V = BCertChainView;

    open spec fn view(&self) -> BCertChainView {
        BCertChainView {
            version: self.version,
            flags: self.flags,
            certificates: certificates_view(self.certificates@),
        }
    }
}

/// A parse result with both sides as mathematical values.
pub open spec fn attribute_result(r: Result<AttributeData, FormatError>) -> Result<
    AttributeDataView,
    FormatErrorView,
> {
    match r {
        Ok(a) => Ok(a@),
        Err(e) => Err(e@),
    }
}

} // verus!
