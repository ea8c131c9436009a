//! The parser of certificates and chains.
//!
//! The format is stated as functions on byte sequences: [`attribute_at`],
//! [`cert_at`] and [`chain_of`] say what each structure at a given offset is,
//! or with which error it is refused. The executable parser is proved to
//! compute exactly these.

use vstd::prelude::*;

use crate::bcert::model::{
    attributes_view, certificates_view, AttributeData, AttributeDataView, AttributeTag, BCert,
    BCertAttribute, BCertAttributeView, BCertChain, BCertChainView, BCertView, CertType, KeyUsage,
    USAGE_ENCRYPT_KEY, USAGE_SIGN,
};
use crate::bcert::payload::{
    basic_payload, device_payload, domain_payload, ext_data_sign_key_payload, feature_payload,
    key_payload, manufacturer_payload, metering_payload, parse_basic, parse_device, parse_domain,
    parse_ext_data_sign_key, parse_feature, parse_key, parse_manufacturer, parse_metering,
    parse_pc, parse_security_version, parse_server, parse_signature, parse_silverlight,
    pc_payload, security_version_payload, server_payload, signature_payload,
    silverlight_payload, take_bytes, take_u16, take_u32,
};
use crate::bytes::slice_to_vec;
use crate::error::{eof, FormatError, FormatErrorView};
use crate::reader::{be16_at, be32_at, utf8_lossy, utf8_lossy_text, Reader};

verus! {

/// The four bytes that open a chain: `CHAI`.
pub const CHAIN_MAGIC: [u8; 4] = [0x43, 0x48, 0x41, 0x49];

/// The four bytes that open a certificate: `CERT`.
pub const CERT_MAGIC: [u8; 4] = [0x43, 0x45, 0x52, 0x54];

/// The bytes `CHAI` as a sequence.
pub open spec fn chain_magic() -> Seq<u8> {
    seq![0x43u8, 0x48u8, 0x41u8, 0x49u8]
}

/// The bytes `CERT` as a sequence.
pub open spec fn cert_magic() -> Seq<u8> {
    seq![0x43u8, 0x45u8, 0x52u8, 0x54u8]
}

impl AttributeTag {
    /// The tag that a code stands for, if it is a known one.
    pub open spec fn of(value: u16) -> Option<AttributeTag> {
        if value == 0x0001 {
            Some(AttributeTag::Basic)
        } else if value == 0x0002 {
            Some(AttributeTag::Domain)
        } else if value == 0x0003 {
            Some(AttributeTag::Pc)
        } else if value == 0x0004 {
            Some(AttributeTag::Device)
        } else if value == 0x0005 {
            Some(AttributeTag::Feature)
        } else if value == 0x0006 {
            Some(AttributeTag::Key)
        } else if value == 0x0007 {
            Some(AttributeTag::Manufacturer)
        } else if value == 0x0008 {
            Some(AttributeTag::Signature)
        } else if value == 0x0009 {
            Some(AttributeTag::Silverlight)
        } else if value == 0x000A {
            Some(AttributeTag::Metering)
        } else if value == 0x000B {
            Some(AttributeTag::ExtDataSignKey)
        } else if value == 0x000C {
            Some(AttributeTag::ExtDataContainer)
        } else if value == 0x000D {
            Some(AttributeTag::ExtDataSignature)
        } else if value == 0x000E {
            Some(AttributeTag::ExtDataHwid)
        } else if value == 0x000F {
            Some(AttributeTag::Server)
        } else if value == 0x0010 {
            Some(AttributeTag::SecurityVersion)
        } else if value == 0x0011 {
            Some(AttributeTag::SecurityVersion2)
        } else {
            None
        }
    }

    /// The code of a tag.
    pub open spec fn spec_code(self) -> u16 {
        match self {
            AttributeTag::Basic => 0x0001,
            AttributeTag::Domain => 0x0002,
            AttributeTag::Pc => 0x0003,
            AttributeTag::Device => 0x0004,
            AttributeTag::Feature => 0x0005,
            AttributeTag::Key => 0x0006,
            AttributeTag::Manufacturer => 0x0007,
            AttributeTag::Signature => 0x0008,
            AttributeTag::Silverlight => 0x0009,
            AttributeTag::Metering => 0x000A,
            AttributeTag::ExtDataSignKey => 0x000B,
            AttributeTag::ExtDataContainer => 0x000C,
            AttributeTag::ExtDataSignature => 0x000D,
            AttributeTag::ExtDataHwid => 0x000E,
            AttributeTag::Server => 0x000F,
            AttributeTag::SecurityVersion => 0x0010,
            AttributeTag::SecurityVersion2 => 0x0011,
        }
    }

    /// The code of a tag.
    pub fn code(self) -> (c: u16)
        ensures
            c == self.spec_code(),
            AttributeTag::of(c) == Some(self),
    {
        match self {
            AttributeTag::Basic => 0x0001,
            AttributeTag::Domain => 0x0002,
            AttributeTag::Pc => 0x0003,
            AttributeTag::Device => 0x0004,
            AttributeTag::Feature => 0x0005,
            AttributeTag::Key => 0x0006,
            AttributeTag::Manufacturer => 0x0007,
            AttributeTag::Signature => 0x0008,
            AttributeTag::Silverlight => 0x0009,
            AttributeTag::Metering => 0x000A,
            AttributeTag::ExtDataSignKey => 0x000B,
            AttributeTag::ExtDataContainer => 0x000C,
            AttributeTag::ExtDataSignature => 0x000D,
            AttributeTag::ExtDataHwid => 0x000E,
            AttributeTag::Server => 0x000F,
            AttributeTag::SecurityVersion => 0x0010,
            AttributeTag::SecurityVersion2 => 0x0011,
        }
    }

    /// The tag of a code; a code that names no tag is an invalid enum value
    /// of kind `AttributeTag`.
    pub fn try_from(value: u16) -> (r: Result<AttributeTag, FormatError>)
        ensures
            match AttributeTag::of(value) {
                Some(t) => r == Ok::<AttributeTag, FormatError>(t),
                None => r is Err && r->Err_0@ == (FormatErrorView::InvalidEnumValue {
                    kind: "AttributeTag"@,
                    value,
                }),
            },
    {
        match value {
            0x0001 => Ok(AttributeTag::Basic),
            0x0002 => Ok(AttributeTag::Domain),
            0x0003 => Ok(AttributeTag::Pc),
            0x0004 => Ok(AttributeTag::Device),
            0x0005 => Ok(AttributeTag::Feature),
            0x0006 => Ok(AttributeTag::Key),
            0x0007 => Ok(AttributeTag::Manufacturer),
            0x0008 => Ok(AttributeTag::Signature),
            0x0009 => Ok(AttributeTag::Silverlight),
            0x000A => Ok(AttributeTag::Metering),
            0x000B => Ok(AttributeTag::ExtDataSignKey),
            0x000C => Ok(AttributeTag::ExtDataContainer),
            0x000D => Ok(AttributeTag::ExtDataSignature),
            0x000E => Ok(AttributeTag::ExtDataHwid),
            0x000F => Ok(AttributeTag::Server),
            0x0010 => Ok(AttributeTag::SecurityVersion),
            0x0011 => Ok(AttributeTag::SecurityVersion2),
            _ => Err(FormatError::InvalidEnumValue { kind: "AttributeTag", value }),
        }
    }
}

impl CertType {
    /// The certificate type that a code stands for, if it is a known one.
    pub open spec fn of(value: u32) -> Option<CertType> {
        if value == 0 {
            Some(CertType::Unknown)
        } else if value == 1 {
            Some(CertType::Pc)
        } else if value == 2 {
            Some(CertType::Device)
        } else if value == 3 {
            Some(CertType::Domain)
        } else if value == 4 {
            Some(CertType::Issuer)
        } else if value == 5 {
            Some(CertType::CrlSigner)
        } else if value == 6 {
            Some(CertType::Service)
        } else if value == 7 {
            Some(CertType::Silverlight)
        } else if value == 8 {
            Some(CertType::Application)
        } else if value == 9 {
            Some(CertType::Metering)
        } else if value == 10 {
            Some(CertType::KeyFileSigner)
        } else if value == 11 {
            Some(CertType::Server)
        } else if value == 12 {
            Some(CertType::LicenseSigner)
        } else if value == 13 {
            Some(CertType::SecureTimeServer)
        } else if value == 14 {
            Some(CertType::RprovModelAuth)
        } else {
            None
        }
    }

    /// The code of the certificate type; the code names the type again.
    pub fn code(self) -> (c: u32)
        ensures
            CertType::of(c) == Some(self),
            c <= 14,
    {
        match self {
            CertType::Unknown => 0,
            CertType::Pc => 1,
            CertType::Device => 2,
            CertType::Domain => 3,
            CertType::Issuer => 4,
            CertType::CrlSigner => 5,
            CertType::Service => 6,
            CertType::Silverlight => 7,
            CertType::Application => 8,
            CertType::Metering => 9,
            CertType::KeyFileSigner => 10,
            CertType::Server => 11,
            CertType::LicenseSigner => 12,
            CertType::SecureTimeServer => 13,
            CertType::RprovModelAuth => 14,
        }
    }

    /// The certificate type of a code; a code that names none is an invalid
    /// enum value of kind `CertType`, reported with its low 16 bits.
    pub fn try_from(value: u32) -> (r: Result<CertType, FormatError>)
        ensures
            match CertType::of(value) {
                Some(t) => r == Ok::<CertType, FormatError>(t),
                None => r is Err && r->Err_0@ == (FormatErrorView::InvalidEnumValue {
                    kind: "CertType"@,
                    value: (value % 0x10000) as u16,
                }),
            },
    {
        match value {
            0 => Ok(CertType::Unknown),
            1 => Ok(CertType::Pc),
            2 => Ok(CertType::Device),
            3 => Ok(CertType::Domain),
            4 => Ok(CertType::Issuer),
            5 => Ok(CertType::CrlSigner),
            6 => Ok(CertType::Service),
            7 => Ok(CertType::Silverlight),
            8 => Ok(CertType::Application),
            9 => Ok(CertType::Metering),
            10 => Ok(CertType::KeyFileSigner),
            11 => Ok(CertType::Server),
            12 => Ok(CertType::LicenseSigner),
            13 => Ok(CertType::SecureTimeServer),
            14 => Ok(CertType::RprovModelAuth),
            _ => Err(
                FormatError::InvalidEnumValue { kind: "CertType", value: (value % 0x10000) as u16 },
            ),
        }
    }
}

impl KeyUsage {
    /// The code of a usage: usages are numbered from zero in the order in
    /// which they are declared.
    pub open spec fn spec_code(self) -> u32 {
        match self {
            KeyUsage::Unknown => 0,
            KeyUsage::Sign => 1,
            KeyUsage::EncryptKey => 2,
            KeyUsage::SignCrl => 3,
            KeyUsage::IssuerAll => 4,
            KeyUsage::IssuerIndiv => 5,
            KeyUsage::IssuerDevice => 6,
            KeyUsage::IssuerLink => 7,
            KeyUsage::IssuerDomain => 8,
            KeyUsage::IssuerSilverlight => 9,
            KeyUsage::IssuerApplication => 10,
            KeyUsage::IssuerCrl => 11,
            KeyUsage::IssuerMetering => 12,
            KeyUsage::IssuerSignKeyfile => 13,
            KeyUsage::SignKeyfile => 14,
            KeyUsage::IssuerServer => 15,
            KeyUsage::EncryptKeySampleProtectionRc4 => 16,
            KeyUsage::Reserved2 => 17,
            KeyUsage::IssuerSignLicense => 18,
            KeyUsage::SignLicense => 19,
            KeyUsage::SignResponse => 20,
            KeyUsage::PrndEncryptKeyDeprecated => 21,
            KeyUsage::EncryptKeySampleProtectionAes128Ctr => 22,
            KeyUsage::IssuerSecureTimeServer => 23,
            KeyUsage::IssuerRprovModelAuth => 24,
        }
    }

    /// The code of the usage, as it stands in the usage list of a key.
    pub fn code(self) -> (c: u32)
        ensures
            c == self.spec_code(),
            self == KeyUsage::Sign ==> c == USAGE_SIGN,
            self == KeyUsage::EncryptKey ==> c == USAGE_ENCRYPT_KEY,
    {
        match self {
            KeyUsage::Unknown => 0,
            KeyUsage::Sign => 1,
            KeyUsage::EncryptKey => 2,
            KeyUsage::SignCrl => 3,
            KeyUsage::IssuerAll => 4,
            KeyUsage::IssuerIndiv => 5,
            KeyUsage::IssuerDevice => 6,
            KeyUsage::IssuerLink => 7,
            KeyUsage::IssuerDomain => 8,
            KeyUsage::IssuerSilverlight => 9,
            KeyUsage::IssuerApplication => 10,
            KeyUsage::IssuerCrl => 11,
            KeyUsage::IssuerMetering => 12,
            KeyUsage::IssuerSignKeyfile => 13,
            KeyUsage::SignKeyfile => 14,
            KeyUsage::IssuerServer => 15,
            KeyUsage::EncryptKeySampleProtectionRc4 => 16,
            KeyUsage::Reserved2 => 17,
            KeyUsage::IssuerSignLicense => 18,
            KeyUsage::SignLicense => 19,
            KeyUsage::SignResponse => 20,
            KeyUsage::PrndEncryptKeyDeprecated => 21,
            KeyUsage::EncryptKeySampleProtectionAes128Ctr => 22,
            KeyUsage::IssuerSecureTimeServer => 23,
            KeyUsage::IssuerRprovModelAuth => 24,
        }
    }
}

/// The payload `d` of an attribute, decoded as its tag asks. A tag without a
/// decoder keeps the payload as it is and is never an error.
pub open spec fn payload_of(tag: u16, d: Seq<u8>) -> Result<AttributeDataView, FormatErrorView> {
    match AttributeTag::of(tag) {
        Some(AttributeTag::Basic) => basic_payload(d),
        Some(AttributeTag::Domain) => domain_payload(d),
        Some(AttributeTag::Pc) => pc_payload(d),
        Some(AttributeTag::Device) => device_payload(d),
        Some(AttributeTag::Feature) => feature_payload(d),
        Some(AttributeTag::Key) => key_payload(d),
        Some(AttributeTag::Manufacturer) => manufacturer_payload(d),
        Some(AttributeTag::Signature) => signature_payload(d),
        Some(AttributeTag::Silverlight) => silverlight_payload(d),
        Some(AttributeTag::Metering) => metering_payload(d),
        Some(AttributeTag::ExtDataSignKey) => ext_data_sign_key_payload(d),
        Some(AttributeTag::Server) => server_payload(d),
        Some(AttributeTag::SecurityVersion) => security_version_payload(d),
        Some(AttributeTag::SecurityVersion2) => security_version_payload(d),
        _ => Ok(AttributeDataView::Unknown(d)),
    }
}

/// Length of the payload of an attribute of declared length `length`: what
/// is left of it after the header, and nothing where it is shorter than one.
pub open spec fn payload_len(length: u32) -> int {
    if length >= 8 {
        length - 8
    } else {
        0
    }
}

/// The attribute that starts at offset `pos`, and the offset after it.
#[verifier::opaque]
pub open spec fn attribute_at(d: Seq<u8>, pos: int) -> Result<
    (BCertAttributeView, int),
    FormatErrorView,
> {
    let len = d.len() as int;
    if len < pos + 2 {
        Err(eof(pos + 2, len))
    } else if len < pos + 4 {
        Err(eof(pos + 4, len))
    } else if len < pos + 8 {
        Err(eof(pos + 8, len))
    } else {
        let next = pos + 8 + payload_len(be32_at(d, pos + 4));
        if len < next {
            Err(eof(next, len))
        } else {
            match payload_of(be16_at(d, pos + 2), d.subrange(pos + 8, next)) {
                Err(e) => Err(e),
                Ok(data) => Ok(
                    (
                        BCertAttributeView {
                            flags: be16_at(d, pos),
                            tag: be16_at(d, pos + 2),
                            data,
                        },
                        next,
                    ),
                ),
            }
        }
    }
}

/// An attribute takes at least its header and ends inside the input.
pub proof fn lemma_attribute_advances(d: Seq<u8>, pos: int)
    requires
        attribute_at(d, pos) is Ok,
    ensures
        pos + 8 <= attribute_at(d, pos)->Ok_0.1 <= d.len(),
{
    reveal(attribute_at);
}

/// An attribute with a tag that is not known never fails to parse where its
/// declared length fits the input: it is kept, with its payload as it stands.
pub proof fn lemma_unknown_attribute_is_kept(d: Seq<u8>, pos: int)
    requires
        0 <= pos,
        pos + 8 <= d.len(),
        pos + 8 + payload_len(be32_at(d, pos + 4)) <= d.len(),
        AttributeTag::of(be16_at(d, pos + 2)) is None,
    ensures
        attribute_at(d, pos) == Ok::<(BCertAttributeView, int), FormatErrorView>(
            (
                BCertAttributeView {
                    flags: be16_at(d, pos),
                    tag: be16_at(d, pos + 2),
                    data: AttributeDataView::Unknown(
                        d.subrange(pos + 8, pos + 8 + payload_len(be32_at(d, pos + 4))),
                    ),
                },
                pos + 8 + payload_len(be32_at(d, pos + 4)),
            ),
        ),
{
    reveal(attribute_at);
}

/// The attributes from offset `pos` on, appended to `acc`: one after the
/// other while the offset lies before `end` and a header still fits in what
/// is left of the input.
pub open spec fn attributes_from(
    d: Seq<u8>,
    pos: int,
    end: int,
    acc: Seq<BCertAttributeView>,
) -> Result<Seq<BCertAttributeView>, FormatErrorView>
    decreases d.len() - pos,
    via attributes_from_terminates
{
    if 0 <= pos < end && d.len() - pos >= 8 {
        match attribute_at(d, pos) {
            Err(e) => Err(e),
            Ok((a, next)) => attributes_from(d, next, end, acc.push(a)),
        }
    } else {
        Ok(acc)
    }
}

#[via_fn]
proof fn attributes_from_terminates(
    d: Seq<u8>,
    pos: int,
    end: int,
    acc: Seq<BCertAttributeView>,
) {
    if attribute_at(d, pos) is Ok {
        lemma_attribute_advances(d, pos);
    }
}

/// Where a certificate that starts at `pos` and declares `total_length`
/// bytes ends: at its declared end, or at the end of the input where that
/// comes first.
pub open spec fn cert_stop(d: Seq<u8>, pos: int, total_length: u32) -> int {
    if pos + total_length <= d.len() {
        pos + total_length
    } else {
        d.len() as int
    }
}

/// The certificate that starts at offset `pos`, and the offset at which the
/// next one starts.
pub open spec fn cert_at(d: Seq<u8>, pos: int) -> Result<(BCertView, int), FormatErrorView> {
    let len = d.len() as int;
    if len < pos + 4 {
        Err(eof(pos + 4, len))
    } else if d.subrange(pos, pos + 4) != cert_magic() {
        Err(
            FormatErrorView::InvalidMagic {
                expected: "CERT"@,
                got: utf8_lossy_text(d.subrange(pos, pos + 4)),
            },
        )
    } else if len < pos + 8 {
        Err(eof(pos + 8, len))
    } else if len < pos + 12 {
        Err(eof(pos + 12, len))
    } else if len < pos + 16 {
        Err(eof(pos + 16, len))
    } else {
        let total_length = be32_at(d, pos + 8);
        match attributes_from(d, pos + 16, pos + total_length, Seq::empty()) {
            Err(e) => Err(e),
            Ok(attributes) => Ok(
                (
                    BCertView {
                        version: be32_at(d, pos + 4),
                        total_length,
                        certificate_length: be32_at(d, pos + 12),
                        attributes,
                        raw: d.subrange(pos, cert_stop(d, pos, total_length)),
                    },
                    cert_stop(d, pos, total_length),
                ),
            ),
        }
    }
}

/// `remaining` certificates from offset `pos` on, appended to `acc`.
pub open spec fn certs_from(d: Seq<u8>, pos: int, remaining: nat, acc: Seq<BCertView>) -> Result<
    Seq<BCertView>,
    FormatErrorView,
>
    decreases remaining,
{
    if remaining == 0 {
        Ok(acc)
    } else {
        match cert_at(d, pos) {
            Err(e) => Err(e),
            Ok((c, next)) => certs_from(d, next, (remaining - 1) as nat, acc.push(c)),
        }
    }
}

/// The chain that the bytes `d` encode, or the error with which they are
/// refused.
pub open spec fn chain_of(d: Seq<u8>) -> Result<BCertChainView, FormatErrorView> {
    let len = d.len() as int;
    if len < 4 {
        Err(eof(4, len))
    } else if d.subrange(0, 4) != chain_magic() {
        Err(
            FormatErrorView::InvalidMagic {
                expected: "CHAI"@,
                got: utf8_lossy_text(d.subrange(0, 4)),
            },
        )
    } else if len < 8 {
        Err(eof(8, len))
    } else if len < 12 {
        Err(eof(12, len))
    } else if len < 16 {
        Err(eof(16, len))
    } else if len < 20 {
        Err(eof(20, len))
    } else {
        match certs_from(d, 20, be32_at(d, 16) as nat, Seq::empty()) {
            Err(e) => Err(e),
            Ok(certificates) => Ok(
                BCertChainView { version: be32_at(d, 4), flags: be32_at(d, 12), certificates },
            ),
        }
    }
}

/// A parse result with both sides as mathematical values.
pub open spec fn chain_result(r: Result<BCertChain, FormatError>) -> Result<
    BCertChainView,
    FormatErrorView,
> {
    match r {
        Ok(c) => Ok(c@),
        Err(e) => Err(e@),
    }
}

/// Whether `bytes` are the four bytes `a`, `b`, `c`, `d`.
fn is_magic(bytes: &[u8], magic: &[u8; 4]) -> (r: bool)
    requires
        bytes@.len() == 4,
    ensures
        r == (bytes@ == magic@),
{
    let r = bytes[0] == magic[0] && bytes[1] == magic[1] && bytes[2] == magic[2] && bytes[3]
        == magic[3];
    proof {
        if r {
            assert(bytes@ =~= magic@);
        }
    }
    r
}

/// Decodes the payload of an attribute as its tag asks.
pub fn parse_payload(tag: u16, data: &[u8]) -> (res: Result<AttributeData, FormatError>)
    ensures
        crate::bcert::model::attribute_result(res) == payload_of(tag, data@),
{
    match AttributeTag::try_from(tag) {
        Ok(AttributeTag::Basic) => parse_basic(data),
        Ok(AttributeTag::Domain) => parse_domain(data),
        Ok(AttributeTag::Pc) => parse_pc(data),
        Ok(AttributeTag::Device) => parse_device(data),
        Ok(AttributeTag::Feature) => parse_feature(data),
        Ok(AttributeTag::Key) => parse_key(data),
        Ok(AttributeTag::Manufacturer) => parse_manufacturer(data),
        Ok(AttributeTag::Signature) => parse_signature(data),
        Ok(AttributeTag::Silverlight) => parse_silverlight(data),
        Ok(AttributeTag::Metering) => parse_metering(data),
        Ok(AttributeTag::ExtDataSignKey) => parse_ext_data_sign_key(data),
        Ok(AttributeTag::Server) => parse_server(data),
        Ok(AttributeTag::SecurityVersion) => parse_security_version(data),
        Ok(AttributeTag::SecurityVersion2) => parse_security_version(data),
        _ => Ok(AttributeData::Unknown(slice_to_vec(data))),
    }
}

impl BCertAttribute {
    /// Reads the attribute at the cursor and moves the cursor past it.
    pub fn parse(r: &mut Reader<'_>) -> (res: Result<BCertAttribute, FormatError>)
        ensures
            final(r)@.data == old(r)@.data,
            match attribute_at(old(r)@.data, old(r)@.pos) {
                Ok((a, next)) => res is Ok && res->Ok_0@ == a && final(r)@.pos == next,
                Err(e) => res is Err && res->Err_0@ == e,
            },
    {
        proof {
            reveal(attribute_at);
        }
        let flags = take_u16(r)?;
        let tag = take_u16(r)?;
        let length = take_u32(r)?;
        let data_len: usize = if length >= 8 {
            (length - 8) as usize
        } else {
            0
        };
        let data_bytes = take_bytes(r, data_len)?;
        let data = parse_payload(tag, data_bytes)?;
        Ok(BCertAttribute { flags, tag, data })
    }
}

impl BCert {
    /// Reads the certificate at the cursor and moves the cursor to where the
    /// next one starts.
    pub fn parse(r: &mut Reader<'_>) -> (res: Result<BCert, FormatError>)
        ensures
            final(r)@.data == old(r)@.data,
            match cert_at(old(r)@.data, old(r)@.pos) {
                Ok((c, next)) => res is Ok && res->Ok_0@ == c && final(r)@.pos == next,
                Err(e) => res is Err && res->Err_0@ == e,
            },
    {
        let cert_start = r.position();
        let data = r.data();
        let len = data.len();
        let magic = take_bytes(r, 4)?;
        if !is_magic(magic, &CERT_MAGIC) {
            return Err(FormatError::InvalidMagic { expected: "CERT", got: utf8_lossy(magic) });
        }
        let version = take_u32(r)?;
        let total_length = take_u32(r)?;
        let certificate_length = take_u32(r)?;

        let fits = total_length as usize <= len - cert_start;
        let stop: usize = if fits {
            cert_start + total_length as usize
        } else {
            len
        };
        let ghost end = cert_start + total_length;
        let mut attributes: Vec<BCertAttribute> = Vec::new();
        assert(attributes_view(attributes@) =~= Seq::<BCertAttributeView>::empty());
        let mut more = (!fits || r.position() < stop) && r.remaining() >= 8;
        while more
            invariant
                r@.data == data@,
                data@ == old(r)@.data,
                cert_start == old(r)@.pos,
                data@.len() == len,
                0 <= cert_start <= r@.pos <= len,
                cert_start + 16 <= len,
                data@.subrange(cert_start as int, cert_start + 4) == cert_magic(),
                total_length == be32_at(data@, cert_start + 8),
                end == cert_start + total_length,
                fits <==> end <= len,
                fits ==> stop == end,
                more <==> (r@.pos < end && len - r@.pos >= 8),
                attributes_from(data@, cert_start + 16, end, Seq::empty()) == attributes_from(
                    data@,
                    r@.pos,
                    end,
                    attributes_view(attributes@),
                ),
            decreases len - r@.pos,
        {
            let ghost before = attributes_view(attributes@);
            let ghost at = r@.pos;
            let attr = BCertAttribute::parse(r)?;
            attributes.push(attr);
            proof {
                lemma_attribute_advances(data@, at);
                assert(attributes_view(attributes@) =~= before.push(attr@));
            }
            more = (!fits || r.position() < stop) && r.remaining() >= 8;
        }
        let raw = slice_to_vec(vstd::slice::slice_subrange(data, cert_start, stop));
        r.seek(stop);
        Ok(BCert { version, total_length, certificate_length, attributes, raw })
    }
}

impl BCertChain {
    /// Parses a chain of certificates.
    ///
    /// The result is exactly what [`chain_of`] says of the bytes: the chain
    /// they encode, or the first error met on the way.
    pub fn from_bytes(data: &[u8]) -> (res: Result<BCertChain, FormatError>)
        ensures
            chain_result(res) == chain_of(data@),
    {
        let mut r = Reader::new(data);
        let magic = take_bytes(&mut r, 4)?;
        if !is_magic(magic, &CHAIN_MAGIC) {
            return Err(FormatError::InvalidMagic { expected: "CHAI", got: utf8_lossy(magic) });
        }
        let version = take_u32(&mut r)?;
        let _total_length = take_u32(&mut r)?;
        let flags = take_u32(&mut r)?;
        let cert_count = take_u32(&mut r)?;

        let mut certificates: Vec<BCert> = Vec::new();
        assert(certificates_view(certificates@) =~= Seq::<BCertView>::empty());
        let mut i: u32 = 0;
        while i < cert_count
            invariant
                i <= cert_count,
                r@.data == data@,
                data@.len() >= 20,
                data@.subrange(0, 4) == chain_magic(),
                cert_count == be32_at(data@, 16),
                version == be32_at(data@, 4),
                flags == be32_at(data@, 12),
                certs_from(data@, 20, cert_count as nat, Seq::empty()) == certs_from(
                    data@,
                    r@.pos,
                    (cert_count - i) as nat,
                    certificates_view(certificates@),
                ),
            decreases cert_count - i,
        {
            let ghost before = certificates_view(certificates@);
            let cert = BCert::parse(&mut r)?;
            certificates.push(cert);
            i = i + 1;
            assert(certificates_view(certificates@) =~= before.push(cert@));
        }
        Ok(BCertChain { version, flags, certificates })
    }
}

/// Parses a chain of certificates from the bytes of a response.
pub fn parse_chain(data: &[u8]) -> (res: Result<BCertChain, FormatError>)
    ensures
        chain_result(res) == chain_of(data@),
{
    BCertChain::from_bytes(data)
}

} // verus!
