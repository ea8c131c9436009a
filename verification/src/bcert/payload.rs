//! Decoders of attribute payloads.
//!
//! Each payload is a record of big-endian fields. A decoder reads the fields
//! in order and fails at the first one that the payload is too short for; the
//! error names the offset at which that field ends.

use vstd::prelude::*;

use crate::bcert::model::{
    attribute_result, keys_view, AttributeData, AttributeDataView, BasicInfo, BasicInfoView, CertKey,
    CertKeyView, DeviceInfo, DomainInfo, DomainInfoView, ExtDataSignKeyInfo,
    ExtDataSignKeyInfoView, FeatureInfo, KeyInfo, ManufacturerInfo, ManufacturerInfoView,
    MeteringInfo, MeteringInfoView, PcInfo, SecurityVersionInfo, ServerInfo, SignatureInfo,
    SignatureInfoView, SilverlightInfo,
};
use crate::bytes::slice_to_vec;
use crate::error::{eof, FormatError, FormatErrorView};
use crate::reader::{be16_at, be32_at, field_text, round_up4, utf8_lossy_text, Reader};

verus! {

/// The text of the padded string field of declared length `raw_len` that
/// starts at `at`.
pub open spec fn padded_string_at(d: Seq<u8>, at: int, raw_len: int) -> Seq<char> {
    utf8_lossy_text(field_text(d, at, raw_len))
}

/// Reads `remaining` big-endian `u32` values from offset `pos` on and appends
/// them to `acc`. Gives the values and the offset after the last, or the
/// error of the first value that is cut short.
pub open spec fn u32_list_from(d: Seq<u8>, pos: int, remaining: nat, acc: Seq<u32>) -> Result<
    (Seq<u32>, int),
    FormatErrorView,
>
    decreases remaining,
{
    if remaining == 0 {
        Ok((acc, pos))
    } else if d.len() < pos + 4 {
        Err(eof(pos + 4, d.len() as int))
    } else {
        u32_list_from(d, pos + 4, (remaining - 1) as nat, acc.push(be32_at(d, pos)))
    }
}

/// One embedded key read at offset `pos`: the key and the offset after it.
pub open spec fn key_entry_at(d: Seq<u8>, pos: int) -> Result<(CertKeyView, int), FormatErrorView> {
    let len = d.len() as int;
    if len < pos + 2 {
        Err(eof(pos + 2, len))
    } else if len < pos + 4 {
        Err(eof(pos + 4, len))
    } else if len < pos + 8 {
        Err(eof(pos + 8, len))
    } else {
        let key_len = be16_at(d, pos + 2) as int / 8;
        let after_key = pos + 8 + key_len;
        if len < after_key {
            Err(eof(after_key, len))
        } else if len < after_key + 4 {
            Err(eof(after_key + 4, len))
        } else {
            match u32_list_from(d, after_key + 4, be32_at(d, after_key) as nat, Seq::empty()) {
                Err(e) => Err(e),
                Ok((usages, next)) => Ok(
                    (
                        CertKeyView {
                            key_type: be16_at(d, pos),
                            key: d.subrange(pos + 8, after_key),
                            flags: be32_at(d, pos + 4),
                            usages,
                        },
                        next,
                    ),
                ),
            }
        }
    }
}

/// Reads `remaining` embedded keys from offset `pos` on and appends them to
/// `acc`.
pub open spec fn key_list_from(
    d: Seq<u8>,
    pos: int,
    remaining: nat,
    acc: Seq<CertKeyView>,
) -> Result<Seq<CertKeyView>, FormatErrorView>
    decreases remaining,
{
    if remaining == 0 {
        Ok(acc)
    } else {
        match key_entry_at(d, pos) {
            Err(e) => Err(e),
            Ok((k, next)) => key_list_from(d, next, (remaining - 1) as nat, acc.push(k)),
        }
    }
}

/// Basic identity: a fixed record of 80 bytes.
pub open spec fn basic_payload(d: Seq<u8>) -> Result<AttributeDataView, FormatErrorView> {
    let len = d.len() as int;
    if len < 16 {
        Err(eof(16, len))
    } else if len < 20 {
        Err(eof(20, len))
    } else if len < 24 {
        Err(eof(24, len))
    } else if len < 28 {
        Err(eof(28, len))
    } else if len < 60 {
        Err(eof(60, len))
    } else if len < 64 {
        Err(eof(64, len))
    } else if len < 80 {
        Err(eof(80, len))
    } else {
        Ok(
            AttributeDataView::Basic(
                BasicInfoView {
                    cert_id: d.subrange(0, 16),
                    security_level: be32_at(d, 16),
                    flags: be32_at(d, 20),
                    cert_type: be32_at(d, 24),
                    public_key_digest: d.subrange(28, 60),
                    expiration_date: be32_at(d, 60),
                    client_id: d.subrange(64, 80),
                },
            ),
        )
    }
}

/// Domain: two identifiers of 16 bytes, a timestamp, and the address of the
/// domain as a padded string with its length before it.
pub open spec fn domain_payload(d: Seq<u8>) -> Result<AttributeDataView, FormatErrorView> {
    let len = d.len() as int;
    if len < 16 {
        Err(eof(16, len))
    } else if len < 32 {
        Err(eof(32, len))
    } else if len < 36 {
        Err(eof(36, len))
    } else if len < 40 {
        Err(eof(40, len))
    } else if len < 40 + round_up4(be32_at(d, 36) as int) {
        Err(eof(40 + round_up4(be32_at(d, 36) as int), len))
    } else {
        Ok(
            AttributeDataView::Domain(
                DomainInfoView {
                    service_id: d.subrange(0, 16),
                    account_id: d.subrange(16, 32),
                    revision_timestamp: be32_at(d, 32),
                    domain_url: padded_string_at(d, 40, be32_at(d, 36) as int),
                },
            ),
        )
    }
}

/// PC: one security version.
pub open spec fn pc_payload(d: Seq<u8>) -> Result<AttributeDataView, FormatErrorView> {
    if d.len() < 4 {
        Err(eof(4, d.len() as int))
    } else {
        Ok(AttributeDataView::Pc { security_version: be32_at(d, 0) })
    }
}

/// Device: three limits.
pub open spec fn device_payload(d: Seq<u8>) -> Result<AttributeDataView, FormatErrorView> {
    let len = d.len() as int;
    if len < 4 {
        Err(eof(4, len))
    } else if len < 8 {
        Err(eof(8, len))
    } else if len < 12 {
        Err(eof(12, len))
    } else {
        Ok(
            AttributeDataView::Device {
                max_license: be32_at(d, 0),
                max_header: be32_at(d, 4),
                max_chain_depth: be32_at(d, 8),
            },
        )
    }
}

/// How many features of a declared `count` are read: at most 32.
pub open spec fn feature_count(count: u32) -> nat {
    if count < 32 {
        count as nat
    } else {
        32
    }
}

/// Features: a count and that many codes, of which at most 32 are read.
pub open spec fn feature_payload(d: Seq<u8>) -> Result<AttributeDataView, FormatErrorView> {
    if d.len() < 4 {
        Err(eof(4, d.len() as int))
    } else {
        match u32_list_from(d, 4, feature_count(be32_at(d, 0)), Seq::empty()) {
            Err(e) => Err(e),
            Ok((features, _)) => Ok(AttributeDataView::Feature(features)),
        }
    }
}

/// Keys: a count and that many embedded keys.
pub open spec fn key_payload(d: Seq<u8>) -> Result<AttributeDataView, FormatErrorView> {
    if d.len() < 4 {
        Err(eof(4, d.len() as int))
    } else {
        match key_list_from(d, 4, be32_at(d, 0) as nat, Seq::empty()) {
            Err(e) => Err(e),
            Ok(keys) => Ok(AttributeDataView::Key(keys)),
        }
    }
}

/// Manufacturer: flags and three padded strings, each with its length
/// before it.
pub open spec fn manufacturer_payload(d: Seq<u8>) -> Result<AttributeDataView, FormatErrorView> {
    let len = d.len() as int;
    if len < 4 {
        Err(eof(4, len))
    } else if len < 8 {
        Err(eof(8, len))
    } else {
        let n1 = be32_at(d, 4) as int;
        let first_end = 8 + round_up4(n1);
        if len < first_end {
            Err(eof(first_end, len))
        } else if len < first_end + 4 {
            Err(eof(first_end + 4, len))
        } else {
            let n2 = be32_at(d, first_end) as int;
            let second_end = first_end + 4 + round_up4(n2);
            if len < second_end {
                Err(eof(second_end, len))
            } else if len < second_end + 4 {
                Err(eof(second_end + 4, len))
            } else {
                let n3 = be32_at(d, second_end) as int;
                let third_end = second_end + 4 + round_up4(n3);
                if len < third_end {
                    Err(eof(third_end, len))
                } else {
                    Ok(
                        AttributeDataView::Manufacturer(
                            ManufacturerInfoView {
                                flags: be32_at(d, 0),
                                name: padded_string_at(d, 8, n1),
                                model_name: padded_string_at(d, first_end + 4, n2),
                                model_number: padded_string_at(d, second_end + 4, n3),
                            },
                        ),
                    )
                }
            }
        }
    }
}

/// Signature: type, length and bytes of the signature, then the length in
/// bits and the bytes of the issuer's key.
pub open spec fn signature_payload(d: Seq<u8>) -> Result<AttributeDataView, FormatErrorView> {
    let len = d.len() as int;
    if len < 2 {
        Err(eof(2, len))
    } else if len < 4 {
        Err(eof(4, len))
    } else {
        let after_sig = 4 + be16_at(d, 2) as int;
        if len < after_sig {
            Err(eof(after_sig, len))
        } else if len < after_sig + 4 {
            Err(eof(after_sig + 4, len))
        } else {
            let key_len = be32_at(d, after_sig) as int / 8;
            if len < after_sig + 4 + key_len {
                Err(eof(after_sig + 4 + key_len, len))
            } else {
                Ok(
                    AttributeDataView::Signature(
                        SignatureInfoView {
                            signature_type: be16_at(d, 0),
                            signature: d.subrange(4, after_sig),
                            signing_key: d.subrange(after_sig + 4, after_sig + 4 + key_len),
                        },
                    ),
                )
            }
        }
    }
}

/// Silverlight: security version and platform.
pub open spec fn silverlight_payload(d: Seq<u8>) -> Result<AttributeDataView, FormatErrorView> {
    let len = d.len() as int;
    if len < 4 {
        Err(eof(4, len))
    } else if len < 8 {
        Err(eof(8, len))
    } else {
        Ok(
            AttributeDataView::Silverlight {
                security_version: be32_at(d, 0),
                platform_identifier: be32_at(d, 4),
            },
        )
    }
}

/// Metering: an identifier of 16 bytes and an address as a padded string
/// with its length before it.
pub open spec fn metering_payload(d: Seq<u8>) -> Result<AttributeDataView, FormatErrorView> {
    let len = d.len() as int;
    if len < 16 {
        Err(eof(16, len))
    } else if len < 20 {
        Err(eof(20, len))
    } else if len < 20 + round_up4(be32_at(d, 16) as int) {
        Err(eof(20 + round_up4(be32_at(d, 16) as int), len))
    } else {
        Ok(
            AttributeDataView::Metering(
                MeteringInfoView {
                    metering_id: d.subrange(0, 16),
                    metering_url: padded_string_at(d, 20, be32_at(d, 16) as int),
                },
            ),
        )
    }
}

/// Key for extended data: type, length in bits, flags, and the key.
pub open spec fn ext_data_sign_key_payload(d: Seq<u8>) -> Result<
    AttributeDataView,
    FormatErrorView,
> {
    let len = d.len() as int;
    if len < 2 {
        Err(eof(2, len))
    } else if len < 4 {
        Err(eof(4, len))
    } else if len < 8 {
        Err(eof(8, len))
    } else if len < 8 + be16_at(d, 2) as int / 8 {
        Err(eof(8 + be16_at(d, 2) as int / 8, len))
    } else {
        Ok(
            AttributeDataView::ExtDataSignKey(
                ExtDataSignKeyInfoView {
                    key_type: be16_at(d, 0),
                    flags: be32_at(d, 4),
                    key: d.subrange(8, 8 + be16_at(d, 2) as int / 8),
                },
            ),
        )
    }
}

/// Server: days of warning.
pub open spec fn server_payload(d: Seq<u8>) -> Result<AttributeDataView, FormatErrorView> {
    if d.len() < 4 {
        Err(eof(4, d.len() as int))
    } else {
        Ok(AttributeDataView::Server { warning_days: be32_at(d, 0) })
    }
}

/// Security version: version and platform.
pub open spec fn security_version_payload(d: Seq<u8>) -> Result<
    AttributeDataView,
    FormatErrorView,
> {
    let len = d.len() as int;
    if len < 4 {
        Err(eof(4, len))
    } else if len < 8 {
        Err(eof(8, len))
    } else {
        Ok(
            AttributeDataView::SecurityVersion {
                security_version: be32_at(d, 0),
                platform_identifier: be32_at(d, 4),
            },
        )
    }
}

/// What a step of a decoder leaves behind: the reader moved on over the same
/// bytes and a value, or the reader where it was and the error of a field
/// that ends `n` bytes after it.
pub open spec fn stepped<T>(
    before: crate::reader::ReaderView,
    after: crate::reader::ReaderView,
    n: int,
    r: Result<T, FormatError>,
) -> bool {
    &&& after.data == before.data
    &&& r is Ok <==> before.pos + n <= before.data.len()
    &&& r is Ok ==> after.pos == before.pos + n
    &&& r is Err ==> after.pos == before.pos && r->Err_0@ == eof(
        before.pos + n,
        before.data.len() as int,
    )
}

pub(crate) fn take_u16(r: &mut Reader<'_>) -> (res: Result<u16, FormatError>)
    ensures
        stepped(old(r)@, final(r)@, 2, res),
        res is Ok ==> res->Ok_0 == be16_at(old(r)@.data, old(r)@.pos),
{
    match r.read_u16be() {
        Ok(v) => Ok(v),
        Err(e) => Err(FormatError::from_read(e)),
    }
}

pub(crate) fn take_u32(r: &mut Reader<'_>) -> (res: Result<u32, FormatError>)
    ensures
        stepped(old(r)@, final(r)@, 4, res),
        res is Ok ==> res->Ok_0 == be32_at(old(r)@.data, old(r)@.pos),
{
    match r.read_u32be() {
        Ok(v) => Ok(v),
        Err(e) => Err(FormatError::from_read(e)),
    }
}

pub(crate) fn take_bytes<'a>(r: &mut Reader<'a>, n: usize) -> (res: Result<&'a [u8], FormatError>)
    ensures
        stepped(old(r)@, final(r)@, n as int, res),
        res is Ok ==> res->Ok_0@ == old(r)@.data.subrange(old(r)@.pos, old(r)@.pos + n),
{
    match r.read_bytes(n) {
        Ok(v) => Ok(v),
        Err(e) => Err(FormatError::from_read(e)),
    }
}

pub(crate) fn take_array<const N: usize>(r: &mut Reader<'_>) -> (res: Result<[u8; N], FormatError>)
    ensures
        stepped(old(r)@, final(r)@, N as int, res),
        res is Ok ==> res->Ok_0@ == old(r)@.data.subrange(old(r)@.pos, old(r)@.pos + N),
{
    match r.read_array::<N>() {
        Ok(v) => Ok(v),
        Err(e) => Err(FormatError::from_read(e)),
    }
}

pub(crate) fn take_string(r: &mut Reader<'_>, raw_len: usize) -> (res: Result<String, FormatError>)
    ensures
        stepped(old(r)@, final(r)@, round_up4(raw_len as int), res),
        res is Ok ==> res->Ok_0@ == padded_string_at(old(r)@.data, old(r)@.pos, raw_len as int),
{
    match r.read_padded_string(raw_len) {
        Ok(v) => Ok(v),
        Err(e) => Err(FormatError::from_read(e)),
    }
}

/// Decodes a basic-identity payload.
pub fn parse_basic(data: &[u8]) -> (res: Result<AttributeData, FormatError>)
    ensures
        attribute_result(res) == basic_payload(data@),
{
    let mut r = Reader::new(data);
    let cert_id = take_array::<16>(&mut r)?;
    let security_level = take_u32(&mut r)?;
    let flags = take_u32(&mut r)?;
    let cert_type = take_u32(&mut r)?;
    let public_key_digest = take_array::<32>(&mut r)?;
    let expiration_date = take_u32(&mut r)?;
    let client_id = take_array::<16>(&mut r)?;
    Ok(
        AttributeData::Basic(
            BasicInfo {
                cert_id,
                security_level,
                flags,
                cert_type,
                public_key_digest,
                expiration_date,
                client_id,
            },
        ),
    )
}

/// Decodes a domain payload.
pub fn parse_domain(data: &[u8]) -> (res: Result<AttributeData, FormatError>)
    ensures
        attribute_result(res) == domain_payload(data@),
{
    let mut r = Reader::new(data);
    let service_id = take_array::<16>(&mut r)?;
    let account_id = take_array::<16>(&mut r)?;
    let revision_timestamp = take_u32(&mut r)?;
    let url_len = take_u32(&mut r)?;
    let domain_url = take_string(&mut r, url_len as usize)?;
    Ok(AttributeData::Domain(DomainInfo { service_id, account_id, revision_timestamp, domain_url }))
}

/// Decodes a PC payload.
pub fn parse_pc(data: &[u8]) -> (res: Result<AttributeData, FormatError>)
    ensures
        attribute_result(res) == pc_payload(data@),
{
    let mut r = Reader::new(data);
    let security_version = take_u32(&mut r)?;
    Ok(AttributeData::Pc(PcInfo { security_version }))
}

/// Decodes a device payload.
pub fn parse_device(data: &[u8]) -> (res: Result<AttributeData, FormatError>)
    ensures
        attribute_result(res) == device_payload(data@),
{
    let mut r = Reader::new(data);
    let max_license = take_u32(&mut r)?;
    let max_header = take_u32(&mut r)?;
    let max_chain_depth = take_u32(&mut r)?;
    Ok(AttributeData::Device(DeviceInfo { max_license, max_header, max_chain_depth }))
}

/// Reads `count` big-endian `u32` values.
pub(crate) fn take_u32_list(r: &mut Reader<'_>, count: usize) -> (res: Result<Vec<u32>, FormatError>)
    ensures
        final(r)@.data == old(r)@.data,
        match u32_list_from(old(r)@.data, old(r)@.pos, count as nat, Seq::empty()) {
            Ok((values, next)) => res is Ok && res->Ok_0@ == values && final(r)@.pos == next,
            Err(e) => res is Err && res->Err_0@ == e,
        },
{
    let mut values: Vec<u32> = Vec::new();
    let mut i: usize = 0;
    while i < count
        invariant
            i <= count,
            r@.data == old(r)@.data,
            u32_list_from(old(r)@.data, old(r)@.pos, count as nat, Seq::empty()) == u32_list_from(
                r@.data,
                r@.pos,
                (count - i) as nat,
                values@,
            ),
        decreases count - i,
    {
        let v = take_u32(r)?;
        values.push(v);
        i = i + 1;
    }
    Ok(values)
}

/// Decodes a feature payload.
pub fn parse_feature(data: &[u8]) -> (res: Result<AttributeData, FormatError>)
    ensures
        attribute_result(res) == feature_payload(data@),
{
    let mut r = Reader::new(data);
    let count = take_u32(&mut r)?;
    let capped: usize = if count < 32 {
        count as usize
    } else {
        32
    };
    let features = take_u32_list(&mut r, capped)?;
    Ok(AttributeData::Feature(FeatureInfo { features }))
}

/// Reads one embedded key.
pub(crate) fn take_key(r: &mut Reader<'_>) -> (res: Result<CertKey, FormatError>)
    ensures
        final(r)@.data == old(r)@.data,
        match key_entry_at(old(r)@.data, old(r)@.pos) {
            Ok((k, next)) => res is Ok && res->Ok_0@ == k && final(r)@.pos == next,
            Err(e) => res is Err && res->Err_0@ == e,
        },
{
    let key_type = take_u16(r)?;
    let key_length_bits = take_u16(r)?;
    let flags = take_u32(r)?;
    let key = slice_to_vec(take_bytes(r, (key_length_bits / 8) as usize)?);
    let usages_count = take_u32(r)?;
    let usages = take_u32_list(r, usages_count as usize)?;
    Ok(CertKey { key_type, key, flags, usages })
}

/// Decodes a key-list payload.
pub fn parse_key(data: &[u8]) -> (res: Result<AttributeData, FormatError>)
    ensures
        attribute_result(res) == key_payload(data@),
{
    let mut r = Reader::new(data);
    let key_count = take_u32(&mut r)?;
    let mut keys: Vec<CertKey> = Vec::new();
    let mut i: u32 = 0;
    assert(keys_view(keys@) =~= Seq::<CertKeyView>::empty());
    while i < key_count
        invariant
            i <= key_count,
            r@.data == data@,
            data@.len() >= 4,
            key_count == be32_at(data@, 0),
            key_list_from(data@, 4, key_count as nat, Seq::empty()) == key_list_from(
                data@,
                r@.pos,
                (key_count - i) as nat,
                keys_view(keys@),
            ),
        decreases key_count - i,
    {
        let ghost before = keys_view(keys@);
        let key = take_key(&mut r)?;
        keys.push(key);
        i = i + 1;
        assert(keys_view(keys@) =~= before.push(key@));
    }
    Ok(AttributeData::Key(KeyInfo { keys }))
}

/// Decodes a manufacturer payload.
pub fn parse_manufacturer(data: &[u8]) -> (res: Result<AttributeData, FormatError>)
    ensures
        attribute_result(res) == manufacturer_payload(data@),
{
    let mut r = Reader::new(data);
    let flags = take_u32(&mut r)?;
    let name_len = take_u32(&mut r)?;
    let name = take_string(&mut r, name_len as usize)?;
    let model_name_len = take_u32(&mut r)?;
    let model_name = take_string(&mut r, model_name_len as usize)?;
    let model_number_len = take_u32(&mut r)?;
    let model_number = take_string(&mut r, model_number_len as usize)?;
    Ok(AttributeData::Manufacturer(ManufacturerInfo { flags, name, model_name, model_number }))
}

/// Decodes a signature block.
pub fn parse_signature(data: &[u8]) -> (res: Result<AttributeData, FormatError>)
    ensures
        attribute_result(res) == signature_payload(data@),
{
    let mut r = Reader::new(data);
    let signature_type = take_u16(&mut r)?;
    let signature_size = take_u16(&mut r)?;
    let signature = slice_to_vec(take_bytes(&mut r, signature_size as usize)?);
    let signing_key_size_bits = take_u32(&mut r)?;
    let signing_key = slice_to_vec(take_bytes(&mut r, (signing_key_size_bits / 8) as usize)?);
    Ok(AttributeData::Signature(SignatureInfo { signature_type, signature, signing_key }))
}

/// Decodes a Silverlight payload.
pub fn parse_silverlight(data: &[u8]) -> (res: Result<AttributeData, FormatError>)
    ensures
        attribute_result(res) == silverlight_payload(data@),
{
    let mut r = Reader::new(data);
    let security_version = take_u32(&mut r)?;
    let platform_identifier = take_u32(&mut r)?;
    Ok(AttributeData::Silverlight(SilverlightInfo { security_version, platform_identifier }))
}

/// Decodes a metering payload.
pub fn parse_metering(data: &[u8]) -> (res: Result<AttributeData, FormatError>)
    ensures
        attribute_result(res) == metering_payload(data@),
{
    let mut r = Reader::new(data);
    let metering_id = take_array::<16>(&mut r)?;
    let url_len = take_u32(&mut r)?;
    let metering_url = take_string(&mut r, url_len as usize)?;
    Ok(AttributeData::Metering(MeteringInfo { metering_id, metering_url }))
}

/// Decodes the payload of a key for extended data.
pub fn parse_ext_data_sign_key(data: &[u8]) -> (res: Result<AttributeData, FormatError>)
    ensures
        attribute_result(res) == ext_data_sign_key_payload(data@),
{
    let mut r = Reader::new(data);
    let key_type = take_u16(&mut r)?;
    let key_length_bits = take_u16(&mut r)?;
    let flags = take_u32(&mut r)?;
    let key = slice_to_vec(take_bytes(&mut r, (key_length_bits / 8) as usize)?);
    Ok(AttributeData::ExtDataSignKey(ExtDataSignKeyInfo { key_type, flags, key }))
}

/// Decodes a server payload.
pub fn parse_server(data: &[u8]) -> (res: Result<AttributeData, FormatError>)
    ensures
        attribute_result(res) == server_payload(data@),
{
    let mut r = Reader::new(data);
    let warning_days = take_u32(&mut r)?;
    Ok(AttributeData::Server(ServerInfo { warning_days }))
}

/// Decodes a security-version payload.
pub fn parse_security_version(data: &[u8]) -> (res: Result<AttributeData, FormatError>)
    ensures
        attribute_result(res) == security_version_payload(data@),
{
    let mut r = Reader::new(data);
    let security_version = take_u32(&mut r)?;
    let platform_identifier = take_u32(&mut r)?;
    Ok(
        AttributeData::SecurityVersion(
            SecurityVersionInfo { security_version, platform_identifier },
        ),
    )
}

} // verus!
