//! A device: its three key pairs, its certificate chain and the security
//! level that the leaf certificate of the chain declares.

use vstd::prelude::*;

use crate::bcert::access::first_basic;
use crate::bcert::model::{BCertChain, BCertChainView};
use crate::bcert::parse::chain_of;
use crate::bytes::{append, array_at, slice_to_vec};
use crate::error::{CdmError, CdmErrorView};
use crate::prd::{be32_array, be32_bytes, prd_magic, PRD_MAGIC};
use crate::reader::be32_at;

verus! {

/// A key pair: the private scalar and the public point, X followed by Y.
#[derive(Debug, Clone, PartialEq, Eq)]
pub struct EccKeyPair {
    pub private_key: [u8; 32],
    pub public_key: [u8; 64],
}

/// [`EccKeyPair`] as a mathematical value.
pub struct EccKeyPairView {
    pub private_key: Seq<u8>,
    pub public_key: Seq<u8>,
}

impl View for EccKeyPair {
    type V = EccKeyPairView;

    open spec fn view(&self) -> EccKeyPairView {
        EccKeyPairView { private_key: self.private_key@, public_key: self.public_key@ }
    }
}

/// A device as it is loaded from a device file of version 2 or 3.
#[derive(Debug, Clone, PartialEq, Eq)]
pub struct Device {
    /// Security level of the leaf certificate.
    pub security_level: u32,
    /// Signs new leaf certificates; present in version 3 only.
    pub(crate) group_key: Option<EccKeyPair>,
    /// Decrypts content keys.
    pub(crate) encryption_key: EccKeyPair,
    /// Signs licence challenges.
    pub(crate) signing_key: EccKeyPair,
    /// The certificate chain, as bytes.
    pub(crate) group_certificate: Vec<u8>,
}

/// [`Device`] as a mathematical value.
pub struct DeviceView {
    pub security_level: u32,
    pub group_key: Option<EccKeyPairView>,
    pub encryption_key: EccKeyPairView,
    pub signing_key: EccKeyPairView,
    pub group_certificate: Seq<u8>,
}

impl View for Device {
    type V = DeviceView;

    closed spec fn view(&self) -> DeviceView {
        DeviceView {
            security_level: self.security_level,
            group_key: match self.group_key {
                Some(k) => Some(k@),
                None => None,
            },
            encryption_key: self.encryption_key@,
            signing_key: self.signing_key@,
            group_certificate: self.group_certificate@,
        }
    }
}

/// The key pair that the 96 bytes of `d` from offset `at` on hold.
pub open spec fn pair_at(d: Seq<u8>, at: int) -> EccKeyPairView {
    EccKeyPairView {
        private_key: d.subrange(at, at + 32),
        public_key: d.subrange(at + 32, at + 96),
    }
}

/// The 96 bytes of a key pair.
pub open spec fn pair_bytes(k: EccKeyPairView) -> Seq<u8> {
    k.private_key + k.public_key
}

/// Whether every byte of `s` is zero.
pub open spec fn all_zero(s: Seq<u8>) -> bool {
    forall|i: int| 0 <= i < s.len() ==> s[i] == 0u8
}

/// The security level that the leaf of the chain encoded by `cert` declares.
pub open spec fn security_level_of(cert: Seq<u8>) -> Result<u32, CdmErrorView> {
    match chain_of(cert) {
        Err(e) => Err(CdmErrorView::Format(e)),
        Ok(chain) => if chain.certificates.len() == 0 {
            Err(CdmErrorView::NoCertificates)
        } else {
            match first_basic(chain.certificates[0].attributes, 0) {
                Some(info) => Ok(info.security_level),
                None => Err(CdmErrorView::NoBasicInfo),
            }
        },
    }
}

/// A device file of version 2: the certificate, then the encryption and
/// signing keys.
pub open spec fn device_v2(d: Seq<u8>) -> Result<DeviceView, CdmErrorView> {
    let len = d.len() as int;
    if len < 8 {
        Err(CdmErrorView::PrdTruncated)
    } else {
        let after_cert = 8 + be32_at(d, 4);
        if len < after_cert + 192 {
            Err(CdmErrorView::PrdTruncated)
        } else {
            match security_level_of(d.subrange(8, after_cert)) {
                Err(e) => Err(e),
                Ok(security_level) => Ok(
                    DeviceView {
                        security_level,
                        group_key: None,
                        encryption_key: pair_at(d, after_cert),
                        signing_key: pair_at(d, after_cert + 96),
                        group_certificate: d.subrange(8, after_cert),
                    },
                ),
            }
        }
    }
}

/// A device file of version 3: the group, encryption and signing keys, then
/// the certificate. A group key whose private scalar is all zeros counts as
/// absent.
pub open spec fn device_v3(d: Seq<u8>) -> Result<DeviceView, CdmErrorView> {
    let len = d.len() as int;
    if len < 296 {
        Err(CdmErrorView::PrdTruncated)
    } else if len < 296 + be32_at(d, 292) {
        Err(CdmErrorView::PrdTruncated)
    } else {
        match security_level_of(d.subrange(296, 296 + be32_at(d, 292))) {
            Err(e) => Err(e),
            Ok(security_level) => Ok(
                DeviceView {
                    security_level,
                    group_key: if all_zero(d.subrange(4, 36)) {
                        None
                    } else {
                        Some(pair_at(d, 4))
                    },
                    encryption_key: pair_at(d, 100),
                    signing_key: pair_at(d, 196),
                    group_certificate: d.subrange(296, 296 + be32_at(d, 292)),
                },
            ),
        }
    }
}

/// The device that the bytes `d` encode, or the error with which they are
/// refused.
pub open spec fn device_of(d: Seq<u8>) -> Result<DeviceView, CdmErrorView> {
    if d.len() < 3 {
        Err(CdmErrorView::PrdTruncated)
    } else if d.subrange(0, 3) != prd_magic() {
        Err(CdmErrorView::PrdBadMagic)
    } else if d.len() < 4 {
        Err(CdmErrorView::PrdTruncated)
    } else if d[3] == 2 {
        device_v2(d)
    } else if d[3] == 3 {
        device_v3(d)
    } else {
        Err(CdmErrorView::PrdUnsupportedVersion(d[3]))
    }
}

/// The bytes of a device file of version 3 that holds `dev`; an absent group
/// key is written as zeros, the length of the certificate modulo 2^32.
pub open spec fn device_bytes(dev: DeviceView) -> Seq<u8> {
    prd_magic() + seq![3u8] + (match dev.group_key {
        Some(k) => pair_bytes(k),
        None => Seq::new(96, |i: int| 0u8),
    }) + pair_bytes(dev.encryption_key) + pair_bytes(dev.signing_key) + be32_bytes(
        (dev.group_certificate.len() % 0x1_0000_0000) as u32,
    ) + dev.group_certificate
}

/// A result with both sides as mathematical values.
pub open spec fn device_result(r: Result<Device, CdmError>) -> Result<DeviceView, CdmErrorView> {
    match r {
        Ok(d) => Ok(d@),
        Err(e) => Err(e@),
    }
}

/// What base64 decoding makes of `input`: the bytes, or nothing where the
/// input is no well-formed padded base64.
pub uninterp spec fn base64_bytes(input: Seq<u8>) -> Option<Seq<u8>>;

/// The padded base64 text of `bytes`.
pub uninterp spec fn base64_text(bytes: Seq<u8>) -> Seq<char>;

/// `data_encoding::BASE64.decode`: the decoded bytes are a function of the
/// input; input that is no padded base64 of RFC 4648 is refused.
#[verifier::external_body]
pub(crate) fn base64_decode(input: &[u8]) -> (r: Option<Vec<u8>>)
    ensures
        match base64_bytes(input@) {
            Some(bytes) => r is Some && r->Some_0@ == bytes,
            None => r is None,
        },
{
    match data_encoding::BASE64.decode(input) {
        Ok(bytes) => Some(bytes),
        Err(_) => None,
    }
}

/// `data_encoding::BASE64.encode`: the text is a function of the bytes.
#[verifier::external_body]
pub(crate) fn base64_encode(bytes: &[u8]) -> (s: String)
    ensures
        s@ == base64_text(bytes@),
{
    data_encoding::BASE64.encode(bytes)
}

/// The key pair at offset `at`.
fn pair_from(data: &[u8], at: usize) -> (k: EccKeyPair)
    requires
        at + 96 <= data@.len() <= usize::MAX,
    ensures
        k@ == pair_at(data@, at as int),
{
    EccKeyPair {
        private_key: array_at::<32>(data, at),
        public_key: array_at::<64>(data, at + 32),
    }
}

/// Whether every byte of `bytes` is zero.
fn is_all_zero(bytes: &[u8]) -> (r: bool)
    ensures
        r == all_zero(bytes@),
{
    let mut i: usize = 0;
    while i < bytes.len()
        invariant
            i <= bytes.len(),
            forall|j: int| 0 <= j < i ==> bytes@[j] == 0u8,
        decreases bytes.len() - i,
    {
        if bytes[i] != 0 {
            return false;
        }
        i = i + 1;
    }
    true
}

/// The security level of the leaf certificate of a chain given as bytes.
pub fn extract_security_level(cert_bytes: &[u8]) -> (r: Result<u32, CdmError>)
    ensures
        match security_level_of(cert_bytes@) {
            Ok(level) => r == Ok::<u32, CdmError>(level),
            Err(e) => r is Err && r->Err_0@ == e,
        },
{
    let chain = match BCertChain::from_bytes(cert_bytes) {
        Ok(c) => c,
        Err(e) => {
            return Err(CdmError::Format(e));
        },
    };
    let leaf = match chain.leaf() {
        Some(l) => l,
        None => {
            return Err(CdmError::NoCertificates);
        },
    };
    match leaf.basic_info() {
        Some(info) => Ok(info.security_level),
        None => Err(CdmError::NoBasicInfo),
    }
}

/// Appends the 96 bytes of a key pair.
fn append_pair(out: &mut Vec<u8>, key: &EccKeyPair)
    ensures
        final(out)@ == old(out)@ + pair_bytes(key@),
{
    append(out, key.private_key.as_slice());
    append(out, key.public_key.as_slice());
}

impl Device {
    /// Loads a device from the bytes of a device file of version 2 or 3.
    pub fn from_bytes(data: &[u8]) -> (r: Result<Device, CdmError>)
        ensures
            device_result(r) == device_of(data@),
    {
        let len = data.len();
        if len < 3 {
            return Err(CdmError::PrdTruncated);
        }
        if !(data[0] == PRD_MAGIC[0] && data[1] == PRD_MAGIC[1] && data[2] == PRD_MAGIC[2]) {
            return Err(CdmError::PrdBadMagic);
        }
        assert(data@.subrange(0, 3) =~= prd_magic());
        if len < 4 {
            return Err(CdmError::PrdTruncated);
        }
        let version = data[3];
        if version == 2 {
            Device::parse_v2(data)
        } else if version == 3 {
            Device::parse_v3(data)
        } else {
            Err(CdmError::PrdUnsupportedVersion(version))
        }
    }

    /// Loads a device from the base64 text of a device file.
    pub fn from_base64(prd: &[u8]) -> (r: Result<Device, CdmError>)
        ensures
            match base64_bytes(prd@) {
                Some(bytes) => device_result(r) == device_of(bytes),
                None => r is Err && r->Err_0@ == CdmErrorView::InvalidBase64,
            },
    {
        match base64_decode(prd) {
            Some(bytes) => Device::from_bytes(bytes.as_slice()),
            None => Err(CdmError::InvalidBase64),
        }
    }

    fn parse_v2(data: &[u8]) -> (r: Result<Device, CdmError>)
        requires
            data@.len() >= 4,
        ensures
            device_result(r) == device_v2(data@),
    {
        let len = data.len();
        if len < 8 {
            return Err(CdmError::PrdTruncated);
        }
        let cert_len = (data[4] as u32 * 16777216 + data[5] as u32 * 65536 + data[6] as u32 * 256
            + data[7] as u32) as usize;
        if cert_len > len - 8 || 192 > len - 8 - cert_len {
            return Err(CdmError::PrdTruncated);
        }
        let offset = 8 + cert_len;
        let cert_bytes = vstd::slice::slice_subrange(data, 8, offset);
        let encryption_key = pair_from(data, offset);
        let signing_key = pair_from(data, offset + 96);
        let security_level = extract_security_level(cert_bytes)?;
        Ok(
            Device {
                security_level,
                group_key: None,
                encryption_key,
                signing_key,
                group_certificate: slice_to_vec(cert_bytes),
            },
        )
    }

    fn parse_v3(data: &[u8]) -> (r: Result<Device, CdmError>)
        requires
            data@.len() >= 4,
        ensures
            device_result(r) == device_v3(data@),
    {
        let len = data.len();
        if len < 296 {
            return Err(CdmError::PrdTruncated);
        }
        let group_key = pair_from(data, 4);
        let encryption_key = pair_from(data, 100);
        let signing_key = pair_from(data, 196);
        let cert_len = (data[292] as u32 * 16777216 + data[293] as u32 * 65536 + data[294] as u32
            * 256 + data[295] as u32) as usize;
        if cert_len > len - 296 {
            return Err(CdmError::PrdTruncated);
        }
        let cert_bytes = vstd::slice::slice_subrange(data, 296, 296 + cert_len);
        let security_level = extract_security_level(cert_bytes)?;
        let absent = is_all_zero(group_key.private_key.as_slice());
        Ok(
            Device {
                security_level,
                group_key: if absent {
                    None
                } else {
                    Some(group_key)
                },
                encryption_key,
                signing_key,
                group_certificate: slice_to_vec(cert_bytes),
            },
        )
    }

    /// Writes the device out as a device file of version 3, whatever version
    /// it was loaded from.
    pub fn to_bytes(&self) -> (r: Vec<u8>)
        ensures
            r@ == device_bytes(self@),
    {
        let mut buf: Vec<u8> = Vec::new();
        append(&mut buf, PRD_MAGIC.as_slice());
        buf.push(3);
        match &self.group_key {
            Some(k) => {
                append_pair(&mut buf, k);
            },
            None => {
                let zeros = [0u8; 96];
                append(&mut buf, zeros.as_slice());
            },
        }
        append_pair(&mut buf, &self.encryption_key);
        append_pair(&mut buf, &self.signing_key);
        let n = self.group_certificate.len();
        let tag = be32_array(((n as u64) % 0x1_0000_0000u64) as u32);
        append(&mut buf, tag.as_slice());
        append(&mut buf, self.group_certificate.as_slice());
        buf
    }

    /// The device file of version 3, as base64 text.
    pub fn to_base64(&self) -> (s: String)
        ensures
            s@ == base64_text(device_bytes(self@)),
    {
        let bytes = self.to_bytes();
        base64_encode(bytes.as_slice())
    }

    /// Parses the certificate chain that the device holds.
    pub fn group_certificate_chain(&self) -> (r: Result<BCertChain, CdmError>)
        ensures
            match chain_of(self@.group_certificate) {
                Ok(chain) => r is Ok && r->Ok_0@ == chain,
                Err(e) => r is Err && r->Err_0@ == CdmErrorView::Format(e),
            },
    {
        match BCertChain::from_bytes(self.group_certificate.as_slice()) {
            Ok(chain) => Ok(chain),
            Err(e) => Err(CdmError::Format(e)),
        }
    }

    /// The public key for encryption: X followed by Y.
    pub fn encryption_public_key(&self) -> (r: &[u8; 64])
        ensures
            r@ == self@.encryption_key.public_key,
    {
        &self.encryption_key.public_key
    }

    /// The public key for signing: X followed by Y.
    pub fn signing_public_key(&self) -> (r: &[u8; 64])
        ensures
            r@ == self@.signing_key.public_key,
    {
        &self.signing_key.public_key
    }

    /// The private scalar for encryption.
    pub fn encryption_private_key(&self) -> (r: &[u8; 32])
        ensures
            r@ == self@.encryption_key.private_key,
    {
        &self.encryption_key.private_key
    }

    /// The private scalar for signing.
    pub fn signing_private_key(&self) -> (r: &[u8; 32])
        ensures
            r@ == self@.signing_key.private_key,
    {
        &self.signing_key.private_key
    }
}

/// Whether a key pair has the lengths of one: 32 bytes of scalar, 64 of
/// point.
pub open spec fn pair_is_whole(k: EccKeyPairView) -> bool {
    k.private_key.len() == 32 && k.public_key.len() == 64
}

/// Writing and loading a device gives the device back, where the device is
/// one that loading can give: its security level is that of its certificate,
/// its group key, if it has one, has a private scalar other than zero, and
/// its certificate is short enough for its length to be written.
pub proof fn lemma_device_round_trip(dev: DeviceView)
    requires
        pair_is_whole(dev.encryption_key),
        pair_is_whole(dev.signing_key),
        dev.group_key is Some ==> pair_is_whole(dev.group_key->Some_0) && !all_zero(
            dev.group_key->Some_0.private_key,
        ),
        dev.group_certificate.len() < 0x1_0000_0000,
        security_level_of(dev.group_certificate) == Ok::<u32, CdmErrorView>(dev.security_level),
    ensures
        device_of(device_bytes(dev)) == Ok::<DeviceView, CdmErrorView>(dev),
{
    let n = dev.group_certificate.len() as int;
    let b = device_bytes(dev);
    let slot = match dev.group_key {
        Some(k) => pair_bytes(k),
        None => Seq::new(96, |i: int| 0u8),
    };
    assert(slot.len() == 96);
    assert(b.subrange(0, 3) =~= prd_magic());
    assert(b.subrange(4, 100) =~= slot);
    assert(b.subrange(4, 36) =~= slot.subrange(0, 32));
    assert(b.subrange(36, 100) =~= slot.subrange(32, 96));
    assert(b.subrange(100, 132) =~= dev.encryption_key.private_key);
    assert(b.subrange(132, 196) =~= dev.encryption_key.public_key);
    assert(b.subrange(196, 228) =~= dev.signing_key.private_key);
    assert(b.subrange(228, 292) =~= dev.signing_key.public_key);
    assert(b.subrange(292, 296) =~= be32_bytes(n as u32));
    crate::prd::lemma_be32_round_trip(n as u32, b, 292);
    assert(b.subrange(296, 296 + n) =~= dev.group_certificate);
    match dev.group_key {
        Some(k) => {
            assert(slot.subrange(0, 32) =~= k.private_key);
            assert(slot.subrange(32, 96) =~= k.public_key);
        },
        None => {
            assert(all_zero(b.subrange(4, 36)));
        },
    }
}

} // verus!
