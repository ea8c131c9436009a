//! Device files: the container that keeps a device's key pairs and its
//! certificate chain.
//!
//! A file starts with `PRD` and a version byte. Version 1 holds a group key
//! of declared length and the certificate; version 2 holds the certificate
//! and then the encryption and signing keys; version 3 holds the group,
//! encryption and signing keys and then the certificate. Every key is 96
//! bytes: the private scalar and then the public point.

use vstd::prelude::*;

use crate::bytes::{append, array_at, slice_to_vec};
use crate::error::{eof, FormatError, FormatErrorView};
use crate::reader::{be32_at, utf8_lossy, utf8_lossy_text};

verus! {

/// The three bytes that open a device file: `PRD`.
pub const PRD_MAGIC: [u8; 3] = [0x50, 0x52, 0x44];

/// The bytes `PRD` as a sequence.
pub open spec fn prd_magic() -> Seq<u8> {
    seq![0x50u8, 0x52u8, 0x44u8]
}

/// A key pair as a device file stores it: the private scalar and then the
/// public point, X followed by Y.
#[derive(Debug, Clone, PartialEq, Eq)]
pub struct RawEccKey {
    pub private_key: [u8; 32],
    pub public_key: [u8; 64],
}

/// [`RawEccKey`] as a mathematical value.
pub struct RawEccKeyView {
    pub private_key: Seq<u8>,
    pub public_key: Seq<u8>,
}

impl View for RawEccKey {
    type V = RawEccKeyView;

    open spec fn view(&self) -> RawEccKeyView {
        RawEccKeyView { private_key: self.private_key@, public_key: self.public_key@ }
    }
}

/// A parsed device file.
#[derive(Debug, Clone, PartialEq, Eq)]
pub struct PrdFile {
    pub version: u8,
    /// Present in versions 1 and 3.
    pub group_key: Option<RawEccKey>,
    /// Absent in version 1.
    pub encryption_key: Option<RawEccKey>,
    /// Absent in version 1.
    pub signing_key: Option<RawEccKey>,
    /// The certificate chain, as bytes.
    pub group_certificate: Vec<u8>,
}

/// [`PrdFile`] as a mathematical value.
pub struct PrdFileView {
    pub version: u8,
    pub group_key: Option<RawEccKeyView>,
    pub encryption_key: Option<RawEccKeyView>,
    pub signing_key: Option<RawEccKeyView>,
    pub group_certificate: Seq<u8>,
}

/// An optional key as a mathematical value.
pub open spec fn optional_key(k: Option<RawEccKey>) -> Option<RawEccKeyView> {
    match k {
        Some(key) => Some(key@),
        None => None,
    }
}

impl View for PrdFile {
    type V = PrdFileView;

    open spec fn view(&self) -> PrdFileView {
        PrdFileView {
            version: self.version,
            group_key: optional_key(self.group_key),
            encryption_key: optional_key(self.encryption_key),
            signing_key: optional_key(self.signing_key),
            group_certificate: self.group_certificate@,
        }
    }
}

/// The key pair that the 96 bytes of `d` from offset `at` on hold.
pub open spec fn key_at(d: Seq<u8>, at: int) -> RawEccKeyView {
    RawEccKeyView { private_key: d.subrange(at, at + 32), public_key: d.subrange(at + 32, at + 96) }
}

/// The bytes of a key pair: scalar, then point.
pub open spec fn key_bytes(k: RawEccKeyView) -> Seq<u8> {
    k.private_key + k.public_key
}

/// The 96 bytes that stand for a key pair that may be absent: zeros where it
/// is.
pub open spec fn slot_bytes(k: Option<RawEccKeyView>) -> Seq<u8> {
    match k {
        Some(key) => key_bytes(key),
        None => Seq::new(96, |i: int| 0u8),
    }
}

/// The four big-endian bytes of `v`.
pub open spec fn be32_bytes(v: u32) -> Seq<u8> {
    seq![
        (v / 16777216) as u8,
        ((v / 65536) % 256) as u8,
        ((v / 256) % 256) as u8,
        (v % 256) as u8,
    ]
}

/// A file of version 1: a group key of declared length, of which the first
/// 96 bytes count (or the first 32, as a private scalar without its point),
/// and the certificate.
pub open spec fn prd_v1(d: Seq<u8>) -> Result<PrdFileView, FormatErrorView> {
    let len = d.len() as int;
    if len < 8 {
        Err(eof(8, len))
    } else {
        let key_len = be32_at(d, 4) as int;
        let after_key = 8 + key_len;
        if len < after_key {
            Err(eof(after_key, len))
        } else if len < after_key + 4 {
            Err(eof(after_key + 4, len))
        } else {
            let cert_len = be32_at(d, after_key) as int;
            if len < after_key + 4 + cert_len {
                Err(eof(after_key + 4 + cert_len, len))
            } else {
                Ok(
                    PrdFileView {
                        version: 1,
                        group_key: if key_len >= 96 {
                            Some(key_at(d, 8))
                        } else if key_len >= 32 {
                            Some(
                                RawEccKeyView {
                                    private_key: d.subrange(8, 40),
                                    public_key: Seq::new(64, |i: int| 0u8),
                                },
                            )
                        } else {
                            None
                        },
                        encryption_key: None,
                        signing_key: None,
                        group_certificate: d.subrange(after_key + 4, after_key + 4 + cert_len),
                    },
                )
            }
        }
    }
}

/// A file of version 2: the certificate, then the encryption and signing
/// keys.
pub open spec fn prd_v2(d: Seq<u8>) -> Result<PrdFileView, FormatErrorView> {
    let len = d.len() as int;
    if len < 8 {
        Err(eof(8, len))
    } else {
        let after_cert = 8 + be32_at(d, 4);
        if len < after_cert {
            Err(eof(after_cert, len))
        } else if len < after_cert + 96 {
            Err(eof(after_cert + 96, len))
        } else if len < after_cert + 192 {
            Err(eof(after_cert + 192, len))
        } else {
            Ok(
                PrdFileView {
                    version: 2,
                    group_key: None,
                    encryption_key: Some(key_at(d, after_cert)),
                    signing_key: Some(key_at(d, after_cert + 96)),
                    group_certificate: d.subrange(8, after_cert),
                },
            )
        }
    }
}

/// A file of version 3: the group, encryption and signing keys, then the
/// certificate.
pub open spec fn prd_v3(d: Seq<u8>) -> Result<PrdFileView, FormatErrorView> {
    let len = d.len() as int;
    if len < 100 {
        Err(eof(100, len))
    } else if len < 196 {
        Err(eof(196, len))
    } else if len < 292 {
        Err(eof(292, len))
    } else if len < 296 {
        Err(eof(296, len))
    } else if len < 296 + be32_at(d, 292) {
        Err(eof(296 + be32_at(d, 292), len))
    } else {
        Ok(
            PrdFileView {
                version: 3,
                group_key: Some(key_at(d, 4)),
                encryption_key: Some(key_at(d, 100)),
                signing_key: Some(key_at(d, 196)),
                group_certificate: d.subrange(296, 296 + be32_at(d, 292)),
            },
        )
    }
}

/// The device file that the bytes `d` encode, or the error with which they
/// are refused.
pub open spec fn prd_of(d: Seq<u8>) -> Result<PrdFileView, FormatErrorView> {
    if d.len() < 4 {
        Err(eof(4, d.len() as int))
    } else if d.subrange(0, 3) != prd_magic() {
        Err(
            FormatErrorView::InvalidMagic {
                expected: "PRD"@,
                got: utf8_lossy_text(d.subrange(0, 3)),
            },
        )
    } else if d[3] == 1 {
        prd_v1(d)
    } else if d[3] == 2 {
        prd_v2(d)
    } else if d[3] == 3 {
        prd_v3(d)
    } else {
        Err(FormatErrorView::UnsupportedVersion(d[3]))
    }
}

/// The bytes of a device file of version 3 that holds `f`. Absent keys are
/// written as zeros; the length of the certificate is written modulo 2^32.
pub open spec fn prd_bytes(f: PrdFileView) -> Seq<u8> {
    prd_magic() + seq![3u8] + slot_bytes(f.group_key) + slot_bytes(f.encryption_key) + slot_bytes(
        f.signing_key,
    ) + be32_bytes((f.group_certificate.len() % 0x1_0000_0000) as u32) + f.group_certificate
}

/// A parse result with both sides as mathematical values.
pub open spec fn prd_result(r: Result<PrdFile, FormatError>) -> Result<
    PrdFileView,
    FormatErrorView,
> {
    match r {
        Ok(f) => Ok(f@),
        Err(e) => Err(e@),
    }
}

/// The error of an input that ends before offset `offset + needed`.
fn short(data: &[u8], offset: usize, needed: usize) -> (e: FormatError)
    ensures
        e@ == eof(offset + needed, data@.len() as int),
{
    FormatError::UnexpectedEof { needed: offset.saturating_add(needed), have: data.len() }
}

/// Checks that `needed` bytes stand at offset `offset`.
fn ensure_len(data: &[u8], offset: usize, needed: usize) -> (r: Result<(), FormatError>)
    requires
        offset <= data@.len(),
    ensures
        data@.len() <= usize::MAX,
        r is Ok <==> offset + needed <= data@.len(),
        r is Err ==> r->Err_0@ == eof(offset + needed, data@.len() as int),
{
    if needed > data.len() - offset {
        Err(short(data, offset, needed))
    } else {
        Ok(())
    }
}

/// Reads a big-endian `u32` at offset `offset`.
fn read_u32be(data: &[u8], offset: usize) -> (r: Result<u32, FormatError>)
    requires
        offset <= data@.len(),
    ensures
        data@.len() <= usize::MAX,
        r is Ok <==> offset + 4 <= data@.len(),
        r is Ok ==> r->Ok_0 == be32_at(data@, offset as int),
        r is Err ==> r->Err_0@ == eof(offset + 4, data@.len() as int),
{
    if 4 > data.len() - offset {
        return Err(short(data, offset, 4));
    }
    Ok(
        data[offset] as u32 * 16777216 + data[offset + 1] as u32 * 65536 + data[offset + 2] as u32
            * 256 + data[offset + 3] as u32,
    )
}

/// The key pair at offset `at`.
fn key_from(data: &[u8], at: usize) -> (k: RawEccKey)
    requires
        at + 96 <= data@.len() <= usize::MAX,
    ensures
        k@ == key_at(data@, at as int),
{
    RawEccKey {
        private_key: array_at::<32>(data, at),
        public_key: array_at::<64>(data, at + 32),
    }
}

impl RawEccKey {
    /// Reads a key pair from the first 96 bytes of `data`.
    pub fn from_bytes(data: &[u8]) -> (r: Result<RawEccKey, FormatError>)
        ensures
            r is Ok <==> data@.len() >= 96,
            r is Ok ==> r->Ok_0@ == key_at(data@, 0),
            r is Err ==> r->Err_0@ == eof(96, data@.len() as int),
    {
        if data.len() < 96 {
            return Err(FormatError::UnexpectedEof { needed: 96, have: data.len() });
        }
        Ok(key_from(data, 0))
    }

    /// The 96 bytes of the key pair: scalar, then point.
    pub fn to_bytes(&self) -> (r: [u8; 96])
        ensures
            r@ == key_bytes(self@),
    {
        let mut buf = [0u8; 96];
        let mut i: usize = 0;
        while i < 32
            invariant
                i <= 32,
                forall|j: int| 0 <= j < i ==> buf@[j] == self.private_key@[j],
            decreases 32 - i,
        {
            buf[i] = self.private_key[i];
            i = i + 1;
        }
        let mut k: usize = 0;
        while k < 64
            invariant
                k <= 64,
                forall|j: int| 0 <= j < 32 ==> buf@[j] == self.private_key@[j],
                forall|j: int| 0 <= j < k ==> buf@[32 + j] == self.public_key@[j],
            decreases 64 - k,
        {
            buf[32 + k] = self.public_key[k];
            k = k + 1;
        }
        buf
    }
}

/// Appends the 96 bytes of a key slot.
fn append_slot(out: &mut Vec<u8>, key: &Option<RawEccKey>)
    ensures
        final(out)@ == old(out)@ + slot_bytes(optional_key(*key)),
{
    match key {
        Some(k) => {
            let bytes = k.to_bytes();
            append(out, bytes.as_slice());
        },
        None => {
            let zeros = [0u8; 96];
            append(out, zeros.as_slice());
        },
    }
}

impl PrdFile {
    /// Parses a device file of version 1, 2 or 3.
    pub fn from_bytes(data: &[u8]) -> (r: Result<PrdFile, FormatError>)
        ensures
            prd_result(r) == prd_of(data@),
    {
        if data.len() < 4 {
            return Err(FormatError::UnexpectedEof { needed: 4, have: data.len() });
        }
        let magic = vstd::slice::slice_subrange(data, 0, 3);
        if !(magic[0] == PRD_MAGIC[0] && magic[1] == PRD_MAGIC[1] && magic[2] == PRD_MAGIC[2]) {
            return Err(FormatError::InvalidMagic { expected: "PRD", got: utf8_lossy(magic) });
        }
        assert(magic@ =~= prd_magic());
        let version = data[3];
        if version == 1 {
            PrdFile::parse_v1(data)
        } else if version == 2 {
            PrdFile::parse_v2(data)
        } else if version == 3 {
            PrdFile::parse_v3(data)
        } else {
            Err(FormatError::UnsupportedVersion(version))
        }
    }

    fn parse_v1(data: &[u8]) -> (r: Result<PrdFile, FormatError>)
        requires
            data@.len() >= 4,
        ensures
            prd_result(r) == prd_v1(data@),
    {
        let key_len = read_u32be(data, 4)? as usize;
        ensure_len(data, 8, key_len)?;
        let group_key = if key_len >= 96 {
            Some(key_from(data, 8))
        } else if key_len >= 32 {
            let public_key = [0u8; 64];
            assert(public_key@ =~= Seq::new(64, |i: int| 0u8));
            Some(RawEccKey { private_key: array_at::<32>(data, 8), public_key })
        } else {
            None
        };
        let offset = 8 + key_len;
        let cert_len = read_u32be(data, offset)? as usize;
        ensure_len(data, offset + 4, cert_len)?;
        let group_certificate = slice_to_vec(
            vstd::slice::slice_subrange(data, offset + 4, offset + 4 + cert_len),
        );
        Ok(
            PrdFile {
                version: 1,
                group_key,
                encryption_key: None,
                signing_key: None,
                group_certificate,
            },
        )
    }

    fn parse_v2(data: &[u8]) -> (r: Result<PrdFile, FormatError>)
        requires
            data@.len() >= 4,
        ensures
            prd_result(r) == prd_v2(data@),
    {
        let cert_len = read_u32be(data, 4)? as usize;
        ensure_len(data, 8, cert_len)?;
        let offset = 8 + cert_len;
        let group_certificate = slice_to_vec(vstd::slice::slice_subrange(data, 8, offset));
        ensure_len(data, offset, 96)?;
        let encryption_key = key_from(data, offset);
        ensure_len(data, offset + 96, 96)?;
        let signing_key = key_from(data, offset + 96);
        Ok(
            PrdFile {
                version: 2,
                group_key: None,
                encryption_key: Some(encryption_key),
                signing_key: Some(signing_key),
                group_certificate,
            },
        )
    }

    fn parse_v3(data: &[u8]) -> (r: Result<PrdFile, FormatError>)
        requires
            data@.len() >= 4,
        ensures
            prd_result(r) == prd_v3(data@),
    {
        ensure_len(data, 4, 96)?;
        let group_key = key_from(data, 4);
        ensure_len(data, 100, 96)?;
        let encryption_key = key_from(data, 100);
        ensure_len(data, 196, 96)?;
        let signing_key = key_from(data, 196);
        let cert_len = read_u32be(data, 292)? as usize;
        ensure_len(data, 296, cert_len)?;
        let group_certificate = slice_to_vec(
            vstd::slice::slice_subrange(data, 296, 296 + cert_len),
        );
        Ok(
            PrdFile {
                version: 3,
                group_key: Some(group_key),
                encryption_key: Some(encryption_key),
                signing_key: Some(signing_key),
                group_certificate,
            },
        )
    }

    /// Writes the file out in version 3, whatever version it was read from.
    pub fn to_bytes(&self) -> (r: Vec<u8>)
        ensures
            r@ == prd_bytes(self@),
    {
        let mut buf: Vec<u8> = Vec::new();
        append(&mut buf, PRD_MAGIC.as_slice());
        buf.push(3);
        append_slot(&mut buf, &self.group_key);
        append_slot(&mut buf, &self.encryption_key);
        append_slot(&mut buf, &self.signing_key);
        let n = self.group_certificate.len();
        let length: u32 = ((n as u64) % 0x1_0000_0000u64) as u32;
        let tag = be32_array(length);
        append(&mut buf, tag.as_slice());
        append(&mut buf, self.group_certificate.as_slice());
        buf
    }
}

/// The four big-endian bytes of `v`.
pub fn be32_array(v: u32) -> (r: [u8; 4])
    ensures
        r@ == be32_bytes(v),
{
    let r = [
        (v / 16777216) as u8,
        ((v / 65536) % 256) as u8,
        ((v / 256) % 256) as u8,
        (v % 256) as u8,
    ];
    r
}

/// The four big-endian bytes of a number spell that number.
pub proof fn lemma_be32_round_trip(v: u32, d: Seq<u8>, at: int)
    requires
        0 <= at,
        at + 4 <= d.len(),
        d.subrange(at, at + 4) == be32_bytes(v),
    ensures
        be32_at(d, at) == v,
{
}

/// Whether a key pair has the lengths of one: 32 bytes of scalar, 64 of
/// point.
pub open spec fn key_is_whole(k: RawEccKeyView) -> bool {
    k.private_key.len() == 32 && k.public_key.len() == 64
}

/// Writing and reading a device file gives the file back: a file of
/// version 3 that holds all three keys, and a certificate short enough for
/// its length to be written, is read from its own bytes as it was.
pub proof fn lemma_prd_round_trip(f: PrdFileView)
    requires
        f.version == 3,
        f.group_key is Some && key_is_whole(f.group_key->Some_0),
        f.encryption_key is Some && key_is_whole(f.encryption_key->Some_0),
        f.signing_key is Some && key_is_whole(f.signing_key->Some_0),
        f.group_certificate.len() < 0x1_0000_0000,
    ensures
        prd_of(prd_bytes(f)) == Ok::<PrdFileView, FormatErrorView>(f),
{
    let g = f.group_key->Some_0;
    let e = f.encryption_key->Some_0;
    let s = f.signing_key->Some_0;
    let n = f.group_certificate.len() as int;
    let b = prd_bytes(f);
    assert(b.subrange(0, 3) =~= prd_magic());
    assert(b.subrange(4, 36) =~= g.private_key);
    assert(b.subrange(36, 100) =~= g.public_key);
    assert(b.subrange(100, 132) =~= e.private_key);
    assert(b.subrange(132, 196) =~= e.public_key);
    assert(b.subrange(196, 228) =~= s.private_key);
    assert(b.subrange(228, 292) =~= s.public_key);
    assert(b.subrange(292, 296) =~= be32_bytes(n as u32));
    lemma_be32_round_trip(n as u32, b, 292);
    assert(b.subrange(296, 296 + n) =~= f.group_certificate);
}

} // verus!
