//! What chain verification reads from a parsed certificate: attributes by
//! kind, keys by usage, and the bytes that the signature covers.

use vstd::prelude::*;

use crate::bcert::model::{
    AttributeData, AttributeDataView, BCert, BCertAttributeView, BCertChain, BCertView, BasicInfo,
    BasicInfoView, CertKey, CertKeyView, KeyInfo, SignatureInfo, SignatureInfoView,
    USAGE_ENCRYPT_KEY, USAGE_SIGN,
};
use crate::bcert::parse::{cert_at, certs_from, chain_of};

verus! {

/// The first basic-identity attribute among `attrs[from..]`.
pub open spec fn first_basic(attrs: Seq<BCertAttributeView>, from: int) -> Option<BasicInfoView>
    decreases attrs.len() - from,
{
    if from < 0 || from >= attrs.len() {
        None
    } else {
        match attrs[from].data {
            AttributeDataView::Basic(info) => Some(info),
            _ => first_basic(attrs, from + 1),
        }
    }
}

/// The first key-list attribute among `attrs[from..]`.
pub open spec fn first_key_info(attrs: Seq<BCertAttributeView>, from: int) -> Option<
    Seq<CertKeyView>,
>
    decreases attrs.len() - from,
{
    if from < 0 || from >= attrs.len() {
        None
    } else {
        match attrs[from].data {
            AttributeDataView::Key(keys) => Some(keys),
            _ => first_key_info(attrs, from + 1),
        }
    }
}

/// The first signature block among `attrs[from..]`.
pub open spec fn first_signature(attrs: Seq<BCertAttributeView>, from: int) -> Option<
    SignatureInfoView,
>
    decreases attrs.len() - from,
{
    if from < 0 || from >= attrs.len() {
        None
    } else {
        match attrs[from].data {
            AttributeDataView::Signature(info) => Some(info),
            _ => first_signature(attrs, from + 1),
        }
    }
}

/// The bytes of the first key among `keys[from..]` whose usages hold `usage`.
pub open spec fn key_in_list(keys: Seq<CertKeyView>, usage: u32, from: int) -> Option<Seq<u8>>
    decreases keys.len() - from,
{
    if from < 0 || from >= keys.len() {
        None
    } else if keys[from].usages.contains(usage) {
        Some(keys[from].key)
    } else {
        key_in_list(keys, usage, from + 1)
    }
}

/// The bytes of the first key with usage `usage` among the attributes
/// `attrs[from..]`: attributes are searched in order, and the keys of each
/// key list in order. The position of a key decides nothing else.
pub open spec fn key_with_usage(attrs: Seq<BCertAttributeView>, usage: u32, from: int) -> Option<
    Seq<u8>,
>
    decreases attrs.len() - from,
{
    if from < 0 || from >= attrs.len() {
        None
    } else {
        match attrs[from].data {
            AttributeDataView::Key(keys) => match key_in_list(keys, usage, 0) {
                Some(k) => Some(k),
                None => key_with_usage(attrs, usage, from + 1),
            },
            _ => key_with_usage(attrs, usage, from + 1),
        }
    }
}

impl BCertView {
    /// The bytes that the signature of the certificate covers: the first
    /// `certificate_length` bytes of the certificate as it was received, or
    /// all of them where fewer were received.
    pub open spec fn signed_bytes(self) -> Seq<u8> {
        if self.certificate_length <= self.raw.len() {
            self.raw.take(self.certificate_length as int)
        } else {
            self.raw
        }
    }

    /// The first basic-identity attribute of the certificate.
    pub open spec fn basic_info(self) -> Option<BasicInfoView> {
        first_basic(self.attributes, 0)
    }

    /// The first signature block of the certificate.
    pub open spec fn signature_info(self) -> Option<SignatureInfoView> {
        first_signature(self.attributes, 0)
    }

    /// The first key of the certificate that signs.
    pub open spec fn signing_key(self) -> Option<Seq<u8>> {
        key_with_usage(self.attributes, USAGE_SIGN, 0)
    }

    /// The first key of the certificate that encrypts keys.
    pub open spec fn encryption_key(self) -> Option<Seq<u8>> {
        key_with_usage(self.attributes, USAGE_ENCRYPT_KEY, 0)
    }
}

/// A byte sequence and an optional borrowed slice that agree.
pub open spec fn same_bytes(r: Option<&[u8]>, s: Option<Seq<u8>>) -> bool {
    match s {
        Some(b) => r is Some && r->Some_0@ == b,
        None => r is None,
    }
}

/// Whether `usage` is among `usages`.
pub fn has_usage(usages: &Vec<u32>, usage: u32) -> (r: bool)
    ensures
        r == usages@.contains(usage),
{
    let mut i: usize = 0;
    while i < usages.len()
        invariant
            i <= usages.len(),
            forall|j: int| 0 <= j < i ==> usages@[j] != usage,
        decreases usages.len() - i,
    {
        if usages[i] == usage {
            return true;
        }
        i = i + 1;
    }
    false
}

impl KeyInfo {
    /// The first key of the list that may be used for `usage`.
    pub fn key_for(&self, usage: u32) -> (r: Option<&[u8]>)
        ensures
            same_bytes(r, key_in_list(self@, usage, 0)),
    {
        let mut i: usize = 0;
        while i < self.keys.len()
            invariant
                i <= self.keys.len(),
                key_in_list(self@, usage, 0) == key_in_list(self@, usage, i as int),
            decreases self.keys.len() - i,
        {
            let k: &CertKey = &self.keys[i];
            if has_usage(&k.usages, usage) {
                return Some(k.key.as_slice());
            }
            i = i + 1;
        }
        None
    }
}

impl BCertChain {
    /// The first certificate: that of the device.
    pub fn leaf(&self) -> (r: Option<&BCert>)
        ensures
            self@.certificates.len() == 0 ==> r is None,
            self@.certificates.len() > 0 ==> r is Some && r->Some_0@ == self@.certificates[0],
    {
        if self.certificates.len() == 0 {
            None
        } else {
            Some(&self.certificates[0])
        }
    }

    /// The last certificate: that of the issuer at the root.
    pub fn root(&self) -> (r: Option<&BCert>)
        ensures
            self@.certificates.len() == 0 ==> r is None,
            self@.certificates.len() > 0 ==> r is Some && r->Some_0@
                == self@.certificates[self@.certificates.len() - 1],
    {
        let n = self.certificates.len();
        if n == 0 {
            None
        } else {
            Some(&self.certificates[n - 1])
        }
    }
}

impl BCert {
    /// The first basic-identity attribute.
    pub fn basic_info(&self) -> (r: Option<&BasicInfo>)
        ensures
            match self@.basic_info() {
                Some(info) => r is Some && r->Some_0@ == info,
                None => r is None,
            },
    {
        let mut i: usize = 0;
        while i < self.attributes.len()
            invariant
                i <= self.attributes.len(),
                first_basic(self@.attributes, 0) == first_basic(self@.attributes, i as int),
            decreases self.attributes.len() - i,
        {
            match &self.attributes[i].data {
                AttributeData::Basic(info) => {
                    return Some(info);
                },
                _ => {},
            }
            i = i + 1;
        }
        None
    }

    /// The first key-list attribute.
    pub fn key_info(&self) -> (r: Option<&KeyInfo>)
        ensures
            match first_key_info(self@.attributes, 0) {
                Some(keys) => r is Some && r->Some_0@ == keys,
                None => r is None,
            },
    {
        let mut i: usize = 0;
        while i < self.attributes.len()
            invariant
                i <= self.attributes.len(),
                first_key_info(self@.attributes, 0) == first_key_info(self@.attributes, i as int),
            decreases self.attributes.len() - i,
        {
            match &self.attributes[i].data {
                AttributeData::Key(info) => {
                    return Some(info);
                },
                _ => {},
            }
            i = i + 1;
        }
        None
    }

    /// The signature block.
    pub fn signature_info(&self) -> (r: Option<&SignatureInfo>)
        ensures
            match self@.signature_info() {
                Some(info) => r is Some && r->Some_0@ == info,
                None => r is None,
            },
    {
        let mut i: usize = 0;
        while i < self.attributes.len()
            invariant
                i <= self.attributes.len(),
                first_signature(self@.attributes, 0) == first_signature(
                    self@.attributes,
                    i as int,
                ),
            decreases self.attributes.len() - i,
        {
            match &self.attributes[i].data {
                AttributeData::Signature(info) => {
                    return Some(info);
                },
                _ => {},
            }
            i = i + 1;
        }
        None
    }

    /// The first key that may be used for `usage`, in the order of the
    /// attributes and of the keys within each.
    pub fn key_for_usage(&self, usage: u32) -> (r: Option<&[u8]>)
        ensures
            same_bytes(r, key_with_usage(self@.attributes, usage, 0)),
    {
        let mut i: usize = 0;
        while i < self.attributes.len()
            invariant
                i <= self.attributes.len(),
                key_with_usage(self@.attributes, usage, 0) == key_with_usage(
                    self@.attributes,
                    usage,
                    i as int,
                ),
            decreases self.attributes.len() - i,
        {
            match &self.attributes[i].data {
                AttributeData::Key(info) => {
                    match info.key_for(usage) {
                        Some(k) => {
                            return Some(k);
                        },
                        None => {},
                    }
                },
                _ => {},
            }
            i = i + 1;
        }
        None
    }

    /// The first key that signs.
    pub fn signing_key(&self) -> (r: Option<&[u8]>)
        ensures
            same_bytes(r, self@.signing_key()),
    {
        self.key_for_usage(USAGE_SIGN)
    }

    /// The first key that encrypts keys.
    pub fn encryption_key(&self) -> (r: Option<&[u8]>)
        ensures
            same_bytes(r, self@.encryption_key()),
    {
        self.key_for_usage(USAGE_ENCRYPT_KEY)
    }

    /// Whether the certificate holds as many bytes as it declares signed.
    pub fn signed_length_fits(&self) -> (r: bool)
        ensures
            r == (self@.certificate_length <= self@.raw.len()),
    {
        self.certificate_length as usize <= self.raw.len()
    }

    /// The bytes that the signature covers, as they were received.
    pub fn signed_bytes(&self) -> (r: &[u8])
        ensures
            r@ == self@.signed_bytes(),
    {
        let n = self.raw.len();
        let end: usize = if self.certificate_length as usize <= n {
            self.certificate_length as usize
        } else {
            n
        };
        let r = vstd::slice::slice_subrange(self.raw.as_slice(), 0, end);
        r
    }
}

/// Whether `part` stands in `whole` at offset `at`, byte for byte.
pub open spec fn stands_at(part: Seq<u8>, whole: Seq<u8>, at: int) -> bool {
    0 <= at && at + part.len() <= whole.len() && part == whole.subrange(at, at + part.len())
}

/// The signed bytes of a certificate are the input's own bytes: they stand
/// in the input where the certificate starts, and are never a re-encoding of
/// what was decoded.
pub proof fn lemma_signed_bytes_are_input(d: Seq<u8>, pos: int)
    requires
        0 <= pos,
        cert_at(d, pos) is Ok,
    ensures
        stands_at(cert_at(d, pos)->Ok_0.0.signed_bytes(), d, pos),
        cert_at(d, pos)->Ok_0.0.signed_bytes().len() <= cert_at(d, pos)->Ok_0.0.certificate_length,
        pos <= cert_at(d, pos)->Ok_0.1 <= d.len(),
{
    let s = cert_at(d, pos)->Ok_0.0.signed_bytes();
    assert(s =~= d.subrange(pos, pos + s.len()));
}

/// Whether the signed bytes of `cert` are a passage of `d`.
pub open spec fn signed_in(cert: BCertView, d: Seq<u8>) -> bool {
    exists|at: int| stands_at(cert.signed_bytes(), d, at)
}

/// Whether every certificate of `certs` has its signed bytes somewhere in `d`.
pub open spec fn all_signed_from(certs: Seq<BCertView>, d: Seq<u8>) -> bool {
    forall|i: int| 0 <= i < certs.len() ==> signed_in(#[trigger] certs[i], d)
}

proof fn lemma_certs_signed_from(d: Seq<u8>, pos: int, remaining: nat, acc: Seq<BCertView>)
    requires
        0 <= pos,
        all_signed_from(acc, d),
        certs_from(d, pos, remaining, acc) is Ok,
    ensures
        all_signed_from(certs_from(d, pos, remaining, acc)->Ok_0, d),
    decreases remaining,
{
    if remaining > 0 {
        lemma_signed_bytes_are_input(d, pos);
        let (c, next) = cert_at(d, pos)->Ok_0;
        let acc2 = acc.push(c);
        assert forall|i: int| 0 <= i < acc2.len() implies signed_in(#[trigger] acc2[i], d) by {}
        lemma_certs_signed_from(d, next, (remaining - 1) as nat, acc2);
    }
}

/// Parsing keeps the signed bytes literal: in every chain that is parsed from
/// `d`, each certificate's signed bytes are a passage of `d` itself. Checking
/// a signature again, over what the certificate hands out, is checking it
/// over the bytes that were received.
pub proof fn lemma_chain_signed_bytes_are_input(d: Seq<u8>)
    requires
        chain_of(d) is Ok,
    ensures
        all_signed_from(chain_of(d)->Ok_0.certificates, d),
{
    lemma_certs_signed_from(d, 20, crate::reader::be32_at(d, 16) as nat, Seq::empty());
}

} // verus!
