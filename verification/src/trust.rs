//! Verification of a certificate chain against a trust anchor.
//!
//! Every certificate below the last must hold as many bytes as it declares
//! signed and carry a signature over them that verifies under the signing key
//! of the certificate after it, and
//! the last certificate must declare the anchor as its own signing key. One
//! failed link fails the chain: there is no partial trust.

use vstd::prelude::*;

use crate::bcert::model::{BCert, BCertChain, BCertView};
use crate::bytes::{array_at, bytes_equal, slice_to_vec};
use crate::crypto::signing::{ecdsa_sha256_verify, verdict_of};
use crate::error::{CdmError, CdmErrorView, ChainFault};

verus! {

/// The keys of the leaf certificate of a chain that was verified. Either may
/// be absent: that is for the operation that needs the key to object to.
#[derive(Debug, Clone, PartialEq, Eq)]
pub struct VerifiedKeys {
    pub signing_key: Option<Vec<u8>>,
    pub encryption_key: Option<Vec<u8>>,
}

/// [`VerifiedKeys`] as a mathematical value.
pub struct VerifiedKeysView {
    pub signing_key: Option<Seq<u8>>,
    pub encryption_key: Option<Seq<u8>>,
}

/// An optional owned byte string as a mathematical value.
pub open spec fn optional_bytes(b: Option<Vec<u8>>) -> Option<Seq<u8>> {
    match b {
        Some(v) => Some(v@),
        None => None,
    }
}

impl View for VerifiedKeys {
    type V = VerifiedKeysView;

    open spec fn view(&self) -> VerifiedKeysView {
        VerifiedKeysView {
            signing_key: optional_bytes(self.signing_key),
            encryption_key: optional_bytes(self.encryption_key),
        }
    }
}

/// What is wrong with the link from a certificate at position `i` to its
/// issuer, the certificate after it; `None` where the link holds.
pub open spec fn pair_fault(cert: BCertView, issuer: BCertView, i: int) -> Option<ChainFault> {
    if cert.certificate_length > cert.raw.len() {
        Some(ChainFault::SignedLength(i as usize))
    } else {
        match cert.signature_info() {
            None => Some(ChainFault::MissingSignature(i as usize)),
            Some(block) => match issuer.signing_key() {
                None => Some(ChainFault::MissingSigningKey((i + 1) as usize)),
                Some(key) => if key.len() != 64 {
                    Some(ChainFault::MissingSigningKey((i + 1) as usize))
                } else if verdict_of(key, cert.signed_bytes(), block.signature) is Ok {
                    None
                } else {
                    Some(ChainFault::SignatureMismatch(i as usize))
                },
            },
        }
    }
}

/// What is wrong with link `i` of a chain.
pub open spec fn link_fault(certs: Seq<BCertView>, i: int) -> Option<ChainFault> {
    pair_fault(certs[i], certs[i + 1], i)
}

/// The fault of the first link at or after `from` that does not hold.
pub open spec fn first_fault(certs: Seq<BCertView>, from: int) -> Option<ChainFault>
    decreases certs.len() - from,
{
    if from < 0 || from + 1 >= certs.len() {
        None
    } else {
        match link_fault(certs, from) {
            Some(f) => Some(f),
            None => first_fault(certs, from + 1),
        }
    }
}

/// Whether the last certificate declares `anchor` as its signing key.
pub open spec fn root_is_anchor(certs: Seq<BCertView>, anchor: Seq<u8>) -> bool {
    certs.len() > 0 && certs[certs.len() - 1].signing_key() == Some(anchor)
}

/// The verdict on a chain: the keys of its leaf, or the first fault. Links
/// are judged from the leaf upwards, the root last.
pub open spec fn chain_verdict(certs: Seq<BCertView>, anchor: Seq<u8>) -> Result<
    VerifiedKeysView,
    ChainFault,
> {
    if certs.len() == 0 {
        Err(ChainFault::Empty)
    } else {
        match first_fault(certs, 0) {
            Some(f) => Err(f),
            None => if !root_is_anchor(certs, anchor) {
                Err(ChainFault::RootNotTrusted)
            } else {
                Ok(
                    VerifiedKeysView {
                        signing_key: certs[0].signing_key(),
                        encryption_key: certs[0].encryption_key(),
                    },
                )
            },
        }
    }
}

/// Judges the link from `cert` to `issuer`, which stand at positions `i` and
/// `i + 1` of their chain.
fn check_link(cert: &BCert, issuer: &BCert, i: usize) -> (r: Option<ChainFault>)
    requires
        i < usize::MAX,
    ensures
        r == pair_fault(cert@, issuer@, i as int),
{
    if !cert.signed_length_fits() {
        return Some(ChainFault::SignedLength(i));
    }
    let block = match cert.signature_info() {
        Some(b) => b,
        None => {
            return Some(ChainFault::MissingSignature(i));
        },
    };
    let key = match issuer.signing_key() {
        Some(k) => k,
        None => {
            return Some(ChainFault::MissingSigningKey(i + 1));
        },
    };
    if key.len() != 64 {
        return Some(ChainFault::MissingSigningKey(i + 1));
    }
    let public_key: [u8; 64] = array_at::<64>(key, 0);
    assert(public_key@ =~= key@);
    match ecdsa_sha256_verify(&public_key, cert.signed_bytes(), block.signature.as_slice()) {
        Ok(()) => None,
        Err(_) => Some(ChainFault::SignatureMismatch(i)),
    }
}

/// An owned copy of an optional borrowed byte string.
fn owned(b: Option<&[u8]>) -> (r: Option<Vec<u8>>)
    ensures
        match b {
            Some(s) => r is Some && r->Some_0@ == s@,
            None => r is None,
        },
{
    match b {
        Some(s) => Some(slice_to_vec(s)),
        None => None,
    }
}

/// Verifies `chain` against the trust anchor, a public key that the caller
/// holds from elsewhere.
///
/// Succeeds exactly when the chain is not empty, every link holds and the
/// last certificate declares the anchor; the result then holds the keys of
/// the leaf. Every failure is `ChainUntrusted`, with the first fault found.
pub fn verify_chain(chain: &BCertChain, trust_anchor: &[u8]) -> (r: Result<VerifiedKeys, CdmError>)
    ensures
        match chain_verdict(chain@.certificates, trust_anchor@) {
            Ok(keys) => r is Ok && r->Ok_0@ == keys,
            Err(f) => r is Err && r->Err_0@ == CdmErrorView::ChainUntrusted(f),
        },
{
    let n = chain.certificates.len();
    if n == 0 {
        return Err(CdmError::ChainUntrusted(ChainFault::Empty));
    }
    let ghost certs = chain@.certificates;
    let mut i: usize = 0;
    while i + 1 < n
        invariant
            0 < n == chain.certificates.len(),
            certs == chain@.certificates,
            i < n,
            first_fault(certs, 0) == first_fault(certs, i as int),
        decreases n - i,
    {
        match check_link(&chain.certificates[i], &chain.certificates[i + 1], i) {
            Some(f) => {
                return Err(CdmError::ChainUntrusted(f));
            },
            None => {},
        }
        i = i + 1;
    }
    let root = &chain.certificates[n - 1];
    let trusted = match root.signing_key() {
        Some(k) => bytes_equal(k, trust_anchor),
        None => false,
    };
    if !trusted {
        return Err(CdmError::ChainUntrusted(ChainFault::RootNotTrusted));
    }
    let leaf = &chain.certificates[0];
    Ok(
        VerifiedKeys {
            signing_key: owned(leaf.signing_key()),
            encryption_key: owned(leaf.encryption_key()),
        },
    )
}

/// A fault at or after `from` is found by the search from `from` on.
proof fn lemma_fault_is_found(certs: Seq<BCertView>, from: int, i: int)
    requires
        0 <= from <= i,
        i + 1 < certs.len(),
        link_fault(certs, i) is Some,
    ensures
        first_fault(certs, from) is Some,
    decreases i - from,
{
    if from < i && link_fault(certs, from) is None {
        lemma_fault_is_found(certs, from + 1, i);
    }
}

/// One broken link breaks the chain. If the signature of any certificate
/// below the root does not verify over that certificate's signed bytes under
/// its issuer's key (or the block or the key is missing), the chain is
/// refused, whatever the other links and the anchor are.
pub proof fn lemma_broken_link_is_refused(certs: Seq<BCertView>, anchor: Seq<u8>, i: int)
    requires
        0 <= i,
        i + 1 < certs.len(),
        link_fault(certs, i) is Some,
    ensures
        chain_verdict(certs, anchor) is Err,
{
    lemma_fault_is_found(certs, 0, i);
}

/// A clean search from `from` on means that every link at or after `from`
/// holds.
proof fn lemma_clean_search(certs: Seq<BCertView>, from: int, i: int)
    requires
        0 <= from <= i,
        i + 1 < certs.len(),
        first_fault(certs, from) is None,
    ensures
        link_fault(certs, i) is None,
    decreases i - from,
{
    if from < i {
        lemma_clean_search(certs, from + 1, i);
    }
}

/// In a trusted chain every certificate below the root is vouched for by the
/// one after it, and the root is the anchor: trust reaches the leaf only
/// through an unbroken line of signatures.
pub proof fn lemma_trusted_chain_is_unbroken(certs: Seq<BCertView>, anchor: Seq<u8>, i: int)
    requires
        chain_verdict(certs, anchor) is Ok,
        0 <= i,
        i + 1 < certs.len(),
    ensures
        root_is_anchor(certs, anchor),
        certs[i].certificate_length <= certs[i].raw.len(),
        certs[i].signature_info() is Some,
        certs[i + 1].signing_key() is Some,
        verdict_of(
            certs[i + 1].signing_key()->Some_0,
            certs[i].signed_bytes(),
            certs[i].signature_info()->Some_0.signature,
        ) is Ok,
{
    lemma_clean_search(certs, 0, i);
}

/// A chain of one certificate is trusted exactly when that certificate
/// declares the anchor.
pub proof fn lemma_single_certificate(certs: Seq<BCertView>, anchor: Seq<u8>)
    requires
        certs.len() == 1,
    ensures
        chain_verdict(certs, anchor) is Ok <==> certs[0].signing_key() == Some(anchor),
{
}

} // verus!
