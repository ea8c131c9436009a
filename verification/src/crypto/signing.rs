//! ECDSA with SHA-256 over the curve, on raw keys and raw or DER signatures.

use vstd::prelude::*;

use crate::crypto::curve::{
    base_mul, be_nat, ecdsa_sign, ecdsa_verify, ecdsa_verify_der, is_curve_point, p256_base_mul,
    p256_sign, p256_verify, p256_verify_der, point_is_valid, scalar_in_range, scalar_is_valid,
};
use crate::crypto::elgamal::bytes_result;
use crate::error::{CdmError, CdmErrorView};

verus! {

/// Whether `sk` may sign: a scalar in range other than zero.
pub open spec fn is_signing_key(sk: Seq<u8>) -> bool {
    scalar_in_range(sk) && be_nat(sk) != 0
}

/// The signature of `message` under `private_key`. It depends on nothing but
/// the two: no randomness enters.
pub open spec fn signature_of(private_key: Seq<u8>, message: Seq<u8>) -> Result<
    Seq<u8>,
    CdmErrorView,
> {
    if !is_signing_key(private_key) {
        Err(CdmErrorView::InvalidScalar)
    } else {
        match p256_sign(private_key, message) {
            Some(sig) => Ok(sig),
            None => Err(CdmErrorView::SigningFailed),
        }
    }
}

/// Whether `signature` is accepted for `message` under `public_key`. A
/// signature of 64 bytes is read as R followed by S, any other as ASN.1 DER.
/// A signature that cannot be read and one that does not match are refused
/// alike.
pub open spec fn verdict_of(public_key: Seq<u8>, message: Seq<u8>, signature: Seq<u8>) -> Result<
    (),
    CdmErrorView,
> {
    if !is_curve_point(public_key) {
        Err(CdmErrorView::PointNotOnCurve)
    } else if signature.len() == 64 {
        if p256_verify(public_key, message, signature) {
            Ok(())
        } else {
            Err(CdmErrorView::EcdsaSignatureMismatch)
        }
    } else {
        if p256_verify_der(public_key, message, signature) {
            Ok(())
        } else {
            Err(CdmErrorView::EcdsaSignatureMismatch)
        }
    }
}

/// The public key of the scalar `private_key`: the product of the generator
/// and the scalar.
pub open spec fn public_key_of(private_key: Seq<u8>) -> Result<Seq<u8>, CdmErrorView> {
    if !scalar_in_range(private_key) {
        Err(CdmErrorView::InvalidScalar)
    } else {
        match p256_base_mul(private_key) {
            Some(pk) => Ok(pk),
            None => Err(CdmErrorView::IdentityPoint),
        }
    }
}

/// A result without a value, as a mathematical value.
pub open spec fn unit_result(r: Result<(), CdmError>) -> Result<(), CdmErrorView> {
    match r {
        Ok(()) => Ok(()),
        Err(e) => Err(e@),
    }
}

/// A sequence in which some byte is not zero spells a number that is not
/// zero.
pub proof fn lemma_be_nat_nonzero(s: Seq<u8>, i: int)
    requires
        0 <= i < s.len(),
        s[i] != 0u8,
    ensures
        be_nat(s) != 0,
    decreases s.len(),
{
    if i < s.len() - 1 {
        lemma_be_nat_nonzero(s.drop_last(), i);
    }
}

/// A sequence of zero bytes spells zero.
pub proof fn lemma_be_nat_zero(s: Seq<u8>)
    requires
        forall|i: int| 0 <= i < s.len() ==> s[i] == 0u8,
    ensures
        be_nat(s) == 0,
    decreases s.len(),
{
    if s.len() > 0 {
        lemma_be_nat_zero(s.drop_last());
    }
}

/// Whether `sk` may sign.
pub fn signing_key_is_valid(sk: &[u8; 32]) -> (r: bool)
    ensures
        r == is_signing_key(sk@),
{
    if !scalar_is_valid(sk) {
        return false;
    }
    let mut i: usize = 0;
    while i < 32
        invariant
            i <= 32,
            scalar_in_range(sk@),
            forall|j: int| 0 <= j < i ==> sk@[j] == 0u8,
        decreases 32 - i,
    {
        if sk[i] != 0 {
            proof {
                lemma_be_nat_nonzero(sk@, i as int);
            }
            return true;
        }
        i = i + 1;
    }
    proof {
        lemma_be_nat_zero(sk@);
    }
    false
}

/// The public key that belongs to a private scalar.
pub fn ecc256_public_key(private_key: &[u8; 32]) -> (r: Result<[u8; 64], CdmError>)
    ensures
        bytes_result(r) == public_key_of(private_key@),
        r is Ok ==> is_curve_point(r->Ok_0@),
{
    if !scalar_is_valid(private_key) {
        return Err(CdmError::InvalidScalar);
    }
    match base_mul(private_key) {
        Some(pk) => Ok(pk),
        None => Err(CdmError::IdentityPoint),
    }
}

/// Signs a message with a private scalar; the message is hashed here.
///
/// The signature is R followed by S, 32 big-endian bytes each. The same key
/// and message always give the same signature, and that signature is
/// accepted by [`ecdsa_sha256_verify`] under the public key of the scalar.
pub fn ecdsa_sha256_sign(private_key: &[u8; 32], message: &[u8]) -> (r: Result<[u8; 64], CdmError>)
    ensures
        bytes_result(r) == signature_of(private_key@, message@),
        r is Ok && public_key_of(private_key@) is Ok && is_curve_point(
            public_key_of(private_key@)->Ok_0,
        ) ==> verdict_of(
            public_key_of(private_key@)->Ok_0,
            message@,
            r->Ok_0@,
        ) == Ok::<(), CdmErrorView>(()),
{
    if !signing_key_is_valid(private_key) {
        return Err(CdmError::InvalidScalar);
    }
    match ecdsa_sign(private_key, message) {
        Some(signature) => Ok(signature),
        None => Err(CdmError::SigningFailed),
    }
}

/// Verifies a signature over a message under a public key; the message is
/// hashed here.
pub fn ecdsa_sha256_verify(public_key: &[u8; 64], message: &[u8], signature: &[u8]) -> (r: Result<
    (),
    CdmError,
>)
    ensures
        unit_result(r) == verdict_of(public_key@, message@, signature@),
{
    if !point_is_valid(public_key) {
        return Err(CdmError::PointNotOnCurve);
    }
    let accepted = if signature.len() == 64 {
        ecdsa_verify(public_key, message, signature)
    } else {
        ecdsa_verify_der(public_key, message, signature)
    };
    if accepted {
        Ok(())
    } else {
        Err(CdmError::EcdsaSignatureMismatch)
    }
}

} // verus!
