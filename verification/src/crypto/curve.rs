//! The curve arithmetic that this crate takes from `p256`.
//!
//! Points cross this boundary as 64 bytes, X followed by Y, both big-endian;
//! the identity of the curve, which has no such encoding, as `None`. Scalars
//! cross it as 32 big-endian bytes. Nothing in this module is proved: each
//! function states what the curve library is trusted to compute.

use p256::ecdsa::signature::{Signer, Verifier};
use p256::elliptic_curve::sec1::{Coordinates, FromEncodedPoint, ToEncodedPoint};
use p256::elliptic_curve::{Field, PrimeField};
use vstd::prelude::*;

verus! {

/// The prime of the coordinate field.
pub open spec fn field_prime() -> int {
    0xffffffff00000001000000000000000000000000ffffffffffffffffffffffffint
}

/// The constant term of the curve equation `y^2 = x^3 - 3x + b`.
pub open spec fn curve_b() -> int {
    0x5ac635d8aa3a93e7b3ebbd55769886bc651d06b0cc53b0f63bce3c3e27d2604bint
}

/// The number of points of the curve: scalars are counted below it.
pub open spec fn group_order() -> int {
    0xffffffff00000000ffffffffffffffffbce6faada7179e84f3b9cac2fc632551int
}

/// The number that `s` spells in base 256, most significant byte first.
pub open spec fn be_nat(s: Seq<u8>) -> nat
    decreases s.len(),
{
    if s.len() == 0 {
        0
    } else {
        be_nat(s.drop_last()) * 256 + s.last() as nat
    }
}

/// Whether `k` is the encoding of a scalar: 32 bytes that spell a number
/// below the group order.
pub open spec fn scalar_in_range(k: Seq<u8>) -> bool {
    k.len() == 32 && be_nat(k) < group_order()
}

/// Whether `x` and `y` satisfy the curve equation `y^2 = x^3 - 3x + b`
/// modulo the field prime.
pub open spec fn on_curve(x: int, y: int) -> bool {
    (y * y) % field_prime() == (x * x * x - 3 * x + curve_b()) % field_prime()
}

/// Whether `xy` is the encoding of a point of the curve: two coordinates
/// below the field prime that satisfy the curve equation.
pub open spec fn is_curve_point(xy: Seq<u8>) -> bool {
    &&& xy.len() == 64
    &&& be_nat(xy.take(32)) < field_prime()
    &&& be_nat(xy.skip(32)) < field_prime()
    &&& on_curve(be_nat(xy.take(32)) as int, be_nat(xy.skip(32)) as int)
}

/// A point that may be the identity, as a mathematical value.
pub open spec fn point_view(p: Option<[u8; 64]>) -> Option<Seq<u8>> {
    match p {
        Some(xy) => Some(xy@),
        None => None,
    }
}

/// The product of the point `point` and the scalar `scalar`.
pub uninterp spec fn p256_mul(point: Seq<u8>, scalar: Seq<u8>) -> Option<Seq<u8>>;

/// The product of the generator of the curve and the scalar `scalar`.
pub uninterp spec fn p256_base_mul(scalar: Seq<u8>) -> Option<Seq<u8>>;

/// The sum of the points `a` and `b`.
pub uninterp spec fn p256_add(a: Seq<u8>, b: Seq<u8>) -> Option<Seq<u8>>;

/// The difference of the points `a` and `b`.
pub uninterp spec fn p256_sub(a: Seq<u8>, b: Seq<u8>) -> Option<Seq<u8>>;

/// The deterministic ECDSA signature with SHA-256 of `msg` under the key
/// `sk`, as R followed by S.
pub uninterp spec fn p256_sign(sk: Seq<u8>, msg: Seq<u8>) -> Option<Seq<u8>>;

/// Whether `sig`, read as R followed by S, is a valid ECDSA signature with
/// SHA-256 of `msg` under the public key `pk`.
pub uninterp spec fn p256_verify(pk: Seq<u8>, msg: Seq<u8>, sig: Seq<u8>) -> bool;

/// Whether `sig`, read as ASN.1 DER, is a valid ECDSA signature with SHA-256
/// of `msg` under the public key `pk`.
pub uninterp spec fn p256_verify_der(pk: Seq<u8>, msg: Seq<u8>, sig: Seq<u8>) -> bool;

/// `AffinePoint::from_encoded_point` on the uncompressed encoding of `xy`:
/// it accepts exactly the coordinate pairs that are reduced and satisfy the
/// curve equation.
#[verifier::external_body]
pub(crate) fn point_is_valid(xy: &[u8; 64]) -> (r: bool)
    ensures
        r == is_curve_point(xy@),
{
    let encoded = p256::EncodedPoint::from_untagged_bytes(xy.into());
    bool::from(p256::AffinePoint::from_encoded_point(&encoded).is_some())
}

/// `Scalar::from_repr`: it accepts exactly the encodings of numbers below
/// the group order.
#[verifier::external_body]
pub(crate) fn scalar_is_valid(k: &[u8; 32]) -> (r: bool)
    ensures
        r == scalar_in_range(k@),
{
    bool::from(p256::Scalar::from_repr((*k).into()).is_some())
}

/// `Scalar::random` on the operating system's generator: some scalar in
/// range. Two calls need not agree.
#[verifier::external_body]
pub(crate) fn random_scalar() -> (k: [u8; 32])
    ensures
        scalar_in_range(k@),
{
    p256::Scalar::random(&mut p256::elliptic_curve::rand_core::OsRng).to_bytes().into()
}

/// `ProjectivePoint::GENERATOR * scalar`, in affine form. The result is a
/// function of the scalar; where it is not the identity it is a point of the
/// curve.
#[verifier::external_body]
pub(crate) fn base_mul(k: &[u8; 32]) -> (r: Option<[u8; 64]>)
    requires
        scalar_in_range(k@),
    ensures
        point_view(r) == p256_base_mul(k@),
        r is Some ==> is_curve_point(r->Some_0@),
{
    let scalar = p256::Scalar::from_repr((*k).into()).unwrap();
    let product = (p256::ProjectivePoint::GENERATOR * scalar).to_affine().to_encoded_point(false);
    match product.coordinates() {
        Coordinates::Uncompressed { x, y } => {
            let mut out = [0u8; 64];
            out[..32].copy_from_slice(x);
            out[32..].copy_from_slice(y);
            Some(out)
        },
        _ => None,
    }
}

/// `ProjectivePoint * Scalar`, in affine form. The result is a function of
/// point and scalar; where it is not the identity it is a point of the
/// curve.
#[verifier::external_body]
pub(crate) fn point_mul(p: &[u8; 64], k: &[u8; 32]) -> (r: Option<[u8; 64]>)
    requires
        is_curve_point(p@),
        scalar_in_range(k@),
    ensures
        point_view(r) == p256_mul(p@, k@),
        r is Some ==> is_curve_point(r->Some_0@),
{
    let encoded = p256::EncodedPoint::from_untagged_bytes(p.into());
    let point = p256::AffinePoint::from_encoded_point(&encoded).unwrap();
    let scalar = p256::Scalar::from_repr((*k).into()).unwrap();
    let product = (p256::ProjectivePoint::from(point) * scalar).to_affine().to_encoded_point(false);
    match product.coordinates() {
        Coordinates::Uncompressed { x, y } => {
            let mut out = [0u8; 64];
            out[..32].copy_from_slice(x);
            out[32..].copy_from_slice(y);
            Some(out)
        },
        _ => None,
    }
}

/// `ProjectivePoint + ProjectivePoint`, in affine form. The result is a
/// function of the two points; where it is not the identity it is a point of
/// the curve.
#[verifier::external_body]
pub(crate) fn point_add(a: &[u8; 64], b: &[u8; 64]) -> (r: Option<[u8; 64]>)
    requires
        is_curve_point(a@),
        is_curve_point(b@),
    ensures
        point_view(r) == p256_add(a@, b@),
        r is Some ==> is_curve_point(r->Some_0@),
{
    let ea = p256::EncodedPoint::from_untagged_bytes(a.into());
    let eb = p256::EncodedPoint::from_untagged_bytes(b.into());
    let pa = p256::ProjectivePoint::from(p256::AffinePoint::from_encoded_point(&ea).unwrap());
    let pb = p256::ProjectivePoint::from(p256::AffinePoint::from_encoded_point(&eb).unwrap());
    match (pa + pb).to_affine().to_encoded_point(false).coordinates() {
        Coordinates::Uncompressed { x, y } => {
            let mut out = [0u8; 64];
            out[..32].copy_from_slice(x);
            out[32..].copy_from_slice(y);
            Some(out)
        },
        _ => None,
    }
}

/// `ProjectivePoint - ProjectivePoint`, in affine form. The result is a
/// function of the two points; where it is not the identity it is a point of
/// the curve.
#[verifier::external_body]
pub(crate) fn point_sub(a: &[u8; 64], b: &[u8; 64]) -> (r: Option<[u8; 64]>)
    requires
        is_curve_point(a@),
        is_curve_point(b@),
    ensures
        point_view(r) == p256_sub(a@, b@),
        r is Some ==> is_curve_point(r->Some_0@),
{
    let ea = p256::EncodedPoint::from_untagged_bytes(a.into());
    let eb = p256::EncodedPoint::from_untagged_bytes(b.into());
    let pa = p256::ProjectivePoint::from(p256::AffinePoint::from_encoded_point(&ea).unwrap());
    let pb = p256::ProjectivePoint::from(p256::AffinePoint::from_encoded_point(&eb).unwrap());
    match (pa - pb).to_affine().to_encoded_point(false).coordinates() {
        Coordinates::Uncompressed { x, y } => {
            let mut out = [0u8; 64];
            out[..32].copy_from_slice(x);
            out[32..].copy_from_slice(y);
            Some(out)
        },
        _ => None,
    }
}

/// `SigningKey::try_sign`: ECDSA over SHA-256 with the nonce of RFC 6979, so
/// that the signature is a function of key and message. A signature that it
/// hands out verifies under the public key of the same scalar.
#[verifier::external_body]
pub(crate) fn ecdsa_sign(sk: &[u8; 32], msg: &[u8]) -> (r: Option<[u8; 64]>)
    requires
        scalar_in_range(sk@),
        be_nat(sk@) != 0,
    ensures
        point_view(r) == p256_sign(sk@, msg@),
        r is Some && p256_base_mul(sk@) is Some ==> p256_verify(
            p256_base_mul(sk@)->Some_0,
            msg@,
            r->Some_0@,
        ),
{
    let key = p256::ecdsa::SigningKey::from_bytes(sk.into()).unwrap();
    let signed: Result<p256::ecdsa::Signature, p256::ecdsa::Error> = key.try_sign(msg);
    match signed {
        Ok(signature) => Some(signature.to_bytes().into()),
        Err(_) => None,
    }
}

/// `VerifyingKey::verify` on a signature given as R followed by S. A
/// signature that cannot be read does not verify.
#[verifier::external_body]
pub(crate) fn ecdsa_verify(pk: &[u8; 64], msg: &[u8], sig: &[u8]) -> (r: bool)
    requires
        is_curve_point(pk@),
        sig@.len() == 64,
    ensures
        r == p256_verify(pk@, msg@, sig@),
{
    let encoded = p256::EncodedPoint::from_untagged_bytes(pk.into());
    let point = p256::AffinePoint::from_encoded_point(&encoded).unwrap();
    let key = p256::ecdsa::VerifyingKey::from_affine(point).unwrap();
    match p256::ecdsa::Signature::from_slice(sig) {
        Ok(signature) => key.verify(msg, &signature).is_ok(),
        Err(_) => false,
    }
}

/// `VerifyingKey::verify` on a signature given in ASN.1 DER. A signature
/// that cannot be read does not verify.
#[verifier::external_body]
pub(crate) fn ecdsa_verify_der(pk: &[u8; 64], msg: &[u8], sig: &[u8]) -> (r: bool)
    requires
        is_curve_point(pk@),
    ensures
        r == p256_verify_der(pk@, msg@, sig@),
{
    let encoded = p256::EncodedPoint::from_untagged_bytes(pk.into());
    let point = p256::AffinePoint::from_encoded_point(&encoded).unwrap();
    let key = p256::ecdsa::VerifyingKey::from_affine(point).unwrap();
    match p256::ecdsa::Signature::from_der(sig) {
        Ok(signature) => key.verify(msg, &signature).is_ok(),
        Err(_) => false,
    }
}

} // verus!
