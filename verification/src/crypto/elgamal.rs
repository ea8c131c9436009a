//! ElGamal over the curve: a message point is hidden under a public key and
//! recovered, as its X coordinate, with the private scalar.

use vstd::prelude::*;

use crate::bytes::array_at;
use crate::crypto::curve::{
    base_mul, is_curve_point, p256_add, p256_base_mul, p256_mul, p256_sub, point_add,
    point_is_valid, point_mul, point_sub, point_view, random_scalar, scalar_in_range,
    scalar_is_valid,
};
use crate::error::{CdmError, CdmErrorView};

verus! {

/// Length of a ciphertext: two points of 64 bytes.
pub const CIPHERTEXT_LEN: usize = 128;

/// A result of bytes or an error, as a mathematical value.
pub open spec fn bytes_result<const N: usize>(r: Result<[u8; N], CdmError>) -> Result<
    Seq<u8>,
    CdmErrorView,
> {
    match r {
        Ok(b) => Ok(b@),
        Err(e) => Err(e@),
    }
}

/// `a + b`, where `b` may be the identity.
pub open spec fn sum_with(a: Seq<u8>, b: Option<Seq<u8>>) -> Option<Seq<u8>> {
    match b {
        Some(q) => p256_add(a, q),
        None => Some(a),
    }
}

/// `a - b`, where `b` may be the identity.
pub open spec fn difference_with(a: Seq<u8>, b: Option<Seq<u8>>) -> Option<Seq<u8>> {
    match b {
        Some(q) => p256_sub(a, q),
        None => Some(a),
    }
}

/// The ciphertext of the point `message` under the key `public_key`, made
/// with the scalar `k`: `k * G` followed by `message + k * public_key`.
///
/// Both inputs must be points of the curve and `k` a scalar in range; a
/// ciphertext one of whose halves would be the identity cannot be written.
pub open spec fn ciphertext_of(public_key: Seq<u8>, message: Seq<u8>, k: Seq<u8>) -> Result<
    Seq<u8>,
    CdmErrorView,
> {
    if !is_curve_point(public_key) || !is_curve_point(message) {
        Err(CdmErrorView::PointNotOnCurve)
    } else if !scalar_in_range(k) {
        Err(CdmErrorView::InvalidScalar)
    } else {
        match (p256_base_mul(k), sum_with(message, p256_mul(public_key, k))) {
            (Some(c1), Some(c2)) => Ok(c1 + c2),
            _ => Err(CdmErrorView::IdentityPoint),
        }
    }
}

/// What decryption of `ciphertext` with the scalar `private_key` gives: the
/// X coordinate of `C2 - private_key * C1`, where `C1` and `C2` are the first
/// two points of the ciphertext. Bytes after the first 128 play no part.
pub open spec fn plaintext_of(private_key: Seq<u8>, ciphertext: Seq<u8>) -> Result<
    Seq<u8>,
    CdmErrorView,
> {
    if ciphertext.len() < 128 {
        Err(CdmErrorView::CiphertextTooShort { have: ciphertext.len() as usize })
    } else if !is_curve_point(ciphertext.subrange(0, 64)) || !is_curve_point(
        ciphertext.subrange(64, 128),
    ) {
        Err(CdmErrorView::PointNotOnCurve)
    } else if !scalar_in_range(private_key) {
        Err(CdmErrorView::InvalidScalar)
    } else {
        match difference_with(
            ciphertext.subrange(64, 128),
            p256_mul(ciphertext.subrange(0, 64), private_key),
        ) {
            Some(p) => Ok(p.take(32)),
            None => Err(CdmErrorView::DecryptedToIdentity),
        }
    }
}

/// Encrypts the point `message_point` for the holder of `public_key`, with
/// the scalar `k` in the place of fresh randomness.
pub fn ecc256_encrypt_with(public_key: &[u8; 64], message_point: &[u8; 64], k: &[u8; 32]) -> (r:
    Result<[u8; 128], CdmError>)
    ensures
        bytes_result(r) == ciphertext_of(public_key@, message_point@, k@),
        r is Ok ==> is_curve_point(r->Ok_0@.subrange(0, 64)) && is_curve_point(
            r->Ok_0@.subrange(64, 128),
        ),
{
    if !point_is_valid(public_key) {
        return Err(CdmError::PointNotOnCurve);
    }
    if !point_is_valid(message_point) {
        return Err(CdmError::PointNotOnCurve);
    }
    if !scalar_is_valid(k) {
        return Err(CdmError::InvalidScalar);
    }
    let point1 = base_mul(k);
    let shared = point_mul(public_key, k);
    let point2 = match shared {
        Some(s) => point_add(message_point, &s),
        None => Some(*message_point),
    };
    match (point1, point2) {
        (Some(c1), Some(c2)) => {
            let mut output = [0u8; 128];
            let mut i: usize = 0;
            while i < 64
                invariant
                    i <= 64,
                    forall|j: int| 0 <= j < i ==> output@[j] == c1@[j],
                    forall|j: int| 0 <= j < i ==> output@[64 + j] == c2@[j],
                decreases 64 - i,
            {
                output[i] = c1[i];
                output[64 + i] = c2[i];
                i = i + 1;
            }
            assert(output@ =~= c1@ + c2@);
            assert(output@.subrange(0, 64) =~= c1@);
            assert(output@.subrange(64, 128) =~= c2@);
            Ok(output)
        },
        _ => Err(CdmError::IdentityPoint),
    }
}

/// Encrypts the point `message_point` for the holder of `public_key`.
///
/// The scalar is drawn afresh on every call, so two calls on the same inputs
/// give different ciphertexts. Whatever was drawn, the outcome is the one
/// that [`ciphertext_of`] gives for some scalar in range.
pub fn ecc256_encrypt(public_key: &[u8; 64], message_point: &[u8; 64]) -> (r: Result<
    [u8; 128],
    CdmError,
>)
    ensures
        exists|k: Seq<u8>|
            scalar_in_range(k) && bytes_result(r) == #[trigger] ciphertext_of(
                public_key@,
                message_point@,
                k,
            ),
{
    let k = random_scalar();
    ecc256_encrypt_with(public_key, message_point, &k)
}

/// Decrypts a ciphertext with the private scalar and gives the X coordinate
/// of the message point.
///
/// Only the first 128 bytes of the ciphertext are read. A shorter one is
/// refused before anything is read.
pub fn ecc256_decrypt(private_key: &[u8; 32], ciphertext: &[u8]) -> (r: Result<[u8; 32], CdmError>)
    ensures
        bytes_result(r) == plaintext_of(private_key@, ciphertext@),
        ciphertext@.len() < 128 ==> r is Err && r->Err_0@ == (CdmErrorView::CiphertextTooShort {
            have: ciphertext@.len() as usize,
        }),
{
    if ciphertext.len() < 128 {
        return Err(CdmError::CiphertextTooShort { have: ciphertext.len() });
    }
    let first: [u8; 64] = array_at::<64>(ciphertext, 0);
    let second: [u8; 64] = array_at::<64>(ciphertext, 64);
    if !point_is_valid(&first) {
        return Err(CdmError::PointNotOnCurve);
    }
    if !point_is_valid(&second) {
        return Err(CdmError::PointNotOnCurve);
    }
    if !scalar_is_valid(private_key) {
        return Err(CdmError::InvalidScalar);
    }
    let shared = point_mul(&first, private_key);
    let decrypted = match shared {
        Some(s) => point_sub(&second, &s),
        None => Some(second),
    };
    match decrypted {
        Some(d) => {
            let x: [u8; 32] = array_at::<32>(d.as_slice(), 0);
            Ok(x)
        },
        None => Err(CdmError::DecryptedToIdentity),
    }
}

/// What the round trip of encryption and decryption rests on.
///
/// Let a ciphertext be made of the point `m` for the key `pk` with the
/// scalar `k`, and let `sk` be a scalar for which the curve arithmetic
/// satisfies two identities: the shared point agrees, `sk * (k * G) = k *
/// pk`, as it does where `pk = sk * G`; and subtraction undoes addition, `(m
/// + k * pk) - k * pk = m`. Let both halves of the ciphertext be points of
/// the curve, as they are in every ciphertext that encryption hands out.
/// Then decryption with `sk` gives the X coordinate of `m`. The identities are those of the group of the curve; they are
/// hypotheses here, since nothing in this crate proves them of the outside
/// arithmetic.
pub proof fn lemma_round_trip_given_curve_identities(
    pk: Seq<u8>,
    m: Seq<u8>,
    k: Seq<u8>,
    sk: Seq<u8>,
)
    requires
        scalar_in_range(sk),
        ciphertext_of(pk, m, k) is Ok,
        is_curve_point(p256_base_mul(k)->Some_0),
        is_curve_point(sum_with(m, p256_mul(pk, k))->Some_0),
        p256_mul(p256_base_mul(k)->Some_0, sk) == p256_mul(pk, k),
        difference_with(sum_with(m, p256_mul(pk, k))->Some_0, p256_mul(pk, k)) == Some(m),
    ensures
        plaintext_of(sk, ciphertext_of(pk, m, k)->Ok_0) == Ok::<Seq<u8>, CdmErrorView>(m.take(32)),
{
    let c1 = p256_base_mul(k)->Some_0;
    let c2 = sum_with(m, p256_mul(pk, k))->Some_0;
    assert((c1 + c2).subrange(0, 64) =~= c1);
    assert((c1 + c2).subrange(64, 128) =~= c2);
}

} // verus!
