//! Error types of the binary formats and of the key operations.

use vstd::prelude::*;

use crate::reader::{saturate, ReadError};

verus! {

/// Why a byte string is not what a format asks for.
#[derive(Debug, Clone, PartialEq, Eq)]
pub enum FormatError {
    /// The structure does not start with its tag; `got` is the text of the
    /// bytes found in its place.
    InvalidMagic { expected: &'static str, got: String },
    /// A field ends at offset `needed`, the input after `have` bytes.
    UnexpectedEof { needed: usize, have: usize },
    UnsupportedVersion(u8),
    InvalidEnumValue { kind: &'static str, value: u16 },
    Malformed(String),
    InvalidUtf16(String),
    InvalidXml(String),
}

/// A [`FormatError`] with its texts as character sequences.
pub enum FormatErrorView {
    InvalidMagic { expected: Seq<char>, got: Seq<char> },
    UnexpectedEof { needed: usize, have: usize },
    UnsupportedVersion(u8),
    InvalidEnumValue { kind: Seq<char>, value: u16 },
    Malformed(Seq<char>),
    InvalidUtf16(Seq<char>),
    InvalidXml(Seq<char>),
}

impl View for FormatError {
    type V = FormatErrorView;

    open spec fn view(&self) -> FormatErrorView {
        match *self {
            FormatError::InvalidMagic { expected, got } => FormatErrorView::InvalidMagic {
                expected: expected@,
                got: got@,
            },
            FormatError::UnexpectedEof { needed, have } => FormatErrorView::UnexpectedEof {
                needed,
                have,
            },
            FormatError::UnsupportedVersion(v) => FormatErrorView::UnsupportedVersion(v),
            FormatError::InvalidEnumValue { kind, value } => FormatErrorView::InvalidEnumValue {
                kind: kind@,
                value,
            },
            FormatError::Malformed(m) => FormatErrorView::Malformed(m@),
            FormatError::InvalidUtf16(m) => FormatErrorView::InvalidUtf16(m@),
            FormatError::InvalidXml(m) => FormatErrorView::InvalidXml(m@),
        }
    }
}

/// The error of an input of `have` bytes in which a field ends at offset
/// `needed`.
pub open spec fn eof(needed: int, have: int) -> FormatErrorView {
    FormatErrorView::UnexpectedEof { needed: saturate(needed), have: have as usize }
}

impl FormatError {
    /// The format error that stands for a failed read.
    pub fn from_read(e: ReadError) -> (r: FormatError)
        ensures
            r@ == (FormatErrorView::UnexpectedEof { needed: e.needed, have: e.have }),
    {
        FormatError::UnexpectedEof { needed: e.needed, have: e.have }
    }
}

/// How a chain of certificates fails to lead to the trust anchor. The number
/// is the position in the chain of the certificate at fault.
#[derive(Debug, Clone, Copy, PartialEq, Eq, Structural)]
pub enum ChainFault {
    /// The chain holds no certificate.
    Empty,
    /// A certificate below the root declares more signed bytes than it has.
    SignedLength(usize),
    /// A certificate below the root carries no signature block.
    MissingSignature(usize),
    /// The issuer of a certificate offers no 64-byte key for signing.
    MissingSigningKey(usize),
    /// The signature is malformed or does not match; which of the two is not
    /// told.
    SignatureMismatch(usize),
    /// The key that the last certificate declares is not the trust anchor.
    RootNotTrusted,
}

/// Why one key of a licence could not be unwrapped.
#[derive(Debug, Clone, Copy, PartialEq, Eq, Structural)]
pub enum UnwrapFault {
    /// The key identifier is not 16 bytes long.
    KeyIdLength,
    /// The initialization vector is not 16 bytes long.
    IvLength,
    /// The wrapped key is empty or not a whole number of cipher blocks.
    CiphertextLength,
    /// The decrypted bytes do not end in well-formed padding.
    Padding,
}

/// Errors of the device, curve and licence operations.
#[derive(Debug, Clone, PartialEq, Eq)]
pub enum CdmError {
    PrdTruncated,
    PrdBadMagic,
    PrdUnsupportedVersion(u8),
    InvalidBase64,
    /// A binary structure inside the input is malformed.
    Format(FormatError),
    /// The certificate chain holds no certificate.
    NoCertificates,
    /// The leaf certificate has no basic-identity attribute.
    NoBasicInfo,
    /// The ciphertext is shorter than the two points it must hold.
    CiphertextTooShort { have: usize },
    /// A byte string does not encode a point of the curve.
    PointNotOnCurve,
    /// A byte string is not a scalar that the operation accepts.
    InvalidScalar,
    /// Decryption ended in the identity of the curve.
    DecryptedToIdentity,
    /// A point that has to be written out is the identity of the curve.
    IdentityPoint,
    /// No signature could be made for this key and message.
    SigningFailed,
    EcdsaSignatureMismatch,
    ChainUntrusted(ChainFault),
    ResponseAuthenticationFailed,
    KeyUnwrapFailed(UnwrapFault),
}

/// A [`CdmError`] with its texts as character sequences.
pub enum CdmErrorView {
    PrdTruncated,
    PrdBadMagic,
    PrdUnsupportedVersion(u8),
    InvalidBase64,
    Format(FormatErrorView),
    NoCertificates,
    NoBasicInfo,
    CiphertextTooShort { have: usize },
    PointNotOnCurve,
    InvalidScalar,
    DecryptedToIdentity,
    IdentityPoint,
    SigningFailed,
    EcdsaSignatureMismatch,
    ChainUntrusted(ChainFault),
    ResponseAuthenticationFailed,
    KeyUnwrapFailed(UnwrapFault),
}

impl View for CdmError {
    type V = CdmErrorView;

    open spec fn view(&self) -> CdmErrorView {
        match *self {
            CdmError::PrdTruncated => CdmErrorView::PrdTruncated,
            CdmError::PrdBadMagic => CdmErrorView::PrdBadMagic,
            CdmError::PrdUnsupportedVersion(v) => CdmErrorView::PrdUnsupportedVersion(v),
            CdmError::InvalidBase64 => CdmErrorView::InvalidBase64,
            CdmError::Format(e) => CdmErrorView::Format(e@),
            CdmError::NoCertificates => CdmErrorView::NoCertificates,
            CdmError::NoBasicInfo => CdmErrorView::NoBasicInfo,
            CdmError::CiphertextTooShort { have } => CdmErrorView::CiphertextTooShort { have },
            CdmError::PointNotOnCurve => CdmErrorView::PointNotOnCurve,
            CdmError::InvalidScalar => CdmErrorView::InvalidScalar,
            CdmError::DecryptedToIdentity => CdmErrorView::DecryptedToIdentity,
            CdmError::IdentityPoint => CdmErrorView::IdentityPoint,
            CdmError::SigningFailed => CdmErrorView::SigningFailed,
            CdmError::EcdsaSignatureMismatch => CdmErrorView::EcdsaSignatureMismatch,
            CdmError::ChainUntrusted(f) => CdmErrorView::ChainUntrusted(f),
            CdmError::ResponseAuthenticationFailed => CdmErrorView::ResponseAuthenticationFailed,
            CdmError::KeyUnwrapFailed(f) => CdmErrorView::KeyUnwrapFailed(f),
        }
    }
}

} // verus!
