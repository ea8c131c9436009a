//! Trust-and-key core of a DRM client.
//!
//! The crate parses certificate chains and device files, verifies a chain of
//! trust against an anchor, signs, verifies and encrypts over the 256-bit
//! prime curve, and derives the keys with which the content keys of a licence
//! are authenticated and unwrapped. It does no I/O and keeps no state: every
//! function takes bytes or typed records and gives typed records back.
//!
//! Every function carries a contract that says what it returns, and the
//! contracts are proved. What is taken from other crates (curve arithmetic,
//! message authentication, the block cipher, text codecs) stands behind
//! functions that state what is trusted of them; these are gathered in
//! [`crypto::curve`] and [`license::primitives`], and named in place
//! elsewhere.
//!
//! - [`reader`]: the bounds-checked cursor that the parsers read through.
//! - [`bcert`]: certificates and chains, their binary format and accessors.
//! - [`trust`]: verification of a chain against a trust anchor.
//! - [`crypto`]: ECDSA and ElGamal on raw encodings.
//! - [`license`]: key derivation, authentication and unwrapping of licences.
//! - [`prd`], [`device`]: device files and the device they describe.
//! - [`wrm_header`], [`key`]: header containers and the kinds of key and
//!   cipher that they name.
//! - [`media`]: plain descriptions of codecs, formats and time bases.

pub mod bcert;
pub mod bytes;
pub mod crypto;
pub mod device;
pub mod error;
pub mod key;
pub mod license;
pub mod media;
pub mod prd;
pub mod reader;
pub mod text;
pub mod trust;
pub mod wrm_header;
