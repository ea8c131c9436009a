//! Licences: the kinds of key they carry, the keys derived from a session
//! key, and the unwrapping of content keys.

pub mod primitives;
pub mod types;
pub mod unwrap;

pub use self::types::{ContentKey, DerivedKeys, DeviceType, KeyType, LicenseType, SecurityLevel};
pub use self::unwrap::{
    content_keys, derive_and_unwrap, derive_keys, remove_padding, unwrap_key, KeyClass,
    KeyContainer, KeyContexts, KeyOutcome, LicenseBody, UnwrappedKey,
};
