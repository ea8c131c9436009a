//! Kinds of device, security level, key and licence, and the content key
//! that a licence yields.

use vstd::prelude::*;
use vstd::string::{StringExecFns, StringSliceAdditionalSpecFns};

use crate::text::{
    eq_ignore_ascii_case, lemma_trimmed_is_whole, lemma_word_bytes, lower, same_letters,
    trim_ascii, trimmed, ParseError,
};

verus! {

/// Kind of device, as a device file records it.
#[derive(Debug, Clone, Copy, PartialEq, Eq, PartialOrd, Ord, Hash, Structural)]
pub enum DeviceType {
    Chrome,
    Android,
}

impl DeviceType {
    /// The code of a device type.
    pub open spec fn code(self) -> u8 {
        match self {
            DeviceType::Chrome => 1,
            DeviceType::Android => 2,
        }
    }

    /// The name of a device type.
    pub open spec fn name(self) -> &'static str {
        match self {
            DeviceType::Chrome => "Chrome",
            DeviceType::Android => "Android",
        }
    }

    /// The device type that `t` names, up to the case of its letters.
    pub open spec fn named(t: Seq<u8>) -> Option<DeviceType> {
        if same_letters(t, "Chrome".spec_bytes()) {
            Some(DeviceType::Chrome)
        } else if same_letters(t, "Android".spec_bytes()) {
            Some(DeviceType::Android)
        } else {
            None
        }
    }

    /// The device type with code `u`, where there is one.
    pub open spec fn with_code(u: u8) -> Option<DeviceType> {
        if u == 1 {
            Some(DeviceType::Chrome)
        } else if u == 2 {
            Some(DeviceType::Android)
        } else {
            None
        }
    }

    /// The device type with code `u`; `None` for a code that names none.
    pub fn from_u8(u: u8) -> (r: Option<DeviceType>)
        ensures
            r == DeviceType::with_code(u),
    {
        match u {
            1 => Some(DeviceType::Chrome),
            2 => Some(DeviceType::Android),
            _ => None,
        }
    }

    /// The code of the device type; the code names the device type again.
    pub fn to_u8(self) -> (u: u8)
        ensures
            u == self.code(),
            DeviceType::with_code(u) == Some(self),
    {
        match self {
            DeviceType::Chrome => 1,
            DeviceType::Android => 2,
        }
    }

    /// The device type that `name` spells, whitespace at its ends and the case
    /// of its letters aside.
    pub fn from_name(name: &[u8]) -> (r: Option<DeviceType>)
        ensures
            r == DeviceType::named(trimmed(name@)),
    {
        let name = trim_ascii(name);
        if eq_ignore_ascii_case(name, "Chrome".as_bytes()) {
            Some(DeviceType::Chrome)
        } else if eq_ignore_ascii_case(name, "Android".as_bytes()) {
            Some(DeviceType::Android)
        } else {
            None
        }
    }

    /// The name of the device type.
    pub fn to_name(self) -> (r: &'static str)
        ensures
            r@ == self.name()@,
    {
        match self {
            DeviceType::Chrome => "Chrome",
            DeviceType::Android => "Android",
        }
    }

    /// The name of the device type, as an owned string.
    pub fn to_string(&self) -> (r: String)
        ensures
            r@ == self.name()@,
    {
        self.to_name().to_owned()
    }
}

impl core::str::FromStr for DeviceType {
    type Err = ParseError;

    fn from_str(s: &str) -> (r: Result<DeviceType, ParseError>)
        ensures
            match DeviceType::named(trimmed(s.spec_bytes())) {
                Some(v) => r is Ok && r->Ok_0 == v,
                None => r is Err && r->Err_0.kind@ == "device type"@ && r->Err_0.value@ == s@,
            },
    {
        match DeviceType::from_name(s.as_bytes()) {
            Some(v) => Ok(v),
            None => Err(ParseError { kind: "device type", value: s.to_owned() }),
        }
    }
}

/// A name names its own device type: reading the name that `to_name` gives
/// leads back to the device type it was taken from.
pub proof fn lemma_device_type_name_round_trip(v: DeviceType)
    ensures
        DeviceType::named(trimmed(v.name().spec_bytes())) == Some(v),
{
    reveal_strlit("Chrome");
    reveal_strlit("Android");
    lemma_word_bytes("Chrome", "Chrome"@);
    lemma_word_bytes("Android", "Android"@);
    if v == DeviceType::Chrome {
        let own = "Chrome".spec_bytes();
        lemma_trimmed_is_whole(own);
    }
    if v == DeviceType::Android {
        let own = "Android".spec_bytes();
        lemma_trimmed_is_whole(own);
    }
}

/// Security level of a device.
#[derive(Debug, Clone, Copy, PartialEq, Eq, PartialOrd, Ord, Hash, Structural)]
pub enum SecurityLevel {
    L1,
    L2,
    L3,
}

impl SecurityLevel {
    /// The code of a security level.
    pub open spec fn code(self) -> u8 {
        match self {
            SecurityLevel::L1 => 1,
            SecurityLevel::L2 => 2,
            SecurityLevel::L3 => 3,
        }
    }

    /// The name of a security level.
    pub open spec fn name(self) -> &'static str {
        match self {
            SecurityLevel::L1 => "L1",
            SecurityLevel::L2 => "L2",
            SecurityLevel::L3 => "L3",
        }
    }

    /// The security level that `t` names, up to the case of its letters.
    pub open spec fn named(t: Seq<u8>) -> Option<SecurityLevel> {
        if t.len() == 1 {
            if t[0] == 0x31u8 {
                Some(SecurityLevel::L1)
            } else if t[0] == 0x32u8 {
                Some(SecurityLevel::L2)
            } else if t[0] == 0x33u8 {
                Some(SecurityLevel::L3)
            } else {
                None
            }
        } else if same_letters(t, "L1".spec_bytes()) {
            Some(SecurityLevel::L1)
        } else if same_letters(t, "L2".spec_bytes()) {
            Some(SecurityLevel::L2)
        } else if same_letters(t, "L3".spec_bytes()) {
            Some(SecurityLevel::L3)
        } else {
            None
        }
    }

    /// The security level with code `u`, where there is one.
    pub open spec fn with_code(u: u8) -> Option<SecurityLevel> {
        if u == 1 {
            Some(SecurityLevel::L1)
        } else if u == 2 {
            Some(SecurityLevel::L2)
        } else if u == 3 {
            Some(SecurityLevel::L3)
        } else {
            None
        }
    }

    /// The security level with code `u`; `None` for a code that names none.
    pub fn from_u8(u: u8) -> (r: Option<SecurityLevel>)
        ensures
            r == SecurityLevel::with_code(u),
    {
        match u {
            1 => Some(SecurityLevel::L1),
            2 => Some(SecurityLevel::L2),
            3 => Some(SecurityLevel::L3),
            _ => None,
        }
    }

    /// The code of the security level; the code names the security level again.
    pub fn to_u8(self) -> (u: u8)
        ensures
            u == self.code(),
            SecurityLevel::with_code(u) == Some(self),
    {
        match self {
            SecurityLevel::L1 => 1,
            SecurityLevel::L2 => 2,
            SecurityLevel::L3 => 3,
        }
    }

    /// The security level that `name` spells, whitespace at its ends and the case
    /// of its letters aside.
    pub fn from_name(name: &[u8]) -> (r: Option<SecurityLevel>)
        ensures
            r == SecurityLevel::named(trimmed(name@)),
    {
        let name = trim_ascii(name);
        if name.len() == 1 {
            let digit = name[0];
            if digit == 0x31 {
                Some(SecurityLevel::L1)
            } else if digit == 0x32 {
                Some(SecurityLevel::L2)
            } else if digit == 0x33 {
                Some(SecurityLevel::L3)
            } else {
                None
            }
        } else if eq_ignore_ascii_case(name, "L1".as_bytes()) {
            Some(SecurityLevel::L1)
        } else if eq_ignore_ascii_case(name, "L2".as_bytes()) {
            Some(SecurityLevel::L2)
        } else if eq_ignore_ascii_case(name, "L3".as_bytes()) {
            Some(SecurityLevel::L3)
        } else {
            None
        }
    }

    /// The name of the security level.
    pub fn to_name(self) -> (r: &'static str)
        ensures
            r@ == self.name()@,
    {
        match self {
            SecurityLevel::L1 => "L1",
            SecurityLevel::L2 => "L2",
            SecurityLevel::L3 => "L3",
        }
    }

    /// The name of the security level, as an owned string.
    pub fn to_string(&self) -> (r: String)
        ensures
            r@ == self.name()@,
    {
        self.to_name().to_owned()
    }
}

impl core::str::FromStr for SecurityLevel {
    type Err = ParseError;

    fn from_str(s: &str) -> (r: Result<SecurityLevel, ParseError>)
        ensures
            match SecurityLevel::named(trimmed(s.spec_bytes())) {
                Some(v) => r is Ok && r->Ok_0 == v,
                None => r is Err && r->Err_0.kind@ == "security level"@ && r->Err_0.value@ == s@,
            },
    {
        match SecurityLevel::from_name(s.as_bytes()) {
            Some(v) => Ok(v),
            None => Err(ParseError { kind: "security level", value: s.to_owned() }),
        }
    }
}

/// A name names its own security level: reading the name that `to_name` gives
/// leads back to the security level it was taken from.
pub proof fn lemma_security_level_name_round_trip(v: SecurityLevel)
    ensures
        SecurityLevel::named(trimmed(v.name().spec_bytes())) == Some(v),
{
    reveal_strlit("L1");
    reveal_strlit("L2");
    reveal_strlit("L3");
    lemma_word_bytes("L1", "L1"@);
    lemma_word_bytes("L2", "L2"@);
    lemma_word_bytes("L3", "L3"@);
    if v == SecurityLevel::L1 {
        let own = "L1".spec_bytes();
        lemma_trimmed_is_whole(own);
    }
    if v == SecurityLevel::L2 {
        let own = "L2".spec_bytes();
        lemma_trimmed_is_whole(own);
        assert(!same_letters(own, "L1".spec_bytes())) by {
            assert(lower(own[1]) != lower("L1".spec_bytes()[1]));
        }
    }
    if v == SecurityLevel::L3 {
        let own = "L3".spec_bytes();
        lemma_trimmed_is_whole(own);
        assert(!same_letters(own, "L1".spec_bytes())) by {
            assert(lower(own[1]) != lower("L1".spec_bytes()[1]));
        }
        assert(!same_letters(own, "L2".spec_bytes())) by {
            assert(lower(own[1]) != lower("L2".spec_bytes()[1]));
        }
    }
}

/// Kind of key that a licence carries.
#[derive(Debug, Clone, Copy, PartialEq, Eq, PartialOrd, Ord, Hash, Structural)]
pub enum KeyType {
    Signing,
    Content,
    KeyControl,
    OperatorSession,
    Entitlement,
    OemContent,
}

impl KeyType {
    /// The code of a key type.
    pub open spec fn code(self) -> u8 {
        match self {
            KeyType::Signing => 1,
            KeyType::Content => 2,
            KeyType::KeyControl => 3,
            KeyType::OperatorSession => 4,
            KeyType::Entitlement => 5,
            KeyType::OemContent => 6,
        }
    }

    /// The name of a key type.
    pub open spec fn name(self) -> &'static str {
        match self {
            KeyType::Signing => "SIGNING",
            KeyType::Content => "CONTENT",
            KeyType::KeyControl => "KEY_CONTROL",
            KeyType::OperatorSession => "OPERATOR_SESSION",
            KeyType::Entitlement => "ENTITLEMENT",
            KeyType::OemContent => "OEM_CONTENT",
        }
    }

    /// The key type that `t` names, up to the case of its letters.
    pub open spec fn named(t: Seq<u8>) -> Option<KeyType> {
        if same_letters(t, "SIGNING".spec_bytes()) {
            Some(KeyType::Signing)
        } else if same_letters(t, "CONTENT".spec_bytes()) {
            Some(KeyType::Content)
        } else if same_letters(t, "KEY_CONTROL".spec_bytes()) {
            Some(KeyType::KeyControl)
        } else if same_letters(t, "OEM_CONTENT".spec_bytes()) {
            Some(KeyType::OemContent)
        } else if same_letters(t, "ENTITLEMENT".spec_bytes()) {
            Some(KeyType::Entitlement)
        } else if same_letters(t, "OPERATOR_SESSION".spec_bytes()) {
            Some(KeyType::OperatorSession)
        } else {
            None
        }
    }

    /// The key type with code `u`, where there is one.
    pub open spec fn with_code(u: u8) -> Option<KeyType> {
        if u == 1 {
            Some(KeyType::Signing)
        } else if u == 2 {
            Some(KeyType::Content)
        } else if u == 3 {
            Some(KeyType::KeyControl)
        } else if u == 4 {
            Some(KeyType::OperatorSession)
        } else if u == 5 {
            Some(KeyType::Entitlement)
        } else if u == 6 {
            Some(KeyType::OemContent)
        } else {
            None
        }
    }

    /// The key type with code `u`; `None` for a code that names none.
    pub fn from_u8(u: u8) -> (r: Option<KeyType>)
        ensures
            r == KeyType::with_code(u),
    {
        match u {
            1 => Some(KeyType::Signing),
            2 => Some(KeyType::Content),
            3 => Some(KeyType::KeyControl),
            4 => Some(KeyType::OperatorSession),
            5 => Some(KeyType::Entitlement),
            6 => Some(KeyType::OemContent),
            _ => None,
        }
    }

    /// The code of the key type; the code names the key type again.
    pub fn to_u8(self) -> (u: u8)
        ensures
            u == self.code(),
            KeyType::with_code(u) == Some(self),
    {
        match self {
            KeyType::Signing => 1,
            KeyType::Content => 2,
            KeyType::KeyControl => 3,
            KeyType::OperatorSession => 4,
            KeyType::Entitlement => 5,
            KeyType::OemContent => 6,
        }
    }

    /// The key type that `name` spells, whitespace at its ends and the case
    /// of its letters aside.
    pub fn from_name(name: &[u8]) -> (r: Option<KeyType>)
        ensures
            r == KeyType::named(trimmed(name@)),
    {
        let name = trim_ascii(name);
        if eq_ignore_ascii_case(name, "SIGNING".as_bytes()) {
            Some(KeyType::Signing)
        } else if eq_ignore_ascii_case(name, "CONTENT".as_bytes()) {
            Some(KeyType::Content)
        } else if eq_ignore_ascii_case(name, "KEY_CONTROL".as_bytes()) {
            Some(KeyType::KeyControl)
        } else if eq_ignore_ascii_case(name, "OEM_CONTENT".as_bytes()) {
            Some(KeyType::OemContent)
        } else if eq_ignore_ascii_case(name, "ENTITLEMENT".as_bytes()) {
            Some(KeyType::Entitlement)
        } else if eq_ignore_ascii_case(name, "OPERATOR_SESSION".as_bytes()) {
            Some(KeyType::OperatorSession)
        } else {
            None
        }
    }

    /// The name of the key type.
    pub fn to_name(&self) -> (r: &'static str)
        ensures
            r@ == self.name()@,
    {
        match self {
            KeyType::Signing => "SIGNING",
            KeyType::Content => "CONTENT",
            KeyType::KeyControl => "KEY_CONTROL",
            KeyType::OperatorSession => "OPERATOR_SESSION",
            KeyType::Entitlement => "ENTITLEMENT",
            KeyType::OemContent => "OEM_CONTENT",
        }
    }

    /// The name of the key type, as an owned string.
    pub fn to_string(&self) -> (r: String)
        ensures
            r@ == self.name()@,
    {
        self.to_name().to_owned()
    }
}

impl core::str::FromStr for KeyType {
    type Err = ParseError;

    fn from_str(s: &str) -> (r: Result<KeyType, ParseError>)
        ensures
            match KeyType::named(trimmed(s.spec_bytes())) {
                Some(v) => r is Ok && r->Ok_0 == v,
                None => r is Err && r->Err_0.kind@ == "key type"@ && r->Err_0.value@ == s@,
            },
    {
        match KeyType::from_name(s.as_bytes()) {
            Some(v) => Ok(v),
            None => Err(ParseError { kind: "key type", value: s.to_owned() }),
        }
    }
}

/// A name names its own key type: reading the name that `to_name` gives
/// leads back to the key type it was taken from.
pub proof fn lemma_key_type_name_round_trip(v: KeyType)
    ensures
        KeyType::named(trimmed(v.name().spec_bytes())) == Some(v),
{
    reveal_strlit("SIGNING");
    reveal_strlit("CONTENT");
    reveal_strlit("KEY_CONTROL");
    reveal_strlit("OEM_CONTENT");
    reveal_strlit("ENTITLEMENT");
    reveal_strlit("OPERATOR_SESSION");
    lemma_word_bytes("SIGNING", "SIGNING"@);
    lemma_word_bytes("CONTENT", "CONTENT"@);
    lemma_word_bytes("KEY_CONTROL", "KEY_CONTROL"@);
    lemma_word_bytes("OEM_CONTENT", "OEM_CONTENT"@);
    lemma_word_bytes("ENTITLEMENT", "ENTITLEMENT"@);
    lemma_word_bytes("OPERATOR_SESSION", "OPERATOR_SESSION"@);
    if v == KeyType::Signing {
        let own = "SIGNING".spec_bytes();
        lemma_trimmed_is_whole(own);
    }
    if v == KeyType::Content {
        let own = "CONTENT".spec_bytes();
        lemma_trimmed_is_whole(own);
        assert(!same_letters(own, "SIGNING".spec_bytes())) by {
            assert(lower(own[0]) != lower("SIGNING".spec_bytes()[0]));
        }
    }
    if v == KeyType::KeyControl {
        let own = "KEY_CONTROL".spec_bytes();
        lemma_trimmed_is_whole(own);
    }
    if v == KeyType::OperatorSession {
        let own = "OPERATOR_SESSION".spec_bytes();
        lemma_trimmed_is_whole(own);
    }
    if v == KeyType::Entitlement {
        let own = "ENTITLEMENT".spec_bytes();
        lemma_trimmed_is_whole(own);
        assert(!same_letters(own, "KEY_CONTROL".spec_bytes())) by {
            assert(lower(own[0]) != lower("KEY_CONTROL".spec_bytes()[0]));
        }
        assert(!same_letters(own, "OEM_CONTENT".spec_bytes())) by {
            assert(lower(own[0]) != lower("OEM_CONTENT".spec_bytes()[0]));
        }
    }
    if v == KeyType::OemContent {
        let own = "OEM_CONTENT".spec_bytes();
        lemma_trimmed_is_whole(own);
        assert(!same_letters(own, "KEY_CONTROL".spec_bytes())) by {
            assert(lower(own[0]) != lower("KEY_CONTROL".spec_bytes()[0]));
        }
    }
}

/// Kind of licence that is asked for.
#[derive(Debug, Clone, Copy, PartialEq, Eq, PartialOrd, Ord, Hash, Structural)]
pub enum LicenseType {
    Streaming,
    Offline,
    Automatic,
}

impl LicenseType {
    /// The name of a licence type.
    pub open spec fn name(self) -> &'static str {
        match self {
            LicenseType::Streaming => "streaming",
            LicenseType::Offline => "offline",
            LicenseType::Automatic => "automatic",
        }
    }

    /// The licence type that `t` names, up to the case of its letters.
    pub open spec fn named(t: Seq<u8>) -> Option<LicenseType> {
        if same_letters(t, "auto".spec_bytes()) {
            Some(LicenseType::Automatic)
        } else if same_letters(t, "offline".spec_bytes()) {
            Some(LicenseType::Offline)
        } else if same_letters(t, "streaming".spec_bytes()) {
            Some(LicenseType::Streaming)
        } else if same_letters(t, "automatic".spec_bytes()) {
            Some(LicenseType::Automatic)
        } else {
            None
        }
    }

    /// The licence type that `name` spells, whitespace at its ends and the case
    /// of its letters aside.
    pub fn from_name(name: &[u8]) -> (r: Option<LicenseType>)
        ensures
            r == LicenseType::named(trimmed(name@)),
    {
        let name = trim_ascii(name);
        if eq_ignore_ascii_case(name, "auto".as_bytes()) {
            Some(LicenseType::Automatic)
        } else if eq_ignore_ascii_case(name, "offline".as_bytes()) {
            Some(LicenseType::Offline)
        } else if eq_ignore_ascii_case(name, "streaming".as_bytes()) {
            Some(LicenseType::Streaming)
        } else if eq_ignore_ascii_case(name, "automatic".as_bytes()) {
            Some(LicenseType::Automatic)
        } else {
            None
        }
    }

    /// The name of the licence type.
    pub fn to_name(&self) -> (r: &'static str)
        ensures
            r@ == self.name()@,
    {
        match self {
            LicenseType::Streaming => "streaming",
            LicenseType::Offline => "offline",
            LicenseType::Automatic => "automatic",
        }
    }

    /// The name of the licence type, as an owned string.
    pub fn to_string(&self) -> (r: String)
        ensures
            r@ == self.name()@,
    {
        self.to_name().to_owned()
    }
}

impl core::str::FromStr for LicenseType {
    type Err = ParseError;

    fn from_str(s: &str) -> (r: Result<LicenseType, ParseError>)
        ensures
            match LicenseType::named(trimmed(s.spec_bytes())) {
                Some(v) => r is Ok && r->Ok_0 == v,
                None => r is Err && r->Err_0.kind@ == "license type"@ && r->Err_0.value@ == s@,
            },
    {
        match LicenseType::from_name(s.as_bytes()) {
            Some(v) => Ok(v),
            None => Err(ParseError { kind: "license type", value: s.to_owned() }),
        }
    }
}

impl Default for LicenseType {
    fn default() -> (r: LicenseType)
        ensures
            r == LicenseType::Streaming,
    {
        LicenseType::Streaming
    }
}

/// A name names its own licence type: reading the name that `to_name` gives
/// leads back to the licence type it was taken from.
pub proof fn lemma_license_type_name_round_trip(v: LicenseType)
    ensures
        LicenseType::named(trimmed(v.name().spec_bytes())) == Some(v),
{
    reveal_strlit("auto");
    reveal_strlit("offline");
    reveal_strlit("streaming");
    reveal_strlit("automatic");
    lemma_word_bytes("auto", "auto"@);
    lemma_word_bytes("offline", "offline"@);
    lemma_word_bytes("streaming", "streaming"@);
    lemma_word_bytes("automatic", "automatic"@);
    if v == LicenseType::Streaming {
        let own = "streaming".spec_bytes();
        lemma_trimmed_is_whole(own);
    }
    if v == LicenseType::Offline {
        let own = "offline".spec_bytes();
        lemma_trimmed_is_whole(own);
    }
    if v == LicenseType::Automatic {
        let own = "automatic".spec_bytes();
        lemma_trimmed_is_whole(own);
        assert(!same_letters(own, "streaming".spec_bytes())) by {
            assert(lower(own[0]) != lower("streaming".spec_bytes()[0]));
        }
    }
}

/// The three keys that are derived from a session key.
#[derive(Debug, Clone, PartialEq, Eq)]
pub struct DerivedKeys {
    /// Decrypts the wrapped keys of the licence.
    pub enc_key: [u8; 16],
    /// Authenticates the licence that the server sent.
    pub mac_key_server: [u8; 32],
    /// Authenticates a renewal request of the client.
    pub mac_key_client: [u8; 32],
}

/// A key that was taken out of a licence: its identifier in canonical
/// big-endian order, its bytes and its kind.
#[derive(Debug, Clone, PartialEq, Eq)]
pub struct ContentKey {
    pub kid: [u8; 16],
    pub key: Vec<u8>,
    pub key_type: KeyType,
}

/// The hexadecimal digit of a value below sixteen, in lower case.
pub open spec fn hex_digit(v: int) -> char {
    if v < 10 {
        (0x30 + v) as char
    } else {
        (0x57 + v) as char
    }
}

/// `bytes` in hexadecimal: two lower-case digits for each byte, the high
/// half first.
pub open spec fn hex_text(bytes: Seq<u8>) -> Seq<char> {
    Seq::new(
        2 * bytes.len(),
        |i: int|
            if i % 2 == 0 {
                hex_digit(bytes[i / 2] as int / 16)
            } else {
                hex_digit(bytes[i / 2] as int % 16)
            },
    )
}

/// `hex::encode`: two lower-case hexadecimal digits for each byte.
#[verifier::external_body]
pub(crate) fn hex_encode(bytes: &[u8]) -> (s: String)
    ensures
        s@ == hex_text(bytes@),
{
    hex::encode(bytes)
}

impl ContentKey {
    /// The key identifier in lower-case hexadecimal.
    pub fn kid_hex(&self) -> (s: String)
        ensures
            s@ == hex_text(self.kid@),
    {
        hex_encode(self.kid.as_slice())
    }

    /// The key in lower-case hexadecimal.
    pub fn key_hex(&self) -> (s: String)
        ensures
            s@ == hex_text(self.key@),
    {
        hex_encode(self.key.as_slice())
    }

    /// Identifier and key in hexadecimal, with a colon between them.
    pub fn to_string(&self) -> (s: String)
        ensures
            s@ == hex_text(self.kid@) + seq![':'] + hex_text(self.key@),
    {
        let mut s = self.kid_hex();
        let key = self.key_hex();
        proof {
            reveal_strlit(":");
        }
        s.append(":");
        s.append(key.as_str());
        s
    }

    /// The key as [`ContentKey::to_string`] gives it, after the name of its
    /// kind in square brackets.
    pub fn to_debug_string(&self) -> (s: String)
        ensures
            s@ == seq!['['] + self.key_type.name()@ + seq![']', ' '] + (hex_text(self.kid@) + seq![
                ':',
            ] + hex_text(self.key@)),
    {
        let text = self.to_string();
        proof {
            reveal_strlit("[");
            reveal_strlit("] ");
        }
        let mut s = "[".to_owned();
        s.append(self.key_type.to_name());
        s.append("] ");
        s.append(text.as_str());
        assert(s@ =~= seq!['['] + self.key_type.name()@ + seq![']', ' '] + text@);
        s
    }
}

} // verus!
