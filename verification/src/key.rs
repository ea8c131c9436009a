//! Kinds of content key and of key-wrapping cipher, with their codes and
//! names.

use vstd::prelude::*;
use vstd::string::StringSliceAdditionalSpecFns;

use crate::text::{
    eq_ignore_ascii_case, lemma_trimmed_is_whole, lemma_word_bytes, lower, same_letters,
    trim_ascii, trimmed, ParseError,
};

verus! {

/// Content encryption algorithm of a content key.
#[derive(Debug, Clone, Copy, PartialEq, Eq, PartialOrd, Ord, Hash, Structural)]
pub enum KeyType {
    Invalid,
    Aes128Ctr,
    Rc4Cipher,
    Aes128Ecb,
    Cocktail,
    Aes128Cbc,
    KeyExchange,
}

impl KeyType {
    /// The code of a key type.
    pub open spec fn code(self) -> u16 {
        match self {
            KeyType::Invalid => 0x0000,
            KeyType::Aes128Ctr => 0x0001,
            KeyType::Rc4Cipher => 0x0002,
            KeyType::Aes128Ecb => 0x0003,
            KeyType::Cocktail => 0x0004,
            KeyType::Aes128Cbc => 0x0005,
            KeyType::KeyExchange => 0x0006,
        }
    }

    /// The name of a key type.
    pub open spec fn name(self) -> &'static str {
        match self {
            KeyType::Invalid => "INVALID",
            KeyType::Aes128Ctr => "AES_128_CTR",
            KeyType::Rc4Cipher => "RC4_CIPHER",
            KeyType::Aes128Ecb => "AES_128_ECB",
            KeyType::Cocktail => "COCKTAIL",
            KeyType::Aes128Cbc => "AES_128_CBC",
            KeyType::KeyExchange => "KEY_EXCHANGE",
        }
    }

    /// The key type that `t` names, up to the case of its letters.
    pub open spec fn named(t: Seq<u8>) -> Option<KeyType> {
        if same_letters(t, "INVALID".spec_bytes()) {
            Some(KeyType::Invalid)
        } else if same_letters(t, "AES_128_CTR".spec_bytes()) {
            Some(KeyType::Aes128Ctr)
        } else if same_letters(t, "RC4_CIPHER".spec_bytes()) {
            Some(KeyType::Rc4Cipher)
        } else if same_letters(t, "AES_128_ECB".spec_bytes()) {
            Some(KeyType::Aes128Ecb)
        } else if same_letters(t, "COCKTAIL".spec_bytes()) {
            Some(KeyType::Cocktail)
        } else if same_letters(t, "AES_128_CBC".spec_bytes()) {
            Some(KeyType::Aes128Cbc)
        } else if same_letters(t, "KEY_EXCHANGE".spec_bytes()) {
            Some(KeyType::KeyExchange)
        } else {
            None
        }
    }

    /// The key type with code `u`, where there is one.
    pub open spec fn with_code(u: u16) -> Option<KeyType> {
        if u == 0x0000 {
            Some(KeyType::Invalid)
        } else if u == 0x0001 {
            Some(KeyType::Aes128Ctr)
        } else if u == 0x0002 {
            Some(KeyType::Rc4Cipher)
        } else if u == 0x0003 {
            Some(KeyType::Aes128Ecb)
        } else if u == 0x0004 {
            Some(KeyType::Cocktail)
        } else if u == 0x0005 {
            Some(KeyType::Aes128Cbc)
        } else if u == 0x0006 {
            Some(KeyType::KeyExchange)
        } else {
            None
        }
    }

    /// The key type with code `u`; `None` for a code that names none.
    pub fn from_u16(u: u16) -> (r: Option<KeyType>)
        ensures
            r == KeyType::with_code(u),
    {
        match u {
            0x0000 => Some(KeyType::Invalid),
            0x0001 => Some(KeyType::Aes128Ctr),
            0x0002 => Some(KeyType::Rc4Cipher),
            0x0003 => Some(KeyType::Aes128Ecb),
            0x0004 => Some(KeyType::Cocktail),
            0x0005 => Some(KeyType::Aes128Cbc),
            0x0006 => Some(KeyType::KeyExchange),
            _ => None,
        }
    }

    /// The code of the key type; the code names the key type again.
    pub fn to_u16(self) -> (u: u16)
        ensures
            u == self.code(),
            KeyType::with_code(u) == Some(self),
    {
        match self {
            KeyType::Invalid => 0x0000,
            KeyType::Aes128Ctr => 0x0001,
            KeyType::Rc4Cipher => 0x0002,
            KeyType::Aes128Ecb => 0x0003,
            KeyType::Cocktail => 0x0004,
            KeyType::Aes128Cbc => 0x0005,
            KeyType::KeyExchange => 0x0006,
        }
    }

    /// The key type that `name` spells, whitespace at its ends and the case
    /// of its letters aside.
    pub fn from_name(name: &[u8]) -> (r: Option<KeyType>)
        ensures
            r == KeyType::named(trimmed(name@)),
    {
        let name = trim_ascii(name);
        if eq_ignore_ascii_case(name, "INVALID".as_bytes()) {
            Some(KeyType::Invalid)
        } else if eq_ignore_ascii_case(name, "AES_128_CTR".as_bytes()) {
            Some(KeyType::Aes128Ctr)
        } else if eq_ignore_ascii_case(name, "RC4_CIPHER".as_bytes()) {
            Some(KeyType::Rc4Cipher)
        } else if eq_ignore_ascii_case(name, "AES_128_ECB".as_bytes()) {
            Some(KeyType::Aes128Ecb)
        } else if eq_ignore_ascii_case(name, "COCKTAIL".as_bytes()) {
            Some(KeyType::Cocktail)
        } else if eq_ignore_ascii_case(name, "AES_128_CBC".as_bytes()) {
            Some(KeyType::Aes128Cbc)
        } else if eq_ignore_ascii_case(name, "KEY_EXCHANGE".as_bytes()) {
            Some(KeyType::KeyExchange)
        } else {
            None
        }
    }

    /// The name of the key type.
    pub fn to_name(self) -> (r: &'static str)
        ensures
            r@ == self.name()@,
    {
        match self {
            KeyType::Invalid => "INVALID",
            KeyType::Aes128Ctr => "AES_128_CTR",
            KeyType::Rc4Cipher => "RC4_CIPHER",
            KeyType::Aes128Ecb => "AES_128_ECB",
            KeyType::Cocktail => "COCKTAIL",
            KeyType::Aes128Cbc => "AES_128_CBC",
            KeyType::KeyExchange => "KEY_EXCHANGE",
        }
    }

    /// The name of the key type, as an owned string.
    pub fn to_string(&self) -> (r: String)
        ensures
            r@ == self.name()@,
    {
        self.to_name().to_owned()
    }
}

impl core::str::FromStr for KeyType {
    type Err = ParseError;

    fn from_str(s: &str) -> (r: Result<KeyType, ParseError>)
        ensures
            match KeyType::named(trimmed(s.spec_bytes())) {
                Some(v) => r is Ok && r->Ok_0 == v,
                None => r is Err && r->Err_0.kind@ == "key type"@ && r->Err_0.value@ == s@,
            },
    {
        match KeyType::from_name(s.as_bytes()) {
            Some(v) => Ok(v),
            None => Err(ParseError { kind: "key type", value: s.to_owned() }),
        }
    }
}

/// A name names its own key type: reading the name that `to_name` gives
/// leads back to the key type it was taken from.
pub proof fn lemma_key_type_name_round_trip(v: KeyType)
    ensures
        KeyType::named(trimmed(v.name().spec_bytes())) == Some(v),
{
    reveal_strlit("INVALID");
    reveal_strlit("AES_128_CTR");
    reveal_strlit("RC4_CIPHER");
    reveal_strlit("AES_128_ECB");
    reveal_strlit("COCKTAIL");
    reveal_strlit("AES_128_CBC");
    reveal_strlit("KEY_EXCHANGE");
    lemma_word_bytes("INVALID", "INVALID"@);
    lemma_word_bytes("AES_128_CTR", "AES_128_CTR"@);
    lemma_word_bytes("RC4_CIPHER", "RC4_CIPHER"@);
    lemma_word_bytes("AES_128_ECB", "AES_128_ECB"@);
    lemma_word_bytes("COCKTAIL", "COCKTAIL"@);
    lemma_word_bytes("AES_128_CBC", "AES_128_CBC"@);
    lemma_word_bytes("KEY_EXCHANGE", "KEY_EXCHANGE"@);
    if v == KeyType::Invalid {
        let own = "INVALID".spec_bytes();
        lemma_trimmed_is_whole(own);
    }
    if v == KeyType::Aes128Ctr {
        let own = "AES_128_CTR".spec_bytes();
        lemma_trimmed_is_whole(own);
    }
    if v == KeyType::Rc4Cipher {
        let own = "RC4_CIPHER".spec_bytes();
        lemma_trimmed_is_whole(own);
    }
    if v == KeyType::Aes128Ecb {
        let own = "AES_128_ECB".spec_bytes();
        lemma_trimmed_is_whole(own);
        assert(!same_letters(own, "AES_128_CTR".spec_bytes())) by {
            assert(lower(own[8]) != lower("AES_128_CTR".spec_bytes()[8]));
        }
    }
    if v == KeyType::Cocktail {
        let own = "COCKTAIL".spec_bytes();
        lemma_trimmed_is_whole(own);
    }
    if v == KeyType::Aes128Cbc {
        let own = "AES_128_CBC".spec_bytes();
        lemma_trimmed_is_whole(own);
        assert(!same_letters(own, "AES_128_CTR".spec_bytes())) by {
            assert(lower(own[9]) != lower("AES_128_CTR".spec_bytes()[9]));
        }
        assert(!same_letters(own, "AES_128_ECB".spec_bytes())) by {
            assert(lower(own[8]) != lower("AES_128_ECB".spec_bytes()[8]));
        }
    }
    if v == KeyType::KeyExchange {
        let own = "KEY_EXCHANGE".spec_bytes();
        lemma_trimmed_is_whole(own);
    }
}

/// Cipher that wraps the content keys of a licence.
#[derive(Debug, Clone, Copy, PartialEq, Eq, PartialOrd, Ord, Hash, Structural)]
pub enum CipherType {
    Invalid,
    Rsa1024,
    ChainedLicense,
    Ecc256,
    Ecc256WithKz,
    TeeTransient,
    Ecc256ViaSymmetric,
}

impl CipherType {
    /// The code of a cipher type.
    pub open spec fn code(self) -> u16 {
        match self {
            CipherType::Invalid => 0x0000,
            CipherType::Rsa1024 => 0x0001,
            CipherType::ChainedLicense => 0x0002,
            CipherType::Ecc256 => 0x0003,
            CipherType::Ecc256WithKz => 0x0004,
            CipherType::TeeTransient => 0x0005,
            CipherType::Ecc256ViaSymmetric => 0x0006,
        }
    }

    /// The name of a cipher type.
    pub open spec fn name(self) -> &'static str {
        match self {
            CipherType::Invalid => "INVALID",
            CipherType::Rsa1024 => "RSA_1024",
            CipherType::ChainedLicense => "CHAINED_LICENSE",
            CipherType::Ecc256 => "ECC_256",
            CipherType::Ecc256WithKz => "ECC_256_WITH_KZ",
            CipherType::TeeTransient => "TEE_TRANSIENT",
            CipherType::Ecc256ViaSymmetric => "ECC_256_VIA_SYMMETRIC",
        }
    }

    /// The cipher type that `t` names, up to the case of its letters.
    pub open spec fn named(t: Seq<u8>) -> Option<CipherType> {
        if same_letters(t, "INVALID".spec_bytes()) {
            Some(CipherType::Invalid)
        } else if same_letters(t, "RSA_1024".spec_bytes()) {
            Some(CipherType::Rsa1024)
        } else if same_letters(t, "CHAINED_LICENSE".spec_bytes()) {
            Some(CipherType::ChainedLicense)
        } else if same_letters(t, "ECC_256".spec_bytes()) {
            Some(CipherType::Ecc256)
        } else if same_letters(t, "ECC_256_WITH_KZ".spec_bytes()) {
            Some(CipherType::Ecc256WithKz)
        } else if same_letters(t, "TEE_TRANSIENT".spec_bytes()) {
            Some(CipherType::TeeTransient)
        } else if same_letters(t, "ECC_256_VIA_SYMMETRIC".spec_bytes()) {
            Some(CipherType::Ecc256ViaSymmetric)
        } else {
            None
        }
    }

    /// The cipher type with code `u`, where there is one.
    pub open spec fn with_code(u: u16) -> Option<CipherType> {
        if u == 0x0000 {
            Some(CipherType::Invalid)
        } else if u == 0x0001 {
            Some(CipherType::Rsa1024)
        } else if u == 0x0002 {
            Some(CipherType::ChainedLicense)
        } else if u == 0x0003 {
            Some(CipherType::Ecc256)
        } else if u == 0x0004 {
            Some(CipherType::Ecc256WithKz)
        } else if u == 0x0005 {
            Some(CipherType::TeeTransient)
        } else if u == 0x0006 {
            Some(CipherType::Ecc256ViaSymmetric)
        } else {
            None
        }
    }

    /// The cipher type with code `u`; `None` for a code that names none.
    pub fn from_u16(u: u16) -> (r: Option<CipherType>)
        ensures
            r == CipherType::with_code(u),
    {
        match u {
            0x0000 => Some(CipherType::Invalid),
            0x0001 => Some(CipherType::Rsa1024),
            0x0002 => Some(CipherType::ChainedLicense),
            0x0003 => Some(CipherType::Ecc256),
            0x0004 => Some(CipherType::Ecc256WithKz),
            0x0005 => Some(CipherType::TeeTransient),
            0x0006 => Some(CipherType::Ecc256ViaSymmetric),
            _ => None,
        }
    }

    /// The code of the cipher type; the code names the cipher type again.
    pub fn to_u16(self) -> (u: u16)
        ensures
            u == self.code(),
            CipherType::with_code(u) == Some(self),
    {
        match self {
            CipherType::Invalid => 0x0000,
            CipherType::Rsa1024 => 0x0001,
            CipherType::ChainedLicense => 0x0002,
            CipherType::Ecc256 => 0x0003,
            CipherType::Ecc256WithKz => 0x0004,
            CipherType::TeeTransient => 0x0005,
            CipherType::Ecc256ViaSymmetric => 0x0006,
        }
    }

    /// The cipher type that `name` spells, whitespace at its ends and the case
    /// of its letters aside.
    pub fn from_name(name: &[u8]) -> (r: Option<CipherType>)
        ensures
            r == CipherType::named(trimmed(name@)),
    {
        let name = trim_ascii(name);
        if eq_ignore_ascii_case(name, "INVALID".as_bytes()) {
            Some(CipherType::Invalid)
        } else if eq_ignore_ascii_case(name, "RSA_1024".as_bytes()) {
            Some(CipherType::Rsa1024)
        } else if eq_ignore_ascii_case(name, "CHAINED_LICENSE".as_bytes()) {
            Some(CipherType::ChainedLicense)
        } else if eq_ignore_ascii_case(name, "ECC_256".as_bytes()) {
            Some(CipherType::Ecc256)
        } else if eq_ignore_ascii_case(name, "ECC_256_WITH_KZ".as_bytes()) {
            Some(CipherType::Ecc256WithKz)
        } else if eq_ignore_ascii_case(name, "TEE_TRANSIENT".as_bytes()) {
            Some(CipherType::TeeTransient)
        } else if eq_ignore_ascii_case(name, "ECC_256_VIA_SYMMETRIC".as_bytes()) {
            Some(CipherType::Ecc256ViaSymmetric)
        } else {
            None
        }
    }

    /// The name of the cipher type.
    pub fn to_name(self) -> (r: &'static str)
        ensures
            r@ == self.name()@,
    {
        match self {
            CipherType::Invalid => "INVALID",
            CipherType::Rsa1024 => "RSA_1024",
            CipherType::ChainedLicense => "CHAINED_LICENSE",
            CipherType::Ecc256 => "ECC_256",
            CipherType::Ecc256WithKz => "ECC_256_WITH_KZ",
            CipherType::TeeTransient => "TEE_TRANSIENT",
            CipherType::Ecc256ViaSymmetric => "ECC_256_VIA_SYMMETRIC",
        }
    }

    /// The name of the cipher type, as an owned string.
    pub fn to_string(&self) -> (r: String)
        ensures
            r@ == self.name()@,
    {
        self.to_name().to_owned()
    }
}

impl core::str::FromStr for CipherType {
    type Err = ParseError;

    fn from_str(s: &str) -> (r: Result<CipherType, ParseError>)
        ensures
            match CipherType::named(trimmed(s.spec_bytes())) {
                Some(v) => r is Ok && r->Ok_0 == v,
                None => r is Err && r->Err_0.kind@ == "cipher type"@ && r->Err_0.value@ == s@,
            },
    {
        match CipherType::from_name(s.as_bytes()) {
            Some(v) => Ok(v),
            None => Err(ParseError { kind: "cipher type", value: s.to_owned() }),
        }
    }
}

/// A name names its own cipher type: reading the name that `to_name` gives
/// leads back to the cipher type it was taken from.
pub proof fn lemma_cipher_type_name_round_trip(v: CipherType)
    ensures
        CipherType::named(trimmed(v.name().spec_bytes())) == Some(v),
{
    reveal_strlit("INVALID");
    reveal_strlit("RSA_1024");
    reveal_strlit("CHAINED_LICENSE");
    reveal_strlit("ECC_256");
    reveal_strlit("ECC_256_WITH_KZ");
    reveal_strlit("TEE_TRANSIENT");
    reveal_strlit("ECC_256_VIA_SYMMETRIC");
    lemma_word_bytes("INVALID", "INVALID"@);
    lemma_word_bytes("RSA_1024", "RSA_1024"@);
    lemma_word_bytes("CHAINED_LICENSE", "CHAINED_LICENSE"@);
    lemma_word_bytes("ECC_256", "ECC_256"@);
    lemma_word_bytes("ECC_256_WITH_KZ", "ECC_256_WITH_KZ"@);
    lemma_word_bytes("TEE_TRANSIENT", "TEE_TRANSIENT"@);
    lemma_word_bytes("ECC_256_VIA_SYMMETRIC", "ECC_256_VIA_SYMMETRIC"@);
    if v == CipherType::Invalid {
        let own = "INVALID".spec_bytes();
        lemma_trimmed_is_whole(own);
    }
    if v == CipherType::Rsa1024 {
        let own = "RSA_1024".spec_bytes();
        lemma_trimmed_is_whole(own);
    }
    if v == CipherType::ChainedLicense {
        let own = "CHAINED_LICENSE".spec_bytes();
        lemma_trimmed_is_whole(own);
    }
    if v == CipherType::Ecc256 {
        let own = "ECC_256".spec_bytes();
        lemma_trimmed_is_whole(own);
        assert(!same_letters(own, "INVALID".spec_bytes())) by {
            assert(lower(own[0]) != lower("INVALID".spec_bytes()[0]));
        }
    }
    if v == CipherType::Ecc256WithKz {
        let own = "ECC_256_WITH_KZ".spec_bytes();
        lemma_trimmed_is_whole(own);
        assert(!same_letters(own, "CHAINED_LICENSE".spec_bytes())) by {
            assert(lower(own[0]) != lower("CHAINED_LICENSE".spec_bytes()[0]));
        }
    }
    if v == CipherType::TeeTransient {
        let own = "TEE_TRANSIENT".spec_bytes();
        lemma_trimmed_is_whole(own);
    }
    if v == CipherType::Ecc256ViaSymmetric {
        let own = "ECC_256_VIA_SYMMETRIC".spec_bytes();
        lemma_trimmed_is_whole(own);
    }
}

} // verus!
