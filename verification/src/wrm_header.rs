//! Rights-management headers: the binary container of header records, and
//! the typed form of the header they carry.
//!
//! All fields of the binary container are little-endian.

use vstd::prelude::*;
use vstd::string::StringSliceAdditionalSpecFns;

use crate::bytes::slice_to_vec;
use crate::error::{eof, FormatError, FormatErrorView};
use crate::reader::{le16_at, Reader};
use crate::text::{
    eq_ignore_ascii_case, lemma_trimmed_is_whole, lemma_word_bytes, lower, same_letters,
    trim_ascii, trimmed, ParseError,
};

verus! {

/// Type of the record that holds the header text, in UTF-16.
pub const RECORD_TYPE_WRM_HEADER: u16 = 1;

/// One record of a header container.
#[derive(Debug, Clone, PartialEq, Eq)]
pub struct PlayReadyObject {
    pub record_type: u16,
    pub data: Vec<u8>,
}

/// [`PlayReadyObject`] as a mathematical value.
pub struct PlayReadyObjectView {
    pub record_type: u16,
    pub data: Seq<u8>,
}

impl View for PlayReadyObject {
    type V = PlayReadyObjectView;

    open spec fn view(&self) -> PlayReadyObjectView {
        PlayReadyObjectView { record_type: self.record_type, data: self.data@ }
    }
}

/// A header container: its records, in order.
#[derive(Debug, Clone, PartialEq, Eq)]
pub struct PlayReadyHeader {
    pub records: Vec<PlayReadyObject>,
}

/// The records of a list as mathematical values, in order.
pub open spec fn records_view(records: Seq<PlayReadyObject>) -> Seq<PlayReadyObjectView> {
    records.map_values(|r: PlayReadyObject| r@)
}

impl View for PlayReadyHeader {
    type V = Seq<PlayReadyObjectView>;

    open spec fn view(&self) -> Seq<PlayReadyObjectView> {
        records_view(self.records@)
    }
}

/// `remaining` records from offset `pos` on, appended to `acc`: each is a
/// type, a length and that many bytes.
pub open spec fn records_from(
    d: Seq<u8>,
    pos: int,
    remaining: nat,
    acc: Seq<PlayReadyObjectView>,
) -> Result<Seq<PlayReadyObjectView>, FormatErrorView>
    decreases remaining,
{
    let len = d.len() as int;
    if remaining == 0 {
        Ok(acc)
    } else if len < pos + 2 {
        Err(eof(pos + 2, len))
    } else if len < pos + 4 {
        Err(eof(pos + 4, len))
    } else if len < pos + 4 + le16_at(d, pos + 2) {
        Err(eof(pos + 4 + le16_at(d, pos + 2), len))
    } else {
        records_from(
            d,
            pos + 4 + le16_at(d, pos + 2),
            (remaining - 1) as nat,
            acc.push(
                PlayReadyObjectView {
                    record_type: le16_at(d, pos),
                    data: d.subrange(pos + 4, pos + 4 + le16_at(d, pos + 2)),
                },
            ),
        )
    }
}

/// The records of the container that the bytes `d` encode: a total length
/// that is read and not used, a count, and the records.
pub open spec fn header_of(d: Seq<u8>) -> Result<Seq<PlayReadyObjectView>, FormatErrorView> {
    let len = d.len() as int;
    if len < 4 {
        Err(eof(4, len))
    } else if len < 6 {
        Err(eof(6, len))
    } else {
        records_from(d, 6, le16_at(d, 4) as nat, Seq::empty())
    }
}

/// The first record of type `wanted` among `records[from..]`.
pub open spec fn first_of_type(records: Seq<PlayReadyObjectView>, wanted: u16, from: int) -> Option<
    PlayReadyObjectView,
>
    decreases records.len() - from,
{
    if from < 0 || from >= records.len() {
        None
    } else if records[from].record_type == wanted {
        Some(records[from])
    } else {
        first_of_type(records, wanted, from + 1)
    }
}

/// The 16-bit units that `bytes` spell in little-endian, two bytes each.
pub open spec fn le_units(bytes: Seq<u8>) -> Seq<u16> {
    Seq::new(bytes.len() / 2, |i: int| le16_at(bytes, 2 * i))
}

/// `units` without its last unit where that is zero.
pub open spec fn without_final_nul(units: Seq<u16>) -> Seq<u16> {
    if units.len() > 0 && units[units.len() - 1] == 0 {
        units.take(units.len() - 1)
    } else {
        units
    }
}

/// The text that `units` encode in UTF-16, where they encode one.
pub uninterp spec fn utf16_text(units: Seq<u16>) -> Option<Seq<char>>;

/// `String::from_utf16`: the text of well-formed UTF-16, which is a function
/// of the units; for ill-formed input the error, as its message.
#[verifier::external_body]
pub(crate) fn utf16_decode(units: &[u16]) -> (r: Result<String, String>)
    ensures
        match utf16_text(units@) {
            Some(text) => r is Ok && r->Ok_0@ == text,
            None => r is Err,
        },
{
    match String::from_utf16(units) {
        Ok(s) => Ok(s),
        Err(e) => Err(e.to_string()),
    }
}

/// What decoding the bytes of a record as UTF-16 text gives.
pub open spec fn record_text(data: Seq<u8>) -> Option<Seq<char>> {
    if data.len() % 2 != 0 {
        None
    } else {
        utf16_text(without_final_nul(le_units(data)))
    }
}

/// Whether `r` is the outcome of decoding `data` as text: the text, or an
/// error that says that the bytes are no UTF-16.
pub open spec fn is_record_text(r: Result<String, FormatError>, data: Seq<u8>) -> bool {
    match record_text(data) {
        Some(text) => r is Ok && r->Ok_0@ == text,
        None => r is Err && r->Err_0@ is InvalidUtf16 && (data.len() % 2 != 0 ==> r->Err_0@
            == FormatErrorView::InvalidUtf16("odd byte count"@)),
    }
}

fn next_u16(r: &mut Reader<'_>) -> (res: Result<u16, FormatError>)
    ensures
        final(r)@.data == old(r)@.data,
        res is Ok <==> old(r)@.pos + 2 <= old(r)@.data.len(),
        res is Ok ==> final(r)@.pos == old(r)@.pos + 2 && res->Ok_0 == le16_at(
            old(r)@.data,
            old(r)@.pos,
        ),
        res is Err ==> res->Err_0@ == eof(old(r)@.pos + 2, old(r)@.data.len() as int),
{
    match r.read_u16le() {
        Ok(v) => Ok(v),
        Err(e) => Err(FormatError::from_read(e)),
    }
}

impl PlayReadyHeader {
    /// Parses a header container.
    pub fn from_bytes(data: &[u8]) -> (res: Result<PlayReadyHeader, FormatError>)
        ensures
            match header_of(data@) {
                Ok(records) => res is Ok && res->Ok_0@ == records,
                Err(e) => res is Err && res->Err_0@ == e,
            },
    {
        let mut r = Reader::new(data);
        match r.read_u32le() {
            Ok(_) => {},
            Err(e) => {
                return Err(FormatError::from_read(e));
            },
        }
        let record_count = next_u16(&mut r)?;
        let mut records: Vec<PlayReadyObject> = Vec::new();
        assert(records_view(records@) =~= Seq::<PlayReadyObjectView>::empty());
        let mut i: u16 = 0;
        while i < record_count
            invariant
                i <= record_count,
                r@.data == data@,
                data@.len() >= 6,
                record_count == le16_at(data@, 4),
                records_from(data@, 6, record_count as nat, Seq::empty()) == records_from(
                    data@,
                    r@.pos,
                    (record_count - i) as nat,
                    records_view(records@),
                ),
            decreases record_count - i,
        {
            let ghost before = records_view(records@);
            let record_type = next_u16(&mut r)?;
            let record_len = next_u16(&mut r)?;
            let bytes = match r.read_bytes(record_len as usize) {
                Ok(b) => b,
                Err(e) => {
                    return Err(FormatError::from_read(e));
                },
            };
            let record = PlayReadyObject { record_type, data: slice_to_vec(bytes) };
            records.push(record);
            i = i + 1;
            assert(records_view(records@) =~= before.push(record@));
        }
        Ok(PlayReadyHeader { records })
    }

    /// The text of the first header record, where there is one.
    pub fn wrm_header_xml(&self) -> (r: Option<Result<String, FormatError>>)
        ensures
            match first_of_type(self@, RECORD_TYPE_WRM_HEADER, 0) {
                Some(record) => r is Some && is_record_text(r->Some_0, record.data),
                None => r is None,
            },
    {
        let mut i: usize = 0;
        while i < self.records.len()
            invariant
                i <= self.records.len(),
                first_of_type(self@, RECORD_TYPE_WRM_HEADER, 0) == first_of_type(
                    self@,
                    RECORD_TYPE_WRM_HEADER,
                    i as int,
                ),
            decreases self.records.len() - i,
        {
            if self.records[i].record_type == RECORD_TYPE_WRM_HEADER {
                return Some(self.records[i].as_utf16le_string());
            }
            i = i + 1;
        }
        None
    }
}

impl PlayReadyObject {
    /// The bytes of the record as text: little-endian UTF-16, with one final
    /// zero unit dropped where there is one.
    pub fn as_utf16le_string(&self) -> (r: Result<String, FormatError>)
        ensures
            is_record_text(r, self.data@),
    {
        let n = self.data.len();
        if n % 2 != 0 {
            return Err(FormatError::InvalidUtf16("odd byte count".to_owned()));
        }
        let mut units: Vec<u16> = Vec::new();
        let mut i: usize = 0;
        while i < n / 2
            invariant
                i <= n / 2,
                n == self.data@.len(),
                units@ == le_units(self.data@).take(i as int),
            decreases n / 2 - i,
        {
            let unit: u16 = self.data[2 * i] as u16 + self.data[2 * i + 1] as u16 * 256;
            units.push(unit);
            i = i + 1;
        }
        assert(units@ =~= le_units(self.data@));
        let count = units.len();
        let kept = if count > 0 && units[count - 1] == 0 {
            count - 1
        } else {
            count
        };
        let trimmed_units = vstd::slice::slice_subrange(units.as_slice(), 0, kept);
        match utf16_decode(trimmed_units) {
            Ok(s) => Ok(s),
            Err(message) => Err(FormatError::InvalidUtf16(message)),
        }
    }
}

/// Version of a rights-management header.
#[allow(non_camel_case_types)]
#[derive(Debug, Clone, Copy, PartialEq, Eq, PartialOrd, Ord, Hash, Structural)]
pub enum WrmHeaderVersion {
    V4_0_0_0,
    V4_1_0_0,
    V4_2_0_0,
    V4_3_0_0,
}

impl WrmHeaderVersion {
    /// The name of a header version.
    pub open spec fn name(self) -> &'static str {
        match self {
            WrmHeaderVersion::V4_0_0_0 => "4.0.0.0",
            WrmHeaderVersion::V4_1_0_0 => "4.1.0.0",
            WrmHeaderVersion::V4_2_0_0 => "4.2.0.0",
            WrmHeaderVersion::V4_3_0_0 => "4.3.0.0",
        }
    }

    /// The header version that `t` names, up to the case of its letters.
    pub open spec fn named(t: Seq<u8>) -> Option<WrmHeaderVersion> {
        if same_letters(t, "4.0.0.0".spec_bytes()) {
            Some(WrmHeaderVersion::V4_0_0_0)
        } else if same_letters(t, "4.1.0.0".spec_bytes()) {
            Some(WrmHeaderVersion::V4_1_0_0)
        } else if same_letters(t, "4.2.0.0".spec_bytes()) {
            Some(WrmHeaderVersion::V4_2_0_0)
        } else if same_letters(t, "4.3.0.0".spec_bytes()) {
            Some(WrmHeaderVersion::V4_3_0_0)
        } else {
            None
        }
    }

    /// The header version that `name` spells, whitespace at its ends and the case
    /// of its letters aside.
    pub fn from_name(name: &[u8]) -> (r: Option<WrmHeaderVersion>)
        ensures
            r == WrmHeaderVersion::named(trimmed(name@)),
    {
        let name = trim_ascii(name);
        if eq_ignore_ascii_case(name, "4.0.0.0".as_bytes()) {
            Some(WrmHeaderVersion::V4_0_0_0)
        } else if eq_ignore_ascii_case(name, "4.1.0.0".as_bytes()) {
            Some(WrmHeaderVersion::V4_1_0_0)
        } else if eq_ignore_ascii_case(name, "4.2.0.0".as_bytes()) {
            Some(WrmHeaderVersion::V4_2_0_0)
        } else if eq_ignore_ascii_case(name, "4.3.0.0".as_bytes()) {
            Some(WrmHeaderVersion::V4_3_0_0)
        } else {
            None
        }
    }

    /// The name of the header version.
    pub fn to_name(self) -> (r: &'static str)
        ensures
            r@ == self.name()@,
    {
        match self {
            WrmHeaderVersion::V4_0_0_0 => "4.0.0.0",
            WrmHeaderVersion::V4_1_0_0 => "4.1.0.0",
            WrmHeaderVersion::V4_2_0_0 => "4.2.0.0",
            WrmHeaderVersion::V4_3_0_0 => "4.3.0.0",
        }
    }

    /// The name of the header version, as an owned string.
    pub fn to_string(&self) -> (r: String)
        ensures
            r@ == self.name()@,
    {
        self.to_name().to_owned()
    }
}

impl core::str::FromStr for WrmHeaderVersion {
    type Err = ParseError;

    fn from_str(s: &str) -> (r: Result<WrmHeaderVersion, ParseError>)
        ensures
            match WrmHeaderVersion::named(trimmed(s.spec_bytes())) {
                Some(v) => r is Ok && r->Ok_0 == v,
                None => r is Err && r->Err_0.kind@ == "WRM header version"@ && r->Err_0.value@ == s@,
            },
    {
        match WrmHeaderVersion::from_name(s.as_bytes()) {
            Some(v) => Ok(v),
            None => Err(ParseError { kind: "WRM header version", value: s.to_owned() }),
        }
    }
}

/// A name names its own header version: reading the name that `to_name` gives
/// leads back to the header version it was taken from.
pub proof fn lemma_wrm_header_version_name_round_trip(v: WrmHeaderVersion)
    ensures
        WrmHeaderVersion::named(trimmed(v.name().spec_bytes())) == Some(v),
{
    reveal_strlit("4.0.0.0");
    reveal_strlit("4.1.0.0");
    reveal_strlit("4.2.0.0");
    reveal_strlit("4.3.0.0");
    lemma_word_bytes("4.0.0.0", "4.0.0.0"@);
    lemma_word_bytes("4.1.0.0", "4.1.0.0"@);
    lemma_word_bytes("4.2.0.0", "4.2.0.0"@);
    lemma_word_bytes("4.3.0.0", "4.3.0.0"@);
    if v == WrmHeaderVersion::V4_0_0_0 {
        let own = "4.0.0.0".spec_bytes();
        lemma_trimmed_is_whole(own);
    }
    if v == WrmHeaderVersion::V4_1_0_0 {
        let own = "4.1.0.0".spec_bytes();
        lemma_trimmed_is_whole(own);
        assert(!same_letters(own, "4.0.0.0".spec_bytes())) by {
            assert(lower(own[2]) != lower("4.0.0.0".spec_bytes()[2]));
        }
    }
    if v == WrmHeaderVersion::V4_2_0_0 {
        let own = "4.2.0.0".spec_bytes();
        lemma_trimmed_is_whole(own);
        assert(!same_letters(own, "4.0.0.0".spec_bytes())) by {
            assert(lower(own[2]) != lower("4.0.0.0".spec_bytes()[2]));
        }
        assert(!same_letters(own, "4.1.0.0".spec_bytes())) by {
            assert(lower(own[2]) != lower("4.1.0.0".spec_bytes()[2]));
        }
    }
    if v == WrmHeaderVersion::V4_3_0_0 {
        let own = "4.3.0.0".spec_bytes();
        lemma_trimmed_is_whole(own);
        assert(!same_letters(own, "4.0.0.0".spec_bytes())) by {
            assert(lower(own[2]) != lower("4.0.0.0".spec_bytes()[2]));
        }
        assert(!same_letters(own, "4.1.0.0".spec_bytes())) by {
            assert(lower(own[2]) != lower("4.1.0.0".spec_bytes()[2]));
        }
        assert(!same_letters(own, "4.2.0.0".spec_bytes())) by {
            assert(lower(own[2]) != lower("4.2.0.0".spec_bytes()[2]));
        }
    }
}

/// Content encryption algorithm that a header names.
#[derive(Debug, Clone, Copy, PartialEq, Eq, PartialOrd, Ord, Hash, Structural)]
pub enum AlgId {
    AesCtr,
    AesCbc,
    Cocktail,
}

impl AlgId {
    /// The name of a algorithm.
    pub open spec fn name(self) -> &'static str {
        match self {
            AlgId::AesCtr => "AESCTR",
            AlgId::AesCbc => "AESCBC",
            AlgId::Cocktail => "COCKTAIL",
        }
    }

    /// The algorithm that `t` names, up to the case of its letters.
    pub open spec fn named(t: Seq<u8>) -> Option<AlgId> {
        if same_letters(t, "AESCTR".spec_bytes()) {
            Some(AlgId::AesCtr)
        } else if same_letters(t, "AESCBC".spec_bytes()) {
            Some(AlgId::AesCbc)
        } else if same_letters(t, "COCKTAIL".spec_bytes()) {
            Some(AlgId::Cocktail)
        } else {
            None
        }
    }

    /// The algorithm that `name` spells, whitespace at its ends and the case
    /// of its letters aside.
    pub fn from_name(name: &[u8]) -> (r: Option<AlgId>)
        ensures
            r == AlgId::named(trimmed(name@)),
    {
        let name = trim_ascii(name);
        if eq_ignore_ascii_case(name, "AESCTR".as_bytes()) {
            Some(AlgId::AesCtr)
        } else if eq_ignore_ascii_case(name, "AESCBC".as_bytes()) {
            Some(AlgId::AesCbc)
        } else if eq_ignore_ascii_case(name, "COCKTAIL".as_bytes()) {
            Some(AlgId::Cocktail)
        } else {
            None
        }
    }

    /// The name of the algorithm.
    pub fn to_name(self) -> (r: &'static str)
        ensures
            r@ == self.name()@,
    {
        match self {
            AlgId::AesCtr => "AESCTR",
            AlgId::AesCbc => "AESCBC",
            AlgId::Cocktail => "COCKTAIL",
        }
    }

    /// The name of the algorithm, as an owned string.
    pub fn to_string(&self) -> (r: String)
        ensures
            r@ == self.name()@,
    {
        self.to_name().to_owned()
    }
}

impl core::str::FromStr for AlgId {
    type Err = ParseError;

    fn from_str(s: &str) -> (r: Result<AlgId, ParseError>)
        ensures
            match AlgId::named(trimmed(s.spec_bytes())) {
                Some(v) => r is Ok && r->Ok_0 == v,
                None => r is Err && r->Err_0.kind@ == "algorithm ID"@ && r->Err_0.value@ == s@,
            },
    {
        match AlgId::from_name(s.as_bytes()) {
            Some(v) => Ok(v),
            None => Err(ParseError { kind: "algorithm ID", value: s.to_owned() }),
        }
    }
}

/// A name names its own algorithm: reading the name that `to_name` gives
/// leads back to the algorithm it was taken from.
pub proof fn lemma_alg_id_name_round_trip(v: AlgId)
    ensures
        AlgId::named(trimmed(v.name().spec_bytes())) == Some(v),
{
    reveal_strlit("AESCTR");
    reveal_strlit("AESCBC");
    reveal_strlit("COCKTAIL");
    lemma_word_bytes("AESCTR", "AESCTR"@);
    lemma_word_bytes("AESCBC", "AESCBC"@);
    lemma_word_bytes("COCKTAIL", "COCKTAIL"@);
    if v == AlgId::AesCtr {
        let own = "AESCTR".spec_bytes();
        lemma_trimmed_is_whole(own);
    }
    if v == AlgId::AesCbc {
        let own = "AESCBC".spec_bytes();
        lemma_trimmed_is_whole(own);
        assert(!same_letters(own, "AESCTR".spec_bytes())) by {
            assert(lower(own[4]) != lower("AESCTR".spec_bytes()[4]));
        }
    }
    if v == AlgId::Cocktail {
        let own = "COCKTAIL".spec_bytes();
        lemma_trimmed_is_whole(own);
    }
}

/// A key identifier of a header, with the algorithm and checksum that may
/// come with it.
#[derive(Debug, Clone, PartialEq, Eq)]
pub struct SignedKeyId {
    /// The key identifier in canonical big-endian order.
    pub key_id: [u8; 16],
    pub alg_id: Option<AlgId>,
    pub checksum: Option<Vec<u8>>,
}

/// The content of a rights-management header.
#[derive(Debug, Clone, PartialEq, Eq)]
pub struct WrmHeader {
    pub version: WrmHeaderVersion,
    pub kids: Vec<SignedKeyId>,
    pub la_url: Option<String>,
    pub lui_url: Option<String>,
    pub ds_id: Option<String>,
}

/// A key identifier with its first three groups reversed: bytes 0 to 3,
/// bytes 4 and 5, bytes 6 and 7. The last eight bytes stay.
pub open spec fn swapped(kid: Seq<u8>) -> Seq<u8> {
    seq![
        kid[3],
        kid[2],
        kid[1],
        kid[0],
        kid[5],
        kid[4],
        kid[7],
        kid[6],
        kid[8],
        kid[9],
        kid[10],
        kid[11],
        kid[12],
        kid[13],
        kid[14],
        kid[15],
    ]
}

/// Swapping twice gives the identifier back: the conversion between the
/// mixed-endian form and the canonical form is its own inverse.
pub proof fn lemma_swap_is_involution(kid: Seq<u8>)
    requires
        kid.len() == 16,
    ensures
        swapped(swapped(kid)) == kid,
{
}

/// Turns a key identifier from its mixed-endian form into canonical
/// big-endian order.
pub fn kid_to_uuid(kid_bytes: &[u8; 16]) -> (r: [u8; 16])
    ensures
        r@ == swapped(kid_bytes@),
        swapped(r@) == kid_bytes@,
{
    let k = kid_bytes;
    let r = [
        k[3],
        k[2],
        k[1],
        k[0],
        k[5],
        k[4],
        k[7],
        k[6],
        k[8],
        k[9],
        k[10],
        k[11],
        k[12],
        k[13],
        k[14],
        k[15],
    ];
    proof {
        lemma_swap_is_involution(kid_bytes@);
    }
    r
}

/// Turns a key identifier from canonical order into its mixed-endian form:
/// the same exchange of bytes.
pub fn uuid_to_kid(uuid_bytes: &[u8; 16]) -> (r: [u8; 16])
    ensures
        r@ == swapped(uuid_bytes@),
        swapped(r@) == uuid_bytes@,
{
    kid_to_uuid(uuid_bytes)
}

} // verus!
