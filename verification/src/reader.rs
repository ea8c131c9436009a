//! Bounds-checked cursor over a byte slice.
//!
//! Every parser in this crate reads through a [`Reader`]: a borrowed buffer
//! and an offset into it. A read either hands out the bytes asked for and
//! advances the offset by exactly that many, or fails and leaves the cursor
//! where it was. No read looks past the end of the buffer.

use vstd::prelude::*;
use vstd::utf8::*;

verus! {

/// Why a read could not be served: the buffer had to reach offset `needed`,
/// and holds only `have` bytes.
#[derive(Debug, Clone, PartialEq, Eq, Structural)]
pub struct ReadError {
    pub needed: usize,
    pub have: usize,
}

/// What a [`Reader`] is, mathematically: the buffer and the offset of the next
/// byte to be read.
pub struct ReaderView {
    pub data: Seq<u8>,
    pub pos: int,
}

/// A cursor over a borrowed byte slice.
pub struct Reader<'a> {
    data: &'a [u8],
    pos: usize,
}

/// `x`, held at the largest `usize` where it does not fit.
pub open spec fn saturate(x: int) -> usize {
    if x > usize::MAX {
        usize::MAX
    } else if x < 0 {
        0usize
    } else {
        x as usize
    }
}

/// `n` rounded up to the next multiple of four.
pub open spec fn round_up4(n: int) -> int {
    ((n + 3) / 4) * 4
}

/// The big-endian value of the two bytes of `s` that start at `at`.
pub open spec fn be16_at(s: Seq<u8>, at: int) -> u16 {
    (s[at] as int * 256 + s[at + 1] as int) as u16
}

/// The big-endian value of the four bytes of `s` that start at `at`.
pub open spec fn be32_at(s: Seq<u8>, at: int) -> u32 {
    (s[at] as int * 16777216 + s[at + 1] as int * 65536 + s[at + 2] as int * 256 + s[at + 3] as int) as u32
}

/// The little-endian value of the two bytes of `s` that start at `at`.
pub open spec fn le16_at(s: Seq<u8>, at: int) -> u16 {
    (s[at] as int + s[at + 1] as int * 256) as u16
}

/// The little-endian value of the four bytes of `s` that start at `at`.
pub open spec fn le32_at(s: Seq<u8>, at: int) -> u32 {
    (s[at] as int + s[at + 1] as int * 256 + s[at + 2] as int * 65536 + s[at + 3] as int * 16777216) as u32
}

/// Offset of the first zero byte of `s`, or `s.len()` when it holds none.
pub open spec fn first_nul(s: Seq<u8>) -> int
    decreases s.len(),
{
    if s.len() == 0 {
        0
    } else if s[0] == 0u8 {
        0
    } else {
        1 + first_nul(s.drop_first())
    }
}

/// The bytes of a padded string field that count as its text: what stands
/// before the first zero byte, or, where there is none, the first `raw_len`
/// bytes of the field.
pub open spec fn padded_text(field: Seq<u8>, raw_len: int) -> Seq<u8> {
    if first_nul(field) < field.len() {
        field.take(first_nul(field))
    } else if raw_len < field.len() {
        field.take(raw_len)
    } else {
        field
    }
}

/// The bytes that count as text in the padded string field of declared
/// length `raw_len` that starts at offset `at` of `data`.
pub open spec fn field_text(data: Seq<u8>, at: int, raw_len: int) -> Seq<u8> {
    padded_text(data.subrange(at, at + round_up4(raw_len)), raw_len)
}

/// The text that lossy UTF-8 decoding makes of `bytes`.
pub uninterp spec fn utf8_lossy_text(bytes: Seq<u8>) -> Seq<char>;

/// `String::from_utf8_lossy`, turned into an owned string. The text is a
/// function of the bytes alone; where the bytes are valid UTF-8 it is their
/// decoding, with nothing replaced.
#[verifier::external_body]
pub(crate) fn utf8_lossy(bytes: &[u8]) -> (s: String)
    ensures
        s@ == utf8_lossy_text(bytes@),
        valid_utf8(bytes@) ==> s@ == decode_utf8(bytes@),
{
    String::from_utf8_lossy(bytes).into_owned()
}

/// The first zero byte lies inside the sequence or at its end, holds a zero
/// where it lies inside, and has no zero before it.
pub proof fn lemma_first_nul_bounds(s: Seq<u8>)
    ensures
        0 <= first_nul(s) <= s.len(),
        first_nul(s) < s.len() ==> s[first_nul(s)] == 0u8,
        forall|i: int| 0 <= i < first_nul(s) ==> s[i] != 0u8,
    decreases s.len(),
{
    if s.len() > 0 && s[0] != 0u8 {
        let t = s.drop_first();
        lemma_first_nul_bounds(t);
        assert forall|i: int| 0 <= i < first_nul(s) implies s[i] != 0u8 by {
            if i > 0 {
                assert(t[i - 1] == s[i]);
            }
        }
    }
}

/// A position `k` that holds a zero byte after zero-free positions is the first
/// zero byte; a zero-free sequence has none.
pub proof fn lemma_first_nul_is(s: Seq<u8>, k: int)
    requires
        0 <= k <= s.len(),
        forall|i: int| 0 <= i < k ==> s[i] != 0u8,
        k < s.len() ==> s[k] == 0u8,
    ensures
        first_nul(s) == k,
{
    lemma_first_nul_bounds(s);
}

impl<'a> View for Reader<'a> {
    type V = ReaderView;

    closed spec fn view(&self) -> ReaderView {
        ReaderView { data: self.data@, pos: self.pos as int }
    }
}

impl<'a> Reader<'a> {
    #[verifier::type_invariant]
    spec fn in_bounds(self) -> bool {
        self.pos <= self.data@.len()
    }

    /// A reader at the start of `data`.
    pub fn new(data: &'a [u8]) -> (r: Self)
        ensures
            r@.data == data@,
            r@.pos == 0,
    {
        Reader { data, pos: 0 }
    }

    /// Offset of the next byte to be read.
    pub fn position(&self) -> (p: usize)
        ensures
            p == self@.pos,
            p <= self@.data.len(),
    {
        proof {
            use_type_invariant(self);
        }
        self.pos
    }

    /// Number of bytes from the offset to the end of the buffer.
    pub fn remaining(&self) -> (n: usize)
        ensures
            n == self@.data.len() - self@.pos,
    {
        proof {
            use_type_invariant(self);
        }
        self.data.len() - self.pos
    }

    /// The whole buffer, read and unread.
    pub fn data(&self) -> (d: &'a [u8])
        ensures
            d@ == self@.data,
    {
        self.data
    }

    /// Moves the cursor to `pos`, which may lie before or after the current
    /// offset but not past the end of the buffer.
    pub fn seek(&mut self, pos: usize)
        requires
            pos <= old(self)@.data.len(),
        ensures
            final(self)@.data == old(self)@.data,
            final(self)@.pos == pos,
    {
        self.pos = pos;
    }

    /// Succeeds exactly when `n` more bytes can be read. The error names the
    /// offset that the buffer would have had to reach.
    pub fn ensure(&self, n: usize) -> (r: Result<(), ReadError>)
        ensures
            r is Ok <==> self@.pos + n <= self@.data.len(),
            r is Err ==> r->Err_0 == (ReadError {
                needed: saturate(self@.pos + n),
                have: self@.data.len() as usize,
            }),
    {
        if self.remaining() < n {
            Err(ReadError { needed: self.pos.saturating_add(n), have: self.data.len() })
        } else {
            Ok(())
        }
    }

    /// Reads `n` bytes and advances past them; on failure the cursor stays.
    pub fn read_bytes(&mut self, n: usize) -> (r: Result<&'a [u8], ReadError>)
        ensures
            final(self)@.data == old(self)@.data,
            r is Ok <==> old(self)@.pos + n <= old(self)@.data.len(),
            r is Ok ==> final(self)@.pos == old(self)@.pos + n && r->Ok_0@
                == old(self)@.data.subrange(old(self)@.pos, old(self)@.pos + n),
            r is Err ==> final(self)@.pos == old(self)@.pos && r->Err_0 == (ReadError {
                needed: saturate(old(self)@.pos + n),
                have: old(self)@.data.len() as usize,
            }),
    {
        match self.ensure(n) {
            Err(e) => Err(e),
            Ok(()) => {
                let len = self.data.len();
                let slice = vstd::slice::slice_subrange(self.data, self.pos, self.pos + n);
                self.pos = self.pos + n;
                Ok(slice)
            },
        }
    }

    /// Reads `N` bytes into an array and advances past them.
    pub fn read_array<const N: usize>(&mut self) -> (r: Result<[u8; N], ReadError>)
        ensures
            final(self)@.data == old(self)@.data,
            r is Ok <==> old(self)@.pos + N <= old(self)@.data.len(),
            r is Ok ==> final(self)@.pos == old(self)@.pos + N && r->Ok_0@
                == old(self)@.data.subrange(old(self)@.pos, old(self)@.pos + N),
            r is Err ==> final(self)@.pos == old(self)@.pos && r->Err_0 == (ReadError {
                needed: saturate(old(self)@.pos + N),
                have: old(self)@.data.len() as usize,
            }),
    {
        match self.read_bytes(N) {
            Err(e) => Err(e),
            Ok(b) => {
                let mut arr = [0u8; N];
                let mut i: usize = 0;
                while i < N
                    invariant
                        i <= N,
                        b@.len() == N,
                        forall|j: int| 0 <= j < i ==> arr@[j] == b@[j],
                    decreases N - i,
                {
                    arr[i] = b[i];
                    i = i + 1;
                }
                Ok(arr)
            },
        }
    }

    /// Reads a big-endian `u16`.
    pub fn read_u16be(&mut self) -> (r: Result<u16, ReadError>)
        ensures
            final(self)@.data == old(self)@.data,
            r is Ok <==> old(self)@.pos + 2 <= old(self)@.data.len(),
            r is Ok ==> final(self)@.pos == old(self)@.pos + 2 && r->Ok_0 == be16_at(
                old(self)@.data,
                old(self)@.pos,
            ),
            r is Err ==> final(self)@.pos == old(self)@.pos && r->Err_0 == (ReadError {
                needed: saturate(old(self)@.pos + 2),
                have: old(self)@.data.len() as usize,
            }),
    {
        match self.read_bytes(2) {
            Err(e) => Err(e),
            Ok(b) => Ok(b[0] as u16 * 256 + b[1] as u16),
        }
    }

    /// Reads a big-endian `u32`.
    pub fn read_u32be(&mut self) -> (r: Result<u32, ReadError>)
        ensures
            final(self)@.data == old(self)@.data,
            r is Ok <==> old(self)@.pos + 4 <= old(self)@.data.len(),
            r is Ok ==> final(self)@.pos == old(self)@.pos + 4 && r->Ok_0 == be32_at(
                old(self)@.data,
                old(self)@.pos,
            ),
            r is Err ==> final(self)@.pos == old(self)@.pos && r->Err_0 == (ReadError {
                needed: saturate(old(self)@.pos + 4),
                have: old(self)@.data.len() as usize,
            }),
    {
        match self.read_bytes(4) {
            Err(e) => Err(e),
            Ok(b) => Ok(
                b[0] as u32 * 16777216 + b[1] as u32 * 65536 + b[2] as u32 * 256 + b[3] as u32,
            ),
        }
    }

    /// Reads a little-endian `u16`.
    pub fn read_u16le(&mut self) -> (r: Result<u16, ReadError>)
        ensures
            final(self)@.data == old(self)@.data,
            r is Ok <==> old(self)@.pos + 2 <= old(self)@.data.len(),
            r is Ok ==> final(self)@.pos == old(self)@.pos + 2 && r->Ok_0 == le16_at(
                old(self)@.data,
                old(self)@.pos,
            ),
            r is Err ==> final(self)@.pos == old(self)@.pos && r->Err_0 == (ReadError {
                needed: saturate(old(self)@.pos + 2),
                have: old(self)@.data.len() as usize,
            }),
    {
        match self.read_bytes(2) {
            Err(e) => Err(e),
            Ok(b) => Ok(b[0] as u16 + b[1] as u16 * 256),
        }
    }

    /// Reads a little-endian `u32`.
    pub fn read_u32le(&mut self) -> (r: Result<u32, ReadError>)
        ensures
            final(self)@.data == old(self)@.data,
            r is Ok <==> old(self)@.pos + 4 <= old(self)@.data.len(),
            r is Ok ==> final(self)@.pos == old(self)@.pos + 4 && r->Ok_0 == le32_at(
                old(self)@.data,
                old(self)@.pos,
            ),
            r is Err ==> final(self)@.pos == old(self)@.pos && r->Err_0 == (ReadError {
                needed: saturate(old(self)@.pos + 4),
                have: old(self)@.data.len() as usize,
            }),
    {
        match self.read_bytes(4) {
            Err(e) => Err(e),
            Ok(b) => Ok(
                b[0] as u32 + b[1] as u32 * 256 + b[2] as u32 * 65536 + b[3] as u32 * 16777216,
            ),
        }
    }

    /// Reads a zero-padded string field of declared length `raw_len`.
    ///
    /// The field takes `raw_len` rounded up to a multiple of four bytes, all of
    /// which are consumed. Its text ends at the first zero byte, or after
    /// `raw_len` bytes where there is none, and is decoded as UTF-8 with
    /// replacement of what is not.
    pub fn read_padded_string(&mut self, raw_len: usize) -> (r: Result<String, ReadError>)
        ensures
            final(self)@.data == old(self)@.data,
            r is Ok <==> old(self)@.pos + round_up4(raw_len as int) <= old(self)@.data.len(),
            r is Ok ==> final(self)@.pos == old(self)@.pos + round_up4(raw_len as int)
                && r->Ok_0@ == utf8_lossy_text(
                field_text(old(self)@.data, old(self)@.pos, raw_len as int),
            ),
            r is Ok && valid_utf8(field_text(old(self)@.data, old(self)@.pos, raw_len as int))
                ==> r->Ok_0@ == decode_utf8(
                field_text(old(self)@.data, old(self)@.pos, raw_len as int),
            ),
            r is Err ==> final(self)@.pos == old(self)@.pos && r->Err_0 == (ReadError {
                needed: saturate(old(self)@.pos + round_up4(raw_len as int)),
                have: old(self)@.data.len() as usize,
            }),
    {
        proof {
            use_type_invariant(&*self);
        }
        if raw_len > usize::MAX - 3 {
            return Err(ReadError { needed: usize::MAX, have: self.data.len() });
        }
        let aligned: usize = (raw_len + 3) / 4 * 4;
        match self.read_bytes(aligned) {
            Err(e) => Err(e),
            Ok(bytes) => {
                let mut end: usize = 0;
                while end < aligned && bytes[end] != 0
                    invariant
                        end <= aligned,
                        bytes@.len() == aligned,
                        forall|i: int| 0 <= i < end ==> bytes@[i] != 0u8,
                    decreases aligned - end,
                {
                    end = end + 1;
                }
                proof {
                    lemma_first_nul_is(bytes@, end as int);
                }
                if end == aligned && raw_len < aligned {
                    end = raw_len;
                }
                let text = vstd::slice::slice_subrange(bytes, 0, end);
                assert(text@ =~= padded_text(bytes@, raw_len as int));
                Ok(utf8_lossy(text))
            },
        }
    }
}

} // verus!
