//! Byte-level utilities shared by the header codecs: a cursor over a byte
//! slice, big-endian integer views of bytes, and the two sentinel-for-absent
//! conventions used by optional header fields.

use vstd::prelude::*;

verus! {

/// The error kinds of this library. Every decode failure is terminal for the
/// unit being decoded; no function here panics on corrupt input.
#[derive(Debug, Clone, Copy, PartialEq, Eq, Structural)]
pub enum Error {
    /// The input ended before a fixed-size field was fully read; `offset` is
    /// the position (within the decoded slice) at which the field begins.
    Truncated { offset: usize },
    /// A magic tag did not match the constant expected for this format family.
    BadMagic,
    /// The record tiling size is not the single supported value, 4096.
    UnsupportedRecordSize,
    /// A back-reference with distance zero or beyond the output produced so far.
    CorruptBackReference,
    /// A string-valued field held no valid text. No decoder here raises this:
    /// string bytes pass through raw, and only a caller that chooses to
    /// interpret them as text reports it.
    Utf8Decode,
}

/// The big-endian 16-bit integer held by `s[p]` and `s[p + 1]`.
pub open spec fn spec_u16_at(s: Seq<u8>, p: int) -> u16 {
    ((s[p] as u16) << 8) | (s[p + 1] as u16)
}

/// The big-endian 32-bit integer held by `s[p]` through `s[p + 3]`.
pub open spec fn spec_u32_at(s: Seq<u8>, p: int) -> u32 {
    ((s[p] as u32) << 24) | ((s[p + 1] as u32) << 16) | ((s[p + 2] as u32) << 8)
        | (s[p + 3] as u32)
}

/// The big-endian 24-bit integer held by `s[p]` through `s[p + 2]`.
pub open spec fn spec_u24_at(s: Seq<u8>, p: int) -> u32 {
    ((s[p] as u32) << 16) | ((s[p + 1] as u32) << 8) | (s[p + 2] as u32)
}

/// The big-endian 32-bit signed integer held by `s[p]` through `s[p + 3]`.
pub open spec fn spec_i32_at(s: Seq<u8>, p: int) -> i32 {
    spec_u32_at(s, p) as i32
}

/// The two big-endian bytes of `x`.
pub open spec fn spec_u16_be(x: u16) -> Seq<u8> {
    seq![((x >> 8) & 0xff) as u8, (x & 0xff) as u8]
}

/// The four big-endian bytes of `x`.
pub open spec fn spec_u32_be(x: u32) -> Seq<u8> {
    seq![
        ((x >> 24) & 0xff) as u8,
        ((x >> 16) & 0xff) as u8,
        ((x >> 8) & 0xff) as u8,
        (x & 0xff) as u8,
    ]
}

/// The three big-endian bytes of the low 24 bits of `x`.
pub open spec fn spec_u24_be(x: u32) -> Seq<u8> {
    seq![((x >> 16) & 0xff) as u8, ((x >> 8) & 0xff) as u8, (x & 0xff) as u8]
}

/// The four big-endian bytes of the bit pattern of `x`.
pub open spec fn spec_i32_be(x: i32) -> Seq<u8> {
    spec_u32_be(x as u32)
}

/// Reading back the two big-endian bytes of a 16-bit integer yields it again.
pub proof fn lemma_u16_be_roundtrip(x: u16)
    by (bit_vector)
    ensures
        ((((x >> 8) & 0xff) as u8 as u16) << 8) | ((x & 0xff) as u8 as u16) == x,
{
}

/// Reading back the four big-endian bytes of a 32-bit integer yields it again.
pub proof fn lemma_u32_be_roundtrip(x: u32)
    by (bit_vector)
    ensures
        ((((x >> 24) & 0xff) as u8 as u32) << 24) | ((((x >> 16) & 0xff) as u8 as u32) << 16)
            | ((((x >> 8) & 0xff) as u8 as u32) << 8) | ((x & 0xff) as u8 as u32) == x,
{
}

/// Reading back the three big-endian bytes of a 24-bit integer yields it
/// again, provided the value fits in 24 bits.
pub proof fn lemma_u24_be_roundtrip(x: u32)
    by (bit_vector)
    requires
        x < 0x1000000,
    ensures
        ((((x >> 16) & 0xff) as u8 as u32) << 16) | ((((x >> 8) & 0xff) as u8 as u32) << 8)
            | ((x & 0xff) as u8 as u32) == x,
{
}

/// A signed 32-bit value survives the trip through its unsigned bit pattern.
pub proof fn lemma_i32_bits_roundtrip(x: i32)
    by (bit_vector)
    ensures
        (x as u32) as i32 == x,
{
}

/// An unsigned 32-bit value survives the trip through its signed bit pattern.
pub proof fn lemma_u32_bits_roundtrip(x: u32)
    by (bit_vector)
    ensures
        (x as i32) as u32 == x,
{
}

/// Writing back the 16-bit integer read from two bytes yields those bytes.
pub proof fn lemma_u16_bytes_roundtrip(b0: u8, b1: u8)
    by (bit_vector)
    ensures
        (((((b0 as u16) << 8) | (b1 as u16)) >> 8) & 0xff) as u8 == b0,
        ((((b0 as u16) << 8) | (b1 as u16)) & 0xff) as u8 == b1,
{
}

/// Writing back the 32-bit integer read from four bytes yields those bytes.
pub proof fn lemma_u32_bytes_roundtrip(b0: u8, b1: u8, b2: u8, b3: u8)
    by (bit_vector)
    ensures
        (((((b0 as u32) << 24) | ((b1 as u32) << 16) | ((b2 as u32) << 8) | (b3 as u32)) >> 24)
            & 0xff) as u8 == b0,
        (((((b0 as u32) << 24) | ((b1 as u32) << 16) | ((b2 as u32) << 8) | (b3 as u32)) >> 16)
            & 0xff) as u8 == b1,
        (((((b0 as u32) << 24) | ((b1 as u32) << 16) | ((b2 as u32) << 8) | (b3 as u32)) >> 8)
            & 0xff) as u8 == b2,
        ((((b0 as u32) << 24) | ((b1 as u32) << 16) | ((b2 as u32) << 8) | (b3 as u32)) & 0xff)
            as u8 == b3,
{
}

/// Writing back the 24-bit integer read from three bytes yields those bytes,
/// and the integer fits in 24 bits.
pub proof fn lemma_u24_bytes_roundtrip(b0: u8, b1: u8, b2: u8)
    by (bit_vector)
    ensures
        (((((b0 as u32) << 16) | ((b1 as u32) << 8) | (b2 as u32)) >> 16) & 0xff) as u8 == b0,
        (((((b0 as u32) << 16) | ((b1 as u32) << 8) | (b2 as u32)) >> 8) & 0xff) as u8 == b1,
        ((((b0 as u32) << 16) | ((b1 as u32) << 8) | (b2 as u32)) & 0xff) as u8 == b2,
        (((b0 as u32) << 16) | ((b1 as u32) << 8) | (b2 as u32)) < 0x1000000,
{
}

/// A cursor over a borrowed byte slice. All header decoding consumes bytes
/// through this type; `pos` never exceeds the slice length.
pub struct Reader<'a> {
    pub buf: &'a [u8],
    pub pos: usize,
}

impl<'a> Reader<'a> {
    /// The cursor is within the slice.
    pub open spec fn wf(&self) -> bool {
        self.pos <= self.buf@.len()
    }

    /// A cursor at the start of `buf`.
    pub fn new(buf: &'a [u8]) -> (r: Reader<'a>)
        ensures
            r.buf@ == buf@,
            r.pos == 0,
            r.wf(),
    {
        Reader { buf, pos: 0 }
    }

    /// Reads one byte, or fails with `Truncated` at the current position.
    pub fn read_u8(&mut self) -> (r: Result<u8, Error>)
        requires
            old(self).wf(),
        ensures
            final(self).wf(),
            final(self).buf@ == old(self).buf@,
            old(self).pos + 1 <= old(self).buf@.len() ==> {
                &&& r == Ok::<u8, Error>(old(self).buf@[old(self).pos as int])
                &&& final(self).pos == old(self).pos + 1
            },
            old(self).pos + 1 > old(self).buf@.len() ==> {
                &&& r == Err::<u8, Error>(Error::Truncated { offset: old(self).pos })
                &&& final(self).pos == old(self).pos
            },
    {
        if self.buf.len() - self.pos >= 1 {
            let b = self.buf[self.pos];
            self.pos = self.pos + 1;
            Ok(b)
        } else {
            Err(Error::Truncated { offset: self.pos })
        }
    }

    /// Reads a big-endian 16-bit integer.
    pub fn read_u16_be(&mut self) -> (r: Result<u16, Error>)
        requires
            old(self).wf(),
        ensures
            final(self).wf(),
            final(self).buf@ == old(self).buf@,
            old(self).pos + 2 <= old(self).buf@.len() ==> {
                &&& r == Ok::<u16, Error>(spec_u16_at(old(self).buf@, old(self).pos as int))
                &&& final(self).pos == old(self).pos + 2
            },
            old(self).pos + 2 > old(self).buf@.len() ==> {
                &&& r == Err::<u16, Error>(Error::Truncated { offset: old(self).pos })
                &&& final(self).pos == old(self).pos
            },
    {
        if self.buf.len() - self.pos >= 2 {
            let b0 = self.buf[self.pos];
            let b1 = self.buf[self.pos + 1];
            self.pos = self.pos + 2;
            Ok(((b0 as u16) << 8) | (b1 as u16))
        } else {
            Err(Error::Truncated { offset: self.pos })
        }
    }

    /// Reads a big-endian 32-bit integer.
    pub fn read_u32_be(&mut self) -> (r: Result<u32, Error>)
        requires
            old(self).wf(),
        ensures
            final(self).wf(),
            final(self).buf@ == old(self).buf@,
            old(self).pos + 4 <= old(self).buf@.len() ==> {
                &&& r == Ok::<u32, Error>(spec_u32_at(old(self).buf@, old(self).pos as int))
                &&& final(self).pos == old(self).pos + 4
            },
            old(self).pos + 4 > old(self).buf@.len() ==> {
                &&& r == Err::<u32, Error>(Error::Truncated { offset: old(self).pos })
                &&& final(self).pos == old(self).pos
            },
    {
        if self.buf.len() - self.pos >= 4 {
            let b0 = self.buf[self.pos];
            let b1 = self.buf[self.pos + 1];
            let b2 = self.buf[self.pos + 2];
            let b3 = self.buf[self.pos + 3];
            self.pos = self.pos + 4;
            Ok(((b0 as u32) << 24) | ((b1 as u32) << 16) | ((b2 as u32) << 8) | (b3 as u32))
        } else {
            Err(Error::Truncated { offset: self.pos })
        }
    }

    /// Reads a big-endian 32-bit signed integer (a timestamp field).
    pub fn read_i32_be(&mut self) -> (r: Result<i32, Error>)
        requires
            old(self).wf(),
        ensures
            final(self).wf(),
            final(self).buf@ == old(self).buf@,
            old(self).pos + 4 <= old(self).buf@.len() ==> {
                &&& r == Ok::<i32, Error>(spec_i32_at(old(self).buf@, old(self).pos as int))
                &&& final(self).pos == old(self).pos + 4
            },
            old(self).pos + 4 > old(self).buf@.len() ==> {
                &&& r == Err::<i32, Error>(Error::Truncated { offset: old(self).pos })
                &&& final(self).pos == old(self).pos
            },
    {
        match self.read_u32_be() {
            Ok(x) => Ok(x as i32),
            Err(e) => Err(e),
        }
    }

    /// Reads a big-endian 24-bit integer into the low bits of a `u32`.
    pub fn read_u24_be(&mut self) -> (r: Result<u32, Error>)
        requires
            old(self).wf(),
        ensures
            final(self).wf(),
            final(self).buf@ == old(self).buf@,
            old(self).pos + 3 <= old(self).buf@.len() ==> {
                &&& r == Ok::<u32, Error>(spec_u24_at(old(self).buf@, old(self).pos as int))
                &&& final(self).pos == old(self).pos + 3
            },
            old(self).pos + 3 > old(self).buf@.len() ==> {
                &&& r == Err::<u32, Error>(Error::Truncated { offset: old(self).pos })
                &&& final(self).pos == old(self).pos
            },
    {
        if self.buf.len() - self.pos >= 3 {
            let b0 = self.buf[self.pos];
            let b1 = self.buf[self.pos + 1];
            let b2 = self.buf[self.pos + 2];
            self.pos = self.pos + 3;
            Ok(((b0 as u32) << 16) | ((b1 as u32) << 8) | (b2 as u32))
        } else {
            Err(Error::Truncated { offset: self.pos })
        }
    }

    /// Reads `n` raw bytes.
    pub fn read_bytes(&mut self, n: usize) -> (r: Result<Vec<u8>, Error>)
        requires
            old(self).wf(),
        ensures
            final(self).wf(),
            final(self).buf@ == old(self).buf@,
            old(self).pos + n <= old(self).buf@.len() ==> {
                &&& r matches Ok(v) && v@ == old(self).buf@.subrange(
                    old(self).pos as int,
                    old(self).pos + n,
                )
                &&& final(self).pos == old(self).pos + n
            },
            old(self).pos + n > old(self).buf@.len() ==> {
                &&& r == Err::<Vec<u8>, Error>(Error::Truncated { offset: old(self).pos })
                &&& final(self).pos == old(self).pos
            },
    {
        if self.buf.len() - self.pos >= n {
            let piece = vstd::slice::slice_subrange(self.buf, self.pos, self.pos + n);
            let v = vstd::slice::slice_to_vec(piece);
            self.pos = self.pos + n;
            Ok(v)
        } else {
            Err(Error::Truncated { offset: self.pos })
        }
    }
    /// Reads a 32-bit field that uses the all-ones sentinel for "absent".
    pub fn read_unmaxed_u32(&mut self) -> (r: Result<Option<u32>, Error>)
        requires
            old(self).wf(),
        ensures
            final(self).wf(),
            final(self).buf@ == old(self).buf@,
            old(self).pos + 4 <= old(self).buf@.len() ==> {
                &&& r == Ok::<Option<u32>, Error>(
                    spec_decode_optional(spec_u32_at(old(self).buf@, old(self).pos as int)),
                )
                &&& final(self).pos == old(self).pos + 4
            },
            old(self).pos + 4 > old(self).buf@.len() ==> {
                &&& r == Err::<Option<u32>, Error>(Error::Truncated { offset: old(self).pos })
                &&& final(self).pos == old(self).pos
            },
    {
        match self.read_u32_be() {
            Ok(raw) => Ok(decode_optional(raw)),
            Err(e) => Err(e),
        }
    }
}

/// The all-ones sentinel convention: `0xFFFFFFFF` stands for "absent".
pub open spec fn spec_decode_optional(raw: u32) -> Option<u32> {
    if raw == 0xFFFFFFFFu32 {
        None
    } else {
        Some(raw)
    }
}

/// The inverse of [`spec_decode_optional`]: an absent value is written as the
/// all-ones sentinel.
pub open spec fn spec_encode_optional(x: Option<u32>) -> u32 {
    match x {
        None => 0xFFFFFFFFu32,
        Some(v) => v,
    }
}

/// The zero sentinel convention, used by a few fields instead of the all-ones
/// one: `0` stands for "absent". Never conflate the two; every call site says
/// which field group it decodes.
pub open spec fn spec_decode_optional_zero(raw: u32) -> Option<u32> {
    if raw == 0u32 {
        None
    } else {
        Some(raw)
    }
}

/// The inverse of [`spec_decode_optional_zero`]: an absent value is written
/// as zero.
pub open spec fn spec_encode_optional_zero(x: Option<u32>) -> u32 {
    match x {
        None => 0u32,
        Some(v) => v,
    }
}

/// Decodes a 32-bit field under the all-ones sentinel convention.
pub fn decode_optional(raw: u32) -> (r: Option<u32>)
    ensures
        r == spec_decode_optional(raw),
{
    if raw == 0xFFFFFFFFu32 {
        None
    } else {
        Some(raw)
    }
}

/// Encodes an optional 32-bit value under the all-ones sentinel convention.
pub fn encode_optional(x: Option<u32>) -> (r: u32)
    ensures
        r == spec_encode_optional(x),
{
    match x {
        None => 0xFFFFFFFFu32,
        Some(v) => v,
    }
}

/// Decodes a 32-bit field under the zero sentinel convention.
pub fn decode_optional_zero(raw: u32) -> (r: Option<u32>)
    ensures
        r == spec_decode_optional_zero(raw),
{
    if raw == 0u32 {
        None
    } else {
        Some(raw)
    }
}

/// Encodes an optional 32-bit value under the zero sentinel convention.
pub fn encode_optional_zero(x: Option<u32>) -> (r: u32)
    ensures
        r == spec_encode_optional_zero(x),
{
    match x {
        None => 0u32,
        Some(v) => v,
    }
}

/// Law: decoding what was encoded under the all-ones sentinel yields the
/// value again, for every value except `Some` of the sentinel itself, which
/// the convention cannot represent.
pub proof fn lemma_optional_roundtrip(x: Option<u32>)
    requires
        x != Some(0xFFFFFFFFu32),
    ensures
        spec_decode_optional(spec_encode_optional(x)) == x,
{
}

/// Law: decoding what was encoded under the zero sentinel yields the value
/// again, for every value except `Some(0)`, which that convention cannot
/// represent.
pub proof fn lemma_optional_zero_roundtrip(x: Option<u32>)
    requires
        x != Some(0u32),
    ensures
        spec_decode_optional_zero(spec_encode_optional_zero(x)) == x,
{
}

/// Skips up to `n` bytes, stopping at the end of the input without failing,
/// like a bounded skip on a byte stream.
pub fn discard(source: &mut Reader, n: usize)
    requires
        old(source).wf(),
    ensures
        final(source).wf(),
        final(source).buf@ == old(source).buf@,
        final(source).pos == spec_min_int(old(source).pos + n, old(source).buf@.len() as int),
{
    if source.buf.len() - source.pos < n {
        source.pos = source.buf.len();
    } else {
        source.pos = source.pos + n;
    }
}

/// The smaller of two integers.
pub open spec fn spec_min_int(a: int, b: int) -> int {
    if a <= b {
        a
    } else {
        b
    }
}

/// Reads the `len` raw bytes of a string-valued field. The bytes are not
/// validated as text: interpreting them is the caller's concern.
pub fn read_string(source: &mut Reader, len: usize) -> (r: Result<Vec<u8>, Error>)
    requires
        old(source).wf(),
    ensures
        final(source).wf(),
        final(source).buf@ == old(source).buf@,
        old(source).pos + len <= old(source).buf@.len() ==> {
            &&& r matches Ok(v) && v@ == old(source).buf@.subrange(
                old(source).pos as int,
                old(source).pos + len,
            )
            &&& final(source).pos == old(source).pos + len
        },
        old(source).pos + len > old(source).buf@.len() ==> {
            &&& r == Err::<Vec<u8>, Error>(Error::Truncated { offset: old(source).pos })
            &&& final(source).pos == old(source).pos
        },
{
    source.read_bytes(len)
}

/// The prefix of `buf` before its first zero byte, or all of `buf` when it
/// holds none.
pub open spec fn spec_until_zero(s: Seq<u8>) -> Seq<u8>
    decreases s.len(),
{
    if s.len() == 0 {
        s
    } else if s[0] == 0 {
        Seq::empty()
    } else {
        seq![s[0]] + spec_until_zero(s.drop_first())
    }
}

/// The bytes of `buf` before the first zero byte (the whole of `buf` when no
/// byte is zero).
pub fn read_until_zero(buf: &[u8]) -> (r: Vec<u8>)
    ensures
        r@ == spec_until_zero(buf@),
{
    let mut out: Vec<u8> = Vec::new();
    let mut i: usize = 0;
    proof {
        assert(buf@.skip(0) =~= buf@);
    }
    while i < buf.len()
        invariant
            i <= buf@.len(),
            out@ + spec_until_zero(buf@.skip(i as int)) == spec_until_zero(buf@),
            forall|j: int| 0 <= j < i ==> buf@[j] != 0,
            out@.len() == i,
        decreases buf@.len() - i,
    {
        let b = buf[i];
        proof {
            assert(buf@.skip(i as int).drop_first() =~= buf@.skip(i + 1));
        }
        if b == 0 {
            proof {
                assert(out@ + spec_until_zero(buf@.skip(i as int)) =~= out@);
            }
            return out;
        }
        out.push(b);
        i = i + 1;
        proof {
            assert(out@ + spec_until_zero(buf@.skip(i as int)) =~= spec_until_zero(buf@));
        }
    }
    proof {
        assert(buf@.skip(i as int) =~= Seq::empty());
        assert(out@ + spec_until_zero(buf@.skip(i as int)) =~= out@);
    }
    out
}

/// Whether `expected` is a prefix of `actual`, byte for byte.
pub fn compare_bytes(actual: &[u8], expected: &[u8]) -> (r: bool)
    ensures
        r == (expected@.len() <= actual@.len() && actual@.subrange(0, expected@.len() as int)
            == expected@),
{
    if expected.len() > actual.len() {
        return false;
    }
    let mut i: usize = 0;
    while i < expected.len()
        invariant
            i <= expected@.len() <= actual@.len(),
            forall|j: int| 0 <= j < i ==> actual@[j] == expected@[j],
        decreases expected@.len() - i,
    {
        if actual[i] != expected[i] {
            proof {
                assert(actual@.subrange(0, expected@.len() as int)[i as int] != expected@[i as int]);
            }
            return false;
        }
        i = i + 1;
    }
    proof {
        assert(actual@.subrange(0, expected@.len() as int) =~= expected@);
    }
    true
}

/// Appends the two big-endian bytes of `val`.
pub fn write_u16_be(output: &mut Vec<u8>, val: u16)
    ensures
        final(output)@ == old(output)@ + spec_u16_be(val),
{
    output.push(((val >> 8) & 0xff) as u8);
    output.push((val & 0xff) as u8);
    proof {
        assert(output@ =~= old(output)@ + spec_u16_be(val));
    }
}

/// Appends the four big-endian bytes of `val`.
pub fn write_u32_be(output: &mut Vec<u8>, val: u32)
    ensures
        final(output)@ == old(output)@ + spec_u32_be(val),
{
    output.push(((val >> 24) & 0xff) as u8);
    output.push(((val >> 16) & 0xff) as u8);
    output.push(((val >> 8) & 0xff) as u8);
    output.push((val & 0xff) as u8);
    proof {
        assert(output@ =~= old(output)@ + spec_u32_be(val));
    }
}

/// Appends the four big-endian bytes of the bit pattern of `val`.
pub fn write_i32_be(output: &mut Vec<u8>, val: i32)
    ensures
        final(output)@ == old(output)@ + spec_i32_be(val),
{
    write_u32_be(output, val as u32);
}

/// Appends the three big-endian bytes of the low 24 bits of `val`.
pub fn write_u24_be(output: &mut Vec<u8>, val: u32)
    ensures
        final(output)@ == old(output)@ + spec_u24_be(val),
{
    output.push(((val >> 16) & 0xff) as u8);
    output.push(((val >> 8) & 0xff) as u8);
    output.push((val & 0xff) as u8);
    proof {
        assert(output@ =~= old(output)@ + spec_u24_be(val));
    }
}

/// A locale code as the format stores it: a closed set of known values with a
/// raw fallback for codes this decoder does not model.
#[derive(Debug, Clone, Copy, PartialEq, Eq, Structural)]
pub enum Language {
    En,
    EnUs,
    EnUk,
    Unknown(u32),
}

/// The `Language` variant that stands for a raw locale code.
pub open spec fn spec_language_from(value: u32) -> Language {
    if value == 0x09u32 {
        Language::En
    } else if value == 0x0904u32 {
        Language::EnUs
    } else if value == 0x0908u32 {
        Language::EnUk
    } else {
        Language::Unknown(value)
    }
}

/// The raw locale code that a `Language` value stands for.
pub open spec fn spec_language_value(l: Language) -> u32 {
    match l {
        Language::En => 0x09u32,
        Language::EnUs => 0x0904u32,
        Language::EnUk => 0x0908u32,
        Language::Unknown(value) => value,
    }
}

impl Language {
    /// The variant for a raw locale code; unmapped codes fall back to
    /// `Unknown` rather than failing.
    pub fn from(value: u32) -> (r: Language)
        ensures
            r == spec_language_from(value),
    {
        if value == 0x09u32 {
            Language::En
        } else if value == 0x0904u32 {
            Language::EnUs
        } else if value == 0x0908u32 {
            Language::EnUk
        } else {
            Language::Unknown(value)
        }
    }

    /// The raw locale code this value stands for.
    pub fn value(&self) -> (r: u32)
        ensures
            r == spec_language_value(*self),
    {
        match *self {
            Language::En => 0x09u32,
            Language::EnUs => 0x0904u32,
            Language::EnUk => 0x0908u32,
            Language::Unknown(value) => value,
        }
    }
}

} // verus!
