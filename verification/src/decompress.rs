//! The record decompressor: one fixed-size compressed text record decodes to
//! a variable-length byte sequence through a four-way opcode dispatch with
//! self-overlapping back-references. The decoder is a pure function of the
//! record's bytes and never panics on corrupt input.

use vstd::prelude::*;
use crate::common::Error;

verus! {

/// The number of input bytes in one compressed text record.
pub const RECORD_SIZE: usize = 4096;

/// The bytes appended by a back-reference copy: `n` bytes taken `distance`
/// positions back from the end of the output, one at a time, so that each
/// newly appended byte can serve as a source for the bytes after it (the
/// source window may overlap the region being written).
pub open spec fn spec_lz_copy(out: Seq<u8>, distance: int, n: nat) -> Seq<u8>
    recommends
        1 <= distance <= out.len(),
    decreases n,
{
    if n == 0 {
        out
    } else {
        spec_lz_copy(out.push(out[out.len() - distance]), distance, (n - 1) as nat)
    }
}

/// The decompressor's state machine, from position `p` of record `s` with
/// output `out` produced so far. Opcode dispatch on the byte `c` at `p`:
/// `0x00` and `0x09..=0x7F` are literals; `0x01..=0x08` announce that many
/// raw bytes; `0x80..=0xBF` begin a two-byte back-reference; `0xC0..=0xFF`
/// expand to a space and the byte with its top bit cleared.
pub open spec fn spec_decompress_from(s: Seq<u8>, p: int, out: Seq<u8>) -> Result<Seq<u8>, Error>
    decreases s.len() - p,
{
    if p < 0 || p >= s.len() {
        Ok(out)
    } else {
        let c = s[p];
        if c == 0x00 || (0x09 <= c && c <= 0x7f) {
            spec_decompress_from(s, p + 1, out.push(c))
        } else if 0x01 <= c && c <= 0x08 {
            if p + 1 + c > s.len() {
                Err(Error::Truncated { offset: (p + 1) as usize })
            } else {
                spec_decompress_from(s, p + 1 + c, out + s.subrange(p + 1, p + 1 + c))
            }
        } else if 0x80 <= c && c <= 0xbf {
            if p + 2 > s.len() {
                Err(Error::Truncated { offset: (p + 1) as usize })
            } else {
                let v = (((c & 0x3f) as u16) << 8) | (s[p + 1] as u16);
                let distance = (v >> 3) as int;
                let length = ((v & 0x7) + 3) as int;
                if distance == 0 || distance > out.len() {
                    Err(Error::CorruptBackReference)
                } else {
                    spec_decompress_from(s, p + 2, spec_lz_copy(out, distance, length as nat))
                }
            }
        } else {
            spec_decompress_from(s, p + 1, out.push(0x20u8).push(c ^ 0x80u8))
        }
    }
}

/// What decompressing one whole record yields.
pub open spec fn spec_decompress(s: Seq<u8>) -> Result<Seq<u8>, Error> {
    spec_decompress_from(s, 0, Seq::empty())
}

/// Decompresses one fixed-size compressed text record into its plain bytes.
/// Output is not truncated to any declared uncompressed length: applying a
/// length budget is the caller's concern.
pub fn decompress(input: &[u8]) -> (r: Result<Vec<u8>, Error>)
    requires
        input@.len() == RECORD_SIZE,
    ensures
        match r {
            Ok(out) => spec_decompress(input@) == Ok::<Seq<u8>, Error>(out@),
            Err(e) => spec_decompress(input@) == Err::<Seq<u8>, Error>(e),
        },
{
    let mut out: Vec<u8> = Vec::new();
    let mut pos: usize = 0;
    while pos < input.len()
        invariant
            pos <= input@.len(),
            input@.len() == RECORD_SIZE,
            spec_decompress_from(input@, pos as int, out@) == spec_decompress(input@),
        decreases input@.len() - pos,
    {
        let c = input[pos];
        if c == 0x00 || (0x09 <= c && c <= 0x7f) {
            out.push(c);
            pos = pos + 1;
        } else if c <= 0x08 {
            let n = c as usize;
            if input.len() - (pos + 1) < n {
                return Err(Error::Truncated { offset: pos + 1 });
            }
            let ghost out0 = out@;
            let mut k: usize = 0;
            while k < n
                invariant
                    k <= n,
                    pos + 1 + n <= input@.len(),
                    input@.len() == RECORD_SIZE,
                    out@ == out0 + input@.subrange(pos + 1, pos + 1 + k),
                decreases n - k,
            {
                let b = input[pos + 1 + k];
                out.push(b);
                k = k + 1;
                proof {
                    assert(input@.subrange(pos + 1, pos + 1 + k) =~= input@.subrange(
                        pos + 1,
                        pos + k as int,
                    ).push(input@[pos + k as int]));
                }
            }
            pos = pos + 1 + n;
        } else if c <= 0xbf {
            if input.len() - pos < 2 {
                return Err(Error::Truncated { offset: pos + 1 });
            }
            let c2 = input[pos + 1];
            let v: u16 = (((c & 0x3f) as u16) << 8) | (c2 as u16);
            let distance = (v >> 3) as usize;
            let length = ((v & 0x7) as usize) + 3;
            proof {
                assert((v >> 3) < 0x2000 && (v & 0x7) < 8) by (bit_vector);
            }
            if distance == 0 || distance > out.len() {
                return Err(Error::CorruptBackReference);
            }
            let ghost out0 = out@;
            let mut k: usize = 0;
            while k < length
                invariant
                    k <= length,
                    1 <= distance <= out0.len(),
                    out@.len() == out0.len() + k,
                    spec_lz_copy(out0, distance as int, length as nat) == spec_lz_copy(
                        out@,
                        distance as int,
                        (length - k) as nat,
                    ),
                decreases length - k,
            {
                let idx = out.len() - distance;
                let b = out[idx];
                out.push(b);
                k = k + 1;
            }
            pos = pos + 2;
        } else {
            out.push(0x20);
            out.push(c ^ 0x80);
            pos = pos + 1;
        }
    }
    Ok(out)
}

/// Law: decompression is deterministic. The record's bytes alone determine
/// the result, so decompressing the same record twice yields byte-identical
/// output.
pub proof fn lemma_decompress_deterministic(
    s: Seq<u8>,
    r1: Result<Seq<u8>, Error>,
    r2: Result<Seq<u8>, Error>,
)
    requires
        r1 == spec_decompress(s),
        r2 == spec_decompress(s),
    ensures
        r1 == r2,
{
}

/// Law: a self-overlapping copy at distance one repeats the final output
/// byte — copying `n` bytes from one position back appends `n` copies of it.
pub proof fn lemma_lz_copy_distance_one(out: Seq<u8>, n: nat)
    requires
        out.len() >= 1,
    ensures
        spec_lz_copy(out, 1, n) == out + Seq::new(n, |i: int| out.last()),
    decreases n,
{
    if n == 0 {
        assert(out + Seq::new(0, |i: int| out.last()) =~= out);
    } else {
        let out2 = out.push(out.last());
        lemma_lz_copy_distance_one(out2, (n - 1) as nat);
        assert(out2 + Seq::new((n - 1) as nat, |i: int| out2.last()) =~= out + Seq::new(
            n,
            |i: int| out.last(),
        ));
    }
}

/// Law: a back-reference at distance one continues the decode with copies of
/// the final output byte appended — from output ending in `'A'`, a pair
/// encoding distance 1 and length `n` appends `n` more `'A'` bytes.
pub proof fn lemma_backref_distance_one_repeats(s: Seq<u8>, p: int, out: Seq<u8>)
    requires
        0 <= p,
        p + 2 <= s.len(),
        0x80 <= s[p] <= 0xbf,
        out.len() >= 1,
        ({
            let v = (((s[p] & 0x3f) as u16) << 8) | (s[p + 1] as u16);
            (v >> 3) == 1
        }),
    ensures
        ({
            let v = (((s[p] & 0x3f) as u16) << 8) | (s[p + 1] as u16);
            let n = ((v & 0x7) + 3) as nat;
            spec_decompress_from(s, p, out) == spec_decompress_from(
                s,
                p + 2,
                out + Seq::new(n, |i: int| out.last()),
            )
        }),
{
    let v = (((s[p] & 0x3f) as u16) << 8) | (s[p + 1] as u16);
    let n = ((v & 0x7) + 3) as nat;
    lemma_lz_copy_distance_one(out, n);
}

/// Law: a back-reference whose distance is zero or exceeds the output
/// produced so far fails with `CorruptBackReference`, whatever output length
/// the decoder has reached and whatever else the record holds.
pub proof fn lemma_bad_backref(s: Seq<u8>, p: int, out: Seq<u8>)
    requires
        0 <= p,
        p + 2 <= s.len(),
        0x80 <= s[p] <= 0xbf,
        ({
            let v = (((s[p] & 0x3f) as u16) << 8) | (s[p + 1] as u16);
            (v >> 3) == 0 || (v >> 3) > out.len()
        }),
    ensures
        spec_decompress_from(s, p, out) == Err::<Seq<u8>, Error>(Error::CorruptBackReference),
{
}

} // verus!
