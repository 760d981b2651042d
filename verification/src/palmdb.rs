//! The outer record-table wrapper header: a named index of record offsets
//! around the book's data. Decode and encode are byte-exact inverses for
//! every valid header.

use vstd::prelude::*;
use crate::common::{
    Error, Reader, spec_decode_optional_zero, spec_encode_optional_zero,
    spec_i32_at, spec_i32_be, spec_u16_at, spec_u16_be, spec_u24_at, spec_u24_be, spec_u32_at,
    spec_u32_be, decode_optional_zero, encode_optional_zero, write_i32_be, write_u16_be,
    write_u24_be, write_u32_be, lemma_u16_be_roundtrip, lemma_u24_be_roundtrip,
    lemma_u32_be_roundtrip, lemma_i32_bits_roundtrip, lemma_u16_bytes_roundtrip,
    lemma_u24_bytes_roundtrip, lemma_u32_bytes_roundtrip, lemma_u32_bits_roundtrip,
};

verus! {

/// The first half of the 8-byte type+creator tag this format family requires.
pub const TYPE_TAG: u32 = 0x424F4F4B;

/// The second half of the 8-byte type+creator tag.
pub const CREATOR_TAG: u32 = 0x4D4F4249;

/// One entry of the record-offset table: a 24-bit id, the offset of the
/// record's data within the container, and an attribute byte.
#[derive(Debug, Clone, Copy, PartialEq, Eq, Structural)]
pub struct Record {
    pub id: u32,
    pub data_offset: u32,
    pub attributes: u8,
}

/// The content type of the container; only the book type of this format
/// family decodes, so the tag is fixed.
#[derive(Debug, Clone, Copy, PartialEq, Eq, Structural)]
pub enum PalmDbType {
    Mobi,
}

/// The outer record-table wrapper header.
#[derive(Debug, Clone, PartialEq, Eq)]
pub struct PalmdbHeader {
    /// Exactly 31 name bytes; the terminator is the codec's concern.
    pub name: Vec<u8>,
    pub attributes: u16,
    pub version: u16,
    /// Seconds since the epoch, as the 32-bit signed field stores them.
    pub creation_date: i32,
    pub modification_date: i32,
    pub backup_date: i32,
    pub modification_number: u32,
    /// Zero-sentinel optional: absent is stored as 0.
    pub app_info_offset: Option<u32>,
    /// Zero-sentinel optional: absent is stored as 0.
    pub sort_info_offset: Option<u32>,
    pub content_type: PalmDbType,
    pub unique_id_seed: u32,
    pub next_record_list_id: u32,
    pub records: Vec<Record>,
}

/// The mathematical value of a [`PalmdbHeader`].
#[verifier::ext_equal]
pub struct PalmdbHeaderView {
    pub name: Seq<u8>,
    pub attributes: u16,
    pub version: u16,
    pub creation_date: i32,
    pub modification_date: i32,
    pub backup_date: i32,
    pub modification_number: u32,
    pub app_info_offset: Option<u32>,
    pub sort_info_offset: Option<u32>,
    pub content_type: PalmDbType,
    pub unique_id_seed: u32,
    pub next_record_list_id: u32,
    pub records: Seq<Record>,
}

impl View for PalmdbHeader {
    type V = PalmdbHeaderView;

    open spec fn view(&self) -> PalmdbHeaderView {
        PalmdbHeaderView {
            name: self.name@,
            attributes: self.attributes,
            version: self.version,
            creation_date: self.creation_date,
            modification_date: self.modification_date,
            backup_date: self.backup_date,
            modification_number: self.modification_number,
            app_info_offset: self.app_info_offset,
            sort_info_offset: self.sort_info_offset,
            content_type: self.content_type,
            unique_id_seed: self.unique_id_seed,
            next_record_list_id: self.next_record_list_id,
            records: self.records@,
        }
    }
}

impl PalmdbHeaderView {
    /// A valid header: 31 name bytes, a record count that fits the 16-bit
    /// count field, record ids that fit their 24-bit field, record data
    /// offsets in non-decreasing order, and optional offsets that the zero
    /// sentinel can represent (a present offset of zero would read back as
    /// absent).
    pub open spec fn wf(self) -> bool {
        &&& self.name.len() == 31
        &&& self.records.len() <= 0xFFFF
        &&& forall|i: int|
            0 <= i < self.records.len() ==> (#[trigger] self.records[i]).id < 0x1000000
        &&& forall|i: int, j: int|
            0 <= i <= j < self.records.len() ==> self.records[i].data_offset
                <= self.records[j].data_offset
        &&& self.app_info_offset != Some(0u32)
        &&& self.sort_info_offset != Some(0u32)
    }
}

/// The 8 bytes of one record-table entry.
pub open spec fn spec_record_bytes(r: Record) -> Seq<u8> {
    spec_u32_be(r.data_offset) + seq![r.attributes] + spec_u24_be(r.id)
}

/// The bytes of a whole record table.
pub open spec fn spec_records_bytes(rs: Seq<Record>) -> Seq<u8>
    decreases rs.len(),
{
    if rs.len() == 0 {
        Seq::empty()
    } else {
        spec_record_bytes(rs[0]) + spec_records_bytes(rs.drop_first())
    }
}

/// The fixed 78-byte region that precedes the record table.
pub open spec fn spec_palmdb_fixed_bytes(h: PalmdbHeaderView) -> Seq<u8> {
    h.name + seq![0u8] + spec_u16_be(h.attributes) + spec_u16_be(h.version) + spec_i32_be(
        h.creation_date,
    ) + spec_i32_be(h.modification_date) + spec_i32_be(h.backup_date) + spec_u32_be(
        h.modification_number,
    ) + spec_u32_be(spec_encode_optional_zero(h.app_info_offset)) + spec_u32_be(
        spec_encode_optional_zero(h.sort_info_offset),
    ) + spec_u32_be(TYPE_TAG) + spec_u32_be(CREATOR_TAG) + spec_u32_be(h.unique_id_seed)
        + spec_u32_be(h.next_record_list_id) + spec_u16_be(h.records.len() as u16)
}

/// The exact bytes that encoding a header emits: the fixed 78-byte region,
/// the record table, and a fixed two-byte zero trailer.
pub open spec fn spec_palmdb_bytes(h: PalmdbHeaderView) -> Seq<u8> {
    spec_palmdb_fixed_bytes(h) + spec_records_bytes(h.records) + seq![0u8, 0u8]
}

/// Parsing one record-table entry at `p`: a 32-bit data offset, an attribute
/// byte, and a 24-bit big-endian id.
pub open spec fn spec_parse_record(s: Seq<u8>, p: int) -> Result<(Record, int), Error> {
    if p + 4 > s.len() {
        Err(Error::Truncated { offset: p as usize })
    } else if p + 5 > s.len() {
        Err(Error::Truncated { offset: (p + 4) as usize })
    } else if p + 8 > s.len() {
        Err(Error::Truncated { offset: (p + 5) as usize })
    } else {
        Ok(
            (
                Record {
                    id: spec_u24_at(s, p + 5),
                    data_offset: spec_u32_at(s, p),
                    attributes: s[p + 4],
                },
                p + 8,
            ),
        )
    }
}

/// Parsing `n` record-table entries in order from `p`.
pub open spec fn spec_parse_records(s: Seq<u8>, p: int, n: nat) -> Result<(Seq<Record>, int), Error>
    decreases n,
{
    if n == 0 {
        Ok((Seq::empty(), p))
    } else {
        match spec_parse_record(s, p) {
            Err(e) => Err(e),
            Ok((r, p2)) => match spec_parse_records(s, p2, (n - 1) as nat) {
                Err(e) => Err(e),
                Ok((rs, p3)) => Ok((seq![r] + rs, p3)),
            },
        }
    }
}

/// Parsing the whole wrapper header from `p`: the fields in their fixed
/// order, failing with `Truncated` at the start of the first incomplete
/// field, with `BadMagic` when the 8-byte type+creator tag is not the
/// constant of this format family, and otherwise yielding the header and the
/// position just past the record table.
pub open spec fn spec_parse_palmdb(s: Seq<u8>, p: int) -> Result<(PalmdbHeaderView, int), Error> {
    if p + 32 > s.len() {
        Err(Error::Truncated { offset: p as usize })
    } else if p + 34 > s.len() {
        Err(Error::Truncated { offset: (p + 32) as usize })
    } else if p + 36 > s.len() {
        Err(Error::Truncated { offset: (p + 34) as usize })
    } else if p + 40 > s.len() {
        Err(Error::Truncated { offset: (p + 36) as usize })
    } else if p + 44 > s.len() {
        Err(Error::Truncated { offset: (p + 40) as usize })
    } else if p + 48 > s.len() {
        Err(Error::Truncated { offset: (p + 44) as usize })
    } else if p + 52 > s.len() {
        Err(Error::Truncated { offset: (p + 48) as usize })
    } else if p + 56 > s.len() {
        Err(Error::Truncated { offset: (p + 52) as usize })
    } else if p + 60 > s.len() {
        Err(Error::Truncated { offset: (p + 56) as usize })
    } else if p + 64 > s.len() {
        Err(Error::Truncated { offset: (p + 60) as usize })
    } else if p + 68 > s.len() {
        Err(Error::Truncated { offset: (p + 64) as usize })
    } else if spec_u32_at(s, p + 60) != TYPE_TAG || spec_u32_at(s, p + 64) != CREATOR_TAG {
        Err(Error::BadMagic)
    } else if p + 72 > s.len() {
        Err(Error::Truncated { offset: (p + 68) as usize })
    } else if p + 76 > s.len() {
        Err(Error::Truncated { offset: (p + 72) as usize })
    } else if p + 78 > s.len() {
        Err(Error::Truncated { offset: (p + 76) as usize })
    } else {
        match spec_parse_records(s, p + 78, spec_u16_at(s, p + 76) as nat) {
            Err(e) => Err(e),
            Ok((rs, end)) => Ok(
                (
                    PalmdbHeaderView {
                        name: s.subrange(p, p + 31),
                        attributes: spec_u16_at(s, p + 32),
                        version: spec_u16_at(s, p + 34),
                        creation_date: spec_i32_at(s, p + 36),
                        modification_date: spec_i32_at(s, p + 40),
                        backup_date: spec_i32_at(s, p + 44),
                        modification_number: spec_u32_at(s, p + 48),
                        app_info_offset: spec_decode_optional_zero(spec_u32_at(s, p + 52)),
                        sort_info_offset: spec_decode_optional_zero(spec_u32_at(s, p + 56)),
                        content_type: PalmDbType::Mobi,
                        unique_id_seed: spec_u32_at(s, p + 68),
                        next_record_list_id: spec_u32_at(s, p + 72),
                        records: rs,
                    },
                    end,
                ),
            ),
        }
    }
}

/// Reads `n` record-table entries.
#[verifier::loop_isolation(false)]
fn read_records(source: &mut Reader, n: u16) -> (r: Result<Vec<Record>, Error>)
    requires
        old(source).wf(),
    ensures
        final(source).wf(),
        final(source).buf@ == old(source).buf@,
        match spec_parse_records(old(source).buf@, old(source).pos as int, n as nat) {
            Ok((rs, end)) => {
                &&& r matches Ok(v) && v@ == rs
                &&& final(source).pos == end
            },
            Err(e) => r == Err::<Vec<Record>, Error>(e),
        },
{
    let ghost s = source.buf@;
    let ghost p0 = source.pos as int;
    let mut records: Vec<Record> = Vec::new();
    let mut i: u16 = 0;
    while i < n
        invariant
            source.wf(),
            source.buf@ == s,
            i <= n,
            records@.len() == i,
            match spec_parse_records(s, source.pos as int, (n - i) as nat) {
                Ok((rs, end)) => spec_parse_records(s, p0, n as nat) == Ok::<_, Error>(
                    (records@ + rs, end),
                ),
                Err(e) => spec_parse_records(s, p0, n as nat) == Err::<(Seq<Record>, int), Error>(
                    e,
                ),
            },
        decreases n - i,
    {
        let ghost pos_before = source.pos as int;
        let data_offset = match source.read_u32_be() {
            Ok(v) => v,
            Err(e) => {
                return Err(e);
            },
        };
        let attributes = match source.read_u8() {
            Ok(v) => v,
            Err(e) => {
                return Err(e);
            },
        };
        let id = match source.read_u24_be() {
            Ok(v) => v,
            Err(e) => {
                return Err(e);
            },
        };
        let rec = Record { id, data_offset, attributes };
        proof {
            assert(spec_parse_record(s, pos_before) == Ok::<_, Error>((rec, pos_before + 8)));
        }
        let ghost records_prev = records@;
        records.push(rec);
        proof {
            match spec_parse_records(s, source.pos as int, (n - i - 1) as nat) {
                Ok((rs, end)) => {
                    assert(spec_parse_records(s, pos_before, (n - i) as nat) == Ok::<
                        (Seq<Record>, int),
                        Error,
                    >((seq![rec] + rs, end)));
                    assert(records_prev + (seq![rec] + rs) =~= records@ + rs);
                },
                Err(e) => {
                    assert(spec_parse_records(s, pos_before, (n - i) as nat) == Err::<
                        (Seq<Record>, int),
                        Error,
                    >(e));
                },
            }
        }
        i = i + 1;
    }
    proof {
        assert(records@ + Seq::<Record>::empty() =~= records@);
    }
    Ok(records)
}

impl PalmdbHeader {
    /// Reads a wrapper header from the cursor. On success the cursor rests
    /// just past the record table; the result and each failure are exactly
    /// those of [`spec_parse_palmdb`] at the cursor's old position.
    pub fn read_from(source: &mut Reader) -> (r: Result<PalmdbHeader, Error>)
        requires
            old(source).wf(),
        ensures
            final(source).wf(),
            final(source).buf@ == old(source).buf@,
            match spec_parse_palmdb(old(source).buf@, old(source).pos as int) {
                Ok((v, end)) => {
                    &&& r matches Ok(h) && h@ == v
                    &&& final(source).pos == end
                },
                Err(e) => r == Err::<PalmdbHeader, Error>(e),
            },
    {
        let ghost s = source.buf@;
        let ghost p = source.pos as int;
        let mut name = match source.read_bytes(32) {
            Ok(v) => v,
            Err(e) => {
                return Err(e);
            },
        };
        name.truncate(31);
        proof {
            assert(name@ =~= s.subrange(p, p + 31));
        }
        let attributes = match source.read_u16_be() {
            Ok(v) => v,
            Err(e) => {
                return Err(e);
            },
        };
        let version = match source.read_u16_be() {
            Ok(v) => v,
            Err(e) => {
                return Err(e);
            },
        };
        let creation_date = match source.read_i32_be() {
            Ok(v) => v,
            Err(e) => {
                return Err(e);
            },
        };
        let modification_date = match source.read_i32_be() {
            Ok(v) => v,
            Err(e) => {
                return Err(e);
            },
        };
        let backup_date = match source.read_i32_be() {
            Ok(v) => v,
            Err(e) => {
                return Err(e);
            },
        };
        let modification_number = match source.read_u32_be() {
            Ok(v) => v,
            Err(e) => {
                return Err(e);
            },
        };
        // These two offsets use the zero sentinel, not the all-ones one.
        let app_info_raw = match source.read_u32_be() {
            Ok(v) => v,
            Err(e) => {
                return Err(e);
            },
        };
        let app_info_offset = decode_optional_zero(app_info_raw);
        let sort_info_raw = match source.read_u32_be() {
            Ok(v) => v,
            Err(e) => {
                return Err(e);
            },
        };
        let sort_info_offset = decode_optional_zero(sort_info_raw);
        let file_type = match source.read_u32_be() {
            Ok(v) => v,
            Err(e) => {
                return Err(e);
            },
        };
        let creator_program = match source.read_u32_be() {
            Ok(v) => v,
            Err(e) => {
                return Err(e);
            },
        };
        if file_type != TYPE_TAG || creator_program != CREATOR_TAG {
            return Err(Error::BadMagic);
        }
        let unique_id_seed = match source.read_u32_be() {
            Ok(v) => v,
            Err(e) => {
                return Err(e);
            },
        };
        let next_record_list_id = match source.read_u32_be() {
            Ok(v) => v,
            Err(e) => {
                return Err(e);
            },
        };
        let number_of_records = match source.read_u16_be() {
            Ok(v) => v,
            Err(e) => {
                return Err(e);
            },
        };
        let records = match read_records(source, number_of_records) {
            Ok(v) => v,
            Err(e) => {
                return Err(e);
            },
        };
        let header = PalmdbHeader {
            name,
            attributes,
            version,
            creation_date,
            modification_date,
            backup_date,
            modification_number,
            app_info_offset,
            sort_info_offset,
            content_type: PalmDbType::Mobi,
            unique_id_seed,
            next_record_list_id,
            records,
        };
        proof {
            let parsed = spec_parse_palmdb(s, p);
            assert(parsed matches Ok((v, end)) && header@ =~= v && end == source.pos);
        }
        Ok(header)
    }

    /// Writes the header back in the exact field order of the format,
    /// re-emitting the zero sentinel for absent offsets and a fixed two-byte
    /// zero trailer after the record table.
    #[verifier::rlimit(50)]
    pub fn write_to(&self, output: &mut Vec<u8>)
        requires
            self@.wf(),
        ensures
            final(output)@ == old(output)@ + spec_palmdb_bytes(self@),
    {
        let mut i: usize = 0;
        while i < 31
            invariant
                self@.wf(),
                i <= 31,
                output@ == old(output)@ + self@.name.take(i as int),
            decreases 31 - i,
        {
            output.push(self.name[i]);
            proof {
                assert(old(output)@ + self@.name.take(i + 1) =~= (old(output)@ + self@.name.take(
                    i as int,
                )).push(self@.name[i as int]));
            }
            i = i + 1;
        }
        output.push(0u8);
        write_u16_be(output, self.attributes);
        write_u16_be(output, self.version);
        write_i32_be(output, self.creation_date);
        write_i32_be(output, self.modification_date);
        write_i32_be(output, self.backup_date);
        write_u32_be(output, self.modification_number);
        // The two offsets use the zero sentinel for "absent".
        write_u32_be(output, encode_optional_zero(self.app_info_offset));
        write_u32_be(output, encode_optional_zero(self.sort_info_offset));
        write_u32_be(output, TYPE_TAG);
        write_u32_be(output, CREATOR_TAG);
        write_u32_be(output, self.unique_id_seed);
        write_u32_be(output, self.next_record_list_id);
        write_u16_be(output, self.records.len() as u16);
        proof {
            assert(output@ =~= old(output)@ + spec_palmdb_fixed_bytes(self@));
        }
        let ghost fixed = output@;
        let mut j: usize = 0;
        while j < self.records.len()
            invariant
                j <= self.records@.len(),
                output@ == fixed + spec_records_bytes(self.records@.take(j as int)),
            decreases self.records@.len() - j,
        {
            let rec = self.records[j];
            write_u32_be(output, rec.data_offset);
            output.push(rec.attributes);
            write_u24_be(output, rec.id);
            proof {
                lemma_records_bytes_push(self.records@.take(j as int), self.records@[j as int]);
                assert(self.records@.take(j as int).push(self.records@[j as int])
                    =~= self.records@.take(j + 1));
                assert(output@ =~= fixed + spec_records_bytes(self.records@.take(j + 1)));
            }
            j = j + 1;
        }
        output.push(0u8);
        output.push(0u8);
        proof {
            assert(self.records@.take(self.records@.len() as int) =~= self.records@);
            assert(self@.name.take(31) =~= self@.name);
            assert(output@ =~= old(output)@ + spec_palmdb_bytes(self@));
        }
    }
}

/// Appending one record to a table appends its 8 bytes to the table's bytes.
pub proof fn lemma_records_bytes_push(rs: Seq<Record>, r: Record)
    ensures
        spec_records_bytes(rs.push(r)) == spec_records_bytes(rs) + spec_record_bytes(r),
    decreases rs.len(),
{
    if rs.len() == 0 {
        assert(rs.push(r).drop_first() =~= Seq::<Record>::empty());
        assert(spec_records_bytes(Seq::<Record>::empty()) == Seq::<u8>::empty());
        assert(rs.push(r)[0] == r);
        assert(spec_records_bytes(rs.push(r)) == spec_record_bytes(r) + Seq::<u8>::empty());
        assert(spec_records_bytes(rs) == Seq::<u8>::empty());
        assert(spec_record_bytes(r) + Seq::<u8>::empty() =~= Seq::<u8>::empty()
            + spec_record_bytes(r));
    } else {
        lemma_records_bytes_push(rs.drop_first(), r);
        assert(rs.push(r).drop_first() =~= rs.drop_first().push(r));
        assert(rs.push(r)[0] == rs[0]);
        assert(spec_records_bytes(rs.push(r)) == spec_record_bytes(rs[0]) + (spec_records_bytes(
            rs.drop_first(),
        ) + spec_record_bytes(r)));
        assert(spec_record_bytes(rs[0]) + (spec_records_bytes(rs.drop_first())
            + spec_record_bytes(r)) =~= (spec_record_bytes(rs[0]) + spec_records_bytes(
            rs.drop_first(),
        )) + spec_record_bytes(r));
    }
}

/// A record table of `n` entries occupies exactly `8 * n` bytes.
pub proof fn lemma_records_bytes_len(rs: Seq<Record>)
    ensures
        spec_records_bytes(rs).len() == 8 * rs.len(),
    decreases rs.len(),
{
    if rs.len() > 0 {
        lemma_records_bytes_len(rs.drop_first());
    }
}

/// Parsing a record table from its own encoding, wherever it stands in a
/// larger buffer, yields the table back.
proof fn lemma_parse_records_roundtrip(s: Seq<u8>, p: int, rs: Seq<Record>)
    requires
        0 <= p,
        p + 8 * rs.len() <= s.len(),
        s.subrange(p, p + 8 * rs.len()) == spec_records_bytes(rs),
        forall|i: int| 0 <= i < rs.len() ==> (#[trigger] rs[i]).id < 0x1000000,
    ensures
        spec_parse_records(s, p, rs.len()) == Ok::<(Seq<Record>, int), Error>(
            (rs, p + 8 * rs.len()),
        ),
    decreases rs.len(),
{
    lemma_records_bytes_len(rs);
    if rs.len() == 0 {
        assert(rs =~= Seq::<Record>::empty());
    } else {
        let r0 = rs[0];
        let enc = spec_records_bytes(rs);
        lemma_records_bytes_len(rs.drop_first());
        assert(spec_record_bytes(r0).len() == 8);
        assert(enc == spec_record_bytes(r0) + spec_records_bytes(rs.drop_first()));
        // The first 8 bytes at p are the encoding of rs[0].
        assert forall|k: int| 0 <= k < 8 implies s[p + k] == #[trigger] spec_record_bytes(
            r0,
        )[k] by {
            assert(s.subrange(p, p + 8 * rs.len() as int)[k] == s[p + k]);
            assert(enc[k] == spec_record_bytes(r0)[k]);
        }
        assert(s[p] == spec_record_bytes(r0)[0] && spec_record_bytes(r0)[0] == ((r0.data_offset
            >> 24) & 0xff) as u8);
        assert(s[p + 1] == spec_record_bytes(r0)[1] && spec_record_bytes(r0)[1] == ((r0.data_offset
            >> 16) & 0xff) as u8);
        assert(s[p + 2] == spec_record_bytes(r0)[2] && spec_record_bytes(r0)[2] == ((r0.data_offset
            >> 8) & 0xff) as u8);
        assert(s[p + 3] == spec_record_bytes(r0)[3] && spec_record_bytes(r0)[3] == (r0.data_offset
            & 0xff) as u8);
        assert(s[p + 4] == spec_record_bytes(r0)[4] && spec_record_bytes(r0)[4] == r0.attributes);
        assert(s[p + 5] == spec_record_bytes(r0)[5] && spec_record_bytes(r0)[5] == ((r0.id >> 16)
            & 0xff) as u8);
        assert(s[p + 6] == spec_record_bytes(r0)[6] && spec_record_bytes(r0)[6] == ((r0.id >> 8)
            & 0xff) as u8);
        assert(s[p + 7] == spec_record_bytes(r0)[7] && spec_record_bytes(r0)[7] == (r0.id
            & 0xff) as u8);
        lemma_u32_be_roundtrip(r0.data_offset);
        lemma_u24_be_roundtrip(r0.id);
        assert(spec_u32_at(s, p) == r0.data_offset);
        assert(spec_u24_at(s, p + 5) == r0.id);
        assert(spec_parse_record(s, p) == Ok::<(Record, int), Error>((r0, p + 8)));
        lemma_records_bytes_len(rs.drop_first());
        assert forall|k: int|
            0 <= k < 8 * rs.drop_first().len() implies s[p + 8 + k] == #[trigger] spec_records_bytes(
            rs.drop_first(),
        )[k] by {
            assert(s.subrange(p, p + 8 * rs.len() as int)[8 + k] == s[p + 8 + k]);
            assert(enc[8 + k] == spec_records_bytes(rs.drop_first())[k]);
        }
        assert(s.subrange(p + 8, p + 8 + 8 * rs.drop_first().len()) =~= spec_records_bytes(
            rs.drop_first(),
        ));
        lemma_parse_records_roundtrip(s, p + 8, rs.drop_first());
        assert(seq![r0] + rs.drop_first() =~= rs);
    }
}

/// Law: decoding what encoding emitted yields the header back, for every
/// valid header; the decoder stops exactly at the two-byte zero trailer.
#[verifier::rlimit(80)]
pub proof fn lemma_palmdb_roundtrip(h: PalmdbHeaderView)
    requires
        h.wf(),
    ensures
        spec_parse_palmdb(spec_palmdb_bytes(h), 0) == Ok::<(PalmdbHeaderView, int), Error>(
            (h, 78 + 8 * h.records.len() as int),
        ),
{
    let s = spec_palmdb_bytes(h);
    lemma_records_bytes_len(h.records);
    assert(spec_palmdb_fixed_bytes(h).len() == 78);
    assert(s.len() == 80 + 8 * h.records.len());
    lemma_u16_be_roundtrip(h.attributes);
    lemma_u16_be_roundtrip(h.version);
    lemma_u16_be_roundtrip(h.records.len() as u16);
    lemma_u32_be_roundtrip(h.creation_date as u32);
    lemma_u32_be_roundtrip(h.modification_date as u32);
    lemma_u32_be_roundtrip(h.backup_date as u32);
    lemma_i32_bits_roundtrip(h.creation_date);
    lemma_i32_bits_roundtrip(h.modification_date);
    lemma_i32_bits_roundtrip(h.backup_date);
    lemma_u32_be_roundtrip(h.modification_number);
    lemma_u32_be_roundtrip(spec_encode_optional_zero(h.app_info_offset));
    lemma_u32_be_roundtrip(spec_encode_optional_zero(h.sort_info_offset));
    lemma_u32_be_roundtrip(TYPE_TAG);
    lemma_u32_be_roundtrip(CREATOR_TAG);
    lemma_u32_be_roundtrip(h.unique_id_seed);
    lemma_u32_be_roundtrip(h.next_record_list_id);
    assert(spec_u16_at(s, 32) == h.attributes);
    assert(spec_u16_at(s, 34) == h.version);
    assert(spec_i32_at(s, 36) == h.creation_date);
    assert(spec_i32_at(s, 40) == h.modification_date);
    assert(spec_i32_at(s, 44) == h.backup_date);
    assert(spec_u32_at(s, 48) == h.modification_number);
    assert(spec_u32_at(s, 52) == spec_encode_optional_zero(h.app_info_offset));
    assert(spec_u32_at(s, 56) == spec_encode_optional_zero(h.sort_info_offset));
    assert(spec_u32_at(s, 60) == TYPE_TAG);
    assert(spec_u32_at(s, 64) == CREATOR_TAG);
    assert(spec_u32_at(s, 68) == h.unique_id_seed);
    assert(spec_u32_at(s, 72) == h.next_record_list_id);
    assert(spec_u16_at(s, 76) == h.records.len() as u16);
    assert(s.subrange(0, 31) =~= h.name);
    assert(s.subrange(78, 78 + 8 * h.records.len() as int) =~= spec_records_bytes(h.records));
    lemma_parse_records_roundtrip(s, 78, h.records);
    let parsed = spec_parse_palmdb(s, 0);
    assert(parsed matches Ok((v, end)) && v =~= h && end == 78 + 8 * h.records.len());
}

/// A record table parsed from a buffer re-encodes to exactly the bytes it
/// was parsed from, and spans exactly eight bytes per entry.
proof fn lemma_parse_records_reencode(s: Seq<u8>, p: int, n: nat, rs: Seq<Record>, e: int)
    requires
        0 <= p <= s.len(),
        spec_parse_records(s, p, n) == Ok::<(Seq<Record>, int), Error>((rs, e)),
    ensures
        rs.len() == n,
        e == p + 8 * n,
        e <= s.len(),
        spec_records_bytes(rs) == s.subrange(p, e),
    decreases n,
{
    if n == 0 {
        assert(spec_records_bytes(rs) =~= s.subrange(p, e));
    } else {
        match spec_parse_record(s, p) {
            Ok((r0, p2)) => {
                match spec_parse_records(s, p2, (n - 1) as nat) {
                    Ok((rs2, e2)) => {
                        lemma_parse_records_reencode(s, p + 8, (n - 1) as nat, rs2, e2);
                        lemma_u32_bytes_roundtrip(s[p], s[p + 1], s[p + 2], s[p + 3]);
                        lemma_u24_bytes_roundtrip(s[p + 5], s[p + 6], s[p + 7]);
                        assert(spec_record_bytes(r0) =~= s.subrange(p, p + 8));
                        assert(rs[0] == r0);
                        assert(rs.drop_first() =~= rs2);
                        assert(spec_records_bytes(rs) == spec_record_bytes(r0)
                            + spec_records_bytes(rs2));
                        assert(spec_records_bytes(rs) =~= s.subrange(p, e));
                    },
                    Err(_) => {
                        assert(false);
                    },
                }
            },
            Err(_) => {
                assert(false);
            },
        }
    }
}

/// Law: re-encoding a decoded header reproduces the input bytes exactly,
/// zero padding included, whenever the input is exactly one encoded header:
/// its name terminator is zero, its two-byte trailer is zero, and nothing
/// follows the trailer.
#[verifier::rlimit(100)]
pub proof fn lemma_palmdb_reencode(s: Seq<u8>, v: PalmdbHeaderView, end: int)
    requires
        spec_parse_palmdb(s, 0) == Ok::<(PalmdbHeaderView, int), Error>((v, end)),
        s.len() == end + 2,
        s[31] == 0,
        s[end] == 0,
        s[end + 1] == 0,
    ensures
        spec_palmdb_bytes(v) == s,
{
    let n = spec_u16_at(s, 76) as nat;
    match spec_parse_records(s, 78, n) {
        Ok((rs, e)) => {
            lemma_parse_records_reencode(s, 78, n, rs, e);
            lemma_u16_bytes_roundtrip(s[32], s[33]);
            lemma_u16_bytes_roundtrip(s[34], s[35]);
            lemma_u16_bytes_roundtrip(s[76], s[77]);
            lemma_u32_bytes_roundtrip(s[36], s[37], s[38], s[39]);
            lemma_u32_bytes_roundtrip(s[40], s[41], s[42], s[43]);
            lemma_u32_bytes_roundtrip(s[44], s[45], s[46], s[47]);
            lemma_u32_bytes_roundtrip(s[48], s[49], s[50], s[51]);
            lemma_u32_bytes_roundtrip(s[52], s[53], s[54], s[55]);
            lemma_u32_bytes_roundtrip(s[56], s[57], s[58], s[59]);
            lemma_u32_bytes_roundtrip(s[60], s[61], s[62], s[63]);
            lemma_u32_bytes_roundtrip(s[64], s[65], s[66], s[67]);
            lemma_u32_bytes_roundtrip(s[68], s[69], s[70], s[71]);
            lemma_u32_bytes_roundtrip(s[72], s[73], s[74], s[75]);
            lemma_u32_bits_roundtrip(spec_u32_at(s, 36));
            lemma_u32_bits_roundtrip(spec_u32_at(s, 40));
            lemma_u32_bits_roundtrip(spec_u32_at(s, 44));
            assert(seq![0u8] =~= s.subrange(31, 32));
            assert(spec_u16_be(v.attributes) =~= s.subrange(32, 34));
            assert(spec_u16_be(v.version) =~= s.subrange(34, 36));
            assert(spec_i32_be(v.creation_date) =~= s.subrange(36, 40));
            assert(spec_i32_be(v.modification_date) =~= s.subrange(40, 44));
            assert(spec_i32_be(v.backup_date) =~= s.subrange(44, 48));
            assert(spec_u32_be(v.modification_number) =~= s.subrange(48, 52));
            assert(spec_u32_be(spec_encode_optional_zero(v.app_info_offset)) =~= s.subrange(
                52,
                56,
            ));
            assert(spec_u32_be(spec_encode_optional_zero(v.sort_info_offset)) =~= s.subrange(
                56,
                60,
            ));
            assert(spec_u32_be(TYPE_TAG) =~= s.subrange(60, 64));
            assert(spec_u32_be(CREATOR_TAG) =~= s.subrange(64, 68));
            assert(spec_u32_be(v.unique_id_seed) =~= s.subrange(68, 72));
            assert(spec_u32_be(v.next_record_list_id) =~= s.subrange(72, 76));
            assert(spec_u16_be(v.records.len() as u16) =~= s.subrange(76, 78));
            assert(spec_records_bytes(v.records) == s.subrange(78, end));
            assert(seq![0u8, 0u8] =~= s.subrange(end, end + 2));
            assert(s =~= v.name + s.subrange(31, 32) + s.subrange(32, 34) + s.subrange(34, 36)
                + s.subrange(36, 40) + s.subrange(40, 44) + s.subrange(44, 48) + s.subrange(48, 52)
                + s.subrange(52, 56) + s.subrange(56, 60) + s.subrange(60, 64) + s.subrange(64, 68)
                + s.subrange(68, 72) + s.subrange(72, 76) + s.subrange(76, 78) + s.subrange(
                78,
                end,
            ) + s.subrange(end, end + 2));
            assert(spec_palmdb_bytes(v) == s);
        },
        Err(_) => {
            assert(false);
        },
    }
}

} // verus!
