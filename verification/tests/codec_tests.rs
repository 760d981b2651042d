//! Tests for the header codecs: the record-table wrapper, the metadata
//! header, the tagged metadata block, and the byte-level helpers they share.

use mobi::common::{
    compare_bytes, decode_optional, decode_optional_zero, encode_optional, encode_optional_zero,
    read_string, read_until_zero, Error, Language, Reader,
};
use mobi::exth_tags::{read_from as read_exth_tags, CreatorSoftware, ExthTag, ExthType};
use mobi::mobi::{CompressionType, EncryptionType, MobiHeader, MobiType, TextEncoding};
use mobi::palmdb::{PalmdbHeader, PalmDbType, Record};

fn push_u16(out: &mut Vec<u8>, v: u16) {
    out.extend_from_slice(&v.to_be_bytes());
}

fn push_u32(out: &mut Vec<u8>, v: u32) {
    out.extend_from_slice(&v.to_be_bytes());
}

fn sample_palmdb_header() -> PalmdbHeader {
    let mut name = b"A sample book".to_vec();
    name.resize(31, 0);
    PalmdbHeader {
        name,
        attributes: 0x0102,
        version: 3,
        creation_date: 1_400_000_000,
        modification_date: 1_450_000_000,
        backup_date: -5,
        modification_number: 42,
        app_info_offset: None,
        sort_info_offset: Some(96),
        content_type: PalmDbType::Mobi,
        unique_id_seed: 7777,
        next_record_list_id: 0,
        records: vec![
            Record { id: 0, data_offset: 104, attributes: 0 },
            Record { id: 1, data_offset: 4200, attributes: 0x40 },
            Record { id: 0xFFFFFF, data_offset: 8296, attributes: 7 },
        ],
    }
}

#[test]
fn palmdb_roundtrip_preserves_header() {
    let header = sample_palmdb_header();
    let mut bytes: Vec<u8> = Vec::new();
    header.write_to(&mut bytes);
    assert_eq!(bytes.len(), 78 + 8 * header.records.len() + 2);
    let mut reader = Reader::new(&bytes);
    let decoded = PalmdbHeader::read_from(&mut reader).expect("decode of encoded header");
    assert_eq!(decoded, header);
    // The decoder stops exactly at the two-byte zero trailer.
    assert_eq!(reader.pos, bytes.len() - 2);
}

#[test]
fn palmdb_encoding_layout_is_fixed() {
    let header = sample_palmdb_header();
    let mut bytes: Vec<u8> = Vec::new();
    header.write_to(&mut bytes);
    // Name bytes, then the terminator the codec appends.
    assert_eq!(&bytes[0..13], b"A sample book");
    assert_eq!(bytes[31], 0);
    // The 8-byte type+creator tag at its fixed offset.
    assert_eq!(&bytes[60..68], b"BOOKMOBI");
    // An absent offset is written as the zero sentinel.
    assert_eq!(&bytes[52..56], &[0, 0, 0, 0]);
    // Record count, big-endian, at its fixed offset.
    assert_eq!(&bytes[76..78], &[0, 3]);
    // The fixed zero padding trailer.
    assert_eq!(&bytes[bytes.len() - 2..], &[0, 0]);
}

#[test]
fn palmdb_reencoding_reproduces_bytes() {
    // Raw header bytes built by hand, not by the encoder: one record.
    let mut bytes: Vec<u8> = Vec::new();
    bytes.extend_from_slice(b"raw book");
    bytes.resize(32, 0); // name padded to 31 bytes + terminator
    push_u16(&mut bytes, 7); // attributes
    push_u16(&mut bytes, 1); // version
    push_u32(&mut bytes, 100); // creation
    push_u32(&mut bytes, 200); // modification
    push_u32(&mut bytes, 300); // backup
    push_u32(&mut bytes, 4); // modification number
    push_u32(&mut bytes, 0); // app info offset: absent
    push_u32(&mut bytes, 90); // sort info offset
    bytes.extend_from_slice(b"BOOKMOBI");
    push_u32(&mut bytes, 123); // id seed
    push_u32(&mut bytes, 0); // next record list
    push_u16(&mut bytes, 1); // one record
    push_u32(&mut bytes, 88); // record offset
    bytes.push(9); // record attributes
    bytes.extend_from_slice(&[0x00, 0x00, 0x01]); // record id
    bytes.extend_from_slice(&[0, 0]); // trailer
    let mut reader = Reader::new(&bytes);
    let decoded = PalmdbHeader::read_from(&mut reader).expect("raw header");
    let mut reencoded: Vec<u8> = Vec::new();
    decoded.write_to(&mut reencoded);
    assert!(compare_bytes(&reencoded, &bytes));
    assert_eq!(reencoded, bytes);
}

#[test]
fn palmdb_bad_magic_is_rejected() {
    let header = sample_palmdb_header();
    let mut bytes: Vec<u8> = Vec::new();
    header.write_to(&mut bytes);
    bytes[60] = b'X';
    let mut reader = Reader::new(&bytes);
    assert_eq!(PalmdbHeader::read_from(&mut reader), Err(Error::BadMagic));
}

#[test]
fn palmdb_truncated_carries_field_offset() {
    let header = sample_palmdb_header();
    let mut bytes: Vec<u8> = Vec::new();
    header.write_to(&mut bytes);
    // Cut inside the backup-date field, which begins at offset 44.
    bytes.truncate(46);
    let mut reader = Reader::new(&bytes);
    assert_eq!(
        PalmdbHeader::read_from(&mut reader),
        Err(Error::Truncated { offset: 44 })
    );
    // An empty input fails at the name field, offset 0.
    let empty: Vec<u8> = Vec::new();
    let mut reader = Reader::new(&empty);
    assert_eq!(
        PalmdbHeader::read_from(&mut reader),
        Err(Error::Truncated { offset: 0 })
    );
}

#[test]
fn palmdb_truncated_record_table() {
    let header = sample_palmdb_header();
    let mut bytes: Vec<u8> = Vec::new();
    header.write_to(&mut bytes);
    // Cut inside the second record's id field: 78 + 8 + 4 + 1 = 91 is its
    // start, so ending at 92 truncates it.
    bytes.truncate(92);
    let mut reader = Reader::new(&bytes);
    assert_eq!(
        PalmdbHeader::read_from(&mut reader),
        Err(Error::Truncated { offset: 91 })
    );
}

#[test]
fn optional_sentinel_roundtrip() {
    assert_eq!(decode_optional(encode_optional(None)), None);
    assert_eq!(decode_optional(encode_optional(Some(0))), Some(0));
    assert_eq!(
        decode_optional(encode_optional(Some(u32::MAX - 1))),
        Some(u32::MAX - 1)
    );
    assert_eq!(decode_optional(0xFFFFFFFF), None);
    assert_eq!(decode_optional(17), Some(17));
}

#[test]
fn optional_zero_sentinel_roundtrip() {
    assert_eq!(decode_optional_zero(encode_optional_zero(None)), None);
    assert_eq!(decode_optional_zero(encode_optional_zero(Some(5))), Some(5));
    assert_eq!(decode_optional_zero(0), None);
    assert_eq!(decode_optional_zero(96), Some(96));
}

#[test]
fn reader_primitives_read_big_endian() {
    let bytes = vec![0x01, 0x02, 0x03, 0x04, 0xFF, 0xFF, 0xFF, 0xFB];
    let mut r = Reader::new(&bytes);
    assert_eq!(r.read_u16_be(), Ok(0x0102));
    assert_eq!(r.read_u8(), Ok(0x03));
    assert_eq!(r.read_u24_be(), Ok(0x04FFFF));
    assert_eq!(r.read_u16_be(), Ok(0xFFFB));
    assert_eq!(r.read_u8(), Err(Error::Truncated { offset: 8 }));

    let mut r = Reader::new(&bytes);
    assert_eq!(r.read_u32_be(), Ok(0x01020304));
    assert_eq!(r.read_i32_be(), Ok(-5));
    let mut r = Reader::new(&bytes);
    assert_eq!(r.read_unmaxed_u32(), Ok(Some(0x01020304)));
    assert_eq!(r.read_unmaxed_u32(), Ok(Some(0xFFFFFFFB)));
    assert_eq!(r.read_unmaxed_u32(), Err(Error::Truncated { offset: 8 }));
    let allones = vec![0xFF; 4];
    let mut r = Reader::new(&allones);
    assert_eq!(r.read_unmaxed_u32(), Ok(None));
}

#[test]
fn read_string_returns_raw_bytes() {
    let bytes = b"BOOKMOBI".to_vec();
    let mut r = Reader::new(&bytes);
    assert_eq!(read_string(&mut r, 4), Ok(b"BOOK".to_vec()));
    assert_eq!(read_string(&mut r, 4), Ok(b"MOBI".to_vec()));
    assert_eq!(read_string(&mut r, 1), Err(Error::Truncated { offset: 8 }));
}

#[test]
fn read_until_zero_stops_at_first_zero() {
    assert_eq!(read_until_zero(&[b'a', b'b', 0, b'c']), vec![b'a', b'b']);
    assert_eq!(read_until_zero(&[0, b'x']), Vec::<u8>::new());
    assert_eq!(read_until_zero(&[b'x', b'y']), vec![b'x', b'y']);
    assert_eq!(read_until_zero(&[]), Vec::<u8>::new());
}

#[test]
fn compare_bytes_checks_prefix() {
    assert!(compare_bytes(b"abcdef", b"abc"));
    assert!(compare_bytes(b"abc", b"abc"));
    assert!(!compare_bytes(b"abc", b"abd"));
    assert!(!compare_bytes(b"ab", b"abc"));
    assert!(compare_bytes(b"ab", b""));
}

#[test]
fn language_codes_map_both_ways() {
    assert_eq!(Language::from(0x09), Language::En);
    assert_eq!(Language::from(0x0904), Language::EnUs);
    assert_eq!(Language::from(0x0908), Language::EnUk);
    assert_eq!(Language::from(77), Language::Unknown(77));
    assert_eq!(Language::En.value(), 0x09);
    assert_eq!(Language::Unknown(77).value(), 77);
}

/// A minimal well-formed 248-byte metadata header region.
fn sample_mobi_bytes() -> Vec<u8> {
    let mut b: Vec<u8> = Vec::new();
    push_u16(&mut b, 2); // compression: the LZ77 variant
    push_u16(&mut b, 0); // unused
    push_u32(&mut b, 120_000); // uncompressed text length
    push_u16(&mut b, 30); // record count (not kept)
    push_u16(&mut b, 4096); // record size: the only supported tiling
    push_u16(&mut b, 0); // encryption: none
    push_u16(&mut b, 0); // unknown
    b.extend_from_slice(b"MOBI"); // magic
    push_u32(&mut b, 232); // header length
    push_u32(&mut b, 2); // content type: book
    push_u32(&mut b, 65001); // text encoding: UTF-8
    push_u32(&mut b, 123456); // id
    push_u32(&mut b, 6); // version
    push_u32(&mut b, 0xFFFFFFFF); // orthographic index: absent
    push_u32(&mut b, 0xFFFFFFFF); // inflection index: absent
    push_u32(&mut b, 9); // names index
    push_u32(&mut b, 0xFFFFFFFF); // keys index: absent
    for k in 0..6 {
        // extra indices: absent but the fourth
        push_u32(&mut b, if k == 3 { 77 } else { 0xFFFFFFFF });
    }
    push_u32(&mut b, 1); // first content record (not kept)
    push_u32(&mut b, 0); // full name offset (not kept)
    push_u32(&mut b, 0); // full name length (not kept)
    push_u32(&mut b, 0x09); // locale: En
    push_u32(&mut b, 0x0904); // dictionary input
    push_u32(&mut b, 0x0908); // dictionary output
    push_u32(&mut b, 6); // minimum version
    push_u32(&mut b, 12); // first image record
    push_u32(&mut b, 0); // entropy-coding record offset
    push_u32(&mut b, 0); // entropy-coding record count
    push_u32(&mut b, 0); // entropy-coding table offset
    push_u32(&mut b, 0); // entropy-coding table length
    push_u32(&mut b, 0x50); // flags: bit 0x40 set
    b.extend_from_slice(&[0u8; 32]); // unknown
    push_u32(&mut b, 0xFFFFFFFF); // unknown
    push_u32(&mut b, 0xFFFFFFFF); // DRM offset: absent
    push_u32(&mut b, 0xFFFFFFFF); // DRM count: absent, kept as 0
    push_u32(&mut b, 0); // DRM size
    push_u32(&mut b, 0); // DRM flags
    b.extend_from_slice(&[0u8; 8]); // unknown
    push_u16(&mut b, 1); // first text record
    push_u16(&mut b, 29); // last record
    push_u32(&mut b, 1); // unknown
    push_u32(&mut b, 28); // fcis record number
    push_u32(&mut b, 1); // fcis record count
    push_u32(&mut b, 27); // flis record number
    push_u32(&mut b, 1); // flis record count
    b.extend_from_slice(&[0u8; 8]); // unknown
    push_u32(&mut b, 0xFFFFFFFF); // unknown
    push_u32(&mut b, 0); // compilation data section count
    push_u32(&mut b, 0xFFFFFFFF); // compilation data sections: absent
    push_u32(&mut b, 0xFFFFFFFF); // unknown
    push_u32(&mut b, 0); // extra record data flags
    push_u32(&mut b, 0xFFFFFFFF); // first index record: absent
    assert_eq!(b.len(), 248);
    b
}

#[test]
fn mobi_header_decodes_fields() {
    let bytes = sample_mobi_bytes();
    let mut reader = Reader::new(&bytes);
    let h = MobiHeader::read_from(&mut reader).expect("well-formed header");
    assert_eq!(reader.pos, 248);
    assert_eq!(h.compression, CompressionType::PalmDoc);
    assert_eq!(h.uncompressed_text_length, 120_000);
    assert_eq!(h.encryption, EncryptionType::NoEncryption);
    assert_eq!(h.content_type, MobiType::MobiPocketBook);
    assert_eq!(h.text_encoding, TextEncoding::Utf8);
    assert_eq!(h.mobi_id, 123456);
    assert_eq!(h.mobi_version, 6);
    assert_eq!(h.min_mobi_version, 6);
    assert_eq!(h.indices.orthographic, None);
    assert_eq!(h.indices.inflection, None);
    assert_eq!(h.indices.names, Some(9));
    assert_eq!(h.indices.keys, None);
    assert_eq!(
        h.indices.extra,
        [None, None, None, Some(77), None, None]
    );
    assert_eq!(h.locale, Language::En);
    assert_eq!(h.dictionary.input, Language::EnUs);
    assert_eq!(h.dictionary.output, Language::EnUk);
    assert_eq!(h.first_image_record, 12);
    assert_eq!(h.exth_flags, 0x50);
    assert!(h.has_exth_record());
    assert_eq!(h.drm.offset, None);
    assert_eq!(h.drm.count, 0);
    assert_eq!(h.text_record, 1);
    assert_eq!(h.last_record, 29);
    assert_eq!(h.fcis_flis.fcis_record_number, 28);
    assert_eq!(h.fcis_flis.flis_record_number, 27);
    assert_eq!(h.compilation.data_section_count, 0);
    assert_eq!(h.compilation.data_sections, None);
    assert_eq!(h.extra_record_data_flags, 0);
    assert_eq!(h.indx_record_offset, None);
}

#[test]
fn mobi_header_skips_declared_extension() {
    let mut bytes = sample_mobi_bytes();
    // Declare 240 header bytes: 8 beyond the fixed layout.
    bytes[20..24].copy_from_slice(&240u32.to_be_bytes());
    bytes.extend_from_slice(&[0xAA; 8]);
    bytes.extend_from_slice(b"next");
    let mut reader = Reader::new(&bytes);
    let h = MobiHeader::read_from(&mut reader).expect("extended header");
    // The 8 extension bytes are consumed exactly, never interpreted.
    assert_eq!(reader.pos, 256);
    assert_eq!(h.mobi_id, 123456);
}

#[test]
fn mobi_header_missing_extension_is_truncated() {
    // The declared length promises more extension bytes than the input
    // holds: the extension region must be consumed exactly, so the decode
    // fails where that region begins.
    let mut bytes = sample_mobi_bytes();
    bytes[20..24].copy_from_slice(&1000u32.to_be_bytes());
    bytes.extend_from_slice(&[0xAA; 5]);
    let mut reader = Reader::new(&bytes);
    assert_eq!(
        MobiHeader::read_from(&mut reader),
        Err(Error::Truncated { offset: 248 })
    );
}

#[test]
fn mobi_header_rejects_other_record_sizes() {
    let mut bytes = sample_mobi_bytes();
    bytes[10..12].copy_from_slice(&2048u16.to_be_bytes());
    let mut reader = Reader::new(&bytes);
    assert_eq!(
        MobiHeader::read_from(&mut reader),
        Err(Error::UnsupportedRecordSize)
    );
}

#[test]
fn mobi_header_rejects_bad_magic() {
    let mut bytes = sample_mobi_bytes();
    bytes[16] = b'X';
    let mut reader = Reader::new(&bytes);
    assert_eq!(MobiHeader::read_from(&mut reader), Err(Error::BadMagic));
}

#[test]
fn mobi_header_truncated_carries_offset() {
    let bytes = sample_mobi_bytes();
    let mut cut = bytes[..100].to_vec();
    let mut reader = Reader::new(&cut);
    // Offset 100 lies in the dictionary-output field, which begins at 100.
    assert_eq!(
        MobiHeader::read_from(&mut reader),
        Err(Error::Truncated { offset: 100 })
    );
    cut.truncate(30);
    let mut reader = Reader::new(&cut);
    // The text-encoding field begins at 28 and is cut off.
    assert_eq!(
        MobiHeader::read_from(&mut reader),
        Err(Error::Truncated { offset: 28 })
    );
}

/// One EXTH record: code, declared length (8 + payload), payload.
fn push_exth_record(out: &mut Vec<u8>, code: u32, payload: &[u8]) {
    push_u32(out, code);
    push_u32(out, 8 + payload.len() as u32);
    out.extend_from_slice(payload);
}

/// A whole EXTH block with the given records, padded as the format pads it.
fn exth_block(records: &[(u32, Vec<u8>)]) -> Vec<u8> {
    let mut body: Vec<u8> = Vec::new();
    for (code, payload) in records {
        push_exth_record(&mut body, *code, payload);
    }
    let header_len = 12 + body.len() as u32;
    let mut b: Vec<u8> = Vec::new();
    b.extend_from_slice(b"EXTH");
    push_u32(&mut b, header_len);
    push_u32(&mut b, records.len() as u32);
    b.extend_from_slice(&body);
    for _ in 0..(header_len % 4) {
        b.push(0);
    }
    b
}

#[test]
fn exth_decodes_typed_tags() {
    let bytes = exth_block(&[
        (100, b"Bob".to_vec()),
        (201, 9u32.to_be_bytes().to_vec()),
        (203, 1u32.to_be_bytes().to_vec()),
        (524, vec![0x09, 0x04]),
        (204, 200u32.to_be_bytes().to_vec()),
        (116, 0x1234u32.to_be_bytes().to_vec()),
    ]);
    let mut reader = Reader::new(&bytes);
    let tags = read_exth_tags(&mut reader).expect("well-formed block");
    assert_eq!(
        tags,
        vec![
            ExthTag::Author(b"Bob".to_vec()),
            ExthTag::CoverOffset(9),
            ExthTag::HasFakeCover(true),
            ExthTag::Language(Language::EnUs),
            ExthTag::CreatorSoftware(CreatorSoftware::KindleGenWindows),
            ExthTag::StartReadingAtOffset(0x1234),
        ]
    );
    assert_eq!(reader.pos, bytes.len());
}

#[test]
fn exth_unknown_code_preserves_payload() {
    let payload = vec![1, 2, 3, 4, 5];
    let bytes = exth_block(&[(999, payload.clone())]);
    let mut reader = Reader::new(&bytes);
    let tags = read_exth_tags(&mut reader).expect("well-formed block");
    assert_eq!(
        tags,
        vec![ExthTag::Unhandled { tag_type: ExthType::Unknown(999), data: payload }]
    );
}

#[test]
fn exth_unmapped_but_named_code_preserves_payload() {
    // ISBN has a named code but no typed interpretation: its bytes pass
    // through the fallback variant unchanged.
    let bytes = exth_block(&[(104, b"9780000000001".to_vec())]);
    let mut reader = Reader::new(&bytes);
    let tags = read_exth_tags(&mut reader).expect("well-formed block");
    assert_eq!(
        tags,
        vec![ExthTag::Unhandled {
            tag_type: ExthType::ISBN,
            data: b"9780000000001".to_vec(),
        }]
    );
}

#[test]
fn exth_rejects_bad_magic() {
    let mut bytes = exth_block(&[(100, b"Bob".to_vec())]);
    bytes[0] = b'F';
    let mut reader = Reader::new(&bytes);
    assert_eq!(read_exth_tags(&mut reader), Err(Error::BadMagic));
}

#[test]
fn exth_stops_at_declared_bound() {
    // The count claims three records but the declared length only covers one:
    // the decoder takes the one full record and stops, never reading past the
    // bound.
    let mut body: Vec<u8> = Vec::new();
    push_exth_record(&mut body, 100, b"Bob");
    let header_len = 12 + body.len() as u32;
    let mut bytes: Vec<u8> = Vec::new();
    bytes.extend_from_slice(b"EXTH");
    push_u32(&mut bytes, header_len);
    push_u32(&mut bytes, 3);
    bytes.extend_from_slice(&body);
    for _ in 0..(header_len % 4) {
        bytes.push(0);
    }
    let mut reader = Reader::new(&bytes);
    let tags = read_exth_tags(&mut reader).expect("bounded block");
    assert_eq!(tags, vec![ExthTag::Author(b"Bob".to_vec())]);
}

#[test]
fn exth_padding_follows_last_record() {
    // The declared length leaves four unused bytes after the one record; the
    // decoder reads the record, then the padding right where the record
    // ended, and leaves the unused region to the caller.
    let mut bytes: Vec<u8> = Vec::new();
    bytes.extend_from_slice(b"EXTH");
    push_u32(&mut bytes, 12 + 11 + 4); // header length: one record + 4 spare
    push_u32(&mut bytes, 1);
    push_exth_record(&mut bytes, 100, b"Bob"); // 11 bytes, ends at 23
    bytes.extend_from_slice(&[0xEE; 4]); // spare region, never read
    bytes.extend_from_slice(&[0; 3]); // padding: header_len 27 % 4 = 3
    let mut reader = Reader::new(&bytes);
    let tags = read_exth_tags(&mut reader).expect("under-filled block");
    assert_eq!(tags, vec![ExthTag::Author(b"Bob".to_vec())]);
    // Position: 12 + 11 record bytes + 3 padding bytes.
    assert_eq!(reader.pos, 26);
}

#[test]
fn exth_typed_tag_spans_declared_length() {
    // An integer tag with an oversized declared payload: the value comes
    // from the payload's first four bytes, the remainder is skipped, and the
    // next record begins right after the declared span.
    let mut payload = 9u32.to_be_bytes().to_vec();
    payload.extend_from_slice(&[0xAB; 4]); // skipped payload remainder
    let bytes = exth_block(&[(201, payload), (100, b"Bob".to_vec())]);
    let mut reader = Reader::new(&bytes);
    let tags = read_exth_tags(&mut reader).expect("oversized payload");
    assert_eq!(
        tags,
        vec![ExthTag::CoverOffset(9), ExthTag::Author(b"Bob".to_vec())]
    );
    assert_eq!(reader.pos, bytes.len());
}

#[test]
fn exth_typed_tag_with_undersized_payload_is_truncated() {
    // An integer tag whose declared payload cannot hold its 32-bit value:
    // the value field, which begins where the payload does, cannot be fully
    // read.
    let bytes = exth_block(&[(201, vec![0x01, 0x02])]);
    let mut reader = Reader::new(&bytes);
    assert_eq!(
        read_exth_tags(&mut reader),
        Err(Error::Truncated { offset: 20 })
    );
}

#[test]
fn exth_missing_padding_is_truncated() {
    // header_len = 23 requires three padding bytes after the record; the
    // input ends where they should begin.
    let mut bytes: Vec<u8> = Vec::new();
    bytes.extend_from_slice(b"EXTH");
    push_u32(&mut bytes, 12 + 11);
    push_u32(&mut bytes, 1);
    push_exth_record(&mut bytes, 100, b"Bob"); // record ends at 23
    let mut reader = Reader::new(&bytes);
    assert_eq!(
        read_exth_tags(&mut reader),
        Err(Error::Truncated { offset: 23 })
    );
}

#[test]
fn exth_single_record_decodes_standalone() {
    let mut bytes: Vec<u8> = Vec::new();
    push_exth_record(&mut bytes, 503, b"A new title");
    push_exth_record(&mut bytes, 203, &0u32.to_be_bytes());
    let mut reader = Reader::new(&bytes);
    let first = ExthTag::read_from(&mut reader).expect("first record");
    assert_eq!(first, ExthTag::UpdatedTitle(b"A new title".to_vec()));
    let second = ExthTag::read_from(&mut reader).expect("second record");
    assert_eq!(second, ExthTag::HasFakeCover(false));
    assert_eq!(reader.pos, bytes.len());
    // A declared length below its own 8-byte frame cannot be read as a
    // record.
    let mut bad: Vec<u8> = Vec::new();
    push_u32(&mut bad, 201);
    push_u32(&mut bad, 4);
    push_u32(&mut bad, 9);
    let mut reader = Reader::new(&bad);
    assert_eq!(
        ExthTag::read_from(&mut reader),
        Err(Error::Truncated { offset: 8 })
    );
}

#[test]
fn exth_tiny_declared_length_yields_no_tags() {
    // A declared length below its own 12-byte frame leaves no room for
    // records: the decoder returns none and still skips the padding.
    let mut bytes: Vec<u8> = Vec::new();
    bytes.extend_from_slice(b"EXTH");
    push_u32(&mut bytes, 10); // header length below the 12-byte frame
    push_u32(&mut bytes, 5); // a count that nothing can satisfy
    bytes.extend_from_slice(&[0x77; 8]); // bytes the decoder must not touch
    let mut reader = Reader::new(&bytes);
    let tags = read_exth_tags(&mut reader).expect("empty block");
    assert_eq!(tags, Vec::<ExthTag>::new());
    // Padding: 10 % 4 = 2 bytes after the (empty) record region.
    assert_eq!(reader.pos, 14);
}

#[test]
fn exth_short_record_length_ends_list() {
    // A record whose declared length is below its own 8-byte frame is no
    // full record: the list ends with what was decoded before it.
    let mut body: Vec<u8> = Vec::new();
    push_exth_record(&mut body, 100, b"Bob");
    push_u32(&mut body, 201);
    push_u32(&mut body, 4); // shorter than the frame itself
    push_u32(&mut body, 9);
    let header_len = 12 + body.len() as u32;
    let mut bytes: Vec<u8> = Vec::new();
    bytes.extend_from_slice(b"EXTH");
    push_u32(&mut bytes, header_len);
    push_u32(&mut bytes, 2);
    bytes.extend_from_slice(&body);
    for _ in 0..(header_len % 4) {
        bytes.push(0);
    }
    let mut reader = Reader::new(&bytes);
    let tags = read_exth_tags(&mut reader).expect("list ends early");
    assert_eq!(tags, vec![ExthTag::Author(b"Bob".to_vec())]);
}

#[test]
fn exth_truncated_inside_record() {
    let bytes = exth_block(&[(100, b"A longer author name".to_vec())]);
    let cut = bytes[..16].to_vec();
    let mut reader = Reader::new(&cut);
    // The record's declared-length field begins at 16 and is cut off.
    assert_eq!(
        read_exth_tags(&mut reader),
        Err(Error::Truncated { offset: 16 })
    );
}

#[test]
fn exth_type_codes_map_both_ways() {
    assert_eq!(ExthType::from(100), ExthType::Author);
    assert_eq!(ExthType::from(524), ExthType::Language);
    assert_eq!(ExthType::from(547), ExthType::InMemory);
    assert_eq!(ExthType::from(9999), ExthType::Unknown(9999));
    assert_eq!(ExthType::Author.value(), 100);
    assert_eq!(ExthType::Unknown(9999).value(), 9999);
    assert_eq!(CreatorSoftware::from(2), CreatorSoftware::MobipocketCreator);
    assert_eq!(CreatorSoftware::KindleGenMac.value(), 202);
    assert_eq!(CompressionType::from(17480), CompressionType::HuffCdic);
    assert_eq!(CompressionType::PalmDoc.value(), 2);
    assert_eq!(EncryptionType::from(1), EncryptionType::OldMobiPocket);
    assert_eq!(MobiType::from(248), MobiType::Kf8);
    assert_eq!(MobiType::from(777).value(), 777);
    assert_eq!(TextEncoding::from(1252), TextEncoding::Latin1);
}
