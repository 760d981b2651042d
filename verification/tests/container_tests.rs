//! An end-to-end walk of a synthesized container: the wrapper header yields
//! the record-offset table, the first record holds the metadata header and
//! its tagged block, and a later record holds compressed text.

use mobi::common::{Language, Reader};
use mobi::decompress::{decompress, RECORD_SIZE};
use mobi::exth_tags::{read_from as read_exth_tags, ExthTag};
use mobi::mobi::{CompressionType, MobiHeader};
use mobi::palmdb::{PalmdbHeader, PalmDbType, Record};

fn push_u16(out: &mut Vec<u8>, v: u16) {
    out.extend_from_slice(&v.to_be_bytes());
}

fn push_u32(out: &mut Vec<u8>, v: u32) {
    out.extend_from_slice(&v.to_be_bytes());
}

/// The fixed 248-byte metadata header region with the tagged-block flag set.
fn mobi_header_bytes() -> Vec<u8> {
    let mut b: Vec<u8> = Vec::new();
    push_u16(&mut b, 2);
    push_u16(&mut b, 0);
    push_u32(&mut b, 11);
    push_u16(&mut b, 1);
    push_u16(&mut b, 4096);
    push_u16(&mut b, 0);
    push_u16(&mut b, 0);
    b.extend_from_slice(b"MOBI");
    push_u32(&mut b, 232);
    push_u32(&mut b, 2);
    push_u32(&mut b, 65001);
    push_u32(&mut b, 1);
    push_u32(&mut b, 6);
    for _ in 0..10 {
        push_u32(&mut b, 0xFFFFFFFF);
    }
    push_u32(&mut b, 1);
    push_u32(&mut b, 0);
    push_u32(&mut b, 0);
    push_u32(&mut b, 0x09);
    push_u32(&mut b, 0x09);
    push_u32(&mut b, 0x09);
    push_u32(&mut b, 6);
    push_u32(&mut b, 0);
    for _ in 0..4 {
        push_u32(&mut b, 0);
    }
    push_u32(&mut b, 0x40); // flags: a tagged block follows
    b.extend_from_slice(&[0u8; 36]);
    push_u32(&mut b, 0xFFFFFFFF);
    push_u32(&mut b, 0xFFFFFFFF);
    push_u32(&mut b, 0);
    push_u32(&mut b, 0);
    b.extend_from_slice(&[0u8; 8]);
    push_u16(&mut b, 1);
    push_u16(&mut b, 1);
    push_u32(&mut b, 1);
    for _ in 0..4 {
        push_u32(&mut b, 0);
    }
    b.extend_from_slice(&[0u8; 8]);
    push_u32(&mut b, 0xFFFFFFFF);
    push_u32(&mut b, 0);
    push_u32(&mut b, 0xFFFFFFFF);
    push_u32(&mut b, 0xFFFFFFFF);
    push_u32(&mut b, 0);
    push_u32(&mut b, 0xFFFFFFFF);
    assert_eq!(b.len(), 248);
    b
}

/// A tagged block holding one author record.
fn exth_bytes() -> Vec<u8> {
    let mut body: Vec<u8> = Vec::new();
    push_u32(&mut body, 100);
    push_u32(&mut body, 8 + 3);
    body.extend_from_slice(b"Bob");
    let header_len = 12 + body.len() as u32;
    let mut b: Vec<u8> = Vec::new();
    b.extend_from_slice(b"EXTH");
    push_u32(&mut b, header_len);
    push_u32(&mut b, 1);
    b.extend_from_slice(&body);
    for _ in 0..(header_len % 4) {
        b.push(0);
    }
    b
}

#[test]
fn whole_container_decodes_in_sequence() {
    let mobi_bytes = mobi_header_bytes();
    let exth = exth_bytes();

    // Compressed text: "Hello Hello" as six literals and a back-reference of
    // distance 6, length 5 over them; v = (6 << 3) | (5 - 3) = 50.
    let mut text_record = b"Hello ".to_vec(); // literals
    text_record.push(0x80);
    text_record.push(50);
    text_record.resize(RECORD_SIZE, 0);

    // The wrapper: two records, the metadata header first, the text second.
    let header_region_len = 78 + 8 * 2 + 2;
    let rec0_offset = header_region_len as u32;
    let rec1_offset = rec0_offset + (mobi_bytes.len() + exth.len()) as u32;
    let mut name = b"container".to_vec();
    name.resize(31, 0);
    let wrapper = PalmdbHeader {
        name,
        attributes: 0,
        version: 0,
        creation_date: 0,
        modification_date: 0,
        backup_date: 0,
        modification_number: 0,
        app_info_offset: None,
        sort_info_offset: None,
        content_type: PalmDbType::Mobi,
        unique_id_seed: 1,
        next_record_list_id: 0,
        records: vec![
            Record { id: 0, data_offset: rec0_offset, attributes: 0 },
            Record { id: 1, data_offset: rec1_offset, attributes: 0 },
        ],
    };

    let mut container: Vec<u8> = Vec::new();
    wrapper.write_to(&mut container);
    assert_eq!(container.len(), header_region_len);
    container.extend_from_slice(&mobi_bytes);
    container.extend_from_slice(&exth);
    container.extend_from_slice(&text_record);

    // Decode the wrapper, seek to the first record, decode the metadata
    // header, then the tagged block the flag announces, then the text.
    let mut reader = Reader::new(&container);
    let decoded_wrapper = PalmdbHeader::read_from(&mut reader).expect("wrapper");
    assert_eq!(decoded_wrapper.records.len(), 2);
    assert_eq!(decoded_wrapper.content_type, PalmDbType::Mobi);

    let first = decoded_wrapper.records[0];
    let mut reader = Reader { buf: &container, pos: first.data_offset as usize };
    let mobi_header = MobiHeader::read_from(&mut reader).expect("metadata header");
    assert_eq!(mobi_header.compression, CompressionType::PalmDoc);
    assert_eq!(mobi_header.locale, Language::En);
    assert!(mobi_header.has_exth_record());

    // The cursor rests where the tagged block begins.
    let tags = read_exth_tags(&mut reader).expect("tagged block");
    assert_eq!(tags, vec![ExthTag::Author(b"Bob".to_vec())]);
    assert_eq!(reader.pos, rec1_offset as usize);

    let second = decoded_wrapper.records[1];
    let start = second.data_offset as usize;
    let text = decompress(&container[start..start + RECORD_SIZE]).expect("text record");
    assert_eq!(&text[..11], b"Hello Hello");
}
