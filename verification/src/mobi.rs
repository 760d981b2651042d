//! The fixed-layout book metadata header that occupies the first indexed
//! record: scheme enums with raw fallbacks, about nine optional index fields
//! under the all-ones sentinel, and a declared header length whose trailing
//! extension region is skipped exactly, never interpreted.

use vstd::prelude::*;
use crate::common::{
    Error, Language, Reader, discard, spec_decode_optional, spec_language_from, spec_min_int,
    spec_u16_at, spec_u32_at,
};

verus! {

/// The 4-byte magic tag of the metadata header.
pub const MOBI_MAGIC: u32 = 0x4D4F4249;

/// The only record tiling size this decoder supports.
pub const SUPPORTED_RECORD_SIZE: u16 = 4096;

/// The compression scheme of the text records. Unmapped codes decode to
/// `Unknown` rather than failing.
#[derive(Debug, Clone, Copy, PartialEq, Eq, Structural)]
pub enum CompressionType {
    NoCompression,
    PalmDoc,
    HuffCdic,
    Unknown(u16),
}

/// The `CompressionType` that stands for a raw scheme code.
pub open spec fn spec_compression_from(value: u16) -> CompressionType {
    if value == 0u16 {
        CompressionType::NoCompression
    } else if value == 2u16 {
        CompressionType::PalmDoc
    } else if value == 17480u16 {
        CompressionType::HuffCdic
    } else {
        CompressionType::Unknown(value)
    }
}

/// The raw scheme code that a `CompressionType` stands for.
pub open spec fn spec_compression_value(c: CompressionType) -> u16 {
    match c {
        CompressionType::NoCompression => 0u16,
        CompressionType::PalmDoc => 2u16,
        CompressionType::HuffCdic => 17480u16,
        CompressionType::Unknown(value) => value,
    }
}

impl CompressionType {
    /// The variant for a raw scheme code.
    pub fn from(value: u16) -> (r: CompressionType)
        ensures
            r == spec_compression_from(value),
    {
        if value == 0u16 {
            CompressionType::NoCompression
        } else if value == 2u16 {
            CompressionType::PalmDoc
        } else if value == 17480u16 {
            CompressionType::HuffCdic
        } else {
            CompressionType::Unknown(value)
        }
    }

    /// The raw scheme code this value stands for.
    pub fn value(&self) -> (r: u16)
        ensures
            r == spec_compression_value(*self),
    {
        match *self {
            CompressionType::NoCompression => 0u16,
            CompressionType::PalmDoc => 2u16,
            CompressionType::HuffCdic => 17480u16,
            CompressionType::Unknown(value) => value,
        }
    }
}

/// The encryption scheme of the book's content.
#[derive(Debug, Clone, Copy, PartialEq, Eq, Structural)]
pub enum EncryptionType {
    NoEncryption,
    OldMobiPocket,
    MobiPocket,
    Unknown(u16),
}

/// The `EncryptionType` that stands for a raw scheme code.
pub open spec fn spec_encryption_from(value: u16) -> EncryptionType {
    if value == 0u16 {
        EncryptionType::NoEncryption
    } else if value == 1u16 {
        EncryptionType::OldMobiPocket
    } else if value == 2u16 {
        EncryptionType::MobiPocket
    } else {
        EncryptionType::Unknown(value)
    }
}

/// The raw scheme code that an `EncryptionType` stands for.
pub open spec fn spec_encryption_value(e: EncryptionType) -> u16 {
    match e {
        EncryptionType::NoEncryption => 0u16,
        EncryptionType::OldMobiPocket => 1u16,
        EncryptionType::MobiPocket => 2u16,
        EncryptionType::Unknown(value) => value,
    }
}

impl EncryptionType {
    /// The variant for a raw scheme code.
    pub fn from(value: u16) -> (r: EncryptionType)
        ensures
            r == spec_encryption_from(value),
    {
        if value == 0u16 {
            EncryptionType::NoEncryption
        } else if value == 1u16 {
            EncryptionType::OldMobiPocket
        } else if value == 2u16 {
            EncryptionType::MobiPocket
        } else {
            EncryptionType::Unknown(value)
        }
    }

    /// The raw scheme code this value stands for.
    pub fn value(&self) -> (r: u16)
        ensures
            r == spec_encryption_value(*self),
    {
        match *self {
            EncryptionType::NoEncryption => 0u16,
            EncryptionType::OldMobiPocket => 1u16,
            EncryptionType::MobiPocket => 2u16,
            EncryptionType::Unknown(value) => value,
        }
    }
}

/// The content type of the book.
#[derive(Debug, Clone, Copy, PartialEq, Eq, Structural)]
pub enum MobiType {
    MobiPocketBook,
    PalmDocBook,
    Audio,
    MaybeMobiPocket,
    Kf8,
    News,
    NewsFeed,
    NewsMagazine,
    Pics,
    Word,
    Xls,
    Ppt,
    Text,
    Html,
    Unknown(u32),
}

/// The `MobiType` that stands for a raw content-type code.
pub open spec fn spec_mobi_type_from(value: u32) -> MobiType {
    if value == 2u32 {
        MobiType::MobiPocketBook
    } else if value == 3u32 {
        MobiType::PalmDocBook
    } else if value == 4u32 {
        MobiType::Audio
    } else if value == 232u32 {
        MobiType::MaybeMobiPocket
    } else if value == 248u32 {
        MobiType::Kf8
    } else if value == 257u32 {
        MobiType::News
    } else if value == 258u32 {
        MobiType::NewsFeed
    } else if value == 259u32 {
        MobiType::NewsMagazine
    } else if value == 513u32 {
        MobiType::Pics
    } else if value == 514u32 {
        MobiType::Word
    } else if value == 515u32 {
        MobiType::Xls
    } else if value == 516u32 {
        MobiType::Ppt
    } else if value == 517u32 {
        MobiType::Text
    } else if value == 518u32 {
        MobiType::Html
    } else {
        MobiType::Unknown(value)
    }
}

/// The raw content-type code that a `MobiType` stands for.
pub open spec fn spec_mobi_type_value(t: MobiType) -> u32 {
    match t {
        MobiType::MobiPocketBook => 2u32,
        MobiType::PalmDocBook => 3u32,
        MobiType::Audio => 4u32,
        MobiType::MaybeMobiPocket => 232u32,
        MobiType::Kf8 => 248u32,
        MobiType::News => 257u32,
        MobiType::NewsFeed => 258u32,
        MobiType::NewsMagazine => 259u32,
        MobiType::Pics => 513u32,
        MobiType::Word => 514u32,
        MobiType::Xls => 515u32,
        MobiType::Ppt => 516u32,
        MobiType::Text => 517u32,
        MobiType::Html => 518u32,
        MobiType::Unknown(value) => value,
    }
}

impl MobiType {
    /// The variant for a raw content-type code.
    pub fn from(value: u32) -> (r: MobiType)
        ensures
            r == spec_mobi_type_from(value),
    {
        if value == 2u32 {
            MobiType::MobiPocketBook
        } else if value == 3u32 {
            MobiType::PalmDocBook
        } else if value == 4u32 {
            MobiType::Audio
        } else if value == 232u32 {
            MobiType::MaybeMobiPocket
        } else if value == 248u32 {
            MobiType::Kf8
        } else if value == 257u32 {
            MobiType::News
        } else if value == 258u32 {
            MobiType::NewsFeed
        } else if value == 259u32 {
            MobiType::NewsMagazine
        } else if value == 513u32 {
            MobiType::Pics
        } else if value == 514u32 {
            MobiType::Word
        } else if value == 515u32 {
            MobiType::Xls
        } else if value == 516u32 {
            MobiType::Ppt
        } else if value == 517u32 {
            MobiType::Text
        } else if value == 518u32 {
            MobiType::Html
        } else {
            MobiType::Unknown(value)
        }
    }

    /// The raw content-type code this value stands for.
    pub fn value(&self) -> (r: u32)
        ensures
            r == spec_mobi_type_value(*self),
    {
        match *self {
            MobiType::MobiPocketBook => 2u32,
            MobiType::PalmDocBook => 3u32,
            MobiType::Audio => 4u32,
            MobiType::MaybeMobiPocket => 232u32,
            MobiType::Kf8 => 248u32,
            MobiType::News => 257u32,
            MobiType::NewsFeed => 258u32,
            MobiType::NewsMagazine => 259u32,
            MobiType::Pics => 513u32,
            MobiType::Word => 514u32,
            MobiType::Xls => 515u32,
            MobiType::Ppt => 516u32,
            MobiType::Text => 517u32,
            MobiType::Html => 518u32,
            MobiType::Unknown(value) => value,
        }
    }
}

/// The character encoding of the book's text.
#[derive(Debug, Clone, Copy, PartialEq, Eq, Structural)]
pub enum TextEncoding {
    Latin1,
    Utf8,
    Unknown(u32),
}

/// The `TextEncoding` that stands for a raw encoding code.
pub open spec fn spec_text_encoding_from(value: u32) -> TextEncoding {
    if value == 1252u32 {
        TextEncoding::Latin1
    } else if value == 65001u32 {
        TextEncoding::Utf8
    } else {
        TextEncoding::Unknown(value)
    }
}

/// The raw encoding code that a `TextEncoding` stands for.
pub open spec fn spec_text_encoding_value(t: TextEncoding) -> u32 {
    match t {
        TextEncoding::Latin1 => 1252u32,
        TextEncoding::Utf8 => 65001u32,
        TextEncoding::Unknown(value) => value,
    }
}

impl TextEncoding {
    /// The variant for a raw encoding code.
    pub fn from(value: u32) -> (r: TextEncoding)
        ensures
            r == spec_text_encoding_from(value),
    {
        if value == 1252u32 {
            TextEncoding::Latin1
        } else if value == 65001u32 {
            TextEncoding::Utf8
        } else {
            TextEncoding::Unknown(value)
        }
    }

    /// The raw encoding code this value stands for.
    pub fn value(&self) -> (r: u32)
        ensures
            r == spec_text_encoding_value(*self),
    {
        match *self {
            TextEncoding::Latin1 => 1252u32,
            TextEncoding::Utf8 => 65001u32,
            TextEncoding::Unknown(value) => value,
        }
    }
}

/// The optional index-record references of the header; all use the all-ones
/// sentinel for "absent".
#[derive(Debug, Clone, Copy, PartialEq, Eq)]
pub struct Indices {
    pub orthographic: Option<u32>,
    pub inflection: Option<u32>,
    pub names: Option<u32>,
    pub keys: Option<u32>,
    pub extra: [Option<u32>; 6],
}

/// The mathematical value of [`Indices`].
#[verifier::ext_equal]
pub struct IndicesView {
    pub orthographic: Option<u32>,
    pub inflection: Option<u32>,
    pub names: Option<u32>,
    pub keys: Option<u32>,
    pub extra: Seq<Option<u32>>,
}

impl View for Indices {
    type V = IndicesView;

    open spec fn view(&self) -> IndicesView {
        IndicesView {
            orthographic: self.orthographic,
            inflection: self.inflection,
            names: self.names,
            keys: self.keys,
            extra: self.extra@,
        }
    }
}

/// The encoding-table descriptor of the entropy-coded compression variant
/// (referenced by an enum value, never decoded here).
#[derive(Debug, Clone, Copy, PartialEq, Eq, Structural)]
pub struct HuffmanEncodingInfo {
    pub record_offset: u32,
    pub record_count: u32,
    pub table_offset: u32,
    pub table_length: u32,
}

/// The locales of a dictionary book's entries.
#[derive(Debug, Clone, Copy, PartialEq, Eq, Structural)]
pub struct DictionaryInfo {
    pub input: Language,
    pub output: Language,
}

/// The DRM descriptor of the content.
#[derive(Debug, Clone, Copy, PartialEq, Eq, Structural)]
pub struct DrmInfo {
    pub offset: Option<u32>,
    pub count: u32,
    pub size: u32,
    pub flags: u32,
}

/// The compilation descriptor.
#[derive(Debug, Clone, Copy, PartialEq, Eq, Structural)]
pub struct CompilationInfo {
    pub data_section_count: u32,
    pub data_sections: Option<u32>,
}

/// Two paired (number, count) record descriptors.
#[derive(Debug, Clone, Copy, PartialEq, Eq, Structural)]
pub struct FcisFlis {
    pub fcis_record_number: u32,
    pub fcis_record_count: u32,
    pub flis_record_number: u32,
    pub flis_record_count: u32,
}

/// The fixed-layout book metadata header.
#[derive(Debug, Clone, PartialEq, Eq)]
pub struct MobiHeader {
    pub compression: CompressionType,
    pub uncompressed_text_length: u32,
    pub encryption: EncryptionType,
    pub content_type: MobiType,
    pub text_encoding: TextEncoding,
    pub mobi_id: u32,
    pub mobi_version: u32,
    pub min_mobi_version: u32,
    pub indices: Indices,
    pub locale: Language,
    pub dictionary: DictionaryInfo,
    pub first_image_record: u32,
    pub huffman_encoding: HuffmanEncodingInfo,
    /// Bit 0x40 signals a tagged metadata block right after this header;
    /// testing it is the caller's decision, since the caller owns the cursor.
    pub exth_flags: u32,
    pub drm: DrmInfo,
    pub text_record: u16,
    pub last_record: u16,
    pub fcis_flis: FcisFlis,
    pub compilation: CompilationInfo,
    pub extra_record_data_flags: u32,
    pub indx_record_offset: Option<u32>,
}

/// The mathematical value of a [`MobiHeader`].
#[verifier::ext_equal]
pub struct MobiHeaderView {
    pub compression: CompressionType,
    pub uncompressed_text_length: u32,
    pub encryption: EncryptionType,
    pub content_type: MobiType,
    pub text_encoding: TextEncoding,
    pub mobi_id: u32,
    pub mobi_version: u32,
    pub min_mobi_version: u32,
    pub indices: IndicesView,
    pub locale: Language,
    pub dictionary: DictionaryInfo,
    pub first_image_record: u32,
    pub huffman_encoding: HuffmanEncodingInfo,
    pub exth_flags: u32,
    pub drm: DrmInfo,
    pub text_record: u16,
    pub last_record: u16,
    pub fcis_flis: FcisFlis,
    pub compilation: CompilationInfo,
    pub extra_record_data_flags: u32,
    pub indx_record_offset: Option<u32>,
}

impl View for MobiHeader {
    type V = MobiHeaderView;

    open spec fn view(&self) -> MobiHeaderView {
        MobiHeaderView {
            compression: self.compression,
            uncompressed_text_length: self.uncompressed_text_length,
            encryption: self.encryption,
            content_type: self.content_type,
            text_encoding: self.text_encoding,
            mobi_id: self.mobi_id,
            mobi_version: self.mobi_version,
            min_mobi_version: self.min_mobi_version,
            indices: self.indices@,
            locale: self.locale,
            dictionary: self.dictionary,
            first_image_record: self.first_image_record,
            huffman_encoding: self.huffman_encoding,
            exth_flags: self.exth_flags,
            drm: self.drm,
            text_record: self.text_record,
            last_record: self.last_record,
            fcis_flis: self.fcis_flis,
            compilation: self.compilation,
            extra_record_data_flags: self.extra_record_data_flags,
            indx_record_offset: self.indx_record_offset,
        }
    }
}

/// Parsing the whole metadata header from `p`, field by field in the fixed
/// order of the layout. Skipped filler regions stop at the end of the input
/// without failing, like a bounded skip on a byte stream, so a later field's
/// failure offset is clamped to the input length. The header ends at the
/// declared `header_len`, which counts from the magic 16 bytes into the
/// region: any bytes past the fixed 232-byte layout are consumed exactly and
/// never interpreted, and an input that ends before them fails with
/// `Truncated` where the extension region begins.
pub open spec fn spec_parse_mobi(s: Seq<u8>, p: int) -> Result<(MobiHeaderView, int), Error> {
    if p + 2 > s.len() {
        Err(Error::Truncated { offset: p as usize })
    } else if p + 8 > s.len() {
        Err(Error::Truncated { offset: spec_min_int(p + 4, s.len() as int) as usize })
    } else if p + 10 > s.len() {
        Err(Error::Truncated { offset: (p + 8) as usize })
    } else if p + 12 > s.len() {
        Err(Error::Truncated { offset: (p + 10) as usize })
    } else if spec_u16_at(s, p + 10) != SUPPORTED_RECORD_SIZE {
        Err(Error::UnsupportedRecordSize)
    } else if p + 14 > s.len() {
        Err(Error::Truncated { offset: (p + 12) as usize })
    } else if p + 16 > s.len() {
        Err(Error::Truncated { offset: (p + 14) as usize })
    } else if p + 20 > s.len() {
        Err(Error::Truncated { offset: (p + 16) as usize })
    } else if spec_u32_at(s, p + 16) != MOBI_MAGIC {
        Err(Error::BadMagic)
    } else if p + 24 > s.len() {
        Err(Error::Truncated { offset: (p + 20) as usize })
    } else if p + 28 > s.len() {
        Err(Error::Truncated { offset: (p + 24) as usize })
    } else if p + 32 > s.len() {
        Err(Error::Truncated { offset: (p + 28) as usize })
    } else if p + 36 > s.len() {
        Err(Error::Truncated { offset: (p + 32) as usize })
    } else if p + 40 > s.len() {
        Err(Error::Truncated { offset: (p + 36) as usize })
    } else if p + 44 > s.len() {
        Err(Error::Truncated { offset: (p + 40) as usize })
    } else if p + 48 > s.len() {
        Err(Error::Truncated { offset: (p + 44) as usize })
    } else if p + 52 > s.len() {
        Err(Error::Truncated { offset: (p + 48) as usize })
    } else if p + 56 > s.len() {
        Err(Error::Truncated { offset: (p + 52) as usize })
    } else if p + 60 > s.len() {
        Err(Error::Truncated { offset: (p + 56) as usize })
    } else if p + 64 > s.len() {
        Err(Error::Truncated { offset: (p + 60) as usize })
    } else if p + 68 > s.len() {
        Err(Error::Truncated { offset: (p + 64) as usize })
    } else if p + 72 > s.len() {
        Err(Error::Truncated { offset: (p + 68) as usize })
    } else if p + 76 > s.len() {
        Err(Error::Truncated { offset: (p + 72) as usize })
    } else if p + 80 > s.len() {
        Err(Error::Truncated { offset: (p + 76) as usize })
    } else if p + 84 > s.len() {
        Err(Error::Truncated { offset: (p + 80) as usize })
    } else if p + 88 > s.len() {
        Err(Error::Truncated { offset: (p + 84) as usize })
    } else if p + 92 > s.len() {
        Err(Error::Truncated { offset: (p + 88) as usize })
    } else if p + 96 > s.len() {
        Err(Error::Truncated { offset: (p + 92) as usize })
    } else if p + 100 > s.len() {
        Err(Error::Truncated { offset: (p + 96) as usize })
    } else if p + 104 > s.len() {
        Err(Error::Truncated { offset: (p + 100) as usize })
    } else if p + 108 > s.len() {
        Err(Error::Truncated { offset: (p + 104) as usize })
    } else if p + 112 > s.len() {
        Err(Error::Truncated { offset: (p + 108) as usize })
    } else if p + 116 > s.len() {
        Err(Error::Truncated { offset: (p + 112) as usize })
    } else if p + 120 > s.len() {
        Err(Error::Truncated { offset: (p + 116) as usize })
    } else if p + 124 > s.len() {
        Err(Error::Truncated { offset: (p + 120) as usize })
    } else if p + 128 > s.len() {
        Err(Error::Truncated { offset: (p + 124) as usize })
    } else if p + 132 > s.len() {
        Err(Error::Truncated { offset: (p + 128) as usize })
    } else if p + 172 > s.len() {
        Err(Error::Truncated { offset: spec_min_int(p + 168, s.len() as int) as usize })
    } else if p + 176 > s.len() {
        Err(Error::Truncated { offset: (p + 172) as usize })
    } else if p + 180 > s.len() {
        Err(Error::Truncated { offset: (p + 176) as usize })
    } else if p + 184 > s.len() {
        Err(Error::Truncated { offset: (p + 180) as usize })
    } else if p + 194 > s.len() {
        Err(Error::Truncated { offset: spec_min_int(p + 192, s.len() as int) as usize })
    } else if p + 196 > s.len() {
        Err(Error::Truncated { offset: (p + 194) as usize })
    } else if p + 204 > s.len() {
        Err(Error::Truncated { offset: spec_min_int(p + 200, s.len() as int) as usize })
    } else if p + 208 > s.len() {
        Err(Error::Truncated { offset: (p + 204) as usize })
    } else if p + 212 > s.len() {
        Err(Error::Truncated { offset: (p + 208) as usize })
    } else if p + 216 > s.len() {
        Err(Error::Truncated { offset: (p + 212) as usize })
    } else if p + 232 > s.len() {
        Err(Error::Truncated { offset: spec_min_int(p + 228, s.len() as int) as usize })
    } else if p + 236 > s.len() {
        Err(Error::Truncated { offset: (p + 232) as usize })
    } else if p + 244 > s.len() {
        Err(Error::Truncated { offset: spec_min_int(p + 240, s.len() as int) as usize })
    } else if p + 248 > s.len() {
        Err(Error::Truncated { offset: (p + 244) as usize })
    } else if spec_u32_at(s, p + 20) > 232 && p + 16 + spec_u32_at(s, p + 20) > s.len() {
        // The declared extension region must be fully present: it is consumed
        // exactly, never under-read.
        Err(Error::Truncated { offset: (p + 248) as usize })
    } else {
        let header_len = spec_u32_at(s, p + 20);
        let end = if header_len > 232 {
            p + 16 + header_len
        } else {
            p + 248
        };
        Ok(
            (
                MobiHeaderView {
                    compression: spec_compression_from(spec_u16_at(s, p)),
                    uncompressed_text_length: spec_u32_at(s, p + 4),
                    encryption: spec_encryption_from(spec_u16_at(s, p + 12)),
                    content_type: spec_mobi_type_from(spec_u32_at(s, p + 24)),
                    text_encoding: spec_text_encoding_from(spec_u32_at(s, p + 28)),
                    mobi_id: spec_u32_at(s, p + 32),
                    mobi_version: spec_u32_at(s, p + 36),
                    min_mobi_version: spec_u32_at(s, p + 104),
                    indices: IndicesView {
                        orthographic: spec_decode_optional(spec_u32_at(s, p + 40)),
                        inflection: spec_decode_optional(spec_u32_at(s, p + 44)),
                        names: spec_decode_optional(spec_u32_at(s, p + 48)),
                        keys: spec_decode_optional(spec_u32_at(s, p + 52)),
                        extra: seq![
                            spec_decode_optional(spec_u32_at(s, p + 56)),
                            spec_decode_optional(spec_u32_at(s, p + 60)),
                            spec_decode_optional(spec_u32_at(s, p + 64)),
                            spec_decode_optional(spec_u32_at(s, p + 68)),
                            spec_decode_optional(spec_u32_at(s, p + 72)),
                            spec_decode_optional(spec_u32_at(s, p + 76)),
                        ],
                    },
                    locale: spec_language_from(spec_u32_at(s, p + 92)),
                    dictionary: DictionaryInfo {
                        input: spec_language_from(spec_u32_at(s, p + 96)),
                        output: spec_language_from(spec_u32_at(s, p + 100)),
                    },
                    first_image_record: spec_u32_at(s, p + 108),
                    huffman_encoding: HuffmanEncodingInfo {
                        record_offset: spec_u32_at(s, p + 112),
                        record_count: spec_u32_at(s, p + 116),
                        table_offset: spec_u32_at(s, p + 120),
                        table_length: spec_u32_at(s, p + 124),
                    },
                    exth_flags: spec_u32_at(s, p + 128),
                    drm: DrmInfo {
                        offset: spec_decode_optional(spec_u32_at(s, p + 168)),
                        count: match spec_decode_optional(spec_u32_at(s, p + 172)) {
                            Some(v) => v,
                            None => 0u32,
                        },
                        size: spec_u32_at(s, p + 176),
                        flags: spec_u32_at(s, p + 180),
                    },
                    text_record: spec_u16_at(s, p + 192),
                    last_record: spec_u16_at(s, p + 194),
                    fcis_flis: FcisFlis {
                        fcis_record_number: spec_u32_at(s, p + 200),
                        fcis_record_count: spec_u32_at(s, p + 204),
                        flis_record_number: spec_u32_at(s, p + 208),
                        flis_record_count: spec_u32_at(s, p + 212),
                    },
                    compilation: CompilationInfo {
                        data_section_count: spec_u32_at(s, p + 228),
                        data_sections: spec_decode_optional(spec_u32_at(s, p + 232)),
                    },
                    extra_record_data_flags: spec_u32_at(s, p + 240),
                    indx_record_offset: spec_decode_optional(spec_u32_at(s, p + 244)),
                },
                end,
            ),
        )
    }
}

impl MobiHeader {
    /// Whether the header announces a tagged metadata block immediately after
    /// itself (bit 0x40 of the flags bitfield).
    pub fn has_exth_record(&self) -> (r: bool)
        ensures
            r == ((self.exth_flags & 0x40) != 0),
    {
        (self.exth_flags & 0x40) != 0
    }

    /// Reads a metadata header from the cursor. On success the cursor rests
    /// just past the declared header length; the result and each failure are
    /// exactly those of [`spec_parse_mobi`] at the cursor's old position.
    #[verifier::rlimit(100)]
    pub fn read_from(source: &mut Reader) -> (r: Result<MobiHeader, Error>)
        requires
            old(source).wf(),
        ensures
            final(source).wf(),
            final(source).buf@ == old(source).buf@,
            match spec_parse_mobi(old(source).buf@, old(source).pos as int) {
                Ok((v, end)) => {
                    &&& r matches Ok(h) && h@ == v
                    &&& final(source).pos == end
                },
                Err(e) => r == Err::<MobiHeader, Error>(e),
            },
    {
        let ghost s = source.buf@;
        let ghost p = source.pos as int;
        let compression_raw = match source.read_u16_be() {
            Ok(v) => v,
            Err(e) => {
                return Err(e);
            },
        };
        discard(source, 2);  // unused filler
        let uncompressed_text_length = match source.read_u32_be() {
            Ok(v) => v,
            Err(e) => {
                return Err(e);
            },
        };
        let _record_count = match source.read_u16_be() {
            Ok(v) => v,
            Err(e) => {
                return Err(e);
            },
        };
        let record_size = match source.read_u16_be() {
            Ok(v) => v,
            Err(e) => {
                return Err(e);
            },
        };
        if record_size != SUPPORTED_RECORD_SIZE {
            return Err(Error::UnsupportedRecordSize);
        }
        let encryption_raw = match source.read_u16_be() {
            Ok(v) => v,
            Err(e) => {
                return Err(e);
            },
        };
        let _unknown = match source.read_u16_be() {
            Ok(v) => v,
            Err(e) => {
                return Err(e);
            },
        };
        let magic = match source.read_u32_be() {
            Ok(v) => v,
            Err(e) => {
                return Err(e);
            },
        };
        if magic != MOBI_MAGIC {
            return Err(Error::BadMagic);
        }
        let header_len = match source.read_u32_be() {
            Ok(v) => v,
            Err(e) => {
                return Err(e);
            },
        };
        let content_type_raw = match source.read_u32_be() {
            Ok(v) => v,
            Err(e) => {
                return Err(e);
            },
        };
        let text_encoding_raw = match source.read_u32_be() {
            Ok(v) => v,
            Err(e) => {
                return Err(e);
            },
        };
        let mobi_id = match source.read_u32_be() {
            Ok(v) => v,
            Err(e) => {
                return Err(e);
            },
        };
        let mobi_version = match source.read_u32_be() {
            Ok(v) => v,
            Err(e) => {
                return Err(e);
            },
        };
        // Ten optional index references, all under the all-ones sentinel.
        let orthographic = match source.read_unmaxed_u32() {
            Ok(v) => v,
            Err(e) => {
                return Err(e);
            },
        };
        let inflection = match source.read_unmaxed_u32() {
            Ok(v) => v,
            Err(e) => {
                return Err(e);
            },
        };
        let index_names = match source.read_unmaxed_u32() {
            Ok(v) => v,
            Err(e) => {
                return Err(e);
            },
        };
        let index_keys = match source.read_unmaxed_u32() {
            Ok(v) => v,
            Err(e) => {
                return Err(e);
            },
        };
        let extra0 = match source.read_unmaxed_u32() {
            Ok(v) => v,
            Err(e) => {
                return Err(e);
            },
        };
        let extra1 = match source.read_unmaxed_u32() {
            Ok(v) => v,
            Err(e) => {
                return Err(e);
            },
        };
        let extra2 = match source.read_unmaxed_u32() {
            Ok(v) => v,
            Err(e) => {
                return Err(e);
            },
        };
        let extra3 = match source.read_unmaxed_u32() {
            Ok(v) => v,
            Err(e) => {
                return Err(e);
            },
        };
        let extra4 = match source.read_unmaxed_u32() {
            Ok(v) => v,
            Err(e) => {
                return Err(e);
            },
        };
        let extra5 = match source.read_unmaxed_u32() {
            Ok(v) => v,
            Err(e) => {
                return Err(e);
            },
        };
        let _first_record = match source.read_u32_be() {
            Ok(v) => v,
            Err(e) => {
                return Err(e);
            },
        };
        let _full_name_offset = match source.read_u32_be() {
            Ok(v) => v,
            Err(e) => {
                return Err(e);
            },
        };
        let _full_name_length = match source.read_u32_be() {
            Ok(v) => v,
            Err(e) => {
                return Err(e);
            },
        };
        let locale_raw = match source.read_u32_be() {
            Ok(v) => v,
            Err(e) => {
                return Err(e);
            },
        };
        let dict_input_raw = match source.read_u32_be() {
            Ok(v) => v,
            Err(e) => {
                return Err(e);
            },
        };
        let dict_output_raw = match source.read_u32_be() {
            Ok(v) => v,
            Err(e) => {
                return Err(e);
            },
        };
        let min_version = match source.read_u32_be() {
            Ok(v) => v,
            Err(e) => {
                return Err(e);
            },
        };
        let first_image_record = match source.read_u32_be() {
            Ok(v) => v,
            Err(e) => {
                return Err(e);
            },
        };
        let huffman_record_offset = match source.read_u32_be() {
            Ok(v) => v,
            Err(e) => {
                return Err(e);
            },
        };
        let huffman_record_count = match source.read_u32_be() {
            Ok(v) => v,
            Err(e) => {
                return Err(e);
            },
        };
        let huffman_table_offset = match source.read_u32_be() {
            Ok(v) => v,
            Err(e) => {
                return Err(e);
            },
        };
        let huffman_table_length = match source.read_u32_be() {
            Ok(v) => v,
            Err(e) => {
                return Err(e);
            },
        };
        let exth_flags = match source.read_u32_be() {
            Ok(v) => v,
            Err(e) => {
                return Err(e);
            },
        };
        discard(source, 32);  // unknown filler
        discard(source, 4);  // unknown filler (all-ones)
        let drm_offset = match source.read_unmaxed_u32() {
            Ok(v) => v,
            Err(e) => {
                return Err(e);
            },
        };
        let drm_count_opt = match source.read_unmaxed_u32() {
            Ok(v) => v,
            Err(e) => {
                return Err(e);
            },
        };
        let drm_count = match drm_count_opt {
            Some(v) => v,
            None => 0u32,
        };
        let drm_size = match source.read_u32_be() {
            Ok(v) => v,
            Err(e) => {
                return Err(e);
            },
        };
        let drm_flags = match source.read_u32_be() {
            Ok(v) => v,
            Err(e) => {
                return Err(e);
            },
        };
        discard(source, 8);  // unknown filler (zero)
        let text_record = match source.read_u16_be() {
            Ok(v) => v,
            Err(e) => {
                return Err(e);
            },
        };
        let last_record = match source.read_u16_be() {
            Ok(v) => v,
            Err(e) => {
                return Err(e);
            },
        };
        discard(source, 4);  // unknown filler (one)
        let fcis_record_number = match source.read_u32_be() {
            Ok(v) => v,
            Err(e) => {
                return Err(e);
            },
        };
        let fcis_record_count = match source.read_u32_be() {
            Ok(v) => v,
            Err(e) => {
                return Err(e);
            },
        };
        let flis_record_number = match source.read_u32_be() {
            Ok(v) => v,
            Err(e) => {
                return Err(e);
            },
        };
        let flis_record_count = match source.read_u32_be() {
            Ok(v) => v,
            Err(e) => {
                return Err(e);
            },
        };
        discard(source, 8);  // unknown filler (zero)
        discard(source, 4);  // unknown filler (all-ones)
        let compilation_data_section_count = match source.read_u32_be() {
            Ok(v) => v,
            Err(e) => {
                return Err(e);
            },
        };
        let number_of_compilation_data_sections = match source.read_unmaxed_u32() {
            Ok(v) => v,
            Err(e) => {
                return Err(e);
            },
        };
        discard(source, 4);  // unknown filler (all-ones)
        let extra_record_data_flags = match source.read_u32_be() {
            Ok(v) => v,
            Err(e) => {
                return Err(e);
            },
        };
        let indx_record_offset = match source.read_unmaxed_u32() {
            Ok(v) => v,
            Err(e) => {
                return Err(e);
            },
        };
        // Bytes beyond the fixed layout, declared by header_len, are skipped
        // exactly and never interpreted; an input that ends inside them is
        // truncated.
        if header_len > 232 {
            let extension = (header_len - 232) as usize;
            if source.buf.len() - source.pos < extension {
                return Err(Error::Truncated { offset: source.pos });
            }
            discard(source, extension);
        }
        let extra = [extra0, extra1, extra2, extra3, extra4, extra5];
        let header = MobiHeader {
            compression: CompressionType::from(compression_raw),
            uncompressed_text_length,
            encryption: EncryptionType::from(encryption_raw),
            content_type: MobiType::from(content_type_raw),
            text_encoding: TextEncoding::from(text_encoding_raw),
            mobi_id,
            mobi_version,
            min_mobi_version: min_version,
            indices: Indices {
                orthographic,
                inflection,
                names: index_names,
                keys: index_keys,
                extra,
            },
            locale: Language::from(locale_raw),
            dictionary: DictionaryInfo {
                input: Language::from(dict_input_raw),
                output: Language::from(dict_output_raw),
            },
            first_image_record,
            huffman_encoding: HuffmanEncodingInfo {
                record_offset: huffman_record_offset,
                record_count: huffman_record_count,
                table_offset: huffman_table_offset,
                table_length: huffman_table_length,
            },
            exth_flags,
            drm: DrmInfo { offset: drm_offset, count: drm_count, size: drm_size, flags: drm_flags },
            text_record,
            last_record,
            fcis_flis: FcisFlis {
                fcis_record_number,
                fcis_record_count,
                flis_record_number,
                flis_record_count,
            },
            compilation: CompilationInfo {
                data_section_count: compilation_data_section_count,
                data_sections: number_of_compilation_data_sections,
            },
            extra_record_data_flags,
            indx_record_offset,
        };
        proof {
            assert(extra@ =~= seq![extra0, extra1, extra2, extra3, extra4, extra5]);
            let parsed = spec_parse_mobi(s, p);
            assert(parsed matches Ok((v, end)) && header@ =~= v && end == source.pos);
        }
        Ok(header)
    }
}

} // verus!
