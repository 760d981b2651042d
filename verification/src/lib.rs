//! Decoder and encoder for a legacy e-book container format: a record-table
//! wrapper header, a fixed-layout book metadata header, an optional
//! tag-length-value metadata block, and an LZ77-style decompressor for the
//! fixed-size compressed text records.

pub mod common;
pub mod decompress;
pub mod exth_tags;
pub mod mobi;
pub mod palmdb;

