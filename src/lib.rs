//! Decoder for the chunked master-file format: groups, records and fields,
//! nested to any depth, where a record may hold a zlib-compressed stream of
//! its fields.
//!
//! - `header`, `bytes`, `tags`: the fixed-width chunk headers and tags.
//! - `registry`, `fo3`: the dispatch table that says how each record and
//!   field is read, and the table of the Fallout 3 format.
//! - `grammar`: the format and its byte-accounting rule as spec functions.
//! - `parser`: the parser, whose contracts are stated over `grammar`.
//! - `inflate`: zlib decompression, done by flate2.
//! - `laws`: properties of the parse, proved over `grammar`.
#![allow(non_snake_case)]

pub mod bytes;
pub mod error;
pub mod event;
pub mod fo3;
pub mod grammar;
pub mod header;
pub mod inflate;
pub mod laws;
pub mod parser;
pub mod registry;
pub mod tags;
