//! The fixed-width chunk headers: fields, records and groups.
use vstd::prelude::*;
use crate::bytes::{read_u16_at, read_u32_at, u16_at, u32_at};

verus! {

/// Tag of a group chunk, "GRUP".
pub const GRUP: u32 = 0x50555247;

/// Tag of the file header record, "TES4".
pub const TES4: u32 = 0x34534554;

/// Flag bit of a record whose payload is zlib-compressed.
pub const COMPRESSED_FLAG: u32 = 0x00040000;

/// Flag bit of the file header record that marks localized strings.
pub const LOCALIZED_FLAG: u32 = 0x00000080;

/// Header of a field: its tag and the size of its payload, header excluded.
#[derive(Clone, Copy, Debug, PartialEq, Eq, Structural)]
pub struct FieldHeader {
    pub type_id: u32,
    pub size: u16,
}

/// Header of a record. For a record `size` excludes the header; when
/// `type_id` is [`GRUP`] the same bytes hold a group header, whose `size`
/// includes it.
#[derive(Clone, Copy, Debug, PartialEq, Eq, Structural)]
pub struct RecordHeader {
    pub type_id: u32,
    pub size: u32,
    pub flags: u32,
    pub form_id: u32,
    pub revision: u32,
    pub version: u16,
    pub unknown: u16,
}

/// Header of a group: the record header's bytes read with a group's layout.
#[derive(Clone, Copy, Debug, PartialEq, Eq, Structural)]
pub struct GroupHeader {
    pub type_id: u32,
    pub size: u32,
    pub label: u32,
    pub group_type: u32,
    pub stamp: u32,
    pub version: u16,
    pub unknown: u16,
}

/// The field header stored at `p` in `s`.
pub open spec fn field_header_at(s: Seq<u8>, p: int) -> FieldHeader {
    FieldHeader { type_id: u32_at(s, p), size: u16_at(s, p + 4) }
}

/// The record header stored at `p` in `s`.
pub open spec fn record_header_at(s: Seq<u8>, p: int) -> RecordHeader {
    RecordHeader {
        type_id: u32_at(s, p),
        size: u32_at(s, p + 4),
        flags: u32_at(s, p + 8),
        form_id: u32_at(s, p + 12),
        revision: u32_at(s, p + 16),
        version: u16_at(s, p + 20),
        unknown: u16_at(s, p + 22),
    }
}

/// The group header whose bytes are those of `h`.
pub open spec fn group_view(h: RecordHeader) -> GroupHeader {
    GroupHeader {
        type_id: h.type_id,
        size: h.size,
        label: h.flags,
        group_type: h.form_id,
        stamp: h.revision,
        version: h.version,
        unknown: h.unknown,
    }
}

impl FieldHeader {
    /// Decodes the field header at `at`.
    pub fn read_at(data: &[u8], at: usize) -> (r: FieldHeader)
        requires
            at + 6 <= data@.len(),
        ensures
            r == field_header_at(data@, at as int),
    {
        let _len = data.len();
        FieldHeader { type_id: read_u32_at(data, at), size: read_u16_at(data, at + 4) }
    }
}

impl RecordHeader {
    /// Decodes the record header at `at`.
    pub fn read_at(data: &[u8], at: usize) -> (r: RecordHeader)
        requires
            at + 24 <= data@.len(),
        ensures
            r == record_header_at(data@, at as int),
    {
        let _len = data.len();
        RecordHeader {
            type_id: read_u32_at(data, at),
            size: read_u32_at(data, at + 4),
            flags: read_u32_at(data, at + 8),
            form_id: read_u32_at(data, at + 12),
            revision: read_u32_at(data, at + 16),
            version: read_u16_at(data, at + 20),
            unknown: read_u16_at(data, at + 22),
        }
    }

    /// Whether the record's payload is compressed.
    pub fn is_compressed(&self) -> (r: bool)
        ensures
            r == (self.flags & COMPRESSED_FLAG != 0),
    {
        self.flags & COMPRESSED_FLAG != 0
    }

    /// The same bytes read as a group header.
    pub fn as_group(&self) -> (r: GroupHeader)
        ensures
            r == group_view(*self),
    {
        GroupHeader {
            type_id: self.type_id,
            size: self.size,
            label: self.flags,
            group_type: self.form_id,
            stamp: self.revision,
            version: self.version,
            unknown: self.unknown,
        }
    }
}

} // verus!
