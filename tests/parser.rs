use std::io::Write;

use esm_parser::bytes::tag_of;
use esm_parser::error::ParseError;
use esm_parser::event::{Event, FieldValue};
use esm_parser::fo3::{fallout3, LeafWidths};
use esm_parser::header::{FieldHeader, RecordHeader, COMPRESSED_FLAG, GRUP, LOCALIZED_FLAG, TES4};
use esm_parser::parser::ESMParser;
use esm_parser::registry::{FieldKind, RecordKind, Registry};
use esm_parser::tags;

fn tag(s: &[u8; 4]) -> u32 {
    tag_of(s[0], s[1], s[2], s[3])
}

fn record_header(type_id: u32, size: u32, flags: u32) -> RecordHeader {
    RecordHeader { type_id, size, flags, form_id: 0x0000_0014, revision: 0, version: 15, unknown: 0 }
}

fn push_record_header(out: &mut Vec<u8>, h: &RecordHeader) {
    out.extend_from_slice(&h.type_id.to_le_bytes());
    out.extend_from_slice(&h.size.to_le_bytes());
    out.extend_from_slice(&h.flags.to_le_bytes());
    out.extend_from_slice(&h.form_id.to_le_bytes());
    out.extend_from_slice(&h.revision.to_le_bytes());
    out.extend_from_slice(&h.version.to_le_bytes());
    out.extend_from_slice(&h.unknown.to_le_bytes());
}

fn push_field(out: &mut Vec<u8>, type_id: u32, declared: u16, payload: &[u8]) {
    out.extend_from_slice(&type_id.to_le_bytes());
    out.extend_from_slice(&declared.to_le_bytes());
    out.extend_from_slice(payload);
}

fn zlib(plain: &[u8]) -> Vec<u8> {
    let mut enc = flate2::write::ZlibEncoder::new(Vec::new(), flate2::Compression::default());
    enc.write_all(plain).unwrap();
    enc.finish().unwrap()
}

fn widths() -> LeafWidths {
    LeafWidths {
        attr: 7,
        clas: 28,
        cnto: 8,
        coed: 12,
        crdt: 12,
        ctda: 28,
        data: 4,
        dnam: 8,
        dstd: 20,
        efit: 20,
        enit: 8,
        hedr: 12,
        mgef: 72,
        obnd: 12,
        schr: 20,
        sndd: 36,
        spit: 16,
        xnam: 12,
    }
}

/// A table where the file header's HEDR field is four bytes wide.
fn hedr4_table() -> Registry {
    let mut r = Registry::new();
    r.add_field(TES4, tag(b"HEDR"), FieldKind::Fixed(4));
    r
}

fn npc_table() -> Registry {
    let mut r = Registry::new();
    r.add_record(tag(b"NPC_"), RecordKind::Fields);
    r.add_field(tag(b"NPC_"), tag(b"EDID"), FieldKind::Text);
    r.add_field(tag(b"NPC_"), tag(b"FULL"), FieldKind::Localized);
    r.add_field(tag(b"NPC_"), tag(b"OBND"), FieldKind::Fixed(12));
    r
}

fn npc_fields() -> Vec<u8> {
    let mut f = Vec::new();
    push_field(&mut f, tag(b"EDID"), 6, b"Guard\0");
    push_field(&mut f, tag(b"FULL"), 4, b"Bob\0");
    push_field(&mut f, tag(b"OBND"), 12, &[1, 0, 2, 0, 3, 0, 4, 0, 5, 0, 6, 0]);
    f
}

fn field_events(events: &[Event]) -> Vec<Event> {
    events.iter().filter(|e| matches!(e, Event::Field { .. })).cloned().collect()
}

#[test]
fn single_record_file() {
    let mut data = Vec::new();
    push_record_header(&mut data, &record_header(TES4, 10, 0));
    push_field(&mut data, tag(b"HEDR"), 4, &[1, 2, 3, 4]);
    let len = data.len();
    let mut p = ESMParser::new(data, hedr4_table());
    assert_eq!(p.parse_top_level(), Ok(()));
    assert_eq!(p.pos, len);
    assert_eq!(p.events.len(), 2);
    assert_eq!(
        p.events[1],
        Event::Field {
            header: FieldHeader { type_id: tag(b"HEDR"), size: 4 },
            value: FieldValue::Raw(vec![1, 2, 3, 4]),
            depth: 2,
        }
    );
}

#[test]
fn group_of_two_records() {
    let mut data = Vec::new();
    push_record_header(&mut data, &record_header(GRUP, 24 + 2 * (24 + 13), 0));
    for _ in 0..2 {
        push_record_header(&mut data, &record_header(tag(b"ZZZZ"), 13, 0));
        data.extend_from_slice(&[0xAB; 13]);
    }
    let len = data.len();
    let mut p = ESMParser::new(data, Registry::new());
    assert_eq!(p.parse_top_level(), Ok(()));
    assert_eq!(p.pos, len);
    assert_eq!(p.events.len(), 3);
    assert!(matches!(p.events[0], Event::Group { depth: 1, .. }));
    assert!(matches!(p.events[1], Event::Record { depth: 2, .. }));
    assert!(matches!(p.events[2], Event::Record { depth: 2, .. }));
}

#[test]
fn truncated_field_size_fails() {
    let mut data = Vec::new();
    push_record_header(&mut data, &record_header(TES4, 9, 0));
    push_field(&mut data, tag(b"HEDR"), 3, &[1, 2, 3, 4]);
    let mut p = ESMParser::new(data, hedr4_table());
    assert_eq!(p.parse_top_level(), Err(ParseError::Structure));
    assert_eq!(p.depth, 0);
}

#[test]
fn zeta() {
    let mut data = Vec::new();
    let mut tes4 = Vec::new();
    push_field(&mut tes4, tags::HEDR, 12, &[0; 12]);
    push_field(&mut tes4, tags::CNAM, 8, b"Bethesd\0");
    push_field(&mut tes4, tags::MAST, 13, b"Fallout3.esm\0");
    push_field(&mut tes4, tags::DATA, 8, &[0; 8]);
    push_record_header(&mut data, &record_header(TES4, tes4.len() as u32, 1));
    data.extend_from_slice(&tes4);
    let mut glob = Vec::new();
    push_field(&mut glob, tags::EDID, 9, b"GameHour\0");
    push_field(&mut glob, tags::FNAM, 1, b"f");
    push_field(&mut glob, tags::FLTV, 4, &12.5f32.to_le_bytes());
    let mut children = Vec::new();
    push_record_header(&mut children, &record_header(tags::GLOB, glob.len() as u32, 0));
    children.extend_from_slice(&glob);
    let mut plain = Vec::new();
    push_field(&mut plain, tags::EDID, 5, b"Door\0");
    push_field(&mut plain, tags::MODL, 9, b"door.nif\0");
    let z = zlib(&plain);
    push_record_header(&mut children, &record_header(tags::DOOR, 4 + z.len() as u32, COMPRESSED_FLAG));
    children.extend_from_slice(&(plain.len() as u32).to_le_bytes());
    children.extend_from_slice(&z);
    push_record_header(&mut data, &record_header(GRUP, 24 + children.len() as u32, 0));
    data.extend_from_slice(&children);
    let len = data.len();
    let mut p = ESMParser::new(data, fallout3(&widths()));
    assert_eq!(p.parse_top_level(), Ok(()));
    assert_eq!(p.pos, len);
    assert!(!p.localised);
    assert_eq!(field_events(&p.events).len(), 4 + 3 + 2);
    assert_eq!(
        p.events.last().unwrap(),
        &Event::Field {
            header: FieldHeader { type_id: tags::MODL, size: 9 },
            value: FieldValue::Text(b"door.nif\0".to_vec()),
            depth: 3,
        }
    );
}

#[test]
fn well_formed_fields_are_consumed_exactly() {
    let f = npc_fields();
    let total = f.len() as u32;
    let mut p = ESMParser::new(f, npc_table());
    assert_eq!(p.parse_fields(tag(b"NPC_"), total), Ok(()));
    assert_eq!(p.pos, total as usize);
    assert_eq!(p.events.len(), 3);
    assert_eq!(p.depth, 0);
}

#[test]
fn empty_span_is_no_iteration() {
    let mut p = ESMParser::new(vec![1, 2, 3], npc_table());
    assert_eq!(p.parse_fields(tag(b"NPC_"), 0), Ok(()));
    assert_eq!(p.pos, 0);
    assert!(p.events.is_empty());
}

#[test]
fn size_mismatch_is_a_structure_error() {
    let mut f = Vec::new();
    push_field(&mut f, tag(b"OBND"), 10, &[0; 10]);
    push_field(&mut f, tag(b"EDID"), 2, b"a\0");
    let total = f.len() as u32;
    let mut p = ESMParser::new(f, npc_table());
    assert_eq!(p.parse_fields(tag(b"NPC_"), total), Err(ParseError::Structure));
    assert_eq!(p.depth, 0);
}

#[test]
fn trailing_field_may_close_the_span() {
    let mut f = Vec::new();
    push_field(&mut f, tag(b"EDID"), 2, b"a\0");
    push_field(&mut f, tag(b"OBND"), 10, &[0; 12]);
    let total = f.len() as u32;
    let mut p = ESMParser::new(f, npc_table());
    assert_eq!(p.parse_fields(tag(b"NPC_"), total), Ok(()));
    assert_eq!(p.pos, total as usize);
}

#[test]
fn truncated_input_is_unexpected_end() {
    let mut f = npc_fields();
    let total = f.len() as u32;
    f.truncate(f.len() - 3);
    let mut p = ESMParser::new(f, npc_table());
    assert_eq!(p.parse_fields(tag(b"NPC_"), total), Err(ParseError::UnexpectedEnd));
}

#[test]
fn group_and_record_spans() {
    let mut data = Vec::new();
    push_record_header(&mut data, &record_header(GRUP, 24 + 24 + 5, 0));
    push_record_header(&mut data, &record_header(tag(b"ZZZZ"), 5, 0));
    data.extend_from_slice(&[9; 5]);
    let group = RecordHeader::read_at(&data, 0);
    let mut p = ESMParser::new(data, Registry::new());
    p.pos = 24;
    let payload = RecordHeader { size: group.size - 24, ..group };
    assert_eq!(p.GRUP(&payload), Ok(()));
    assert_eq!(p.pos, 24 + 24 + 5);
    assert_eq!(p.events.len(), 2);

    let mut data = Vec::new();
    data.extend_from_slice(&[7; 30]);
    let mut p = ESMParser::new(data, Registry::new());
    assert_eq!(p.GRUP(&record_header(tag(b"ZZZZ"), 30, 0)), Ok(()));
    assert_eq!(p.pos, 30);
}

#[test]
fn group_smaller_than_its_header_is_rejected() {
    let mut data = Vec::new();
    push_record_header(&mut data, &record_header(GRUP, 10, 0));
    let mut p = ESMParser::new(data, Registry::new());
    assert_eq!(p.parse_top_level(), Err(ParseError::Structure));
}

#[test]
fn compressed_record_matches_plain_record() {
    let plain = npc_fields();
    let z = zlib(&plain);
    let mut packed = Vec::new();
    packed.extend_from_slice(&(plain.len() as u32).to_le_bytes());
    packed.extend_from_slice(&z);
    let hc = record_header(tag(b"NPC_"), packed.len() as u32, COMPRESSED_FLAG);
    let mut pc = ESMParser::new(packed, npc_table());
    assert_eq!(pc.GRUP(&hc), Ok(()));
    assert_eq!(pc.pos, hc.size as usize);

    let hp = record_header(tag(b"NPC_"), plain.len() as u32, 0);
    let mut pp = ESMParser::new(plain, npc_table());
    assert_eq!(pp.GRUP(&hp), Ok(()));

    assert_eq!(pc.events[0], Event::Record { header: hc, depth: 0 });
    assert_eq!(pc.events[1..], pp.events[1..]);
    assert_eq!(pc.events.len(), 4);
}

#[test]
fn compressed_sub_parse_keeps_depth() {
    let plain = npc_fields();
    let z = zlib(&plain);
    let mut packed = Vec::new();
    packed.extend_from_slice(&(plain.len() as u32).to_le_bytes());
    packed.extend_from_slice(&z);
    let hc = record_header(tag(b"NPC_"), packed.len() as u32, COMPRESSED_FLAG);
    let mut p = ESMParser::new(packed, npc_table());
    p.depth = 3;
    assert_eq!(p.GRUP(&hc), Ok(()));
    assert_eq!(p.depth, 3);
    for e in &p.events[1..] {
        assert!(matches!(e, Event::Field { depth: 4, .. }));
    }
}

#[test]
fn corrupt_stream_is_a_decompress_error() {
    let mut packed = Vec::new();
    packed.extend_from_slice(&10u32.to_le_bytes());
    packed.extend_from_slice(&[0xde, 0xad, 0xbe, 0xef, 0x00, 0x11]);
    let hc = record_header(tag(b"NPC_"), packed.len() as u32, COMPRESSED_FLAG);
    let mut p = ESMParser::new(packed, npc_table());
    assert_eq!(p.GRUP(&hc), Err(ParseError::Decompress));
}

#[test]
fn deflate_inflates_the_stream() {
    let z = zlib(b"hello, hello, hello");
    let n = z.len();
    let mut p = ESMParser::new(z, Registry::new());
    assert_eq!(p.deflate(n), Ok(b"hello, hello, hello".to_vec()));
    assert_eq!(p.pos, n);
}

#[test]
fn lstring_reads_as_zstring_unless_localized() {
    let mut a = ESMParser::new(b"Name\0rest".to_vec(), Registry::new());
    let mut b = ESMParser::new(b"Name\0rest".to_vec(), Registry::new());
    assert_eq!(a.read_lstring(5), b.read_zstring(5));
    assert_eq!(a.read_zstring(4), Ok(b"rest".to_vec()));
    assert_eq!(a.pos, 9);

    let mut c = ESMParser::new(b"Name\0rest".to_vec(), Registry::new());
    c.localised = true;
    assert_eq!(c.read_lstring(5), Err(ParseError::Unsupported));
}

#[test]
fn localized_file_rejects_localized_strings() {
    let mut data = Vec::new();
    push_record_header(&mut data, &record_header(TES4, 0, LOCALIZED_FLAG));
    let mut rec = Vec::new();
    push_field(&mut rec, tags::FULL, 4, b"Bob\0");
    let mut children = Vec::new();
    push_record_header(&mut children, &record_header(tags::GLOB, 0, 0));
    push_record_header(&mut children, &record_header(tags::FACT, rec.len() as u32, 0));
    children.extend_from_slice(&rec);
    push_record_header(&mut data, &record_header(GRUP, 24 + children.len() as u32, 0));
    data.extend_from_slice(&children);
    let mut p = ESMParser::new(data, fallout3(&widths()));
    assert_eq!(p.parse_top_level(), Err(ParseError::Unsupported));
    assert!(p.localised);
    assert_eq!(p.depth, 0);
}

#[test]
fn unknown_tags_are_skipped() {
    let mut f = Vec::new();
    push_field(&mut f, tag(b"QQQQ"), 3, &[1, 2, 3]);
    push_field(&mut f, tag(b"EDID"), 2, b"a\0");
    let total = f.len() as u32;
    let mut p = ESMParser::new(f, npc_table());
    assert_eq!(p.parse_fields(tag(b"NPC_"), total), Ok(()));
    assert_eq!(
        p.events[0],
        Event::Field {
            header: FieldHeader { type_id: tag(b"QQQQ"), size: 3 },
            value: FieldValue::Skipped,
            depth: 1,
        }
    );

    let mut data = Vec::new();
    push_record_header(&mut data, &record_header(tag(b"QQQQ"), 2, 0));
    data.extend_from_slice(&[0, 0]);
    push_record_header(&mut data, &record_header(tag(b"NPC_"), 0, 0));
    let mut children = Vec::new();
    push_record_header(&mut children, &record_header(GRUP, 24 + data.len() as u32, 0));
    children.extend_from_slice(&data);
    let mut p = ESMParser::new(children, npc_table());
    assert_eq!(p.parse_top_level(), Ok(()));
    assert_eq!(p.events.len(), 3);
}

#[test]
fn extended_size_marker_covers_next_field() {
    let mut f = Vec::new();
    push_field(&mut f, tags::XXXX, 4, &20u32.to_le_bytes());
    push_field(&mut f, tag(b"OFST"), 0, &[5; 20]);
    let total = f.len() as u32;
    let mut p = ESMParser::new(f, fallout3(&widths()));
    assert_eq!(p.parse_fields(tags::WRLD, total), Ok(()));
    assert_eq!(
        p.events[0],
        Event::Field {
            header: FieldHeader { type_id: tags::XXXX, size: 4 },
            value: FieldValue::Extended { size: 20, next: FieldHeader { type_id: tag(b"OFST"), size: 0 } },
            depth: 1,
        }
    );
}

#[test]
fn localized_record_payload_is_text() {
    let mut p = ESMParser::new(b"begin\0".to_vec(), fallout3(&widths()));
    assert_eq!(p.GRUP(&record_header(tags::SCPT, 6, 0)), Ok(()));
    assert_eq!(p.events[1], Event::Text { text: b"begin\0".to_vec(), depth: 0 });
}

#[test]
fn fallout3_table_lookups() {
    let t = fallout3(&widths());
    assert_eq!(tag(b"EDID"), tags::EDID);
    assert_eq!(tag(b"GRUP"), GRUP);
    assert_eq!(tag(b"TES4"), TES4);
    assert_eq!(t.record_kind(tags::GLOB), RecordKind::Fields);
    assert_eq!(t.record_kind(tags::REFR), RecordKind::Skip);
    assert_eq!(t.record_kind(tags::SCPT), RecordKind::Localized);
    assert_eq!(t.field_kind(tags::GLOB, tags::FLTV), FieldKind::Fixed(4));
    assert_eq!(t.field_kind(tags::FACT, tags::FULL), FieldKind::Localized);
    assert_eq!(t.field_kind(TES4, tags::HEDR), FieldKind::Fixed(12));
    assert_eq!(t.field_kind(tags::GLOB, tags::XXXX), FieldKind::Skip);
}

#[test]
fn headers_decode_little_endian() {
    let mut data = Vec::new();
    let h = RecordHeader {
        type_id: tags::GLOB,
        size: 0x0102_0304,
        flags: COMPRESSED_FLAG,
        form_id: 0xA0B0_C0D0,
        revision: 7,
        version: 0x1234,
        unknown: 9,
    };
    push_record_header(&mut data, &h);
    assert_eq!(RecordHeader::read_at(&data, 0), h);
    assert!(h.is_compressed());
    let g = h.as_group();
    assert_eq!(g.label, COMPRESSED_FLAG);
    assert_eq!(g.group_type, 0xA0B0_C0D0);
    assert_eq!(FieldHeader::read_at(&[1, 2, 3, 4, 5, 6], 0), FieldHeader { type_id: 0x0403_0201, size: 0x0605 });
}
