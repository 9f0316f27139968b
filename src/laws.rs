//! Properties of the format's parse, proved over the grammar.
use vstd::prelude::*;
use crate::error::ParseError;
use crate::event::{EventView, ValueView};
use crate::grammar::{
    bytes_read, chunk_span, compressed_spec, decode_spec, fh, field_at, fields_from, fields_spec,
    lemma_field_turn, lemma_record_turn, lstring_read, payload_header, prepend, records_from,
    records_spec, Outcome, Rules,
};
use crate::header::{record_header_at, RecordHeader, COMPRESSED_FLAG, GRUP};
use crate::registry::{field_kind_in, record_kind_in, FieldKind, FieldRule, RecordKind, RecordRule};

verus! {

/// The fields from `p` up to `end` are well formed: each header fits, each
/// payload decodes taking exactly its declared size, and the last one ends
/// exactly at `end`.
pub open spec fn fields_well_formed(
    s: Seq<u8>,
    rules: Rules,
    record: u32,
    localized: bool,
    p: int,
    end: int,
) -> bool
    decreases end - p,
{
    &&& 0 <= p
    &&& p + 6 <= s.len()
    &&& field_at(s, rules, record, localized, p) is Ok
    &&& field_at(s, rules, record, localized, p)->Ok_0.1 == fh(s, p).size
    &&& {
        let q = p + 6 + fh(s, p).size;
        q == end || (q < end && fields_well_formed(s, rules, record, localized, q, end))
    }
}

/// Well-formed fields are consumed exactly: the field loop over them ends
/// well, at the end of its span.
pub proof fn lemma_fields_well_formed(
    s: Seq<u8>,
    rules: Rules,
    record: u32,
    localized: bool,
    depth: nat,
    p: int,
    entry: int,
    total: int,
)
    requires
        entry <= p,
        fields_well_formed(s, rules, record, localized, p, entry + total),
    ensures
        fields_from(s, rules, record, localized, depth, p, entry, total).result is Ok,
        fields_from(s, rules, record, localized, depth, p, entry, total).pos == entry + total,
    decreases entry + total - p,
{
    let fv = field_at(s, rules, record, localized, p);
    lemma_field_turn(s, rules, record, localized, depth, p, entry, total, fv->Ok_0.0, fv->Ok_0.1);
    let q = p + 6 + fh(s, p).size;
    if q != entry + total {
        lemma_fields_well_formed(s, rules, record, localized, depth, q, entry, total);
    }
}

/// Parsing a non-empty span of well-formed fields succeeds and consumes
/// exactly the span.
pub proof fn lemma_parse_fields_well_formed(
    s: Seq<u8>,
    rules: Rules,
    record: u32,
    localized: bool,
    depth: nat,
    p: int,
    total: int,
)
    requires
        fields_well_formed(s, rules, record, localized, p, p + total),
    ensures
        fields_spec(s, rules, record, localized, depth, p, total).result is Ok,
        fields_spec(s, rules, record, localized, depth, p, total).pos == p + total,
{
    lemma_fields_well_formed(s, rules, record, localized, depth + 1, p, p, total);
}

/// The chunks from `p` up to `end` are well formed for the decoder chosen
/// by `top`: each header fits, each chunk decodes taking exactly its on-disk
/// span, and the last one ends exactly at `end`.
pub open spec fn records_well_formed(
    s: Seq<u8>,
    rules: Rules,
    top: bool,
    localized: bool,
    depth: nat,
    p: int,
    end: int,
) -> bool
    decreases end - p,
{
    &&& 0 <= p
    &&& p + 24 <= s.len()
    &&& !(record_header_at(s, p).type_id == GRUP && record_header_at(s, p).size < 24)
    &&& {
        let raw = record_header_at(s, p);
        let r = decode_spec(s, rules, top, localized, depth, p + 24, payload_header(raw));
        let q = p + chunk_span(raw);
        &&& r.result is Ok
        &&& r.pos == q
        &&& q <= s.len()
        &&& (q == end || (q < end
            && records_well_formed(s, rules, top, r.localized, depth, q, end)))
    }
}

/// Well-formed chunks are consumed exactly: the record loop over them ends
/// well, at the end of its span.
pub proof fn lemma_records_well_formed(
    s: Seq<u8>,
    rules: Rules,
    top: bool,
    localized: bool,
    depth: nat,
    p: int,
    entry: int,
    total: int,
)
    requires
        entry <= p,
        records_well_formed(s, rules, top, localized, depth, p, entry + total),
    ensures
        records_from(s, rules, top, localized, depth, p, entry, total).result is Ok,
        records_from(s, rules, top, localized, depth, p, entry, total).pos == entry + total,
    decreases entry + total - p,
{
    lemma_record_turn(s, rules, top, localized, depth, p, entry, total);
    let raw = record_header_at(s, p);
    let r = decode_spec(s, rules, top, localized, depth, p + 24, payload_header(raw));
    if r.pos != entry + total {
        lemma_records_well_formed(s, rules, top, r.localized, depth, r.pos, entry, total);
    }
}

/// Parsing a non-empty span of well-formed chunks succeeds and consumes
/// exactly the span.
pub proof fn lemma_parse_records_well_formed(
    s: Seq<u8>,
    rules: Rules,
    top: bool,
    localized: bool,
    depth: nat,
    p: int,
    total: int,
)
    requires
        records_well_formed(s, rules, top, localized, depth + 1, p, p + total),
    ensures
        records_spec(s, rules, top, localized, depth, p, total).result is Ok,
        records_spec(s, rules, top, localized, depth, p, total).pos == p + total,
{
    lemma_records_well_formed(s, rules, top, localized, depth + 1, p, p, total);
}

/// A group whose children are well formed decodes exactly: handed its
/// payload header at `p`, its decoder ends well right after the payload.
pub proof fn lemma_group_decodes_exactly(
    s: Seq<u8>,
    rules: Rules,
    top: bool,
    localized: bool,
    depth: nat,
    p: int,
    h: RecordHeader,
)
    requires
        h.type_id == GRUP,
        h.size == 0 || records_well_formed(s, rules, false, localized, depth + 1, p, p + h.size),
    ensures
        decode_spec(s, rules, top, localized, depth, p, h).result is Ok,
        decode_spec(s, rules, top, localized, depth, p, h).pos == p + h.size,
{
    if h.size != 0 {
        lemma_parse_records_well_formed(s, rules, false, localized, depth, p, h.size as int);
    }
}

/// A plain record that the table reads as fields, and whose fields are well
/// formed, decodes exactly: its decoder ends well right after the payload.
pub proof fn lemma_record_decodes_exactly(
    s: Seq<u8>,
    rules: Rules,
    localized: bool,
    depth: nat,
    p: int,
    h: RecordHeader,
)
    requires
        h.type_id != GRUP,
        h.flags & COMPRESSED_FLAG == 0,
        record_kind_in(rules.records, h.type_id) == RecordKind::Fields,
        h.size == 0 || fields_well_formed(s, rules, h.type_id, localized, p, p + h.size),
    ensures
        decode_spec(s, rules, false, localized, depth, p, h).result is Ok,
        decode_spec(s, rules, false, localized, depth, p, h).pos == p + h.size,
{
    if h.size != 0 {
        lemma_parse_fields_well_formed(s, rules, h.type_id, localized, depth, p, h.size as int);
    }
}

/// A field that decodes taking `n` bytes, other than its declared size, and
/// does not end the enclosing span, makes the field loop fail with a
/// structural error.
pub proof fn lemma_field_size_mismatch(
    s: Seq<u8>,
    rules: Rules,
    record: u32,
    localized: bool,
    depth: nat,
    p: int,
    entry: int,
    total: int,
    v: ValueView,
    n: int,
)
    requires
        0 <= p,
        p + 6 <= s.len(),
        field_at(s, rules, record, localized, p) == Ok::<(ValueView, int), ParseError>((v, n)),
        n != fh(s, p).size,
        p + 6 + n - entry != total,
    ensures
        fields_from(s, rules, record, localized, depth, p, entry, total).result == Err::<
            (),
            ParseError,
        >(ParseError::Structure),
{
    lemma_field_turn(s, rules, record, localized, depth, p, entry, total, v, n);
}

/// A chunk that decodes but ends other than at its on-disk span, and does
/// not end the enclosing span, makes the record loop fail with a structural
/// error.
pub proof fn lemma_chunk_size_mismatch(
    s: Seq<u8>,
    rules: Rules,
    top: bool,
    localized: bool,
    depth: nat,
    p: int,
    entry: int,
    total: int,
)
    requires
        0 <= p,
        p + 24 <= s.len(),
        !(record_header_at(s, p).type_id == GRUP && record_header_at(s, p).size < 24),
        ({
            let raw = record_header_at(s, p);
            let r = decode_spec(s, rules, top, localized, depth, p + 24, payload_header(raw));
            r.result is Ok && r.pos != p + chunk_span(raw) && r.pos - entry != total
        }),
    ensures
        records_from(s, rules, top, localized, depth, p, entry, total).result == Err::<
            (),
            ParseError,
        >(ParseError::Structure),
{
    lemma_record_turn(s, rules, top, localized, depth, p, entry, total);
}

/// A group of on-disk size `S` is handed to its decoder with size `S - 24`
/// and occupies `S` bytes; a record of declared size `R` is handed over as
/// it is and occupies `R + 24` bytes. Where the chunk decodes to exactly
/// that span without ending the enclosing one, the record loop goes on
/// right after it.
pub proof fn lemma_chunk_spans(
    s: Seq<u8>,
    rules: Rules,
    top: bool,
    localized: bool,
    depth: nat,
    p: int,
    entry: int,
    total: int,
)
    requires
        0 <= p,
        p + 24 <= s.len(),
        !(record_header_at(s, p).type_id == GRUP && record_header_at(s, p).size < 24),
    ensures
        ({
            let raw = record_header_at(s, p);
            &&& raw.type_id == GRUP ==> payload_header(raw).size == raw.size - 24
                && chunk_span(raw) == raw.size
            &&& raw.type_id != GRUP ==> payload_header(raw) == raw && chunk_span(raw) == raw.size
                + 24
        }),
        ({
            let raw = record_header_at(s, p);
            let r = decode_spec(s, rules, top, localized, depth, p + 24, payload_header(raw));
            r.result is Ok && r.pos == p + chunk_span(raw) && r.pos - entry != total && r.pos
                <= s.len() ==> records_from(s, rules, top, localized, depth, p, entry, total)
                == prepend(
                r.events,
                records_from(s, rules, top, r.localized, depth, r.pos, entry, total),
            )
        }),
{
    lemma_record_turn(s, rules, top, localized, depth, p, entry, total);
}

/// Every event of the field loop is a field event at the loop's depth.
pub proof fn lemma_fields_depth(
    s: Seq<u8>,
    rules: Rules,
    record: u32,
    localized: bool,
    depth: nat,
    p: int,
    entry: int,
    total: int,
)
    ensures
        forall|i: int|
            0 <= i < fields_from(s, rules, record, localized, depth, p, entry, total).events.len()
                ==> (#[trigger] fields_from(
                s,
                rules,
                record,
                localized,
                depth,
                p,
                entry,
                total,
            ).events[i] is Field) && fields_from(
                s,
                rules,
                record,
                localized,
                depth,
                p,
                entry,
                total,
            ).events[i]->Field_depth == depth,
    decreases s.len() - p,
{
    reveal_with_fuel(fields_from, 1);
    if 0 <= p && p + 6 <= s.len() {
        let fv = field_at(s, rules, record, localized, p);
        if fv is Ok {
            let q = p + 6 + fv->Ok_0.1;
            let ev = seq![EventView::Field { header: fh(s, p), value: fv->Ok_0.0, depth }];
            if q - entry != total && fv->Ok_0.1 == fh(s, p).size {
                lemma_fields_depth(s, rules, record, localized, depth, q, entry, total);
                let rest = fields_from(s, rules, record, localized, depth, q, entry, total);
                assert forall|i: int| 0 <= i < (ev + rest.events).len() implies ((ev
                    + rest.events)[i] is Field) && (ev + rest.events)[i]->Field_depth == depth by {
                    if i > 0 {
                        assert((ev + rest.events)[i] == rest.events[i - 1]);
                    }
                }
            }
        }
    }
}

/// A compressed record's sub-parse reports its fields one level below the
/// depth at which the record was met, never from depth zero.
pub proof fn lemma_compressed_depth(
    s: Seq<u8>,
    rules: Rules,
    localized: bool,
    depth: nat,
    p: int,
    h: RecordHeader,
)
    ensures
        forall|i: int|
            0 <= i < compressed_spec(s, rules, localized, depth, p, h).events.len() ==> (
            #[trigger] compressed_spec(s, rules, localized, depth, p, h).events[i] is Field)
                && compressed_spec(s, rules, localized, depth, p, h).events[i]->Field_depth
                == depth + 1,
{
    if p + 4 <= s.len() && h.size >= 4 && p + h.size <= s.len() {
        let z = crate::inflate::zlib_inflated(s.subrange(p + 4, p + h.size));
        if z is Some {
            let plain = z->Some_0;
            lemma_fields_depth(
                plain,
                rules,
                h.type_id,
                localized,
                depth + 1,
                0,
                0,
                plain.len() as int,
            );
        }
    }
}

/// A string that may be localized reads as the plain string does in a file
/// that is not localized, and is unsupported in one that is.
pub proof fn lemma_localization_gating(s: Seq<u8>, p: int, n: int, localized: bool)
    ensures
        !localized ==> lstring_read(s, p, n, localized) == bytes_read(s, p, n),
        localized ==> lstring_read(s, p, n, localized) == Err::<Seq<u8>, ParseError>(
            ParseError::Unsupported,
        ),
{
}

/// With no rule for `field` in records tagged `record`, the field is
/// skipped.
pub proof fn lemma_unknown_field_kind(rules: Seq<FieldRule>, record: u32, field: u32)
    requires
        forall|i: int|
            0 <= i < rules.len() ==> !(#[trigger] rules[i].record == record && rules[i].field
                == field),
    ensures
        field_kind_in(rules, record, field) == FieldKind::Skip,
    decreases rules.len(),
{
    if rules.len() > 0 {
        assert forall|i: int| 0 <= i < rules.drop_first().len() implies !(
        #[trigger] rules.drop_first()[i].record == record && rules.drop_first()[i].field
            == field) by {
            assert(rules.drop_first()[i] == rules[i + 1]);
        }
        lemma_unknown_field_kind(rules.drop_first(), record, field);
    }
}

/// With no rule for records tagged `record`, they are skipped.
pub proof fn lemma_unknown_record_kind(rules: Seq<RecordRule>, record: u32)
    requires
        forall|i: int| 0 <= i < rules.len() ==> #[trigger] rules[i].record != record,
    ensures
        record_kind_in(rules, record) == RecordKind::Skip,
    decreases rules.len(),
{
    if rules.len() > 0 {
        assert forall|i: int| 0 <= i < rules.drop_first().len() implies
            #[trigger] rules.drop_first()[i].record != record by {
            assert(rules.drop_first()[i] == rules[i + 1]);
        }
        lemma_unknown_record_kind(rules.drop_first(), record);
    }
}

/// A field with a tag that the table does not know, and whose declared
/// payload fits in the input, is skipped: it decodes taking exactly its
/// declared size.
pub proof fn lemma_unknown_field_skipped(
    s: Seq<u8>,
    rules: Rules,
    record: u32,
    localized: bool,
    p: int,
)
    requires
        0 <= p,
        p + 6 + fh(s, p).size <= s.len(),
        forall|i: int|
            0 <= i < rules.fields.len() ==> !(#[trigger] rules.fields[i].record == record
                && rules.fields[i].field == fh(s, p).type_id),
    ensures
        field_at(s, rules, record, localized, p) == Ok::<(ValueView, int), ParseError>(
            (ValueView::Skipped, fh(s, p).size as int),
        ),
{
    lemma_unknown_field_kind(rules.fields, record, fh(s, p).type_id);
}

/// A plain record with a tag that the table does not know, and whose
/// declared payload fits in the input, is reported and skipped: its decode
/// ends well, right after its payload.
pub proof fn lemma_unknown_record_skipped(
    s: Seq<u8>,
    rules: Rules,
    localized: bool,
    depth: nat,
    p: int,
    h: RecordHeader,
)
    requires
        h.type_id != GRUP,
        h.flags & COMPRESSED_FLAG == 0,
        p + h.size <= s.len(),
        forall|i: int|
            0 <= i < rules.records.len() ==> #[trigger] rules.records[i].record != h.type_id,
    ensures
        decode_spec(s, rules, false, localized, depth, p, h) == (Outcome {
            result: Ok(()),
            pos: p + h.size,
            localized,
            events: seq![EventView::Record { header: h, depth }],
        }),
{
    lemma_unknown_record_kind(rules.records, h.type_id);
    let ev = seq![EventView::Record { header: h, depth }];
    assert(ev + Seq::<EventView>::empty() =~= ev);
}

/// A field loop that ends well stands inside its span and ends at the
/// span's end.
pub proof fn lemma_fields_ok_inside(
    s: Seq<u8>,
    rules: Rules,
    record: u32,
    localized: bool,
    depth: nat,
    p: int,
    entry: int,
    total: int,
)
    requires
        fields_from(s, rules, record, localized, depth, p, entry, total).result is Ok,
    ensures
        0 <= p,
        p + 6 <= s.len(),
        field_at(s, rules, record, localized, p) is Ok,
        p - entry < total,
        fields_from(s, rules, record, localized, depth, p, entry, total).pos == entry + total,
    decreases s.len() - p,
{
    reveal_with_fuel(fields_from, 1);
    let fv = field_at(s, rules, record, localized, p);
    let q = p + 6 + fv->Ok_0.1;
    if q - entry != total {
        lemma_fields_ok_inside(s, rules, record, localized, depth, q, entry, total);
    }
}

/// The field loop reads only the bytes of its span: run over another input
/// that holds the same bytes `off` further on, a loop that ends well ends
/// well there too, with the same events.
pub proof fn lemma_fields_shift(
    a: Seq<u8>,
    b: Seq<u8>,
    off: int,
    rules: Rules,
    record: u32,
    localized: bool,
    depth: nat,
    p: int,
    entry: int,
    total: int,
)
    requires
        0 <= entry <= p,
        0 <= entry + off,
        entry + total <= a.len(),
        entry + off + total <= b.len(),
        forall|i: int| entry <= i < entry + total ==> #[trigger] a[i] == b[i + off],
        fields_from(a, rules, record, localized, depth, p, entry, total).result is Ok,
    ensures
        fields_from(b, rules, record, localized, depth, p + off, entry + off, total).result is Ok,
        fields_from(b, rules, record, localized, depth, p + off, entry + off, total).events
            == fields_from(a, rules, record, localized, depth, p, entry, total).events,
    decreases a.len() - p,
{
    lemma_fields_ok_inside(a, rules, record, localized, depth, p, entry, total);
    let fv = field_at(a, rules, record, localized, p);
    let ha = fh(a, p);
    let v = fv->Ok_0.0;
    let n = fv->Ok_0.1;
    lemma_field_turn(a, rules, record, localized, depth, p, entry, total, v, n);
    let q = p + 6 + n;
    if q - entry != total {
        lemma_fields_ok_inside(a, rules, record, localized, depth, q, entry, total);
    }
    assert(q <= entry + total);
    assert(fh(b, p + off) == ha) by {
        assert(a[p] == b[p + off]);
        assert(a[p + 1] == b[p + 1 + off]);
        assert(a[p + 2] == b[p + 2 + off]);
        assert(a[p + 3] == b[p + 3 + off]);
        assert(a[p + 4] == b[p + 4 + off]);
        assert(a[p + 5] == b[p + 5 + off]);
    }
    let kind = field_kind_in(rules.fields, record, ha.type_id);
    assert(field_at(b, rules, record, localized, p + off) == fv) by {
        match kind {
            FieldKind::Text => {
                assert(a.subrange(p + 6, p + 6 + ha.size) =~= b.subrange(
                    p + off + 6,
                    p + off + 6 + ha.size,
                ));
            },
            FieldKind::Localized => {
                assert(a.subrange(p + 6, p + 6 + ha.size) =~= b.subrange(
                    p + off + 6,
                    p + off + 6 + ha.size,
                ));
            },
            FieldKind::Fixed(w) => {
                assert(a.subrange(p + 6, p + 6 + w) =~= b.subrange(p + off + 6, p + off + 6 + w));
            },
            FieldKind::Skip => {},
            FieldKind::Extended => {
                assert(n == 10 + crate::bytes::u32_at(a, p + 6));
                assert(a[p + 6] == b[p + 6 + off]);
                assert(a[p + 7] == b[p + 7 + off]);
                assert(a[p + 8] == b[p + 8 + off]);
                assert(a[p + 9] == b[p + 9 + off]);
                assert(a[p + 10] == b[p + 10 + off]);
                assert(a[p + 11] == b[p + 11 + off]);
                assert(a[p + 12] == b[p + 12 + off]);
                assert(a[p + 13] == b[p + 13 + off]);
                assert(a[p + 14] == b[p + 14 + off]);
                assert(a[p + 15] == b[p + 15 + off]);
            },
        }
    }
    lemma_field_turn(b, rules, record, localized, depth, p + off, entry + off, total, v, n);
    if q - entry != total {
        lemma_fields_shift(a, b, off, rules, record, localized, depth, q, entry, total);
    }
}

/// A compressed record whose payload inflates to a well-formed field
/// sequence `plain` decodes as the plain record of the same tag whose
/// payload is `plain`: both end well, right after their payloads, and report
/// the same fields after their own record event.
pub proof fn lemma_compressed_round_trip(
    sc: Seq<u8>,
    pc: int,
    hc: RecordHeader,
    sp: Seq<u8>,
    pp: int,
    hp: RecordHeader,
    plain: Seq<u8>,
    rules: Rules,
    localized: bool,
    depth: nat,
)
    requires
        hc.type_id == hp.type_id,
        hc.type_id != GRUP,
        hc.flags & COMPRESSED_FLAG != 0,
        hp.flags & COMPRESSED_FLAG == 0,
        record_kind_in(rules.records, hp.type_id) == RecordKind::Fields,
        0 <= pc,
        4 <= hc.size,
        pc + hc.size <= sc.len(),
        crate::inflate::zlib_inflated(sc.subrange(pc + 4, pc + hc.size)) == Some(plain),
        0 <= pp,
        hp.size == plain.len(),
        pp + plain.len() <= sp.len(),
        sp.subrange(pp, pp + plain.len()) == plain,
        plain.len() == 0 || fields_well_formed(
            plain,
            rules,
            hc.type_id,
            localized,
            0,
            plain.len() as int,
        ),
    ensures
        ({
            let c = decode_spec(sc, rules, false, localized, depth, pc, hc);
            let u = decode_spec(sp, rules, false, localized, depth, pp, hp);
            &&& c.result is Ok
            &&& u.result is Ok
            &&& c.pos == pc + hc.size
            &&& u.pos == pp + hp.size
            &&& c.events[0] == EventView::Record { header: hc, depth }
            &&& u.events[0] == EventView::Record { header: hp, depth }
            &&& c.events.drop_first() == u.events.drop_first()
        }),
{
    let len = plain.len() as int;
    let c_fields = fields_spec(plain, rules, hc.type_id, localized, depth, 0, len);
    let u_fields = fields_spec(sp, rules, hp.type_id, localized, depth, pp, len);
    if len != 0 {
        lemma_parse_fields_well_formed(plain, rules, hc.type_id, localized, depth, 0, len);
        assert forall|i: int| 0 <= i < len implies #[trigger] plain[i] == sp[i + pp] by {
            assert(sp.subrange(pp, pp + len)[i] == sp[i + pp]);
        }
        lemma_fields_shift(plain, sp, pp, rules, hc.type_id, localized, depth + 1, 0, 0, len);
        lemma_fields_ok_inside(sp, rules, hp.type_id, localized, depth + 1, pp, pp, len);
    }
    let ev_c = seq![EventView::Record { header: hc, depth }];
    let ev_u = seq![EventView::Record { header: hp, depth }];
    assert((ev_c + c_fields.events).drop_first() =~= c_fields.events);
    assert((ev_u + u_fields.events).drop_first() =~= u_fields.events);
}

} // verus!
