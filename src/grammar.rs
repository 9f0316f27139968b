//! The format's grammar and the byte-accounting rule, as spec functions over
//! the input bytes. The parser's contracts are stated in these terms.
use vstd::prelude::*;
use crate::bytes::u32_at;
use crate::error::ParseError;
use crate::event::{EventView, ValueView};
use crate::header::{
    field_header_at, group_view, record_header_at, FieldHeader, RecordHeader, COMPRESSED_FLAG,
    GRUP, LOCALIZED_FLAG, TES4,
};
use crate::inflate::zlib_inflated;
use crate::registry::{
    field_kind_in, record_kind_in, FieldKind, FieldRule, RecordKind, RecordRule, Registry,
};

verus! {

/// The model of a dispatch table.
pub struct Rules {
    pub records: Seq<RecordRule>,
    pub fields: Seq<FieldRule>,
}

impl Registry {
    /// The model of this table.
    pub open spec fn rules(&self) -> Rules {
        Rules { records: self.records@, fields: self.fields@ }
    }
}

/// How a parse step ended: its result, the position reached, the
/// localization flag in force afterwards, and the events it reported.
pub struct Outcome {
    pub result: Result<(), ParseError>,
    pub pos: int,
    pub localized: bool,
    pub events: Seq<EventView>,
}

/// A step that failed with `e` and reported nothing.
pub open spec fn failed(e: ParseError, pos: int, localized: bool) -> Outcome {
    Outcome { result: Err(e), pos, localized, events: Seq::empty() }
}

/// A step that succeeded at `pos` and reported nothing.
pub open spec fn reached(pos: int, localized: bool) -> Outcome {
    Outcome { result: Ok(()), pos, localized, events: Seq::empty() }
}

/// `o`, with `evs` reported before its own events.
pub open spec fn prepend(evs: Seq<EventView>, o: Outcome) -> Outcome {
    Outcome { result: o.result, pos: o.pos, localized: o.localized, events: evs + o.events }
}

/// The `n` bytes at `p`, or the end of input reached.
pub open spec fn bytes_read(s: Seq<u8>, p: int, n: int) -> Result<Seq<u8>, ParseError> {
    if p + n <= s.len() {
        Ok(s.subrange(p, p + n))
    } else {
        Err(ParseError::UnexpectedEnd)
    }
}

/// A string of `n` bytes at `p` that may be localized: unsupported when the
/// file is localized, else the bytes themselves.
pub open spec fn lstring_read(s: Seq<u8>, p: int, n: int, localized: bool) -> Result<
    Seq<u8>,
    ParseError,
> {
    if localized {
        Err(ParseError::Unsupported)
    } else {
        bytes_read(s, p, n)
    }
}

/// The value of a field with header `h` and kind `kind` whose payload starts
/// at `p`, with the number of bytes that reading it takes.
pub open spec fn field_value(
    s: Seq<u8>,
    p: int,
    h: FieldHeader,
    kind: FieldKind,
    localized: bool,
) -> Result<(ValueView, int), ParseError> {
    match kind {
        FieldKind::Text => match bytes_read(s, p, h.size as int) {
            Ok(b) => Ok((ValueView::Text(b), h.size as int)),
            Err(e) => Err(e),
        },
        FieldKind::Localized => match lstring_read(s, p, h.size as int, localized) {
            Ok(b) => Ok((ValueView::Text(b), h.size as int)),
            Err(e) => Err(e),
        },
        FieldKind::Fixed(w) => match bytes_read(s, p, w as int) {
            Ok(b) => Ok((ValueView::Raw(b), w as int)),
            Err(e) => Err(e),
        },
        FieldKind::Skip => if p + h.size <= s.len() {
            Ok((ValueView::Skipped, h.size as int))
        } else {
            Err(ParseError::UnexpectedEnd)
        },
        FieldKind::Extended => if p + 10 > s.len() {
            Err(ParseError::UnexpectedEnd)
        } else if p + 10 + u32_at(s, p) > s.len() {
            Err(ParseError::UnexpectedEnd)
        } else {
            Ok(
                (
                    ValueView::Extended { size: u32_at(s, p), next: field_header_at(s, p + 4) },
                    10 + u32_at(s, p),
                ),
            )
        },
    }
}

/// The field loop of a record tagged `record`, from the field header at `p`
/// on, inside the span of `total` bytes that starts at `entry`. After each
/// field the loop ends well if it has consumed exactly the span, fails if
/// the field took other than its declared size, and goes on otherwise.
#[verifier::opaque]
pub open spec fn fields_from(
    s: Seq<u8>,
    rules: Rules,
    record: u32,
    localized: bool,
    depth: nat,
    p: int,
    entry: int,
    total: int,
) -> Outcome
    decreases s.len() - p,
{
    if p < 0 || p + 6 > s.len() {
        failed(ParseError::UnexpectedEnd, p, localized)
    } else {
        let h = field_header_at(s, p);
        let start = p + 6;
        match field_value(s, start, h, field_kind_in(rules.fields, record, h.type_id), localized) {
            Err(e) => failed(e, start, localized),
            Ok((v, n)) => {
                let q = start + n;
                let ev = seq![EventView::Field { header: h, value: v, depth }];
                if q - entry == total {
                    Outcome { result: Ok(()), pos: q, localized, events: ev }
                } else if q != start + h.size {
                    Outcome { result: Err(ParseError::Structure), pos: q, localized, events: ev }
                } else {
                    prepend(ev, fields_from(s, rules, record, localized, depth, q, entry, total))
                }
            },
        }
    }
}

/// Parsing the `total` bytes at `p` as the fields of a record tagged
/// `record`, one level below `depth`.
pub open spec fn fields_spec(
    s: Seq<u8>,
    rules: Rules,
    record: u32,
    localized: bool,
    depth: nat,
    p: int,
    total: int,
) -> Outcome {
    if total == 0 {
        reached(p, localized)
    } else {
        fields_from(s, rules, record, localized, depth + 1, p, p, total)
    }
}

/// Passing over `n` bytes at `p`.
pub open spec fn skip_spec(s: Seq<u8>, p: int, n: int, localized: bool) -> Outcome {
    if p + n <= s.len() {
        reached(p + n, localized)
    } else {
        failed(ParseError::UnexpectedEnd, p, localized)
    }
}

/// Bytes that a chunk with header `h` occupies, header included: a group's
/// size counts its header, a record's does not.
pub open spec fn chunk_span(h: RecordHeader) -> int {
    if h.type_id == GRUP {
        h.size as int
    } else {
        h.size + 24
    }
}

/// The header handed to a decoder: a group's size cut down to its payload.
pub open spec fn payload_header(h: RecordHeader) -> RecordHeader {
    if h.type_id == GRUP {
        RecordHeader { size: (h.size - 24) as u32, ..h }
    } else {
        h
    }
}

/// A compressed record with header `h` whose payload starts at `p`: a `u32`
/// of the plain size, then a zlib stream whose plain bytes are parsed as the
/// record's fields, one level below `depth`.
pub open spec fn compressed_spec(
    s: Seq<u8>,
    rules: Rules,
    localized: bool,
    depth: nat,
    p: int,
    h: RecordHeader,
) -> Outcome {
    if p + 4 > s.len() {
        failed(ParseError::UnexpectedEnd, p, localized)
    } else if h.size < 4 {
        failed(ParseError::Structure, p + 4, localized)
    } else if p + h.size > s.len() {
        failed(ParseError::UnexpectedEnd, p + 4, localized)
    } else {
        match zlib_inflated(s.subrange(p + 4, p + h.size)) {
            None => failed(ParseError::Decompress, p + h.size, localized),
            Some(plain) => {
                let r = fields_spec(
                    plain,
                    rules,
                    h.type_id,
                    localized,
                    depth,
                    0,
                    plain.len() as int,
                );
                Outcome { result: r.result, pos: p + h.size, localized, events: r.events }
            },
        }
    }
}

/// Decoding the chunk with (payload) header `h` whose payload starts at `p`,
/// at `depth`. With `top` the file-level decoder: it reads the file header
/// record, which sets the localization flag, and groups, and skips other
/// records. Otherwise the decoder of a group's children: groups, compressed
/// records, and records as the dispatch table says.
pub open spec fn decode_spec(
    s: Seq<u8>,
    rules: Rules,
    top: bool,
    localized: bool,
    depth: nat,
    p: int,
    h: RecordHeader,
) -> Outcome
    decreases s.len() - p, 2nat,
{
    if h.type_id == GRUP {
        prepend(
            seq![EventView::Group { header: group_view(h), depth }],
            records_spec(s, rules, false, localized, depth, p, h.size as int),
        )
    } else {
        let ev = seq![EventView::Record { header: h, depth }];
        if top {
            if h.type_id == TES4 {
                let loc = h.flags & LOCALIZED_FLAG != 0;
                prepend(ev, fields_spec(s, rules, TES4, loc, depth, p, h.size as int))
            } else {
                prepend(ev, skip_spec(s, p, h.size as int, localized))
            }
        } else if h.flags & COMPRESSED_FLAG != 0 {
            prepend(ev, compressed_spec(s, rules, localized, depth, p, h))
        } else {
            match record_kind_in(rules.records, h.type_id) {
                RecordKind::Fields => prepend(
                    ev,
                    fields_spec(s, rules, h.type_id, localized, depth, p, h.size as int),
                ),
                RecordKind::Skip => prepend(ev, skip_spec(s, p, h.size as int, localized)),
                RecordKind::Localized => match lstring_read(s, p, h.size as int, localized) {
                    Ok(t) => Outcome {
                        result: Ok(()),
                        pos: p + h.size,
                        localized,
                        events: ev.push(EventView::Text { text: t, depth }),
                    },
                    Err(e) => prepend(ev, failed(e, p, localized)),
                },
            }
        }
    }
}

/// Parsing the `total` bytes at `p` as a sequence of records and groups,
/// one level below `depth`.
pub open spec fn records_spec(
    s: Seq<u8>,
    rules: Rules,
    top: bool,
    localized: bool,
    depth: nat,
    p: int,
    total: int,
) -> Outcome
    decreases s.len() - p, 1nat,
{
    if total == 0 {
        reached(p, localized)
    } else {
        records_from(s, rules, top, localized, depth + 1, p, p, total)
    }
}

/// The record loop from the header at `p` on, inside the span of `total`
/// bytes that starts at `entry`. After each chunk the loop ends well if it
/// has consumed exactly the span, fails if the chunk took other than its
/// on-disk span, and goes on otherwise.
#[verifier::opaque]
pub open spec fn records_from(
    s: Seq<u8>,
    rules: Rules,
    top: bool,
    localized: bool,
    depth: nat,
    p: int,
    entry: int,
    total: int,
) -> Outcome
    decreases s.len() - p, 0nat,
{
    if p < 0 || p + 24 > s.len() {
        failed(ParseError::UnexpectedEnd, p, localized)
    } else {
        let raw = record_header_at(s, p);
        if raw.type_id == GRUP && raw.size < 24 {
            failed(ParseError::Structure, p + 24, localized)
        } else {
            let r = decode_spec(s, rules, top, localized, depth, p + 24, payload_header(raw));
            if r.result is Err {
                r
            } else if r.pos - entry == total {
                r
            } else if r.pos != p + chunk_span(raw) || r.pos > s.len() {
                Outcome { result: Err(ParseError::Structure), ..r }
            } else {
                prepend(
                    r.events,
                    records_from(s, rules, top, r.localized, depth, r.pos, entry, total),
                )
            }
        }
    }
}

/// Parsing a whole file: its records and groups, from depth zero, not
/// localized until the file header says so.
pub open spec fn file_spec(s: Seq<u8>, rules: Rules) -> Outcome {
    records_spec(s, rules, true, false, 0, 0, s.len() as int)
}

/// The field header at `p`.
pub open spec fn fh(s: Seq<u8>, p: int) -> FieldHeader {
    field_header_at(s, p)
}

/// What decoding the payload of the field whose header is at `p` gives.
pub open spec fn field_at(s: Seq<u8>, rules: Rules, record: u32, localized: bool, p: int) -> Result<
    (ValueView, int),
    ParseError,
> {
    field_value(
        s,
        p + 6,
        fh(s, p),
        field_kind_in(rules.fields, record, fh(s, p).type_id),
        localized,
    )
}

/// The field loop fails at `p` where no field header fits there.
pub proof fn lemma_field_turn_end(
    s: Seq<u8>,
    rules: Rules,
    record: u32,
    localized: bool,
    depth: nat,
    p: int,
    entry: int,
    total: int,
)
    requires
        0 <= p,
        p + 6 > s.len(),
    ensures
        fields_from(s, rules, record, localized, depth, p, entry, total) == failed(
            ParseError::UnexpectedEnd,
            p,
            localized,
        ),
{
    reveal_with_fuel(fields_from, 1);
}

/// The field loop fails at `p` with the error of the field there.
pub proof fn lemma_field_turn_err(
    s: Seq<u8>,
    rules: Rules,
    record: u32,
    localized: bool,
    depth: nat,
    p: int,
    entry: int,
    total: int,
)
    requires
        0 <= p,
        p + 6 <= s.len(),
        field_at(s, rules, record, localized, p) is Err,
    ensures
        fields_from(s, rules, record, localized, depth, p, entry, total) == failed(
            field_at(s, rules, record, localized, p)->Err_0,
            p + 6,
            localized,
        ),
{
    reveal_with_fuel(fields_from, 1);
}

/// One turn of the field loop at `p`, where the field decodes to `v` and
/// takes `n` bytes: the loop ends well if the span is now consumed, fails if
/// `n` is not the declared size, and goes on after the field otherwise.
pub proof fn lemma_field_turn(
    s: Seq<u8>,
    rules: Rules,
    record: u32,
    localized: bool,
    depth: nat,
    p: int,
    entry: int,
    total: int,
    v: ValueView,
    n: int,
)
    requires
        0 <= p,
        p + 6 <= s.len(),
        field_at(s, rules, record, localized, p) == Ok::<(ValueView, int), ParseError>((v, n)),
    ensures
        ({
            let q = p + 6 + n;
            let ev = seq![EventView::Field { header: fh(s, p), value: v, depth }];
            fields_from(s, rules, record, localized, depth, p, entry, total) == if q - entry
                == total {
                Outcome { result: Ok(()), pos: q, localized, events: ev }
            } else if n != fh(s, p).size {
                Outcome { result: Err(ParseError::Structure), pos: q, localized, events: ev }
            } else {
                prepend(ev, fields_from(s, rules, record, localized, depth, q, entry, total))
            }
        }),
{
    reveal_with_fuel(fields_from, 1);
}

/// The record loop fails at `p` where no record header fits there.
pub proof fn lemma_record_turn_end(
    s: Seq<u8>,
    rules: Rules,
    top: bool,
    localized: bool,
    depth: nat,
    p: int,
    entry: int,
    total: int,
)
    requires
        0 <= p,
        p + 24 > s.len(),
    ensures
        records_from(s, rules, top, localized, depth, p, entry, total) == failed(
            ParseError::UnexpectedEnd,
            p,
            localized,
        ),
{
    reveal_with_fuel(records_from, 1);
}

/// The record loop fails at `p` where a group header there declares a size
/// smaller than the header itself.
pub proof fn lemma_record_turn_short_group(
    s: Seq<u8>,
    rules: Rules,
    top: bool,
    localized: bool,
    depth: nat,
    p: int,
    entry: int,
    total: int,
)
    requires
        0 <= p,
        p + 24 <= s.len(),
        record_header_at(s, p).type_id == GRUP,
        record_header_at(s, p).size < 24,
    ensures
        records_from(s, rules, top, localized, depth, p, entry, total) == failed(
            ParseError::Structure,
            p + 24,
            localized,
        ),
{
    reveal_with_fuel(records_from, 1);
}

/// One turn of the record loop at `p`: the chunk there is decoded from its
/// payload header; the loop then ends well if the span is now consumed,
/// fails if the chunk took other than its on-disk span, and goes on after
/// the chunk otherwise.
pub proof fn lemma_record_turn(
    s: Seq<u8>,
    rules: Rules,
    top: bool,
    localized: bool,
    depth: nat,
    p: int,
    entry: int,
    total: int,
)
    requires
        0 <= p,
        p + 24 <= s.len(),
        !(record_header_at(s, p).type_id == GRUP && record_header_at(s, p).size < 24),
    ensures
        ({
            let raw = record_header_at(s, p);
            let r = decode_spec(s, rules, top, localized, depth, p + 24, payload_header(raw));
            records_from(s, rules, top, localized, depth, p, entry, total) == if r.result is Err {
                r
            } else if r.pos - entry == total {
                r
            } else if r.pos != p + chunk_span(raw) || r.pos > s.len() {
                Outcome { result: Err(ParseError::Structure), ..r }
            } else {
                prepend(
                    r.events,
                    records_from(s, rules, top, r.localized, depth, r.pos, entry, total),
                )
            }
        }),
{
    reveal_with_fuel(records_from, 1);
}

} // verus!
