//! The parser: a cursor over the input bytes with its nesting depth, its
//! localization flag, its dispatch table and the events it has reported.
use vstd::prelude::*;
use crate::error::ParseError;
use crate::event::{events_view, lemma_events_view_push, Event, EventView, FieldValue};
use crate::grammar::{
    bytes_read, compressed_spec, decode_spec, field_at, field_value, fields_from, fields_spec,
    lemma_field_turn, lemma_field_turn_end, lemma_field_turn_err, lemma_record_turn,
    lemma_record_turn_end, lemma_record_turn_short_group,
    lstring_read, prepend, records_from, records_spec, skip_spec, payload_header,
    Outcome,
};
use crate::header::{FieldHeader, RecordHeader, GRUP, LOCALIZED_FLAG, TES4};
use crate::inflate::{inflate, zlib_inflated};
use crate::registry::{FieldKind, RecordKind, Registry};

verus! {

/// A parse in progress over `data`.
pub struct ESMParser {
    pub data: Vec<u8>,
    pub pos: usize,
    pub depth: u64,
    pub localised: bool,
    pub registry: Registry,
    pub events: Vec<Event>,
}

/// `r` holds what the model `m` holds: the same bytes, or the same error.
pub open spec fn bytes_match(
    r: Result<Vec<u8>, ParseError>,
    m: Result<Seq<u8>, ParseError>,
) -> bool {
    match (r, m) {
        (Ok(v), Ok(b)) => v@ == b,
        (Err(e), Err(f)) => e == f,
        _ => false,
    }
}

/// Reporting `ev` and then `evs` is reporting `seq![ev] + evs`.
pub broadcast proof fn lemma_report_then(t: Seq<EventView>, ev: EventView, evs: Seq<EventView>)
    ensures
        #[trigger] (t.push(ev) + evs) == t + (seq![ev] + evs),
{
    assert(t.push(ev) + evs =~= t + (seq![ev] + evs));
}

/// `b` has the input, the dispatch table and the depth of `a`.
pub open spec fn kept(a: ESMParser, b: ESMParser) -> bool {
    &&& b.data@ == a.data@
    &&& b.registry.rules() == a.registry.rules()
    &&& b.depth == a.depth
}

/// `b` is `a` after a step with outcome `o`: it reports the step's result,
/// it has reported the step's events, and where the step succeeded it stands
/// where the step ended.
pub open spec fn stepped(
    a: ESMParser,
    b: ESMParser,
    o: Outcome,
    r: Result<(), ParseError>,
) -> bool {
    &&& kept(a, b)
    &&& b.wf()
    &&& r == o.result
    &&& b.trace() == a.trace() + o.events
    &&& r is Ok ==> b.pos == o.pos && b.localised == o.localized
}

impl ESMParser {
    /// The cursor stands inside the input.
    pub open spec fn wf(&self) -> bool {
        self.pos <= self.data@.len()
    }

    /// The depth counter cannot overflow: each level of nesting below this
    /// point takes a header of 24 bytes.
    pub open spec fn room(&self) -> bool {
        24 * self.depth + (self.data@.len() - self.pos) + 48 <= 24 * (u64::MAX as int)
    }

    /// The models of the events reported so far.
    pub open spec fn trace(&self) -> Seq<EventView> {
        events_view(self.events@)
    }

    /// A parser at the start of `data`, at depth zero and not localized.
    pub fn new(data: Vec<u8>, registry: Registry) -> (r: ESMParser)
        ensures
            r.data@ == data@,
            r.registry.rules() == registry.rules(),
            r.pos == 0,
            r.depth == 0,
            !r.localised,
            r.events@.len() == 0,
            r.wf(),
    {
        ESMParser { data, pos: 0, depth: 0, localised: false, registry, events: Vec::new() }
    }

    /// The current nesting depth.
    pub fn depth(&self) -> (r: u64)
        ensures
            r == self.depth,
    {
        self.depth
    }

    fn emit(&mut self, ev: Event)
        ensures
            final(self).trace() == old(self).trace().push(ev@),
            final(self).data@ == old(self).data@,
            final(self).pos == old(self).pos,
            final(self).depth == old(self).depth,
            final(self).localised == old(self).localised,
            final(self).registry.rules() == old(self).registry.rules(),
    {
        proof {
            lemma_events_view_push(self.events@, ev);
        }
        self.events.push(ev);
    }

    /// Reads `n` bytes.
    fn read_bytes(&mut self, n: usize) -> (r: Result<Vec<u8>, ParseError>)
        requires
            old(self).wf(),
        ensures
            bytes_match(r, bytes_read(old(self).data@, old(self).pos as int, n as int)),
            r is Ok ==> final(self).pos == old(self).pos + n,
            kept(*old(self), *final(self)),
            final(self).wf(),
            final(self).trace() == old(self).trace(),
            final(self).localised == old(self).localised,
    {
        let len = self.data.len();
        if n > len - self.pos {
            return Err(ParseError::UnexpectedEnd);
        }
        let start = self.pos;
        let mut v: Vec<u8> = Vec::with_capacity(n);
        let mut i: usize = 0;
        while i < n
            invariant
                len == self.data@.len(),
                start + n <= len,
                i <= n,
                v@ == self.data@.subrange(start as int, start + i),
            decreases n - i,
        {
            v.push(self.data[start + i]);
            i = i + 1;
            assert(v@ =~= self.data@.subrange(start as int, start + i));
        }
        self.pos = start + n;
        Ok(v)
    }

    /// Passes over `n` bytes.
    pub fn skip(&mut self, n: u64) -> (r: Result<(), ParseError>)
        requires
            old(self).wf(),
        ensures
            stepped(
                *old(self),
                *final(self),
                skip_spec(old(self).data@, old(self).pos as int, n as int, old(self).localised),
                r,
            ),
            final(self).localised == old(self).localised,
    {
        if n > (self.data.len() - self.pos) as u64 {
            return Err(ParseError::UnexpectedEnd);
        }
        self.pos = self.pos + n as usize;
        Ok(())
    }

    /// Reads a little-endian `u32`.
    pub fn read_u32(&mut self) -> (r: Result<u32, ParseError>)
        requires
            old(self).wf(),
        ensures
            old(self).pos + 4 <= old(self).data@.len() ==> r == Ok::<u32, ParseError>(
                crate::bytes::u32_at(old(self).data@, old(self).pos as int),
            ) && final(self).pos == old(self).pos + 4,
            old(self).pos + 4 > old(self).data@.len() ==> r == Err::<u32, ParseError>(
                ParseError::UnexpectedEnd,
            ),
            kept(*old(self), *final(self)),
            final(self).wf(),
            final(self).trace() == old(self).trace(),
            final(self).localised == old(self).localised,
    {
        if self.data.len() - self.pos < 4 {
            return Err(ParseError::UnexpectedEnd);
        }
        let v = crate::bytes::read_u32_at(self.data.as_slice(), self.pos);
        self.pos = self.pos + 4;
        Ok(v)
    }

    /// Reads a fixed-length string of `length` bytes.
    pub fn read_zstring(&mut self, length: u16) -> (r: Result<Vec<u8>, ParseError>)
        requires
            old(self).wf(),
        ensures
            bytes_match(r, bytes_read(old(self).data@, old(self).pos as int, length as int)),
            r is Ok ==> final(self).pos == old(self).pos + length,
            kept(*old(self), *final(self)),
            final(self).wf(),
            final(self).trace() == old(self).trace(),
            final(self).localised == old(self).localised,
    {
        self.read_bytes(length as usize)
    }

    fn read_text(&mut self, n: usize) -> (r: Result<Vec<u8>, ParseError>)
        requires
            old(self).wf(),
        ensures
            bytes_match(
                r,
                lstring_read(old(self).data@, old(self).pos as int, n as int, old(self).localised),
            ),
            r is Ok ==> final(self).pos == old(self).pos + n,
            kept(*old(self), *final(self)),
            final(self).wf(),
            final(self).trace() == old(self).trace(),
            final(self).localised == old(self).localised,
    {
        if self.localised {
            return Err(ParseError::Unsupported);
        }
        self.read_bytes(n)
    }

    /// Reads a string of `length` bytes that may be localized: the same as
    /// [`Self::read_zstring`] in a file that is not localized, and an
    /// `Unsupported` error in one that is.
    pub fn read_lstring(&mut self, length: u16) -> (r: Result<Vec<u8>, ParseError>)
        requires
            old(self).wf(),
        ensures
            bytes_match(
                r,
                lstring_read(
                    old(self).data@,
                    old(self).pos as int,
                    length as int,
                    old(self).localised,
                ),
            ),
            r is Ok ==> final(self).pos == old(self).pos + length,
            kept(*old(self), *final(self)),
            final(self).wf(),
            final(self).trace() == old(self).trace(),
            final(self).localised == old(self).localised,
    {
        self.read_text(length as usize)
    }

    /// Reads `size` bytes and inflates them as a zlib stream.
    pub fn deflate(&mut self, size: usize) -> (r: Result<Vec<u8>, ParseError>)
        requires
            old(self).wf(),
        ensures
            old(self).pos + size > old(self).data@.len() ==> r == Err::<Vec<u8>, ParseError>(
                ParseError::UnexpectedEnd,
            ),
            old(self).pos + size <= old(self).data@.len() ==> bytes_match(
                r,
                match zlib_inflated(
                    old(self).data@.subrange(old(self).pos as int, old(self).pos + size),
                ) {
                    Some(plain) => Ok(plain),
                    None => Err(ParseError::Decompress),
                },
            ) && final(self).pos == old(self).pos + size,
            kept(*old(self), *final(self)),
            final(self).wf(),
            final(self).trace() == old(self).trace(),
            final(self).localised == old(self).localised,
    {
        let packed = match self.read_bytes(size) {
            Ok(b) => b,
            Err(e) => return Err(e),
        };
        match inflate(packed.as_slice()) {
            Some(plain) => Ok(plain),
            None => Err(ParseError::Decompress),
        }
    }

    /// Decodes the payload of the field with header `h` in a record tagged
    /// `record`, as the dispatch table says, and reports it.
    pub fn decode_field(&mut self, record: u32, h: &FieldHeader) -> (r: Result<(), ParseError>)
        requires
            old(self).wf(),
        ensures
            kept(*old(self), *final(self)),
            final(self).wf(),
            final(self).localised == old(self).localised,
            match field_value(
                old(self).data@,
                old(self).pos as int,
                *h,
                crate::registry::field_kind_in(old(self).registry.fields@, record, h.type_id),
                old(self).localised,
            ) {
                Ok((v, n)) => r is Ok && final(self).pos == old(self).pos + n
                    && final(self).trace() == old(self).trace().push(
                    EventView::Field { header: *h, value: v, depth: old(self).depth as nat },
                ),
                Err(e) => r == Err::<(), ParseError>(e) && final(self).trace() == old(self).trace(),
            },
    {
        let kind = self.registry.field_kind(record, h.type_id);
        let value = match kind {
            FieldKind::Text => match self.read_bytes(h.size as usize) {
                Ok(b) => FieldValue::Text(b),
                Err(e) => return Err(e),
            },
            FieldKind::Localized => match self.read_text(h.size as usize) {
                Ok(b) => FieldValue::Text(b),
                Err(e) => return Err(e),
            },
            FieldKind::Fixed(w) => match self.read_bytes(w as usize) {
                Ok(b) => FieldValue::Raw(b),
                Err(e) => return Err(e),
            },
            FieldKind::Skip => match self.skip(h.size as u64) {
                Ok(()) => FieldValue::Skipped,
                Err(e) => return Err(e),
            },
            FieldKind::Extended => {
                if self.data.len() - self.pos < 10 {
                    return Err(ParseError::UnexpectedEnd);
                }
                let size = match self.read_u32() {
                    Ok(x) => x,
                    Err(e) => return Err(e),
                };
                let next = FieldHeader::read_at(self.data.as_slice(), self.pos);
                self.pos = self.pos + 6;
                match self.skip(size as u64) {
                    Ok(()) => FieldValue::Extended { size, next },
                    Err(e) => return Err(e),
                }
            },
        };
        let depth = self.depth;
        self.emit(Event::Field { header: *h, value, depth });
        Ok(())
    }

    /// The field loop, at the depth already entered.
    fn field_loop(&mut self, record: u32, total: u64) -> (r: Result<(), ParseError>)
        requires
            old(self).wf(),
        ensures
            stepped(
                *old(self),
                *final(self),
                fields_from(
                    old(self).data@,
                    old(self).registry.rules(),
                    record,
                    old(self).localised,
                    old(self).depth as nat,
                    old(self).pos as int,
                    old(self).pos as int,
                    total as int,
                ),
                r,
            ),
            final(self).localised == old(self).localised,
    {
        let entry = self.pos;
        let ghost s = self.data@;
        let ghost rules = self.registry.rules();
        let ghost loc = self.localised;
        let ghost depth = self.depth as nat;
        let ghost t0 = self.trace();
        let ghost acc: Seq<EventView> = Seq::empty();
        assert(t0 + acc =~= t0);
        loop
            invariant
                s == old(self).data@,
                rules == old(self).registry.rules(),
                loc == old(self).localised,
                depth == old(self).depth as nat,
                entry == old(self).pos,
                t0 == old(self).trace(),
                self.wf(),
                self.data@ == s,
                self.registry.rules() == rules,
                self.localised == loc,
                self.depth as nat == depth,
                entry <= self.pos,
                self.trace() == t0 + acc,
                fields_from(s, rules, record, loc, depth, entry as int, entry as int, total as int)
                    == prepend(
                    acc,
                    fields_from(
                        s,
                        rules,
                        record,
                        loc,
                        depth,
                        self.pos as int,
                        entry as int,
                        total as int,
                    ),
                ),
            decreases s.len() - self.pos,
        {
            let ghost p = self.pos as int;
            if self.data.len() - self.pos < 6 {
                proof {
                    lemma_field_turn_end(
                        s,
                        rules,
                        record,
                        loc,
                        depth,
                        p,
                        entry as int,
                        total as int,
                    );
                    assert(acc + Seq::<EventView>::empty() =~= acc);
                }
                return Err(ParseError::UnexpectedEnd);
            }
            let h = FieldHeader::read_at(self.data.as_slice(), self.pos);
            self.pos = self.pos + 6;
            let start = self.pos;
            let ghost fv = field_at(s, rules, record, loc, p);
            let r = self.decode_field(record, &h);
            if r.is_err() {
                proof {
                    lemma_field_turn_err(
                        s,
                        rules,
                        record,
                        loc,
                        depth,
                        p,
                        entry as int,
                        total as int,
                    );
                    assert(acc + Seq::<EventView>::empty() =~= acc);
                }
                return r;
            }
            let ghost v = fv->Ok_0.0;
            let ghost n = fv->Ok_0.1;
            let ghost step = seq![EventView::Field { header: h, value: v, depth }];
            proof {
                lemma_field_turn(s, rules, record, loc, depth, p, entry as int, total as int, v, n);
                assert(t0 + acc + step =~= (t0 + acc).push(step[0]));
            }
            assert(t0 + acc + step =~= t0 + (acc + step));
            if (self.pos - entry) as u64 == total {
                return Ok(());
            }
            if self.pos - start != h.size as usize {
                return Err(ParseError::Structure);
            }
            proof {
                let rest = fields_from(
                    s,
                    rules,
                    record,
                    loc,
                    depth,
                    self.pos as int,
                    entry as int,
                    total as int,
                );
                assert(acc + (step + rest.events) =~= (acc + step) + rest.events);
                acc = acc + step;
            }
        }
    }

    /// Parses the `total` bytes at the cursor as the fields of a record
    /// tagged `record`, one level deeper. Each field is decoded as the
    /// dispatch table says; after each, the loop ends well if the span is
    /// consumed exactly, and fails with `Structure` if the field took other
    /// than its declared size.
    pub fn parse_fields(&mut self, record: u32, total: u32) -> (r: Result<(), ParseError>)
        requires
            old(self).wf(),
            old(self).depth < u64::MAX,
        ensures
            stepped(
                *old(self),
                *final(self),
                fields_spec(
                    old(self).data@,
                    old(self).registry.rules(),
                    record,
                    old(self).localised,
                    old(self).depth as nat,
                    old(self).pos as int,
                    total as int,
                ),
                r,
            ),
            final(self).localised == old(self).localised,
    {
        self.parse_field_span(record, total as u64)
    }

    fn parse_field_span(&mut self, record: u32, total: u64) -> (r: Result<(), ParseError>)
        requires
            old(self).wf(),
            old(self).depth < u64::MAX,
        ensures
            stepped(
                *old(self),
                *final(self),
                fields_spec(
                    old(self).data@,
                    old(self).registry.rules(),
                    record,
                    old(self).localised,
                    old(self).depth as nat,
                    old(self).pos as int,
                    total as int,
                ),
                r,
            ),
            final(self).localised == old(self).localised,
    {
        if total == 0 {
            assert(self.trace() + Seq::<EventView>::empty() =~= self.trace());
            return Ok(());
        }
        self.depth = self.depth + 1;
        let r = self.field_loop(record, total);
        self.depth = self.depth - 1;
        r
    }

    /// A compressed record with header `h`: reads the plain size, inflates
    /// the rest of the payload, and parses the plain bytes as the record's
    /// fields, in a cursor of their own that starts at this depth and with
    /// this localization flag.
    fn read_compressed(&mut self, h: &RecordHeader) -> (r: Result<(), ParseError>)
        requires
            old(self).wf(),
            old(self).depth < u64::MAX,
        ensures
            stepped(
                *old(self),
                *final(self),
                compressed_spec(
                    old(self).data@,
                    old(self).registry.rules(),
                    old(self).localised,
                    old(self).depth as nat,
                    old(self).pos as int,
                    *h,
                ),
                r,
            ),
            final(self).localised == old(self).localised,
    {
        match self.read_u32() {
            Ok(_) => {},
            Err(e) => {
                assert(self.trace() + Seq::<EventView>::empty() =~= self.trace());
                return Err(e);
            },
        }
        if h.size < 4 {
            assert(self.trace() + Seq::<EventView>::empty() =~= self.trace());
            return Err(ParseError::Structure);
        }
        let plain = match self.deflate((h.size - 4) as usize) {
            Ok(b) => b,
            Err(e) => {
                assert(self.trace() + Seq::<EventView>::empty() =~= self.trace());
                return Err(e);
            },
        };
        let saved = self.pos;
        let mut outer = plain;
        core::mem::swap(&mut self.data, &mut outer);
        self.pos = 0;
        let total = self.data.len() as u64;
        let r = self.parse_field_span(h.type_id, total);
        core::mem::swap(&mut self.data, &mut outer);
        self.pos = saved;
        r
    }

    /// Decodes the chunk with (payload) header `h` whose payload starts at
    /// the cursor: the file-level decoder where `top` holds, the decoder of
    /// a group's children otherwise.
    fn decode(&mut self, top: bool, h: &RecordHeader) -> (r: Result<(), ParseError>)
        requires
            old(self).wf(),
            old(self).room(),
        ensures
            stepped(
                *old(self),
                *final(self),
                decode_spec(
                    old(self).data@,
                    old(self).registry.rules(),
                    top,
                    old(self).localised,
                    old(self).depth as nat,
                    old(self).pos as int,
                    *h,
                ),
                r,
            ),
        decreases old(self).data@.len() - old(self).pos, 2nat,
    {
        broadcast use lemma_report_then;

        let ghost t0 = self.trace();
        let depth = self.depth;
        if h.type_id == GRUP {
            let ev = Event::Group { header: h.as_group(), depth };
            self.emit(ev);
            let r = self.parse_records(false, h.size as u64);
            return r;
        }
        let ev = Event::Record { header: *h, depth };
        self.emit(ev);
        if top {
            if h.type_id == TES4 {
                self.localised = h.flags & LOCALIZED_FLAG != 0;
                let r = self.parse_field_span(TES4, h.size as u64);
                return r;
            }
            let r = self.skip(h.size as u64);
            return r;
        }
        if h.is_compressed() {
            let r = self.read_compressed(h);
            return r;
        }
        match self.registry.record_kind(h.type_id) {
            RecordKind::Fields => {
                let r = self.parse_field_span(h.type_id, h.size as u64);
                r
            },
            RecordKind::Skip => {
                let r = self.skip(h.size as u64);
                r
            },
            RecordKind::Localized => match self.read_text(h.size as usize) {
                Ok(text) => {
                    let tev = Event::Text { text, depth };
                    self.emit(tev);
                    assert(t0.push(ev@).push(tev@) =~= t0 + seq![ev@].push(tev@));
                    Ok(())
                },
                Err(e) => {
                    assert(t0.push(ev@) =~= t0 + (seq![ev@] + Seq::<EventView>::empty()));
                    Err(e)
                },
            },
        }
    }

    /// Parses the `total` bytes at the cursor as records and groups, one
    /// level deeper.
    fn parse_records(&mut self, top: bool, total: u64) -> (r: Result<(), ParseError>)
        requires
            old(self).wf(),
            old(self).room(),
        ensures
            stepped(
                *old(self),
                *final(self),
                records_spec(
                    old(self).data@,
                    old(self).registry.rules(),
                    top,
                    old(self).localised,
                    old(self).depth as nat,
                    old(self).pos as int,
                    total as int,
                ),
                r,
            ),
        decreases old(self).data@.len() - old(self).pos, 1nat,
    {
        if total == 0 {
            assert(self.trace() + Seq::<EventView>::empty() =~= self.trace());
            return Ok(());
        }
        self.depth = self.depth + 1;
        let r = self.record_loop(top, total);
        self.depth = self.depth - 1;
        r
    }

    /// The record loop, at the depth already entered.
    fn record_loop(&mut self, top: bool, total: u64) -> (r: Result<(), ParseError>)
        requires
            old(self).wf(),
            24 * old(self).depth + (old(self).data@.len() - old(self).pos) + 24 <= 24 * (
            u64::MAX as int),
        ensures
            stepped(
                *old(self),
                *final(self),
                records_from(
                    old(self).data@,
                    old(self).registry.rules(),
                    top,
                    old(self).localised,
                    old(self).depth as nat,
                    old(self).pos as int,
                    old(self).pos as int,
                    total as int,
                ),
                r,
            ),
        decreases old(self).data@.len() - old(self).pos, 0nat,
    {
        let entry = self.pos;
        let ghost s = self.data@;
        let ghost rules = self.registry.rules();
        let ghost loc0 = self.localised;
        let ghost depth = self.depth as nat;
        let ghost t0 = self.trace();
        let ghost acc: Seq<EventView> = Seq::empty();
        assert(t0 + acc =~= t0);
        loop
            invariant
                s == old(self).data@,
                rules == old(self).registry.rules(),
                loc0 == old(self).localised,
                depth == old(self).depth as nat,
                entry == old(self).pos,
                t0 == old(self).trace(),
                24 * depth + (s.len() - entry) + 24 <= 24 * (u64::MAX as int),
                self.wf(),
                self.data@ == s,
                self.registry.rules() == rules,
                self.depth as nat == depth,
                entry <= self.pos,
                self.trace() == t0 + acc,
                records_from(s, rules, top, loc0, depth, entry as int, entry as int, total as int)
                    == prepend(
                    acc,
                    records_from(
                        s,
                        rules,
                        top,
                        self.localised,
                        depth,
                        self.pos as int,
                        entry as int,
                        total as int,
                    ),
                ),
            decreases s.len() - self.pos,
        {
            let ghost p = self.pos as int;
            let ghost loc = self.localised;
            if self.data.len() - self.pos < 24 {
                proof {
                    lemma_record_turn_end(s, rules, top, loc, depth, p, entry as int, total as int);
                    assert(acc + Seq::<EventView>::empty() =~= acc);
                }
                return Err(ParseError::UnexpectedEnd);
            }
            let raw = RecordHeader::read_at(self.data.as_slice(), self.pos);
            let start = self.pos;
            self.pos = self.pos + 24;
            if raw.type_id == GRUP && raw.size < 24 {
                proof {
                    lemma_record_turn_short_group(
                        s,
                        rules,
                        top,
                        loc,
                        depth,
                        p,
                        entry as int,
                        total as int,
                    );
                    assert(acc + Seq::<EventView>::empty() =~= acc);
                }
                return Err(ParseError::Structure);
            }
            let h = if raw.type_id == GRUP {
                RecordHeader { size: raw.size - 24, ..raw }
            } else {
                raw
            };
            let span: u64 = if raw.type_id == GRUP {
                raw.size as u64
            } else {
                raw.size as u64 + 24
            };
            proof {
                lemma_record_turn(s, rules, top, loc, depth, p, entry as int, total as int);
            }
            let ghost o = decode_spec(s, rules, top, loc, depth, p + 24, payload_header(raw));
            let ghost mid = self.trace();
            let r = self.decode(top, &h);
            assert(mid + o.events == t0 + (acc + o.events)) by {
                assert(t0 + acc + o.events =~= t0 + (acc + o.events));
            }
            if r.is_err() {
                return r;
            }
            if self.pos >= entry && (self.pos - entry) as u64 == total {
                return r;
            }
            if self.pos < start || (self.pos - start) as u64 != span {
                return Err(ParseError::Structure);
            }
            proof {
                let rest = records_from(
                    s,
                    rules,
                    top,
                    self.localised,
                    depth,
                    self.pos as int,
                    entry as int,
                    total as int,
                );
                assert(acc + (o.events + rest.events) =~= (acc + o.events) + rest.events);
                acc = acc + o.events;
            }
        }
    }

    /// The decoder of a group's children, applied to the chunk with (payload)
    /// header `header` whose payload starts at the cursor. A group's children
    /// are parsed as records one level deeper; a compressed record's payload
    /// is inflated and parsed as its fields; other records are read as the
    /// dispatch table says. It reports a group or record event first.
    pub fn GRUP(&mut self, header: &RecordHeader) -> (r: Result<(), ParseError>)
        requires
            old(self).wf(),
            old(self).room(),
        ensures
            stepped(
                *old(self),
                *final(self),
                decode_spec(
                    old(self).data@,
                    old(self).registry.rules(),
                    false,
                    old(self).localised,
                    old(self).depth as nat,
                    old(self).pos as int,
                    *header,
                ),
                r,
            ),
    {
        self.decode(false, header)
    }

    /// The file-level decoder, applied to the chunk with (payload) header
    /// `header` whose payload starts at the cursor. The file header record
    /// sets the localization flag from its flags and is parsed as fields;
    /// a group's children are parsed with [`Self::GRUP`]; other records are
    /// skipped.
    pub fn TES4(&mut self, header: &RecordHeader) -> (r: Result<(), ParseError>)
        requires
            old(self).wf(),
            old(self).room(),
        ensures
            stepped(
                *old(self),
                *final(self),
                decode_spec(
                    old(self).data@,
                    old(self).registry.rules(),
                    true,
                    old(self).localised,
                    old(self).depth as nat,
                    old(self).pos as int,
                    *header,
                ),
                r,
            ),
    {
        self.decode(true, header)
    }

    /// Parses the whole input from its start as records and groups, with the
    /// file-level decoder, not localized until the file header says so.
    pub fn parse_top_level(&mut self) -> (r: Result<(), ParseError>)
        requires
            24 * old(self).depth + old(self).data@.len() + 48 <= 24 * (u64::MAX as int),
        ensures
            stepped(
                *old(self),
                *final(self),
                records_spec(
                    old(self).data@,
                    old(self).registry.rules(),
                    true,
                    false,
                    old(self).depth as nat,
                    0,
                    old(self).data@.len() as int,
                ),
                r,
            ),
    {
        self.pos = 0;
        self.localised = false;
        let total = self.data.len() as u64;
        self.parse_records(true, total)
    }
}

} // verus!
