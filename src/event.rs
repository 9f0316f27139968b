//! What a parse reports: one event per group, record and field visited.
use vstd::prelude::*;
use crate::header::{FieldHeader, GroupHeader, RecordHeader};

verus! {

/// The decoded payload of a field.
#[derive(Clone, Debug, PartialEq, Eq)]
pub enum FieldValue {
    /// A byte string, read as declared.
    Text(Vec<u8>),
    /// The bytes of a fixed-layout value.
    Raw(Vec<u8>),
    /// The payload was passed over.
    Skipped,
    /// An extended-size marker with the header of the field it sizes.
    Extended { size: u32, next: FieldHeader },
}

/// One step of a parse, with the nesting depth at which it happened.
#[derive(Clone, Debug, PartialEq, Eq)]
#[allow(inconsistent_fields)]
pub enum Event {
    Group { header: GroupHeader, depth: u64 },
    Record { header: RecordHeader, depth: u64 },
    Field { header: FieldHeader, value: FieldValue, depth: u64 },
    /// A record whose whole payload is one string.
    Text { text: Vec<u8>, depth: u64 },
}

/// The model of a [`FieldValue`].
pub enum ValueView {
    Text(Seq<u8>),
    Raw(Seq<u8>),
    Skipped,
    Extended { size: u32, next: FieldHeader },
}

/// The model of an [`Event`].
#[allow(inconsistent_fields)]
pub enum EventView {
    Group { header: GroupHeader, depth: nat },
    Record { header: RecordHeader, depth: nat },
    Field { header: FieldHeader, value: ValueView, depth: nat },
    Text { text: Seq<u8>, depth: nat },
}

impl View for FieldValue {
    type V = ValueView;

    open spec fn view(&self) -> ValueView {
        match self {
            FieldValue::Text(v) => ValueView::Text(v@),
            FieldValue::Raw(v) => ValueView::Raw(v@),
            FieldValue::Skipped => ValueView::Skipped,
            FieldValue::Extended { size, next } => ValueView::Extended { size: *size, next: *next },
        }
    }
}

impl View for Event {
    type V = EventView;

    open spec fn view(&self) -> EventView {
        match self {
            Event::Group { header, depth } => EventView::Group {
                header: *header,
                depth: *depth as nat,
            },
            Event::Record { header, depth } => EventView::Record {
                header: *header,
                depth: *depth as nat,
            },
            Event::Field { header, value, depth } => EventView::Field {
                header: *header,
                value: value@,
                depth: *depth as nat,
            },
            Event::Text { text, depth } => EventView::Text { text: text@, depth: *depth as nat },
        }
    }
}

/// The models of a sequence of events.
pub open spec fn events_view(s: Seq<Event>) -> Seq<EventView> {
    s.map_values(|e: Event| e@)
}

/// Appending an event appends its model.
pub proof fn lemma_events_view_push(s: Seq<Event>, e: Event)
    ensures
        events_view(s.push(e)) == events_view(s).push(e@),
{
    assert(events_view(s.push(e)) =~= events_view(s).push(e@));
}

} // verus!
