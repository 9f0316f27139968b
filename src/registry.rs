//! The dispatch table: what the decoder does with a record or a field,
//! chosen by its four-byte tag.
use vstd::prelude::*;

verus! {

/// How a field's payload is read.
#[derive(Clone, Copy, Debug, PartialEq, Eq, Structural)]
pub enum FieldKind {
    /// A byte string of the field's declared size.
    Text,
    /// A string that may be localized: read as `Text` unless the file is
    /// localized, in which case reading it is unsupported.
    Localized,
    /// A fixed-layout value of this many bytes, whatever the declared size.
    Fixed(u16),
    /// Skipped: the declared size is passed over unread.
    Skip,
    /// An extended-size marker: a `u32` size, the header of the field that
    /// follows, and that many bytes skipped.
    Extended,
}

/// How a record that is neither a group nor compressed is read.
#[derive(Clone, Copy, Debug, PartialEq, Eq, Structural)]
pub enum RecordKind {
    /// Its payload is a sequence of fields.
    Fields,
    /// Its payload is skipped.
    Skip,
    /// Its payload is one string that may be localized.
    Localized,
}

/// The kind of the fields tagged `field` inside records tagged `record`.
#[derive(Clone, Copy, Debug, PartialEq, Eq, Structural)]
pub struct FieldRule {
    pub record: u32,
    pub field: u32,
    pub kind: FieldKind,
}

/// The kind of the records tagged `record`.
#[derive(Clone, Copy, Debug, PartialEq, Eq, Structural)]
pub struct RecordRule {
    pub record: u32,
    pub kind: RecordKind,
}

/// A dispatch table. The first rule that matches a tag decides; a tag that
/// no rule matches is skipped.
pub struct Registry {
    pub records: Vec<RecordRule>,
    pub fields: Vec<FieldRule>,
}

/// The kind that the first matching rule of `rules` gives to `record`, or
/// `Skip` where none matches.
pub open spec fn record_kind_in(rules: Seq<RecordRule>, record: u32) -> RecordKind
    decreases rules.len(),
{
    if rules.len() == 0 {
        RecordKind::Skip
    } else if rules[0].record == record {
        rules[0].kind
    } else {
        record_kind_in(rules.drop_first(), record)
    }
}

/// The kind that the first matching rule of `rules` gives to fields tagged
/// `field` in records tagged `record`, or `Skip` where none matches.
pub open spec fn field_kind_in(rules: Seq<FieldRule>, record: u32, field: u32) -> FieldKind
    decreases rules.len(),
{
    if rules.len() == 0 {
        FieldKind::Skip
    } else if rules[0].record == record && rules[0].field == field {
        rules[0].kind
    } else {
        field_kind_in(rules.drop_first(), record, field)
    }
}

impl Registry {
    /// A table with no rules: every record and field is skipped.
    pub fn new() -> (r: Registry)
        ensures
            r.records@ == Seq::<RecordRule>::empty(),
            r.fields@ == Seq::<FieldRule>::empty(),
    {
        Registry { records: Vec::new(), fields: Vec::new() }
    }

    /// Appends a rule for records tagged `record`.
    pub fn add_record(&mut self, record: u32, kind: RecordKind)
        ensures
            final(self).records@ == old(self).records@.push(RecordRule { record, kind }),
            final(self).fields@ == old(self).fields@,
    {
        self.records.push(RecordRule { record, kind });
    }

    /// Appends a rule for fields tagged `field` in records tagged `record`.
    pub fn add_field(&mut self, record: u32, field: u32, kind: FieldKind)
        ensures
            final(self).fields@ == old(self).fields@.push(FieldRule { record, field, kind }),
            final(self).records@ == old(self).records@,
    {
        self.fields.push(FieldRule { record, field, kind });
    }

    /// The kind of the records tagged `record`.
    pub fn record_kind(&self, record: u32) -> (r: RecordKind)
        ensures
            r == record_kind_in(self.records@, record),
    {
        let n = self.records.len();
        let mut i: usize = 0;
        assert(self.records@.subrange(0, n as int) =~= self.records@);
        while i < n
            invariant
                n == self.records@.len(),
                i <= n,
                record_kind_in(self.records@, record) == record_kind_in(
                    self.records@.subrange(i as int, n as int),
                    record,
                ),
            decreases n - i,
        {
            let rule = self.records[i];
            let ghost rest = self.records@.subrange(i as int, n as int);
            assert(rest.drop_first() =~= self.records@.subrange(i + 1, n as int));
            if rule.record == record {
                return rule.kind;
            }
            i = i + 1;
        }
        RecordKind::Skip
    }

    /// The kind of the fields tagged `field` in records tagged `record`.
    pub fn field_kind(&self, record: u32, field: u32) -> (r: FieldKind)
        ensures
            r == field_kind_in(self.fields@, record, field),
    {
        let n = self.fields.len();
        let mut i: usize = 0;
        assert(self.fields@.subrange(0, n as int) =~= self.fields@);
        while i < n
            invariant
                n == self.fields@.len(),
                i <= n,
                field_kind_in(self.fields@, record, field) == field_kind_in(
                    self.fields@.subrange(i as int, n as int),
                    record,
                    field,
                ),
            decreases n - i,
        {
            let rule = self.fields[i];
            let ghost rest = self.fields@.subrange(i as int, n as int);
            assert(rest.drop_first() =~= self.fields@.subrange(i + 1, n as int));
            if rule.record == record && rule.field == field {
                return rule.kind;
            }
            i = i + 1;
        }
        FieldKind::Skip
    }
}

} // verus!
