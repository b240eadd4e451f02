//! Writing record instances into raw documents and reading their stored
//! projections back.
//!
//! Both directions walk the attributes in declaration order with a cursor
//! that starts at the record's base id and advances by each attribute's
//! arity, so that an attribute is read where it was written. Reading takes
//! the attributes marked `stored` and passes over the others.

use crate::document::{
    all_at, doc_entries, doc_get_all, doc_new, doc_payload, first_at, owned_value_view,
    raw_value_of, Entry, RawValueView, MAX_FIELD_ID, MAX_PAYLOAD,
};
use crate::kinds::{Value, ValueKind, ValueView};
use crate::laws::law_round_trip;
use crate::layout::{FieldLayout, LogicalField, TypeDescriptor};
use crate::record::{
    field_views, lemma_values_cost_grows, opt_field_view, opt_record_view, value_views,
    values_cost, FieldValue, FieldValueView, RecordValue, RecordValueView,
};
use tantivy::schema::{OwnedValue, TantivyDocument};
use vstd::prelude::*;

verus! {

/// The native values that `raws` stand for; none at all where one of them
/// stands for no value of the type.
pub open spec fn decode_all(kind: ValueKind, raws: Seq<RawValueView>) -> Option<Seq<ValueView>> {
    if forall|i: int| 0 <= i < raws.len() ==> (#[trigger] kind.decode(raws[i])) is Some {
        Some(raws.map_values(|raw: RawValueView| kind.decode(raw)->0))
    } else {
        None
    }
}

/// The entries that `values` are written as, all under `field`.
pub open spec fn encode_all(kind: ValueKind, values: Seq<ValueView>, field: u32) -> Seq<Entry> {
    values.map_values(|v: ValueView| Entry { field, value: kind.encode(v) })
}

impl LogicalField {
    /// What is written for the value of the attribute when its ids begin
    /// at `base`: one entry for a scalar, one or none for an optional, one
    /// for each element of a repeated attribute (all under `base`), and for
    /// a record what is written for its attributes.
    pub open spec fn encode(self, value: FieldValueView, base: int) -> Seq<Entry>
        decreases self, 1nat,
    {
        match (self.type_descriptor, value) {
            (TypeDescriptor::Scalar(kind), FieldValueView::Scalar(v)) => seq![
                Entry { field: base as u32, value: kind.encode(v) },
            ],
            (TypeDescriptor::Optional(kind), FieldValueView::Optional(Some(v))) => seq![
                Entry { field: base as u32, value: kind.encode(v) },
            ],
            (TypeDescriptor::Repeated(kind), FieldValueView::Repeated(vs)) => encode_all(
                kind,
                vs,
                base as u32,
            ),
            (TypeDescriptor::Record(layout), FieldValueView::Record(record)) => layout.encode(
                record,
                base,
            ),
            _ => Seq::empty(),
        }
    }

    /// The value of the attribute that `entries` hold when its ids begin at
    /// `base`.
    ///
    /// A scalar is the first value under its id and must be there and stand
    /// for a native value. An optional is absent where a scalar would fail.
    /// A repeated attribute is every value under its id, each of which must
    /// stand for a native value. A record is the stored projection of its
    /// attributes.
    pub open spec fn decode(self, entries: Seq<Entry>, base: int) -> Option<FieldValueView>
        decreases self, 1nat,
    {
        match self.type_descriptor {
            TypeDescriptor::Scalar(kind) => match first_at(entries, base as u32) {
                Some(raw) => match kind.decode(raw) {
                    Some(v) => Some(FieldValueView::Scalar(v)),
                    None => None,
                },
                None => None,
            },
            TypeDescriptor::Optional(kind) => Some(
                FieldValueView::Optional(
                    match first_at(entries, base as u32) {
                        Some(raw) => kind.decode(raw),
                        None => None,
                    },
                ),
            ),
            TypeDescriptor::Repeated(kind) => match decode_all(
                kind,
                all_at(entries, base as u32),
            ) {
                Some(vs) => Some(FieldValueView::Repeated(vs)),
                None => None,
            },
            TypeDescriptor::Record(layout) => match layout.decode(entries, base) {
                Some(record) => Some(FieldValueView::Record(record)),
                None => None,
            },
        }
    }
}

impl FieldLayout {
    /// What is written for the first `n` values of `record`.
    pub open spec fn encode_upto(self, record: RecordValueView, n: nat, base: int) -> Seq<Entry>
        decreases self, n,
    {
        if n == 0 || n > self.fields.len() || n > record.fields.len() {
            Seq::empty()
        } else {
            self.encode_upto(record, (n - 1) as nat, base) + self.fields[n - 1].encode(
                record.fields[n - 1],
                base + self.arity_upto((n - 1) as nat),
            )
        }
    }

    /// What is written for `record` when its ids begin at `base`: what is
    /// written for each attribute in turn, each at the id that the arities
    /// of those before it give.
    pub open spec fn encode(self, record: RecordValueView, base: int) -> Seq<Entry>
        decreases self, self.fields.len() + 1,
    {
        self.encode_upto(record, self.fields.len() as nat, base)
    }

    /// The values of the stored ones among the first `n` attributes that
    /// `entries` hold; none at all where one of them cannot be read.
    pub open spec fn decode_upto(self, entries: Seq<Entry>, n: nat, base: int) -> Option<
        Seq<FieldValueView>,
    >
        decreases self, n,
    {
        if n == 0 || n > self.fields.len() {
            Some(Seq::empty())
        } else {
            match self.decode_upto(entries, (n - 1) as nat, base) {
                None => None,
                Some(values) => if self.fields[n - 1].options.stored {
                    match self.fields[n - 1].decode(
                        entries,
                        base + self.arity_upto((n - 1) as nat),
                    ) {
                        Some(value) => Some(values.push(value)),
                        None => None,
                    }
                } else {
                    Some(values)
                },
            }
        }
    }

    /// The stored projection that `entries` hold of a record whose ids
    /// begin at `base`: the values of the attributes marked `stored`, in
    /// declaration order.
    pub open spec fn decode(self, entries: Seq<Entry>, base: int) -> Option<RecordValueView>
        decreases self, self.fields.len() + 1,
    {
        match self.decode_upto(entries, self.fields.len() as nat, base) {
            Some(values) => Some(RecordValueView { fields: values }),
            None => None,
        }
    }
}

impl FieldLayout {
    /// Once an attribute cannot be read, no longer run of attributes can.
    pub proof fn lemma_decode_upto_fails(self, entries: Seq<Entry>, i: nat, j: nat, base: int)
        requires
            i <= j <= self.fields.len(),
            self.decode_upto(entries, i, base) is None,
        ensures
            self.decode_upto(entries, j, base) is None,
        decreases j,
    {
        if i < j {
            self.lemma_decode_upto_fails(entries, i, (j - 1) as nat, base);
        }
    }
}

/// Writes every one of `values` under `field_id`.
fn insert_all(kind: &ValueKind, document: &mut TantivyDocument, field_id: u32, values: &Vec<Value>)
    requires
        forall|i: int| 0 <= i < values.len() ==> kind.admits(#[trigger] value_views(values@)[i]),
        field_id <= MAX_FIELD_ID,
        doc_payload(*old(document)) + values_cost(
            *kind,
            value_views(values@),
            values@.len(),
        ) <= MAX_PAYLOAD,
    ensures
        doc_entries(*final(document)) == doc_entries(*old(document)) + encode_all(
            *kind,
            value_views(values@),
            field_id,
        ),
        doc_payload(*final(document)) <= doc_payload(*old(document)) + values_cost(
            *kind,
            value_views(values@),
            values@.len(),
        ),
        forall|i: int|
            0 <= i < values.len() && kind.faithful(#[trigger] value_views(values@)[i])
                ==> kind.reads_back(value_views(values@)[i]),
{
    let ghost before = doc_entries(*document);
    let ghost start = doc_payload(*document);
    let ghost views = value_views(values@);
    let mut i: usize = 0;
    while i < values.len()
        invariant
            i <= values.len(),
            views == value_views(values@),
            forall|j: int| 0 <= j < values.len() ==> kind.admits(#[trigger] views[j]),
            field_id <= MAX_FIELD_ID,
            start + values_cost(*kind, views, values@.len()) <= MAX_PAYLOAD,
            doc_entries(*document) == before + encode_all(*kind, views.take(i as int), field_id),
            doc_payload(*document) <= start + values_cost(*kind, views, i as nat),
            forall|j: int|
                0 <= j < i && kind.faithful(#[trigger] views[j]) ==> kind.reads_back(views[j]),
        decreases values.len() - i,
    {
        proof {
            lemma_values_cost_grows(*kind, views, (i + 1) as nat, values@.len());
            assert(views[i as int] == values[i as int]@);
        }
        kind.insert_into_document(document, field_id, &values[i]);
        i += 1;
        assert(doc_entries(*document) =~= before + encode_all(
            *kind,
            views.take(i as int),
            field_id,
        ));
    }
    assert(views.take(i as int) =~= views);
}

/// The native values that `owned` stand for; none at all where one of them
/// stands for no value of the type.
fn map_all(kind: &ValueKind, owned: &Vec<OwnedValue>) -> (r: Option<Vec<Value>>)
    ensures
        match r {
            Some(values) => decode_all(
                *kind,
                owned@.map_values(|value: OwnedValue| owned_value_view(value)),
            ) == Some(value_views(values@)),
            None => decode_all(
                *kind,
                owned@.map_values(|value: OwnedValue| owned_value_view(value)),
            ) is None,
        },
{
    let ghost raws = owned@.map_values(|value: OwnedValue| owned_value_view(value));
    let mut out: Vec<Value> = Vec::new();
    let mut i: usize = 0;
    while i < owned.len()
        invariant
            i <= owned.len(),
            raws == owned@.map_values(|value: OwnedValue| owned_value_view(value)),
            out@.len() == i,
            forall|j: int| 0 <= j < i ==> (#[trigger] kind.decode(raws[j])) == Some(out@[j]@),
        decreases owned.len() - i,
    {
        let raw = raw_value_of(&owned[i]);
        assert(raw@ == raws[i as int]);
        match kind.map_value(&raw) {
            Some(value) => {
                out.push(value);
            },
            None => {
                assert(kind.decode(raws[i as int]) is None);
                return None;
            },
        }
        i += 1;
    }
    assert(value_views(out@) =~= raws.map_values(|raw: RawValueView| kind.decode(raw)->0));
    Some(out)
}

impl LogicalField {
    /// Writes the value of the attribute into a raw document, its ids
    /// beginning at `field_id`.
    pub fn insert_into_document(
        &self,
        document: &mut TantivyDocument,
        field_id: u32,
        value: &FieldValue,
    )
        requires
            self.admits(value@),
            field_id + self.arity() <= MAX_FIELD_ID + 1,
            doc_payload(*old(document)) + self.cost(value@) <= MAX_PAYLOAD,
        ensures
            doc_entries(*final(document)) == doc_entries(*old(document)) + self.encode(
                value@,
                field_id as int,
            ),
            doc_payload(*final(document)) <= doc_payload(*old(document)) + self.cost(value@),
            self.faithful(value@) ==> self.reads_back(value@),
        decreases self, 1nat,
    {
        match (&self.type_descriptor, value) {
            (TypeDescriptor::Scalar(kind), FieldValue::Scalar(v)) => {
                kind.insert_into_document(document, field_id, v);
                assert(doc_entries(*document) =~= doc_entries(*old(document)) + self.encode(
                    value@,
                    field_id as int,
                ));
            },
            (TypeDescriptor::Optional(kind), FieldValue::Optional(v)) => {
                if let Some(v) = v {
                    kind.insert_into_document(document, field_id, v);
                }
                assert(doc_entries(*document) =~= doc_entries(*old(document)) + self.encode(
                    value@,
                    field_id as int,
                ));
            },
            (TypeDescriptor::Repeated(kind), FieldValue::Repeated(values)) => {
                insert_all(kind, document, field_id, values);
                assert(value@->Repeated_0 == value_views(values@));
            },
            (TypeDescriptor::Record(layout), FieldValue::Record(record)) => {
                layout.insert_into_document(document, field_id, record);
            },
            _ => {},
        }
    }

    /// Reads the value of the attribute from a raw document, its ids
    /// beginning at `field_id`.
    pub fn extract_from_document(&self, document: &TantivyDocument, field_id: u32) -> (r: Option<
        FieldValue,
    >)
        requires
            field_id + self.arity() <= u32::MAX,
        ensures
            opt_field_view(r) == self.decode(doc_entries(*document), field_id as int),
        decreases self, 1nat,
    {
        match &self.type_descriptor {
            TypeDescriptor::Scalar(kind) => {
                match kind.extract_from_document(document, field_id) {
                    Some(v) => Some(FieldValue::Scalar(v)),
                    None => None,
                }
            },
            TypeDescriptor::Optional(kind) => {
                Some(FieldValue::Optional(kind.extract_from_document(document, field_id)))
            },
            TypeDescriptor::Repeated(kind) => {
                let owned = doc_get_all(document, field_id);
                match map_all(kind, &owned) {
                    Some(values) => Some(FieldValue::Repeated(values)),
                    None => None,
                }
            },
            TypeDescriptor::Record(layout) => {
                match layout.extract_from_document(document, field_id) {
                    Some(record) => Some(FieldValue::Record(record)),
                    None => None,
                }
            },
        }
    }
}

impl FieldLayout {
    /// Writes a record instance into a raw document, its ids beginning at
    /// `field_id`: attribute by attribute, the cursor advancing by each
    /// attribute's arity.
    pub fn insert_into_document(
        &self,
        document: &mut TantivyDocument,
        field_id: u32,
        value: &RecordValue,
    )
        requires
            self.admits(value@),
            field_id + self.arity() <= MAX_FIELD_ID + 1,
            doc_payload(*old(document)) + self.cost(value@) <= MAX_PAYLOAD,
        ensures
            doc_entries(*final(document)) == doc_entries(*old(document)) + self.encode(
                value@,
                field_id as int,
            ),
            doc_payload(*final(document)) <= doc_payload(*old(document)) + self.cost(value@),
            self.faithful(value@) ==> self.reads_back(value@),
        decreases self, self.fields.len() + 1,
    {
        let ghost before = doc_entries(*document);
        let ghost start = doc_payload(*document);
        let ghost count = self.fields.len() as nat;
        proof {
            value.lemma_view();
        }
        let mut cursor: u32 = field_id;
        let mut i: usize = 0;
        while i < self.fields.len()
            invariant
                i <= self.fields.len(),
                count == self.fields.len(),
                value@.fields == field_views(value.fields@),
                self.admits(value@),
                field_id + self.arity() <= MAX_FIELD_ID + 1,
                start + self.cost(value@) <= MAX_PAYLOAD,
                cursor == field_id + self.arity_upto(i as nat),
                doc_entries(*document) == before + self.encode_upto(
                    value@,
                    i as nat,
                    field_id as int,
                ),
                doc_payload(*document) <= start + self.cost_upto(value@, i as nat),
                self.faithful(value@) ==> forall|j: int|
                    0 <= j < i ==> (#[trigger] self.fields[j]).reads_back(value@.fields[j]),
            decreases self.fields.len() - i,
        {
            proof {
                self.lemma_arity_upto_grows((i + 1) as nat, count);
                self.lemma_cost_upto_grows(value@, (i + 1) as nat, count);
                self.lemma_admits_at(value@, count, i as int);
                if self.faithful(value@) {
                    assert(self.fields[i as int].faithful(value@.fields[i as int]));
                }
            }
            let field = &self.fields[i];
            field.insert_into_document(document, cursor, &value.fields[i]);
            cursor += field.count_fields();
            i += 1;
            assert(doc_entries(*document) =~= before + self.encode_upto(
                value@,
                i as nat,
                field_id as int,
            ));
        }
    }

    /// Reads the stored projection of a record from a raw document, its
    /// ids beginning at `field_id`: the attributes marked `stored` are
    /// read, the others only advance the cursor. Nothing is returned where
    /// one of the stored attributes cannot be read.
    pub fn extract_from_document(&self, document: &TantivyDocument, field_id: u32) -> (r: Option<
        RecordValue,
    >)
        requires
            field_id + self.arity() <= u32::MAX,
        ensures
            opt_record_view(r) == self.decode(doc_entries(*document), field_id as int),
        decreases self, self.fields.len() + 1,
    {
        let ghost entries = doc_entries(*document);
        let ghost count = self.fields.len() as nat;
        let mut out: Vec<FieldValue> = Vec::new();
        let mut cursor: u32 = field_id;
        let mut i: usize = 0;
        while i < self.fields.len()
            invariant
                i <= self.fields.len(),
                count == self.fields.len(),
                entries == doc_entries(*document),
                field_id + self.arity() <= u32::MAX,
                cursor == field_id + self.arity_upto(i as nat),
                self.decode_upto(entries, i as nat, field_id as int) == Some(field_views(out@)),
            decreases self.fields.len() - i,
        {
            proof {
                self.lemma_arity_upto_grows((i + 1) as nat, count);
            }
            let field = &self.fields[i];
            if field.options.stored {
                match field.extract_from_document(document, cursor) {
                    Some(value) => {
                        let ghost read = field_views(out@);
                        out.push(value);
                        assert(field_views(out@) =~= read.push(value@));
                    },
                    None => {
                        proof {
                            self.lemma_decode_upto_fails(
                                entries,
                                (i + 1) as nat,
                                count,
                                field_id as int,
                            );
                        }
                        return None;
                    },
                }
            }
            cursor += field.count_fields();
            i += 1;
        }
        let record = RecordValue { fields: out };
        proof {
            record.lemma_view();
        }
        Some(record)
    }

    /// Writes a record instance into a new raw document, its ids beginning
    /// at zero.
    pub fn to_raw_document(&self, value: &RecordValue) -> (document: TantivyDocument)
        requires
            self.admits(value@),
            self.arity() <= MAX_FIELD_ID + 1,
            self.cost(value@) <= MAX_PAYLOAD,
        ensures
            doc_entries(document) == self.encode(value@, 0),
            doc_payload(document) <= self.cost(value@),
            self.stored_throughout() && self.faithful(value@) ==> self.decode(
                doc_entries(document),
                0,
            ) == Some(value@),
    {
        let mut document = doc_new();
        self.insert_into_document(&mut document, 0, value);
        assert(doc_entries(document) =~= self.encode(value@, 0));
        proof {
            if self.stored_throughout() && self.faithful(value@) {
                law_round_trip(*self, value@);
            }
        }
        document
    }

    /// Reads the stored projection of a record from a raw document, its
    /// ids beginning at zero.
    pub fn from_raw_document(&self, document: &TantivyDocument) -> (r: Option<RecordValue>)
        requires
            self.arity() <= u32::MAX,
        ensures
            opt_record_view(r) == self.decode(doc_entries(*document), 0),
    {
        self.extract_from_document(document, 0)
    }
}

impl FieldLayout {
    /// Whether a raw document can hold `value`: it is an instance of the
    /// record type, the ids of the layout fit a document's 16 bits, and the
    /// payload bound of the instance its 32-bit addresses.
    pub open spec fn writable(self, value: RecordValueView) -> bool {
        self.admits(value) && self.arity() <= MAX_FIELD_ID + 1 && self.cost(value) <= MAX_PAYLOAD
    }

    /// Whether a raw document can hold `value`.
    pub fn is_writable(&self, value: &RecordValue) -> (r: bool)
        ensures
            r == self.writable(value@),
    {
        self.accepts(value) && self.id_count() <= 0x1_0000 && self.payload_bound(value)
            <= 0xffff_ffff
    }

    /// Writes a record instance into a new raw document where one can hold
    /// it, and gives nothing where none can.
    pub fn try_to_raw_document(&self, value: &RecordValue) -> (r: Option<TantivyDocument>)
        ensures
            r is Some == self.writable(value@),
            r matches Some(document) ==> doc_entries(document) == self.encode(value@, 0),
            r matches Some(document) ==> doc_payload(document) <= self.cost(value@),
            r matches Some(document) ==> (self.stored_throughout() && self.faithful(value@)
                ==> self.decode(doc_entries(document), 0) == Some(value@)),
    {
        if self.is_writable(value) {
            Some(self.to_raw_document(value))
        } else {
            None
        }
    }
}

} // verus!
