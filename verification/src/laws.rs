//! What holds of the library as a whole: of the option model, of the
//! layout, and of writing a record and reading it back.

use crate::document::{all_at, Entry, RawValueView};
use crate::index_options::{
    BytesSettings, DateSettings, FacetSettings, IpAddrSettings, NumericSettings, TextSettings,
};
use crate::kinds::{ValueKind, ValueView};
use crate::layout::{entries_of, FieldLayout, LogicalField, TypeDescriptor};
use crate::options::FieldOptionSet;
use crate::record::{FieldValueView, RecordValueView};
use vstd::prelude::*;

verus! {

/// Laying the same intents over an option set a second time changes
/// nothing: no setting accumulates.
pub proof fn law_intents_apply_once(
    o: FieldOptionSet,
    numeric: NumericSettings,
    bytes: BytesSettings,
    date: DateSettings,
    facet: FacetSettings,
    ip_addr: IpAddrSettings,
    text: TextSettings,
)
    ensures
        o.onto_numeric(o.onto_numeric(numeric)) == o.onto_numeric(numeric),
        o.onto_boolean(o.onto_boolean(numeric)) == o.onto_boolean(numeric),
        o.onto_bytes(o.onto_bytes(bytes)) == o.onto_bytes(bytes),
        o.onto_date(o.onto_date(date)) == o.onto_date(date),
        o.onto_facet(o.onto_facet(facet)) == o.onto_facet(facet),
        o.onto_ip_addr(o.onto_ip_addr(ip_addr)) == o.onto_ip_addr(ip_addr),
        o.onto_text(o.onto_text(text)) == o.onto_text(text),
{
}

/// For a facet field only `stored` counts: intents that agree on it give
/// the same facet options, whatever they say of `fast`, `text`, `indexed`
/// or anything else.
pub proof fn law_facet_heeds_stored_only(a: FieldOptionSet, b: FieldOptionSet, base: FacetSettings)
    requires
        a.stored == b.stored,
    ensures
        a.facet() == b.facet(),
        a.onto_facet(base) == b.onto_facet(base),
{
}

/// A boolean field has no coercion: intents that agree on `fast`,
/// `fieldnorms`, `indexed` and `stored` give the same boolean options,
/// whatever they say of `coerce`, and those options never coerce.
pub proof fn law_boolean_has_no_coercion(a: FieldOptionSet, b: FieldOptionSet)
    requires
        a.fast == b.fast,
        a.fieldnorms == b.fieldnorms,
        a.indexed == b.indexed,
        a.stored == b.stored,
    ensures
        a.boolean() == b.boolean(),
        !a.boolean().coerce,
        ValueKind::Bool.field_kind(a) == ValueKind::Bool.field_kind(b),
{
}

impl FieldLayout {
    /// The first `n` attributes have as many index fields as ids.
    pub proof fn lemma_leaves_upto_count(self, n: nat)
        requires
            n <= self.fields.len(),
        ensures
            self.leaves_upto(n).len() == self.arity_upto(n),
        decreases self, n,
    {
        if n > 0 {
            self.lemma_leaves_upto_count((n - 1) as nat);
            self.fields[n - 1].lemma_leaves_count();
        }
    }

    /// A layout has as many index fields as ids.
    pub proof fn lemma_leaves_count(self)
        ensures
            self.leaves().len() == self.arity(),
        decreases self, self.fields.len() + 1,
    {
        self.lemma_leaves_upto_count(self.fields.len() as nat);
    }
}

impl LogicalField {
    /// An attribute has as many index fields as ids.
    pub proof fn lemma_leaves_count(self)
        ensures
            self.leaves().len() == self.arity(),
        decreases self, 1nat,
    {
        match self.type_descriptor {
            TypeDescriptor::Record(layout) => {
                layout.lemma_leaves_count();
            },
            _ => {},
        }
    }
}

/// The number of index fields that the schema of a record type registers
/// is the sum of the arities of its attributes, each computed from its type
/// alone; the walks that write and read a record advance by those same
/// arities.
pub proof fn law_schema_size_is_arity(layout: FieldLayout)
    ensures
        entries_of(layout.leaves()).len() == layout.arity(),
{
    layout.lemma_leaves_count();
}

/// The values filed under an id in two lists laid end to end are those of
/// the first list, then those of the second.
pub proof fn lemma_all_at_concat(a: Seq<Entry>, b: Seq<Entry>, field: u32)
    ensures
        all_at(a + b, field) == all_at(a, field) + all_at(b, field),
    decreases b.len(),
{
    if b.len() == 0 {
        assert(a + b =~= a);
        assert(all_at(a, field) + all_at(b, field) =~= all_at(a, field));
    } else {
        lemma_all_at_concat(a, b.drop_last(), field);
        assert((a + b).drop_last() =~= a + b.drop_last());
        assert((a + b).last() == b.last());
        if b.last().field == field {
            assert(all_at(a, field) + all_at(b, field) =~= (all_at(a, field) + all_at(
                b.drop_last(),
                field,
            )).push(b.last().value));
        }
    }
}

/// Nothing is filed under an id that no entry names.
pub proof fn lemma_all_at_absent(entries: Seq<Entry>, field: u32)
    requires
        forall|k: int| 0 <= k < entries.len() ==> (#[trigger] entries[k]).field != field,
    ensures
        all_at(entries, field) == Seq::<RawValueView>::empty(),
    decreases entries.len(),
{
    if entries.len() > 0 {
        assert(entries.last() == entries[entries.len() - 1]);
        lemma_all_at_absent(entries.drop_last(), field);
    }
}

/// Where every entry is filed under the one id, all their values are found
/// there, in order.
pub proof fn lemma_all_at_same(entries: Seq<Entry>, field: u32)
    requires
        forall|k: int| 0 <= k < entries.len() ==> (#[trigger] entries[k]).field == field,
    ensures
        all_at(entries, field) == entries.map_values(|e: Entry| e.value),
    decreases entries.len(),
{
    if entries.len() > 0 {
        assert(entries.last() == entries[entries.len() - 1]);
        lemma_all_at_same(entries.drop_last(), field);
        assert(entries.map_values(|e: Entry| e.value) =~= entries.drop_last().map_values(
            |e: Entry| e.value,
        ).push(entries.last().value));
    } else {
        assert(all_at(entries, field) =~= entries.map_values(|e: Entry| e.value));
    }
}

impl ValueKind {
    /// Whether the native value `value` is read back as itself from what is
    /// written for it.
    pub open spec fn reads_back(self, value: ValueView) -> bool {
        self.decode(self.encode(value)) == Some(value)
    }
}

impl LogicalField {
    /// Whether every attribute inside this one is marked `stored`.
    pub open spec fn stored_throughout(self) -> bool
        decreases self, 1nat,
    {
        match self.type_descriptor {
            TypeDescriptor::Record(layout) => layout.stored_throughout(),
            _ => true,
        }
    }

    /// Whether every scalar in `value` is read back as itself.
    pub open spec fn reads_back(self, value: FieldValueView) -> bool
        decreases self, 1nat,
    {
        match (self.type_descriptor, value) {
            (TypeDescriptor::Scalar(kind), FieldValueView::Scalar(v)) => kind.reads_back(v),
            (TypeDescriptor::Optional(kind), FieldValueView::Optional(Some(v))) => kind.reads_back(
                v,
            ),
            (TypeDescriptor::Repeated(kind), FieldValueView::Repeated(vs)) => forall|i: int|
                0 <= i < vs.len() ==> kind.reads_back(#[trigger] vs[i]),
            (TypeDescriptor::Record(layout), FieldValueView::Record(record)) => layout.reads_back(
                record,
            ),
            _ => true,
        }
    }

    /// Whether reading the attribute, its ids beginning at `base`, looks
    /// at what is filed under `id`.
    pub open spec fn reads(self, id: int, base: int) -> bool
        decreases self, 1nat,
    {
        match self.type_descriptor {
            TypeDescriptor::Record(layout) => layout.reads(id, base),
            _ => id == base,
        }
    }
}

impl FieldLayout {
    /// Whether every attribute is marked `stored`, and every attribute
    /// inside one that is a record.
    pub open spec fn stored_throughout(self) -> bool
        decreases self, self.fields.len() + 1,
    {
        forall|i: int|
            0 <= i < self.fields.len() ==> (#[trigger] self.fields[i]).options.stored
                && self.fields[i].stored_throughout()
    }

    /// Whether every scalar in `record` is read back as itself.
    pub open spec fn reads_back(self, record: RecordValueView) -> bool
        decreases self, self.fields.len() + 1,
    {
        forall|i: int|
            0 <= i < self.fields.len() && i < record.fields.len() ==> (
            #[trigger] self.fields[i]).reads_back(record.fields[i])
    }

    /// Whether reading the first `n` attributes looks at what is filed
    /// under `id`: whether `id` belongs to one of them that is marked
    /// `stored`.
    pub open spec fn reads_upto(self, id: int, n: nat, base: int) -> bool
        decreases self, n,
    {
        if n == 0 || n > self.fields.len() {
            false
        } else {
            self.reads_upto(id, (n - 1) as nat, base) || (self.fields[n - 1].options.stored
                && self.fields[n - 1].reads(id, base + self.arity_upto((n - 1) as nat)))
        }
    }

    /// Whether reading a record looks at what is filed under `id`.
    pub open spec fn reads(self, id: int, base: int) -> bool
        decreases self, self.fields.len() + 1,
    {
        self.reads_upto(id, self.fields.len() as nat, base)
    }
}

/// The largest field id, as a mathematical integer.
pub open spec fn id_limit() -> int {
    u32::MAX as int
}

impl LogicalField {
    /// What is written for an attribute is filed under its own ids.
    pub proof fn lemma_encode_range(self, value: FieldValueView, base: int)
        requires
            0 <= base,
            base + self.arity() <= id_limit() + 1,
        ensures
            forall|k: int|
                0 <= k < self.encode(value, base).len() ==> base <= (#[trigger] self.encode(
                    value,
                    base,
                )[k]).field < base + self.arity(),
        decreases self, 1nat,
    {
        match (self.type_descriptor, value) {
            (TypeDescriptor::Record(layout), FieldValueView::Record(record)) => {
                if layout.fields.len() <= record.fields.len() {
                    layout.lemma_encode_upto_range(record, layout.fields.len() as nat, base);
                } else {
                    assert(layout.encode(record, base) =~= Seq::<Entry>::empty());
                }
            },
            _ => {},
        }
    }

    /// Reading an attribute looks at its own ids only.
    pub proof fn lemma_reads_in_range(self, id: int, base: int)
        requires
            self.reads(id, base),
        ensures
            base <= id < base + self.arity(),
        decreases self, 1nat,
    {
        match self.type_descriptor {
            TypeDescriptor::Record(layout) => {
                layout.lemma_reads_upto_in_range(id, layout.fields.len() as nat, base);
            },
            _ => {},
        }
    }

    /// What is read of an attribute depends on nothing but what is filed
    /// under the ids that reading it looks at.
    pub proof fn lemma_decode_local(self, a: Seq<Entry>, b: Seq<Entry>, base: int)
        requires
            forall|id: int| #[trigger]
                self.reads(id, base) ==> all_at(a, id as u32) == all_at(b, id as u32),
        ensures
            self.decode(a, base) == self.decode(b, base),
        decreases self, 1nat,
    {
        match self.type_descriptor {
            TypeDescriptor::Record(layout) => {
                assert forall|id: int| #[trigger]
                    layout.reads_upto(id, layout.fields.len() as nat, base) implies all_at(
                    a,
                    id as u32,
                ) == all_at(b, id as u32) by {
                    assert(self.reads(id, base));
                }
                layout.lemma_decode_upto_local(a, b, layout.fields.len() as nat, base);
            },
            _ => {
                assert(self.reads(base, base));
            },
        }
    }
}

impl FieldLayout {
    /// What is written for the first `n` attributes is filed under their
    /// ids.
    pub proof fn lemma_encode_upto_range(self, record: RecordValueView, n: nat, base: int)
        requires
            n <= self.fields.len(),
            0 <= base,
            base + self.arity_upto(n) <= id_limit() + 1,
        ensures
            forall|k: int|
                0 <= k < self.encode_upto(record, n, base).len() ==> base <= (
                #[trigger] self.encode_upto(record, n, base)[k]).field < base + self.arity_upto(n),
        decreases self, n,
    {
        if n > 0 && n <= record.fields.len() {
            self.lemma_encode_upto_range(record, (n - 1) as nat, base);
            self.fields[n - 1].lemma_encode_range(
                record.fields[n - 1],
                base + self.arity_upto((n - 1) as nat),
            );
        }
    }

    /// Reading the first `n` attributes looks at their ids only.
    pub proof fn lemma_reads_upto_in_range(self, id: int, n: nat, base: int)
        requires
            n <= self.fields.len(),
            self.reads_upto(id, n, base),
        ensures
            base <= id < base + self.arity_upto(n),
        decreases self, n,
    {
        if n > 0 {
            if self.reads_upto(id, (n - 1) as nat, base) {
                self.lemma_reads_upto_in_range(id, (n - 1) as nat, base);
            } else {
                self.fields[n - 1].lemma_reads_in_range(
                    id,
                    base + self.arity_upto((n - 1) as nat),
                );
            }
        }
    }

    /// What is read of the first `n` attributes depends on nothing but what
    /// is filed under the ids that reading them looks at.
    pub proof fn lemma_decode_upto_local(self, a: Seq<Entry>, b: Seq<Entry>, n: nat, base: int)
        requires
            n <= self.fields.len(),
            forall|id: int| #[trigger]
                self.reads_upto(id, n, base) ==> all_at(a, id as u32) == all_at(b, id as u32),
        ensures
            self.decode_upto(a, n, base) == self.decode_upto(b, n, base),
        decreases self, n,
    {
        if n > 0 {
            assert forall|id: int| #[trigger]
                self.reads_upto(id, (n - 1) as nat, base) implies all_at(a, id as u32) == all_at(
                b,
                id as u32,
            ) by {
                assert(self.reads_upto(id, n, base));
            }
            self.lemma_decode_upto_local(a, b, (n - 1) as nat, base);
            if self.fields[n - 1].options.stored {
                let at = base + self.arity_upto((n - 1) as nat);
                assert forall|id: int| #[trigger]
                    self.fields[n - 1].reads(id, at) implies all_at(a, id as u32) == all_at(
                    b,
                    id as u32,
                ) by {
                    assert(self.reads_upto(id, n, base));
                }
                self.fields[n - 1].lemma_decode_local(a, b, at);
            }
        }
    }

    /// Under an id of attribute `n - 1`, the first `m` attributes file what
    /// that attribute files there: those before it and after it file
    /// nothing under its ids.
    pub proof fn lemma_encode_slice(
        self,
        record: RecordValueView,
        n: nat,
        m: nat,
        base: int,
        id: int,
    )
        requires
            1 <= n <= m <= self.fields.len(),
            m <= record.fields.len(),
            0 <= base,
            base + self.arity_upto(m) <= id_limit() + 1,
            base + self.arity_upto((n - 1) as nat) <= id < base + self.arity_upto(n),
        ensures
            all_at(self.encode_upto(record, m, base), id as u32) == all_at(
                self.fields[n - 1].encode(
                    record.fields[n - 1],
                    base + self.arity_upto((n - 1) as nat),
                ),
                id as u32,
            ),
        decreases m,
    {
        let before = self.encode_upto(record, (m - 1) as nat, base);
        let at = base + self.arity_upto((m - 1) as nat);
        let last = self.fields[m - 1].encode(record.fields[m - 1], at);
        self.lemma_arity_upto_grows((m - 1) as nat, m);
        self.lemma_arity_upto_grows(n, m);
        lemma_all_at_concat(before, last, id as u32);
        if m == n {
            self.lemma_encode_upto_range(record, (m - 1) as nat, base);
            lemma_all_at_absent(before, id as u32);
            assert(all_at(before, id as u32) + all_at(last, id as u32) =~= all_at(
                last,
                id as u32,
            ));
        } else {
            self.lemma_arity_upto_grows(n, (m - 1) as nat);
            self.lemma_encode_slice(record, n, (m - 1) as nat, base, id);
            self.fields[m - 1].lemma_encode_range(record.fields[m - 1], at);
            lemma_all_at_absent(last, id as u32);
            assert(all_at(before, id as u32) + all_at(last, id as u32) =~= all_at(
                before,
                id as u32,
            ));
        }
    }
}

impl LogicalField {
    /// An attribute is read back as it was written.
    pub proof fn lemma_round_trip(self, value: FieldValueView, base: int)
        requires
            self.admits(value),
            self.stored_throughout(),
            self.reads_back(value),
            0 <= base,
            base + self.arity() <= id_limit() + 1,
        ensures
            self.decode(self.encode(value, base), base) == Some(value),
        decreases self, 1nat,
    {
        let written = self.encode(value, base);
        match (self.type_descriptor, value) {
            (TypeDescriptor::Scalar(kind), FieldValueView::Scalar(v)) => {
                lemma_all_at_same(written, base as u32);
            },
            (TypeDescriptor::Optional(kind), FieldValueView::Optional(v)) => {
                lemma_all_at_same(written, base as u32);
            },
            (TypeDescriptor::Repeated(kind), FieldValueView::Repeated(vs)) => {
                lemma_all_at_same(written, base as u32);
                let raws = all_at(written, base as u32);
                assert(raws =~= vs.map_values(|v: ValueView| kind.encode(v)));
                assert forall|i: int| 0 <= i < raws.len() implies (#[trigger] kind.decode(
                    raws[i],
                )) == Some(vs[i]) by {
                    assert(kind.reads_back(vs[i]));
                }
                assert(raws.map_values(|raw: RawValueView| kind.decode(raw)->0) =~= vs);
            },
            (TypeDescriptor::Record(layout), FieldValueView::Record(record)) => {
                layout.lemma_round_trip_upto(record, layout.fields.len() as nat, base);
                assert(record.fields.take(layout.fields.len() as int) =~= record.fields);
            },
            _ => {},
        }
    }
}

impl FieldLayout {
    /// The first `n` attributes are read back as they were written.
    pub proof fn lemma_round_trip_upto(self, record: RecordValueView, n: nat, base: int)
        requires
            n <= self.fields.len(),
            self.admits(record),
            self.stored_throughout(),
            self.reads_back(record),
            0 <= base,
            base + self.arity() <= id_limit() + 1,
        ensures
            self.decode_upto(self.encode(record, base), n, base) == Some(
                record.fields.take(n as int),
            ),
        decreases self, n,
    {
        if n > 0 {
            let count = self.fields.len() as nat;
            let field = self.fields[n - 1];
            let value = record.fields[n - 1];
            let at = base + self.arity_upto((n - 1) as nat);
            let all = self.encode(record, base);
            self.lemma_round_trip_upto(record, (n - 1) as nat, base);
            self.lemma_arity_upto_grows(n, count);
            self.lemma_admits_at(record, count, n - 1);
            field.lemma_round_trip(value, at);
            assert forall|id: int| #[trigger] field.reads(id, at) implies all_at(all, id as u32)
                == all_at(field.encode(value, at), id as u32) by {
                field.lemma_reads_in_range(id, at);
                self.lemma_encode_slice(record, n, count, base, id);
            }
            field.lemma_decode_local(all, field.encode(value, at), at);
            assert(record.fields.take(n as int) =~= record.fields.take(n - 1).push(value));
        } else {
            assert(record.fields.take(n as int) =~= Seq::<FieldValueView>::empty());
        }
    }

    /// The number of the first `n` attributes that are marked `stored`.
    pub open spec fn stored_upto(self, n: nat) -> nat
        decreases n,
    {
        if n == 0 || n > self.fields.len() {
            0
        } else if self.fields[n - 1].options.stored {
            self.stored_upto((n - 1) as nat) + 1
        } else {
            self.stored_upto((n - 1) as nat)
        }
    }

    /// What is read of the first `n` attributes has one value for each of
    /// them that is marked `stored`.
    pub proof fn lemma_decode_upto_count(self, entries: Seq<Entry>, n: nat, base: int)
        requires
            n <= self.fields.len(),
            self.decode_upto(entries, n, base) is Some,
        ensures
            self.decode_upto(entries, n, base)->0.len() == self.stored_upto(n),
        decreases n,
    {
        if n > 0 {
            self.lemma_decode_upto_count(entries, (n - 1) as nat, base);
        }
    }
}

impl ValueKind {
    /// Whether `value` is stored as it is: it is of a type whose stored
    /// form is its own, or a moment that 64 bits of nanoseconds hold.
    /// (A decimal, an identifier and a URL are stored in forms of their
    /// own; a fixed decimal is stored rounded to its scale.)
    pub open spec fn stored_plainly(self, value: ValueView) -> bool {
        match value {
            ValueView::DateTime(d) => i64::MIN <= d.total_nanos() <= i64::MAX,
            ValueView::Date(d) => i64::MIN <= d.total_nanos() <= i64::MAX,
            ValueView::Timestamp(t) => i64::MIN <= t.nanoseconds <= i64::MAX,
            ValueView::Decimal(_) => false,
            ValueView::FixedDecimal(_) => false,
            ValueView::Url(_) => false,
            ValueView::Uuid(_) => false,
            _ => true,
        }
    }
}

impl ValueKind {
    /// Whether the stored form of `value` holds all of it: it is stored as
    /// it is, or it is a decimal or an identifier, whose stored forms read
    /// back as they were written. (A fixed decimal is stored rounded, and a
    /// URL is read in the form that reading its text gives.)
    pub open spec fn faithful(self, value: ValueView) -> bool {
        self.stored_plainly(value) || value is Decimal || value is Uuid
    }
}

impl LogicalField {
    /// Whether the stored form of every scalar in `value` holds all of it.
    pub open spec fn faithful(self, value: FieldValueView) -> bool
        decreases self, 1nat,
    {
        match (self.type_descriptor, value) {
            (TypeDescriptor::Scalar(kind), FieldValueView::Scalar(v)) => kind.faithful(v),
            (TypeDescriptor::Optional(kind), FieldValueView::Optional(Some(v))) => kind.faithful(
                v,
            ),
            (TypeDescriptor::Repeated(kind), FieldValueView::Repeated(vs)) => forall|i: int|
                0 <= i < vs.len() ==> kind.faithful(#[trigger] vs[i]),
            (TypeDescriptor::Record(layout), FieldValueView::Record(record)) => layout.faithful(
                record,
            ),
            _ => true,
        }
    }
}

impl FieldLayout {
    /// Whether the stored form of every scalar in `record` holds all of
    /// it.
    pub open spec fn faithful(self, record: RecordValueView) -> bool
        decreases self, self.fields.len() + 1,
    {
        forall|i: int|
            0 <= i < self.fields.len() && i < record.fields.len() ==> (
            #[trigger] self.fields[i]).faithful(record.fields[i])
    }
}

/// A native value that is stored as it is, is read back as itself.
pub proof fn law_plain_values_read_back(kind: ValueKind, value: ValueView)
    requires
        kind.admits(value),
        kind.stored_plainly(value),
    ensures
        kind.reads_back(value),
{
}

/// A record instance whose attributes are all marked `stored` is read back
/// from what was written for it as itself, provided each scalar in it is
/// read back as itself from its stored form.
pub proof fn law_round_trip(layout: FieldLayout, record: RecordValueView)
    requires
        layout.admits(record),
        layout.stored_throughout(),
        layout.reads_back(record),
        layout.arity() <= id_limit() + 1,
    ensures
        layout.decode(layout.encode(record, 0), 0) == Some(record),
{
    layout.lemma_round_trip_upto(record, layout.fields.len() as nat, 0);
    assert(record.fields.take(layout.fields.len() as int) =~= record.fields);
}

/// Attributes that are not marked `stored` have no part in the stored
/// projection: it has one value for each attribute that is marked, and two
/// documents that hold the same under the ids of those attributes give the
/// same projection, or both give none, whatever they hold or lack
/// elsewhere.
pub proof fn law_projection_heeds_stored_only(
    layout: FieldLayout,
    a: Seq<Entry>,
    b: Seq<Entry>,
    base: int,
)
    requires
        forall|id: int| #[trigger]
            layout.reads(id, base) ==> all_at(a, id as u32) == all_at(b, id as u32),
    ensures
        layout.decode(a, base) == layout.decode(b, base),
        layout.decode(a, base) matches Some(projection) ==> projection.fields.len()
            == layout.stored_upto(layout.fields.len() as nat),
{
    let count = layout.fields.len() as nat;
    assert forall|id: int| #[trigger] layout.reads_upto(id, count, base) implies all_at(
        a,
        id as u32,
    ) == all_at(b, id as u32) by {
        assert(layout.reads(id, base));
    }
    layout.lemma_decode_upto_local(a, b, count, base);
    if layout.decode(a, base) is Some {
        layout.lemma_decode_upto_count(a, count, base);
    }
}

/// Writing and reading walk a record alike: what is written for an
/// attribute is filed under the ids that its place in the layout gives it,
/// and reading the attribute looks at none but those.
pub proof fn law_walks_are_aligned(
    layout: FieldLayout,
    record: RecordValueView,
    n: nat,
    base: int,
    id: int,
)
    requires
        n < layout.fields.len(),
        n < record.fields.len(),
        0 <= base,
        base + layout.arity() <= id_limit() + 1,
    ensures
        base + layout.arity_upto(n) + layout.fields[n as int].arity() == base + layout.arity_upto(
            n + 1,
        ) <= base + layout.arity(),
        forall|k: int|
            0 <= k < layout.fields[n as int].encode(
                record.fields[n as int],
                base + layout.arity_upto(n),
            ).len() ==> base + layout.arity_upto(n) <= (#[trigger] layout.fields[n as int].encode(
                record.fields[n as int],
                base + layout.arity_upto(n),
            )[k]).field < base + layout.arity_upto(n + 1),
        layout.fields[n as int].reads(id, base + layout.arity_upto(n)) ==> base
            + layout.arity_upto(n) <= id < base + layout.arity_upto(n + 1),
{
    let at = base + layout.arity_upto(n);
    layout.lemma_arity_upto_grows(n + 1, layout.fields.len() as nat);
    layout.fields[n as int].lemma_encode_range(record.fields[n as int], at);
    if layout.fields[n as int].reads(id, at) {
        layout.fields[n as int].lemma_reads_in_range(id, at);
    }
}

} // verus!
