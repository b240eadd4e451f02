//! Record instances: the values of the attributes of a record type, in
//! declaration order. An instance carries no layout of its own; which
//! layout it belongs to is said where it is used.

use crate::document::MAX_PAYLOAD;
use crate::kinds::{opt_view, Value, ValueKind, ValueView};
use crate::layout::{FieldLayout, LogicalField, TypeDescriptor};
use vstd::prelude::*;

verus! {

/// The value of one attribute.
#[derive(Debug, PartialEq, Eq)]
pub enum FieldValue {
    Scalar(Value),
    Optional(Option<Value>),
    Repeated(Vec<Value>),
    Record(RecordValue),
}

/// A record instance, or the stored projection of one: the values of its
/// attributes, in declaration order.
#[derive(Debug, PartialEq, Eq)]
pub struct RecordValue {
    pub fields: Vec<FieldValue>,
}

/// Mathematical value of a [`FieldValue`].
pub enum FieldValueView {
    Scalar(ValueView),
    Optional(Option<ValueView>),
    Repeated(Seq<ValueView>),
    Record(RecordValueView),
}

/// Mathematical value of a [`RecordValue`].
pub struct RecordValueView {
    pub fields: Seq<FieldValueView>,
}

/// The mathematical values of `values`, in their order.
pub open spec fn value_views(values: Seq<Value>) -> Seq<ValueView> {
    values.map_values(|value: Value| value@)
}

/// An upper bound on the payload that the first `n` of `values` take in a
/// raw document.
pub open spec fn values_cost(kind: ValueKind, values: Seq<ValueView>, n: nat) -> nat
    decreases n,
{
    if n == 0 || n > values.len() {
        0
    } else {
        values_cost(kind, values, (n - 1) as nat) + kind.cost(values[n - 1])
    }
}

impl View for FieldValue {
    type V = FieldValueView;

    open spec fn view(&self) -> FieldValueView
        decreases self, 1nat,
    {
        match self {
            FieldValue::Scalar(value) => FieldValueView::Scalar(value@),
            FieldValue::Optional(value) => FieldValueView::Optional(opt_view(*value)),
            FieldValue::Repeated(values) => FieldValueView::Repeated(value_views(values@)),
            FieldValue::Record(record) => FieldValueView::Record(record@),
        }
    }
}

impl RecordValue {
    /// The mathematical values of the first `n` attributes.
    pub open spec fn views_upto(&self, n: nat) -> Seq<FieldValueView>
        decreases self, n,
    {
        if n == 0 || n > self.fields.len() {
            Seq::empty()
        } else {
            self.views_upto((n - 1) as nat).push(self.fields[n - 1]@)
        }
    }
}

impl View for RecordValue {
    type V = RecordValueView;

    open spec fn view(&self) -> RecordValueView
        decreases self, self.fields.len() + 1,
    {
        RecordValueView { fields: self.views_upto(self.fields.len() as nat) }
    }
}

impl LogicalField {
    /// Whether `value` is a value of the attribute: of the shape that its
    /// type declares, each scalar in it a native value of its value type.
    pub open spec fn admits(self, value: FieldValueView) -> bool
        decreases self, 1nat,
    {
        match (self.type_descriptor, value) {
            (TypeDescriptor::Scalar(kind), FieldValueView::Scalar(v)) => kind.admits(v),
            (TypeDescriptor::Optional(kind), FieldValueView::Optional(v)) => v matches Some(x)
                ==> kind.admits(x),
            (TypeDescriptor::Repeated(kind), FieldValueView::Repeated(vs)) => forall|i: int|
                0 <= i < vs.len() ==> kind.admits(#[trigger] vs[i]),
            (TypeDescriptor::Record(layout), FieldValueView::Record(record)) => layout.admits(
                record,
            ),
            _ => false,
        }
    }

    /// An upper bound on the payload that `value` takes in a raw document.
    pub open spec fn cost(self, value: FieldValueView) -> nat
        decreases self, 1nat,
    {
        match (self.type_descriptor, value) {
            (TypeDescriptor::Scalar(kind), FieldValueView::Scalar(v)) => kind.cost(v),
            (TypeDescriptor::Optional(kind), FieldValueView::Optional(Some(v))) => kind.cost(v),
            (TypeDescriptor::Repeated(kind), FieldValueView::Repeated(vs)) => values_cost(
                kind,
                vs,
                vs.len(),
            ),
            (TypeDescriptor::Record(layout), FieldValueView::Record(record)) => layout.cost(record),
            _ => 0,
        }
    }
}

impl FieldLayout {
    /// Whether the first `n` values of `record` are values of the first `n`
    /// attributes.
    pub open spec fn admits_upto(self, record: RecordValueView, n: nat) -> bool
        decreases self, n,
    {
        if n == 0 || n > self.fields.len() || n > record.fields.len() {
            true
        } else {
            self.admits_upto(record, (n - 1) as nat) && self.fields[n - 1].admits(
                record.fields[n - 1],
            )
        }
    }

    /// Whether `record` is an instance of the record type: it has one value
    /// for each attribute, and each is a value of its attribute.
    pub open spec fn admits(self, record: RecordValueView) -> bool
        decreases self, self.fields.len() + 1,
    {
        record.fields.len() == self.fields.len() && self.admits_upto(
            record,
            self.fields.len() as nat,
        )
    }

    /// An upper bound on the payload that the first `n` values of `record`
    /// take in a raw document.
    pub open spec fn cost_upto(self, record: RecordValueView, n: nat) -> nat
        decreases self, n,
    {
        if n == 0 || n > self.fields.len() || n > record.fields.len() {
            0
        } else {
            self.cost_upto(record, (n - 1) as nat) + self.fields[n - 1].cost(record.fields[n - 1])
        }
    }

    /// An upper bound on the payload that `record` takes in a raw document.
    pub open spec fn cost(self, record: RecordValueView) -> nat
        decreases self, self.fields.len() + 1,
    {
        self.cost_upto(record, self.fields.len() as nat)
    }
}

/// The mathematical values of `fields`, in their order.
pub open spec fn field_views(fields: Seq<FieldValue>) -> Seq<FieldValueView> {
    fields.map_values(|field: FieldValue| field@)
}

/// The mathematical value of an optional attribute value.
pub open spec fn opt_field_view(value: Option<FieldValue>) -> Option<FieldValueView> {
    match value {
        Some(v) => Some(v@),
        None => None,
    }
}

/// The mathematical value of an optional record.
pub open spec fn opt_record_view(record: Option<RecordValue>) -> Option<RecordValueView> {
    match record {
        Some(r) => Some(r@),
        None => None,
    }
}

impl RecordValue {
    /// The view of a record lists the views of its values.
    pub proof fn lemma_views_upto(&self, n: nat)
        requires
            n <= self.fields.len(),
        ensures
            self.views_upto(n) == field_views(self.fields@.take(n as int)),
        decreases n,
    {
        if n > 0 {
            self.lemma_views_upto((n - 1) as nat);
            assert(field_views(self.fields@.take(n as int)) =~= field_views(
                self.fields@.take(n - 1),
            ).push(self.fields@[n - 1]@));
        } else {
            assert(self.views_upto(n) =~= field_views(self.fields@.take(n as int)));
        }
    }

    /// The view of a record lists the views of its values.
    pub proof fn lemma_view(&self)
        ensures
            self@.fields == field_views(self.fields@),
    {
        self.lemma_views_upto(self.fields@.len());
        assert(self.fields@.take(self.fields@.len() as int) =~= self.fields@);
    }
}

/// The cost of a longer run of values includes that of a shorter.
pub proof fn lemma_values_cost_grows(kind: ValueKind, values: Seq<ValueView>, i: nat, j: nat)
    requires
        i <= j <= values.len(),
    ensures
        values_cost(kind, values, i) <= values_cost(kind, values, j),
    decreases j,
{
    if i < j {
        lemma_values_cost_grows(kind, values, i, (j - 1) as nat);
    }
}

impl FieldLayout {
    /// An instance has a value of its attribute at every place.
    pub proof fn lemma_admits_at(self, record: RecordValueView, n: nat, i: int)
        requires
            self.admits_upto(record, n),
            n <= self.fields.len(),
            n <= record.fields.len(),
            0 <= i < n,
        ensures
            self.fields[i].admits(record.fields[i]),
        decreases n,
    {
        if i < n - 1 {
            self.lemma_admits_at(record, (n - 1) as nat, i);
        }
    }

    /// The cost of a longer run of attributes includes that of a shorter.
    pub proof fn lemma_cost_upto_grows(self, record: RecordValueView, i: nat, j: nat)
        requires
            i <= j <= self.fields.len(),
            j <= record.fields.len(),
        ensures
            self.cost_upto(record, i) <= self.cost_upto(record, j),
        decreases j,
    {
        if i < j {
            self.lemma_cost_upto_grows(record, i, (j - 1) as nat);
        }
    }
}

/// A count of field ids, cut off just above the largest count that a raw
/// document can address.
pub open spec fn capped_ids(n: nat) -> nat {
    if n <= 0x1_0000 {
        n
    } else {
        0x1_0001
    }
}

/// A payload bound, cut off just above the largest payload that a raw
/// document can address.
pub open spec fn capped_cost(n: nat) -> nat {
    if n <= MAX_PAYLOAD {
        n
    } else {
        (MAX_PAYLOAD + 1) as nat
    }
}

/// The capped sum of a capped bound and one more cost.
fn add_capped(sum: u64, cost: u64) -> (r: u64)
    requires
        sum <= MAX_PAYLOAD + 1,
        cost <= MAX_PAYLOAD + 1,
    ensures
        r == capped_cost((sum + cost) as nat),
{
    if sum + cost <= 0xffff_ffff {
        sum + cost
    } else {
        0x1_0000_0000
    }
}

/// The capped payload bound of a text of `len` characters.
fn text_cost(len: usize) -> (r: u64)
    ensures
        r == capped_cost((4 * len + 5) as nat),
{
    if len > 0x4000_0000 {
        0x1_0000_0000
    } else {
        add_capped(4 * (len as u64), 5)
    }
}

/// The capped payload bound of `len` bytes.
fn bytes_cost(len: usize) -> (r: u64)
    ensures
        r == capped_cost((len + 5) as nat),
{
    if len > 0xffff_ffff {
        0x1_0000_0000
    } else {
        add_capped(len as u64, 5)
    }
}

impl ValueKind {
    /// The bound on the payload that `value` takes, cut off above the
    /// largest payload.
    pub fn payload_bound(&self, value: &Value) -> (r: u64)
        ensures
            r == capped_cost(self.cost(value@)),
    {
        match value {
            Value::Text(s) => text_cost(s.as_str().unicode_len()),
            Value::Facet(s) => text_cost(s.as_str().unicode_len()),
            Value::Url(s) => text_cost(s.as_str().unicode_len()),
            Value::Bytes(b) => bytes_cost(b.len()),
            Value::Uuid(_) => 149,
            Value::Decimal(_) => 21,
            _ => 16,
        }
    }
}

/// Whether every one of `values` is a native value of the type.
fn accepts_all(kind: &ValueKind, values: &Vec<Value>) -> (r: bool)
    ensures
        r == (forall|i: int|
            0 <= i < value_views(values@).len() ==> kind.admits(
                #[trigger] value_views(values@)[i],
            )),
{
    let mut i: usize = 0;
    while i < values.len()
        invariant
            i <= values.len(),
            forall|j: int| 0 <= j < i ==> kind.admits(#[trigger] value_views(values@)[j]),
        decreases values.len() - i,
    {
        if !kind.accepts(&values[i]) {
            assert(!kind.admits(value_views(values@)[i as int]));
            return false;
        }
        i += 1;
    }
    true
}

/// The capped payload bound of `values`.
fn payload_bound_all(kind: &ValueKind, values: &Vec<Value>) -> (r: u64)
    ensures
        r == capped_cost(values_cost(*kind, value_views(values@), values@.len())),
{
    let mut sum: u64 = 0;
    let mut i: usize = 0;
    while i < values.len()
        invariant
            i <= values.len(),
            sum == capped_cost(values_cost(*kind, value_views(values@), i as nat)),
        decreases values.len() - i,
    {
        assert(value_views(values@)[i as int] == values[i as int]@);
        sum = add_capped(sum, kind.payload_bound(&values[i]));
        i += 1;
    }
    sum
}

impl LogicalField {
    /// Whether `value` is a value of the attribute.
    pub fn accepts(&self, value: &FieldValue) -> (r: bool)
        ensures
            r == self.admits(value@),
        decreases self, 1nat,
    {
        match (&self.type_descriptor, value) {
            (TypeDescriptor::Scalar(kind), FieldValue::Scalar(v)) => {
                kind.accepts(v)
            },
            (TypeDescriptor::Optional(kind), FieldValue::Optional(v)) => {
                match v {
                    Some(v) => kind.accepts(v),
                    None => true,
                }
            },
            (TypeDescriptor::Repeated(kind), FieldValue::Repeated(values)) => {
                let r = accepts_all(kind, values);
                proof {
                    let vs = value_views(values@);
                    assert(value@ == FieldValueView::Repeated(vs));
                    assert(value@->Repeated_0 == vs);
                }
                r
            },
            (TypeDescriptor::Record(layout), FieldValue::Record(record)) => {
                layout.accepts(record)
            },
            _ => {
                assert(!self.admits(value@));
                false
            },
        }
    }

    /// The bound on the payload that `value` takes, cut off above the
    /// largest payload.
    pub fn payload_bound(&self, value: &FieldValue) -> (r: u64)
        ensures
            r == capped_cost(self.cost(value@)),
        decreases self, 1nat,
    {
        match (&self.type_descriptor, value) {
            (TypeDescriptor::Scalar(kind), FieldValue::Scalar(v)) => kind.payload_bound(v),
            (TypeDescriptor::Optional(kind), FieldValue::Optional(v)) => match v {
                Some(v) => kind.payload_bound(v),
                None => 0,
            },
            (TypeDescriptor::Repeated(kind), FieldValue::Repeated(values)) => payload_bound_all(
                kind,
                values,
            ),
            (TypeDescriptor::Record(layout), FieldValue::Record(record)) => layout.payload_bound(
                record,
            ),
            _ => 0,
        }
    }

    /// The number of field ids that the attribute occupies, cut off above
    /// the largest count.
    pub fn id_count(&self) -> (r: u32)
        ensures
            r == capped_ids(self.arity()),
        decreases self, 1nat,
    {
        match &self.type_descriptor {
            TypeDescriptor::Record(layout) => layout.id_count(),
            _ => 1,
        }
    }
}

impl FieldLayout {
    /// Whether `value` is an instance of the record type.
    pub fn accepts(&self, value: &RecordValue) -> (r: bool)
        ensures
            r == self.admits(value@),
        decreases self, self.fields.len() + 1,
    {
        proof {
            value.lemma_view();
        }
        if value.fields.len() != self.fields.len() {
            return false;
        }
        let ghost count = self.fields.len() as nat;
        let mut i: usize = 0;
        while i < self.fields.len()
            invariant
                i <= self.fields.len(),
                count == self.fields.len(),
                value.fields.len() == self.fields.len(),
                value@.fields == field_views(value.fields@),
                self.admits_upto(value@, i as nat),
            decreases self.fields.len() - i,
        {
            if !self.fields[i].accepts(&value.fields[i]) {
                proof {
                    if self.admits(value@) {
                        self.lemma_admits_at(value@, count, i as int);
                    }
                }
                return false;
            }
            i += 1;
        }
        true
    }

    /// The bound on the payload that `value` takes, cut off above the
    /// largest payload.
    pub fn payload_bound(&self, value: &RecordValue) -> (r: u64)
        ensures
            r == capped_cost(self.cost(value@)),
        decreases self, self.fields.len() + 1,
    {
        proof {
            value.lemma_view();
        }
        if value.fields.len() < self.fields.len() {
            return 0;
        }
        let mut sum: u64 = 0;
        let mut i: usize = 0;
        while i < self.fields.len()
            invariant
                i <= self.fields.len(),
                self.fields.len() <= value.fields.len(),
                value@.fields == field_views(value.fields@),
                sum == capped_cost(self.cost_upto(value@, i as nat)),
            decreases self.fields.len() - i,
        {
            sum = add_capped(sum, self.fields[i].payload_bound(&value.fields[i]));
            i += 1;
        }
        sum
    }

    /// The number of field ids that a record occupies, cut off above the
    /// largest count.
    pub fn id_count(&self) -> (r: u32)
        ensures
            r == capped_ids(self.arity()),
        decreases self, self.fields.len() + 1,
    {
        let mut count: u32 = 0;
        let mut i: usize = 0;
        while i < self.fields.len()
            invariant
                i <= self.fields.len(),
                count == capped_ids(self.arity_upto(i as nat)),
            decreases self.fields.len() - i,
        {
            let more = self.fields[i].id_count();
            count = if count + more <= 0x1_0000 {
                count + more
            } else {
                0x1_0001
            };
            i += 1;
        }
        count
    }
}

} // verus!
