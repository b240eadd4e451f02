//! The raw document of the index: a list of values, each filed under a
//! numeric field id, in the order in which they were added. The document is
//! tantivy's; this module names what it holds and states what each of its
//! methods does to that.

use tantivy::schema::{Facet, Field, OwnedValue, TantivyDocument};
use tantivy::{f64_to_u64, u64_to_f64};
use vstd::prelude::*;

verus! {

/// One primitive value of a raw document.
///
/// A float stands here as the integer that tantivy orders it by (its
/// `f64_to_u64` code), a date as nanoseconds since the Unix epoch, a facet
/// as its encoded path (the segments separated by U+0000), an IP address as
/// the 128 bits of its IPv6 form. Composite values are told apart, not
/// looked into.
#[derive(Debug, Clone, PartialEq, Eq)]
pub enum RawValue {
    Null,
    Str(String),
    U64(u64),
    I64(i64),
    F64(u64),
    Bool(bool),
    Date(i64),
    Facet(String),
    Bytes(Vec<u8>),
    IpAddr(u128),
    Composite,
}

/// Mathematical value of a [`RawValue`].
pub enum RawValueView {
    Null,
    Str(Seq<char>),
    U64(u64),
    I64(i64),
    F64(u64),
    Bool(bool),
    Date(i64),
    Facet(Seq<char>),
    Bytes(Seq<u8>),
    IpAddr(u128),
    Composite,
}

impl View for RawValue {
    type V = RawValueView;

    open spec fn view(&self) -> RawValueView {
        match self {
            RawValue::Null => RawValueView::Null,
            RawValue::Str(s) => RawValueView::Str(s@),
            RawValue::U64(v) => RawValueView::U64(*v),
            RawValue::I64(v) => RawValueView::I64(*v),
            RawValue::F64(v) => RawValueView::F64(*v),
            RawValue::Bool(v) => RawValueView::Bool(*v),
            RawValue::Date(v) => RawValueView::Date(*v),
            RawValue::Facet(s) => RawValueView::Facet(s@),
            RawValue::Bytes(b) => RawValueView::Bytes(b@),
            RawValue::IpAddr(v) => RawValueView::IpAddr(*v),
            RawValue::Composite => RawValueView::Composite,
        }
    }
}

/// A value together with the field id it is filed under.
pub struct Entry {
    pub field: u32,
    pub value: RawValueView,
}

/// The largest field id that a raw document can file a value under.
pub const MAX_FIELD_ID: u32 = 0xffff;

/// The largest payload, in bytes, that a raw document can address.
pub const MAX_PAYLOAD: u64 = 0xffff_ffff;

impl RawValueView {
    /// An upper bound on the payload bytes that this value takes in a raw
    /// document: a text of `n` characters takes at most `4 * n` bytes and a
    /// length prefix of at most 5; a number takes at most 16.
    pub open spec fn cost(self) -> nat {
        match self {
            RawValueView::Str(s) => 4 * s.len() + 5,
            RawValueView::Facet(s) => 4 * s.len() + 5,
            RawValueView::Bytes(b) => b.len() + 5,
            _ => 16,
        }
    }
}

/// The values of `entries` that are filed under `field`, in their order.
pub open spec fn all_at(entries: Seq<Entry>, field: u32) -> Seq<RawValueView>
    decreases entries.len(),
{
    if entries.len() == 0 {
        Seq::empty()
    } else if entries.last().field == field {
        all_at(entries.drop_last(), field).push(entries.last().value)
    } else {
        all_at(entries.drop_last(), field)
    }
}

/// The first value of `entries` that is filed under `field`.
pub open spec fn first_at(entries: Seq<Entry>, field: u32) -> Option<RawValueView> {
    if all_at(entries, field).len() > 0 {
        Some(all_at(entries, field)[0])
    } else {
        None
    }
}

#[verifier::external_type_specification]
#[verifier::external_body]
pub struct ExTantivyDocument(TantivyDocument);

#[verifier::external_type_specification]
#[verifier::external_body]
pub struct ExOwnedValue(OwnedValue);

/// The values that a document holds, in the order of its `field_values()`.
pub uninterp spec fn doc_entries(doc: TantivyDocument) -> Seq<Entry>;

/// The length in bytes of a document's payload buffer (`node_data`).
pub uninterp spec fn doc_payload(doc: TantivyDocument) -> nat;

/// What an `OwnedValue` holds.
pub uninterp spec fn owned_value_view(value: OwnedValue) -> RawValueView;

/// Whether a document has room for one more value of cost `cost` under
/// `field`: the id fits its 16 bits, the payload its 32-bit addresses.
pub open spec fn doc_takes(doc: TantivyDocument, field: u32, cost: nat) -> bool {
    field <= MAX_FIELD_ID && doc_payload(doc) + cost <= MAX_PAYLOAD
}

/// What a document is after `value` was added to `old` under `field`.
pub open spec fn doc_added(
    old: TantivyDocument,
    new: TantivyDocument,
    field: u32,
    value: RawValueView,
) -> bool {
    &&& doc_entries(new) == doc_entries(old).push(Entry { field, value })
    &&& doc_payload(new) <= doc_payload(old) + value.cost()
}

/// `TantivyDocument::new()`: a document without values, its payload empty.
#[verifier::external_body]
pub(crate) fn doc_new() -> (doc: TantivyDocument)
    ensures
        doc_entries(doc) == Seq::<Entry>::empty(),
        doc_payload(doc) == 0,
{
    TantivyDocument::new()
}

/// `add_bool`: appends the value; a boolean lives in its address and takes
/// no payload. The id must fit 16 bits, else the call panics.
#[verifier::external_body]
pub(crate) fn doc_add_bool(doc: &mut TantivyDocument, field: u32, value: bool)
    requires
        doc_takes(*old(doc), field, RawValueView::Bool(value).cost()),
    ensures
        doc_added(*old(doc), *final(doc), field, RawValueView::Bool(value)),
{
    doc.add_bool(Field::from_field_id(field), value);
}

/// `add_u64`: appends the value, 8 bytes of payload.
#[verifier::external_body]
pub(crate) fn doc_add_u64(doc: &mut TantivyDocument, field: u32, value: u64)
    requires
        doc_takes(*old(doc), field, RawValueView::U64(value).cost()),
    ensures
        doc_added(*old(doc), *final(doc), field, RawValueView::U64(value)),
{
    doc.add_u64(Field::from_field_id(field), value);
}

/// `add_i64`: appends the value, 8 bytes of payload.
#[verifier::external_body]
pub(crate) fn doc_add_i64(doc: &mut TantivyDocument, field: u32, value: i64)
    requires
        doc_takes(*old(doc), field, RawValueView::I64(value).cost()),
    ensures
        doc_added(*old(doc), *final(doc), field, RawValueView::I64(value)),
{
    doc.add_i64(Field::from_field_id(field), value);
}

/// `add_f64` on the float that `u64_to_f64` gives for `code`: appends it, 8
/// bytes of payload. `f64_to_u64` maps the stored float back to `code`.
#[verifier::external_body]
pub(crate) fn doc_add_float(doc: &mut TantivyDocument, field: u32, code: u64)
    requires
        doc_takes(*old(doc), field, RawValueView::F64(code).cost()),
    ensures
        doc_added(*old(doc), *final(doc), field, RawValueView::F64(code)),
{
    doc.add_f64(Field::from_field_id(field), u64_to_f64(code));
}

/// `add_date` on the date of `nanos` nanoseconds since the epoch: appends
/// it, 8 bytes of payload.
#[verifier::external_body]
pub(crate) fn doc_add_date(doc: &mut TantivyDocument, field: u32, nanos: i64)
    requires
        doc_takes(*old(doc), field, RawValueView::Date(nanos).cost()),
    ensures
        doc_added(*old(doc), *final(doc), field, RawValueView::Date(nanos)),
{
    doc.add_date(Field::from_field_id(field), tantivy::DateTime::from_timestamp_nanos(nanos));
}

/// `add_ip_addr` on the IPv6 address of these 128 bits: appends it, 16
/// bytes of payload.
#[verifier::external_body]
pub(crate) fn doc_add_ip_addr(doc: &mut TantivyDocument, field: u32, bits: u128)
    requires
        doc_takes(*old(doc), field, RawValueView::IpAddr(bits).cost()),
    ensures
        doc_added(*old(doc), *final(doc), field, RawValueView::IpAddr(bits)),
{
    doc.add_ip_addr(Field::from_field_id(field), bits.into());
}

/// `add_text`: appends the text, its UTF-8 bytes behind a length prefix.
#[verifier::external_body]
pub(crate) fn doc_add_text(doc: &mut TantivyDocument, field: u32, text: &str)
    requires
        doc_takes(*old(doc), field, RawValueView::Str(text@).cost()),
    ensures
        doc_added(*old(doc), *final(doc), field, RawValueView::Str(text@)),
{
    doc.add_text(Field::from_field_id(field), text);
}

/// `add_bytes`: appends the bytes behind a length prefix.
#[verifier::external_body]
pub(crate) fn doc_add_bytes(doc: &mut TantivyDocument, field: u32, bytes: &Vec<u8>)
    requires
        doc_takes(*old(doc), field, RawValueView::Bytes(bytes@).cost()),
    ensures
        doc_added(*old(doc), *final(doc), field, RawValueView::Bytes(bytes@)),
{
    doc.add_bytes(Field::from_field_id(field), bytes.as_slice());
}

/// `add_facet` on the facet that `Facet::from_encoded` makes of the encoded
/// path (any text is one): appends it, stored as that same text behind a
/// length prefix.
#[verifier::external_body]
pub(crate) fn doc_add_facet(doc: &mut TantivyDocument, field: u32, encoded: &str)
    requires
        doc_takes(*old(doc), field, RawValueView::Facet(encoded@).cost()),
    ensures
        doc_added(*old(doc), *final(doc), field, RawValueView::Facet(encoded@)),
{
    if let Ok(facet) = Facet::from_encoded(encoded.as_bytes().to_vec()) {
        doc.add_facet(Field::from_field_id(field), facet);
    }
}

/// `get_first`: the first value filed under `field`, if there is one.
#[verifier::external_body]
pub(crate) fn doc_get_first(doc: &TantivyDocument, field: u32) -> (r: Option<OwnedValue>)
    ensures
        match r {
            Some(value) => first_at(doc_entries(*doc), field) == Some(owned_value_view(value)),
            None => first_at(doc_entries(*doc), field) is None,
        },
{
    doc.get_first(Field::from_field_id(field)).map(|value| value.into())
}

/// `get_all`: the values filed under `field`, in the order they were added.
#[verifier::external_body]
pub(crate) fn doc_get_all(doc: &TantivyDocument, field: u32) -> (r: Vec<OwnedValue>)
    ensures
        r@.map_values(|value: OwnedValue| owned_value_view(value)) == all_at(
            doc_entries(*doc),
            field,
        ),
{
    doc.get_all(Field::from_field_id(field)).map(|value| value.into()).collect()
}

/// Takes an `OwnedValue` apart, one variant at a time.
#[verifier::external_body]
pub(crate) fn raw_value_of(value: &OwnedValue) -> (r: RawValue)
    ensures
        r@ == owned_value_view(*value),
{
    match value {
        OwnedValue::Null => RawValue::Null,
        OwnedValue::Str(text) => RawValue::Str(text.clone()),
        OwnedValue::U64(v) => RawValue::U64(*v),
        OwnedValue::I64(v) => RawValue::I64(*v),
        OwnedValue::F64(v) => RawValue::F64(f64_to_u64(*v)),
        OwnedValue::Bool(v) => RawValue::Bool(*v),
        OwnedValue::Date(v) => RawValue::Date(v.into_timestamp_nanos()),
        OwnedValue::Facet(v) => RawValue::Facet(v.encoded_str().to_string()),
        OwnedValue::Bytes(v) => RawValue::Bytes(v.clone()),
        OwnedValue::IpAddr(v) => RawValue::IpAddr((*v).into()),
        OwnedValue::PreTokStr(_) | OwnedValue::Array(_) | OwnedValue::Object(_) => {
            RawValue::Composite
        },
    }
}

} // verus!
