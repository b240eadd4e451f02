//! The value types that an attribute can have, and for each of them the
//! adapter between its native values and the index: which field it
//! registers, what it writes into a raw document, what it reads back.

use crate::document::{
    doc_add_bool, doc_add_bytes, doc_add_date, doc_add_facet, doc_add_float, doc_add_i64,
    doc_add_ip_addr, doc_add_text, doc_add_u64, doc_entries, doc_get_first, doc_payload,
    first_at, raw_value_of, Entry, RawValue, RawValueView, MAX_FIELD_ID, MAX_PAYLOAD,
};
use crate::formats::{
    decimal_bytes, decimal_from_bytes, decimal_parsed, decimal_parts_ok, decimal_rescaled,
    decimal_to_bytes, rescaled_mantissa, shed_digits, url_from_text, url_parsed, uuid_from_text,
    uuid_parsed, uuid_text, uuid_to_text, MAX_SCALE,
};
use crate::options::{FieldOptionSet, FieldOptions};
use crate::schema::{
    builder_added, builder_takes, register_bool, register_bytes, register_date, register_facet,
    register_float, register_i64, register_ip_addr, register_text, register_u64, FieldKind,
};
use tantivy::schema::{
    BytesOptions, DateOptions, FacetOptions, IpAddrOptions, NumericOptions, SchemaBuilder,
    TantivyDocument, TextOptions,
};
use vstd::prelude::*;

verus! {

/// Nanoseconds in a second.
pub const NANOS_PER_SECOND: i64 = 1_000_000_000;

/// Nanoseconds in a day.
pub const NANOS_PER_DAY: i64 = 86_400_000_000_000;

/// A date and time in UTC: whole seconds since the Unix epoch and the
/// nanoseconds into that second.
#[derive(Clone, Copy, Debug, PartialEq, Eq, Structural)]
pub struct UtcDateTime {
    pub seconds: i64,
    pub nanoseconds: u32,
}

/// A calendar date: days since 1970-01-01.
#[derive(Clone, Copy, Debug, PartialEq, Eq, Structural)]
pub struct CalendarDate {
    pub epoch_days: i32,
}

/// An instant: nanoseconds since the Unix epoch.
#[derive(Clone, Copy, Debug, PartialEq, Eq, Structural)]
pub struct Instant {
    pub nanoseconds: i128,
}

/// A fixed-point decimal: a magnitude of at most 96 bits over `10^scale`,
/// with a sign. Zero has a sign too.
#[derive(Clone, Copy, Debug, PartialEq, Eq, Structural)]
pub struct Decimal {
    pub negative: bool,
    pub magnitude: u128,
    pub scale: u32,
}

/// A decimal that is stored at the fixed scale `N`, as an integer.
#[derive(Clone, Copy, Debug)]
pub struct FixedDecimal<const N: u32>(pub Decimal);

impl UtcDateTime {
    /// Whether the nanoseconds are those of one second.
    pub open spec fn wf(self) -> bool {
        self.nanoseconds < NANOS_PER_SECOND
    }

    /// Nanoseconds since the epoch, as a mathematical integer.
    pub open spec fn total_nanos(self) -> int {
        self.seconds * NANOS_PER_SECOND + self.nanoseconds
    }

    /// The date and time that lies `nanos` nanoseconds from the epoch.
    pub open spec fn of_nanos(nanos: i64) -> UtcDateTime {
        UtcDateTime {
            seconds: (nanos as int / NANOS_PER_SECOND as int) as i64,
            nanoseconds: (nanos as int % NANOS_PER_SECOND as int) as u32,
        }
    }
}

impl CalendarDate {
    /// Nanoseconds from the epoch to this date's midnight.
    pub open spec fn total_nanos(self) -> int {
        self.epoch_days * NANOS_PER_DAY
    }

    /// The date that the instant `nanos` nanoseconds from the epoch falls
    /// on.
    pub open spec fn of_nanos(nanos: i64) -> CalendarDate {
        CalendarDate { epoch_days: (nanos as int / NANOS_PER_DAY as int) as i32 }
    }
}

impl Decimal {
    /// Whether the magnitude has at most 96 bits and the scale is at most
    /// 28.
    pub open spec fn wf(self) -> bool {
        decimal_parts_ok(self.magnitude as int, self.scale as nat)
    }

    /// The mantissa: the magnitude with the sign.
    pub open spec fn mantissa(self) -> int {
        if self.negative {
            -(self.magnitude as int)
        } else {
            self.magnitude as int
        }
    }

    /// The decimal of scale `scale` whose mantissa is `mantissa`.
    pub open spec fn of_mantissa(mantissa: int, scale: u32) -> Decimal {
        Decimal {
            negative: mantissa < 0,
            magnitude: (if mantissa < 0 {
                -mantissa
            } else {
                mantissa
            }) as u128,
            scale,
        }
    }
}

/// The mantissa of `d` at the scale `target`, where that is not above the
/// scale of `d`: `d`'s own at its own scale, else the one left after the
/// digits beyond `target` were shed.
pub open spec fn fixed_mantissa(d: Decimal, target: u32) -> int {
    if target == d.scale {
        d.mantissa()
    } else {
        shed_digits(d.mantissa(), (d.scale - target) as nat)
    }
}

/// Nanoseconds as the index stores them: `nanos` itself where 64 bits hold
/// it, zero where they do not.
pub open spec fn stored_nanos(nanos: int) -> i64 {
    if i64::MIN <= nanos <= i64::MAX {
        nanos as i64
    } else {
        0
    }
}

/// The value type of an attribute.
#[derive(Clone, Copy, Debug, PartialEq, Eq, Structural)]
pub enum ValueKind {
    Bool,
    U64,
    I64,
    F64,
    Text,
    Facet,
    IpAddr,
    Bytes,
    DateTime,
    Date,
    Timestamp,
    Decimal,
    /// A decimal stored as an integer, at the given scale.
    FixedDecimal(u32),
    Url,
    Uuid,
}

/// A native value of one of the value types.
///
/// A float is held as its order-preserving integer code, a facet as its
/// encoded path, an IP address and an identifier as their 128 bits, a URL
/// as its text.
#[derive(Clone, Debug, PartialEq, Eq)]
pub enum Value {
    Bool(bool),
    U64(u64),
    I64(i64),
    F64(u64),
    Text(String),
    Facet(String),
    IpAddr(u128),
    Bytes(Vec<u8>),
    DateTime(UtcDateTime),
    Date(CalendarDate),
    Timestamp(Instant),
    Decimal(Decimal),
    FixedDecimal(Decimal),
    Url(String),
    Uuid(u128),
}

/// Mathematical value of a [`Value`].
pub enum ValueView {
    Bool(bool),
    U64(u64),
    I64(i64),
    F64(u64),
    Text(Seq<char>),
    Facet(Seq<char>),
    IpAddr(u128),
    Bytes(Seq<u8>),
    DateTime(UtcDateTime),
    Date(CalendarDate),
    Timestamp(Instant),
    Decimal(Decimal),
    FixedDecimal(Decimal),
    Url(Seq<char>),
    Uuid(u128),
}

impl View for Value {
    type V = ValueView;

    open spec fn view(&self) -> ValueView {
        match self {
            Value::Bool(v) => ValueView::Bool(*v),
            Value::U64(v) => ValueView::U64(*v),
            Value::I64(v) => ValueView::I64(*v),
            Value::F64(v) => ValueView::F64(*v),
            Value::Text(s) => ValueView::Text(s@),
            Value::Facet(s) => ValueView::Facet(s@),
            Value::IpAddr(v) => ValueView::IpAddr(*v),
            Value::Bytes(b) => ValueView::Bytes(b@),
            Value::DateTime(v) => ValueView::DateTime(*v),
            Value::Date(v) => ValueView::Date(*v),
            Value::Timestamp(v) => ValueView::Timestamp(*v),
            Value::Decimal(v) => ValueView::Decimal(*v),
            Value::FixedDecimal(v) => ValueView::FixedDecimal(*v),
            Value::Url(s) => ValueView::Url(s@),
            Value::Uuid(v) => ValueView::Uuid(*v),
        }
    }
}

/// The mathematical value of an optional native value.
pub open spec fn opt_view(value: Option<Value>) -> Option<ValueView> {
    match value {
        Some(v) => Some(v@),
        None => None,
    }
}

impl ValueKind {
    /// Whether the type has an adapter. A fixed decimal has one for the
    /// scales that a decimal can have.
    pub open spec fn supported(self) -> bool {
        match self {
            ValueKind::FixedDecimal(scale) => scale <= MAX_SCALE,
            _ => true,
        }
    }

    /// The index field that an attribute of this type registers when it is
    /// declared with the intents `o`.
    ///
    /// A boolean field takes every intent of a numeric field but the
    /// coercion. Integers of either sign register the unsigned-integer field; the
    /// signed-integer field is that of a fixed decimal. The three temporal
    /// types share the date field, a decimal lies in a bytes field, an
    /// identifier and a URL in text fields.
    pub open spec fn field_kind(self, o: FieldOptionSet) -> FieldKind {
        match self {
            ValueKind::Bool => FieldKind::Bool(o.boolean()),
            ValueKind::U64 => FieldKind::U64(o.numeric()),
            ValueKind::I64 => FieldKind::U64(o.numeric()),
            ValueKind::F64 => FieldKind::F64(o.numeric()),
            ValueKind::Text => FieldKind::Text(o.text()),
            ValueKind::Facet => FieldKind::Facet(o.facet()),
            ValueKind::IpAddr => FieldKind::IpAddr(o.ip_addr()),
            ValueKind::Bytes => FieldKind::Bytes(o.bytes()),
            ValueKind::DateTime => FieldKind::Date(o.date()),
            ValueKind::Date => FieldKind::Date(o.date()),
            ValueKind::Timestamp => FieldKind::Date(o.date()),
            ValueKind::Decimal => FieldKind::Bytes(o.bytes()),
            ValueKind::FixedDecimal(_) => FieldKind::I64(o.numeric()),
            ValueKind::Url => FieldKind::Text(o.text()),
            ValueKind::Uuid => FieldKind::Text(o.text()),
        }
    }

    /// Whether `value` is a native value of this type. (A fixed decimal of
    /// an unsupported scale has no values.)
    pub open spec fn admits(self, value: ValueView) -> bool {
        match (self, value) {
            (ValueKind::Bool, ValueView::Bool(_)) => true,
            (ValueKind::U64, ValueView::U64(_)) => true,
            (ValueKind::I64, ValueView::I64(_)) => true,
            (ValueKind::F64, ValueView::F64(_)) => true,
            (ValueKind::Text, ValueView::Text(_)) => true,
            (ValueKind::Facet, ValueView::Facet(_)) => true,
            (ValueKind::IpAddr, ValueView::IpAddr(_)) => true,
            (ValueKind::Bytes, ValueView::Bytes(_)) => true,
            (ValueKind::DateTime, ValueView::DateTime(d)) => d.wf(),
            (ValueKind::Date, ValueView::Date(_)) => true,
            (ValueKind::Timestamp, ValueView::Timestamp(_)) => true,
            (ValueKind::Decimal, ValueView::Decimal(d)) => d.wf(),
            (ValueKind::FixedDecimal(scale), ValueView::FixedDecimal(d)) => d.wf() && scale
                <= MAX_SCALE,
            (ValueKind::Url, ValueView::Url(_)) => true,
            (ValueKind::Uuid, ValueView::Uuid(_)) => true,
            _ => false,
        }
    }

    /// What is written into a raw document for the native value `value`.
    ///
    /// The three temporal types are brought to nanoseconds since the epoch:
    /// a date and time that 64 bits of nanoseconds cannot hold is written as
    /// zero, as is a date whose midnight they cannot hold, and of an instant
    /// the low 64 bits are written. A decimal is written as its 16 bytes, a
    /// fixed decimal as the low 64 bits of its mantissa at the fixed scale,
    /// an identifier as its hyphenated text.
    pub open spec fn encode(self, value: ValueView) -> RawValueView {
        match value {
            ValueView::Bool(v) => RawValueView::Bool(v),
            ValueView::U64(v) => RawValueView::U64(v),
            ValueView::I64(v) => RawValueView::I64(v),
            ValueView::F64(v) => RawValueView::F64(v),
            ValueView::Text(s) => RawValueView::Str(s),
            ValueView::Facet(s) => RawValueView::Facet(s),
            ValueView::IpAddr(v) => RawValueView::IpAddr(v),
            ValueView::Bytes(b) => RawValueView::Bytes(b),
            ValueView::DateTime(d) => RawValueView::Date(stored_nanos(d.total_nanos())),
            ValueView::Date(d) => RawValueView::Date(stored_nanos(d.total_nanos())),
            ValueView::Timestamp(t) => RawValueView::Date(t.nanoseconds as i64),
            ValueView::Decimal(d) => RawValueView::Bytes(
                decimal_bytes(d.negative, d.magnitude as int, d.scale as nat),
            ),
            ValueView::FixedDecimal(d) => RawValueView::I64(
                (rescaled_mantissa(d.mantissa(), d.scale as nat, self.fixed_scale() as nat)
                    as i128) as i64,
            ),
            ValueView::Url(s) => RawValueView::Str(s),
            ValueView::Uuid(v) => RawValueView::Str(uuid_text(v)),
        }
    }

    /// The scale of a fixed decimal type; zero for the other types.
    pub open spec fn fixed_scale(self) -> u32 {
        match self {
            ValueKind::FixedDecimal(scale) => scale,
            _ => 0,
        }
    }

    /// The native value that a raw value stands for, if it stands for one of
    /// this type. A raw value of another kind stands for none, nor do bytes
    /// that are not the 16 of a decimal, nor a text that is no identifier or
    /// no URL.
    pub open spec fn decode(self, raw: RawValueView) -> Option<ValueView> {
        match (self, raw) {
            (ValueKind::Bool, RawValueView::Bool(v)) => Some(ValueView::Bool(v)),
            (ValueKind::U64, RawValueView::U64(v)) => Some(ValueView::U64(v)),
            (ValueKind::I64, RawValueView::I64(v)) => Some(ValueView::I64(v)),
            (ValueKind::F64, RawValueView::F64(v)) => Some(ValueView::F64(v)),
            (ValueKind::Text, RawValueView::Str(s)) => Some(ValueView::Text(s)),
            (ValueKind::Facet, RawValueView::Facet(s)) => Some(ValueView::Facet(s)),
            (ValueKind::IpAddr, RawValueView::IpAddr(v)) => Some(ValueView::IpAddr(v)),
            (ValueKind::Bytes, RawValueView::Bytes(b)) => Some(ValueView::Bytes(b)),
            (ValueKind::DateTime, RawValueView::Date(n)) => Some(
                ValueView::DateTime(UtcDateTime::of_nanos(n)),
            ),
            (ValueKind::Date, RawValueView::Date(n)) => Some(
                ValueView::Date(CalendarDate::of_nanos(n)),
            ),
            (ValueKind::Timestamp, RawValueView::Date(n)) => Some(
                ValueView::Timestamp(Instant { nanoseconds: n as i128 }),
            ),
            (ValueKind::Decimal, RawValueView::Bytes(b)) => if b.len() == 16 {
                Some(
                    ValueView::Decimal(
                        Decimal {
                            negative: decimal_parsed(b).0,
                            magnitude: decimal_parsed(b).1 as u128,
                            scale: decimal_parsed(b).2 as u32,
                        },
                    ),
                )
            } else {
                None
            },
            (ValueKind::FixedDecimal(scale), RawValueView::I64(v)) => Some(
                ValueView::FixedDecimal(Decimal::of_mantissa(v as int, scale)),
            ),
            (ValueKind::Url, RawValueView::Str(s)) => match url_parsed(s) {
                Some(url) => Some(ValueView::Url(url)),
                None => None,
            },
            (ValueKind::Uuid, RawValueView::Str(s)) => match uuid_parsed(s) {
                Some(bits) => Some(ValueView::Uuid(bits)),
                None => None,
            },
            _ => None,
        }
    }

    /// An upper bound on the payload that `value` takes in a raw document.
    pub open spec fn cost(self, value: ValueView) -> nat {
        match value {
            ValueView::Text(s) => 4 * s.len() + 5,
            ValueView::Facet(s) => 4 * s.len() + 5,
            ValueView::Url(s) => 4 * s.len() + 5,
            ValueView::Bytes(b) => b.len() + 5,
            ValueView::Uuid(_) => 149,
            ValueView::Decimal(_) => 21,
            _ => 16,
        }
    }

    /// The number of field ids that an attribute of this type occupies.
    pub open spec fn arity(self) -> nat {
        1
    }
}

/// Nanoseconds since the epoch of `d`, as the index stores them.
fn datetime_nanos(d: &UtcDateTime) -> (n: i64)
    ensures
        n == stored_nanos(d.total_nanos()),
{
    let total: i128 = (d.seconds as i128) * 1_000_000_000 + (d.nanoseconds as i128);
    if -9_223_372_036_854_775_808 <= total && total <= 9_223_372_036_854_775_807 {
        total as i64
    } else {
        0
    }
}

/// Nanoseconds from the epoch to the midnight of `d`, as the index stores
/// them.
fn date_nanos(d: &CalendarDate) -> (n: i64)
    ensures
        n == stored_nanos(d.total_nanos()),
{
    let total: i128 = (d.epoch_days as i128) * 86_400_000_000_000;
    if -9_223_372_036_854_775_808 <= total && total <= 9_223_372_036_854_775_807 {
        total as i64
    } else {
        0
    }
}

/// The date and time that lies `nanos` nanoseconds from the epoch.
fn datetime_of_nanos(nanos: i64) -> (d: UtcDateTime)
    ensures
        d == UtcDateTime::of_nanos(nanos),
        d.wf(),
{
    // Shifted by a whole number of seconds, the count is not negative and
    // the division rounds down.
    let shifted: i128 = (nanos as i128) + 9_223_372_037_000_000_000;
    let seconds: i128 = shifted / 1_000_000_000 - 9_223_372_037;
    let nanoseconds: i128 = shifted % 1_000_000_000;
    UtcDateTime { seconds: seconds as i64, nanoseconds: nanoseconds as u32 }
}

/// The date that the instant `nanos` nanoseconds from the epoch falls on.
fn date_of_nanos(nanos: i64) -> (d: CalendarDate)
    ensures
        d == CalendarDate::of_nanos(nanos),
{
    // Shifted by a whole number of days, the count is not negative and the
    // division rounds down.
    let shifted: i128 = (nanos as i128) + 9_223_372_800_000_000_000;
    let days: i128 = shifted / 86_400_000_000_000 - 106_752;
    CalendarDate { epoch_days: days as i32 }
}

impl ValueKind {
    /// The number of field ids that an attribute of this type occupies.
    pub fn count_fields(&self) -> (n: u32)
        ensures
            n == self.arity(),
    {
        1
    }

    /// Registers the index field of an attribute of this type.
    pub fn add_field(&self, builder: &mut SchemaBuilder, name: &str, options: FieldOptions)
        requires
            builder_takes(*old(builder), name@),
        ensures
            builder_added(*old(builder), *final(builder), name@, self.field_kind(options@)),
    {
        match self {
            ValueKind::Bool => register_bool(builder, name, options.boolean_options()),
            ValueKind::U64 => register_u64(builder, name, NumericOptions::from(options)),
            ValueKind::I64 => register_u64(builder, name, NumericOptions::from(options)),
            ValueKind::F64 => register_float(builder, name, NumericOptions::from(options)),
            ValueKind::Text => register_text(builder, name, TextOptions::from(options)),
            ValueKind::Facet => register_facet(builder, name, FacetOptions::from(options)),
            ValueKind::IpAddr => register_ip_addr(builder, name, IpAddrOptions::from(options)),
            ValueKind::Bytes => register_bytes(builder, name, BytesOptions::from(options)),
            ValueKind::DateTime => register_date(builder, name, DateOptions::from(options)),
            ValueKind::Date => register_date(builder, name, DateOptions::from(options)),
            ValueKind::Timestamp => register_date(builder, name, DateOptions::from(options)),
            ValueKind::Decimal => register_bytes(builder, name, BytesOptions::from(options)),
            ValueKind::FixedDecimal(_) => register_i64(builder, name, NumericOptions::from(options)),
            ValueKind::Url => register_text(builder, name, TextOptions::from(options)),
            ValueKind::Uuid => register_text(builder, name, TextOptions::from(options)),
        }
    }

    /// Writes one native value into a raw document, under `field_id`.
    pub fn insert_into_document(
        &self,
        document: &mut TantivyDocument,
        field_id: u32,
        value: &Value,
    )
        requires
            self.admits(value@),
            field_id <= MAX_FIELD_ID,
            doc_payload(*old(document)) + self.cost(value@) <= MAX_PAYLOAD,
        ensures
            doc_entries(*final(document)) == doc_entries(*old(document)).push(
                Entry { field: field_id, value: self.encode(value@) },
            ),
            doc_payload(*final(document)) <= doc_payload(*old(document)) + self.cost(value@),
            self.faithful(value@) ==> self.reads_back(value@),
            value@ matches ValueView::FixedDecimal(d) ==> (self.fixed_scale() <= d.scale
                ==> self.encode(value@) == RawValueView::I64(
                (fixed_mantissa(d, self.fixed_scale()) as i128) as i64,
            )),
    {
        match value {
            Value::Bool(v) => doc_add_bool(document, field_id, *v),
            Value::U64(v) => doc_add_u64(document, field_id, *v),
            Value::I64(v) => doc_add_i64(document, field_id, *v),
            Value::F64(v) => doc_add_float(document, field_id, *v),
            Value::Text(s) => doc_add_text(document, field_id, s.as_str()),
            Value::Facet(s) => doc_add_facet(document, field_id, s.as_str()),
            Value::IpAddr(v) => doc_add_ip_addr(document, field_id, *v),
            Value::Bytes(b) => doc_add_bytes(document, field_id, b),
            Value::DateTime(d) => doc_add_date(document, field_id, datetime_nanos(d)),
            Value::Date(d) => doc_add_date(document, field_id, date_nanos(d)),
            Value::Timestamp(t) => {
                let nanos = #[verifier::truncate]
                (t.nanoseconds as i64);
                doc_add_date(document, field_id, nanos)
            },
            Value::Decimal(d) => {
                let bytes = decimal_to_bytes(d.negative, d.magnitude, d.scale);
                doc_add_bytes(document, field_id, &bytes)
            },
            Value::FixedDecimal(d) => {
                let scale = match self {
                    ValueKind::FixedDecimal(scale) => *scale,
                    _ => 0,
                };
                let mantissa = decimal_rescaled(d.signed(), d.scale, scale);
                let stored = #[verifier::truncate]
                (mantissa as i64);
                doc_add_i64(document, field_id, stored)
            },
            Value::Url(s) => doc_add_text(document, field_id, s.as_str()),
            Value::Uuid(v) => {
                let text = uuid_to_text(*v);
                doc_add_text(document, field_id, text.as_str())
            },
        }
    }

    /// The native value that a raw value stands for, if any.
    pub fn map_value(&self, raw: &RawValue) -> (r: Option<Value>)
        ensures
            opt_view(r) == self.decode(raw@),
    {
        match (self, raw) {
            (ValueKind::Bool, RawValue::Bool(v)) => Some(Value::Bool(*v)),
            (ValueKind::U64, RawValue::U64(v)) => Some(Value::U64(*v)),
            (ValueKind::I64, RawValue::I64(v)) => Some(Value::I64(*v)),
            (ValueKind::F64, RawValue::F64(v)) => Some(Value::F64(*v)),
            (ValueKind::Text, RawValue::Str(s)) => Some(Value::Text(s.clone())),
            (ValueKind::Facet, RawValue::Facet(s)) => Some(Value::Facet(s.clone())),
            (ValueKind::IpAddr, RawValue::IpAddr(v)) => Some(Value::IpAddr(*v)),
            (ValueKind::Bytes, RawValue::Bytes(b)) => Some(Value::Bytes(b.clone())),
            (ValueKind::DateTime, RawValue::Date(n)) => Some(Value::DateTime(datetime_of_nanos(*n))),
            (ValueKind::Date, RawValue::Date(n)) => Some(Value::Date(date_of_nanos(*n))),
            (ValueKind::Timestamp, RawValue::Date(n)) => Some(
                Value::Timestamp(Instant { nanoseconds: *n as i128 }),
            ),
            (ValueKind::Decimal, RawValue::Bytes(b)) => {
                if b.len() != 16 {
                    None
                } else {
                    let parts = decimal_from_bytes(b);
                    Some(
                        Value::Decimal(
                            Decimal { negative: parts.0, magnitude: parts.1, scale: parts.2 },
                        ),
                    )
                }
            },
            (ValueKind::FixedDecimal(scale), RawValue::I64(v)) => Some(
                Value::FixedDecimal(Decimal::from_integer(*v, *scale)),
            ),
            (ValueKind::Url, RawValue::Str(s)) => match url_from_text(s.as_str()) {
                Some(url) => Some(Value::Url(url)),
                None => None,
            },
            (ValueKind::Uuid, RawValue::Str(s)) => match uuid_from_text(s.as_str()) {
                Some(bits) => Some(Value::Uuid(bits)),
                None => None,
            },
            _ => None,
        }
    }

    /// The native value that the first raw value under `field_id` stands
    /// for; none where the document has no value there, or one that stands
    /// for no value of this type.
    pub fn extract_from_document(&self, document: &TantivyDocument, field_id: u32) -> (r: Option<
        Value,
    >)
        ensures
            opt_view(r) == (match first_at(doc_entries(*document), field_id) {
                Some(raw) => self.decode(raw),
                None => None,
            }),
    {
        match doc_get_first(document, field_id) {
            Some(owned) => {
                let raw = raw_value_of(&owned);
                self.map_value(&raw)
            },
            None => None,
        }
    }
}

impl Decimal {
    /// The decimal `mantissa / 10^scale`, where there is one: the mantissa
    /// has at most 96 bits and the scale is at most 28.
    pub fn new(mantissa: i128, scale: u32) -> (r: Option<Decimal>)
        ensures
            r is Some == decimal_parts_ok(mantissa as int, scale as nat),
            r matches Some(d) ==> d == Decimal::of_mantissa(mantissa as int, scale) && d.wf()
                && d.mantissa() == mantissa,
    {
        if -0xffff_ffff_ffff_ffff_ffff_ffff <= mantissa && mantissa
            <= 0xffff_ffff_ffff_ffff_ffff_ffff && scale <= 28 {
            if mantissa < 0 {
                Some(Decimal { negative: true, magnitude: (-mantissa) as u128, scale })
            } else {
                Some(Decimal { negative: false, magnitude: mantissa as u128, scale })
            }
        } else {
            None
        }
    }

    /// The decimal of scale `scale` whose mantissa is the integer `value`.
    pub fn from_integer(value: i64, scale: u32) -> (d: Decimal)
        ensures
            d == Decimal::of_mantissa(value as int, scale),
            d.mantissa() == value,
    {
        if value < 0 {
            Decimal { negative: true, magnitude: (-(value as i128)) as u128, scale }
        } else {
            Decimal { negative: false, magnitude: value as u128, scale }
        }
    }

    /// The mantissa: the magnitude with the sign.
    pub fn signed(&self) -> (mantissa: i128)
        requires
            self.wf(),
        ensures
            mantissa == self.mantissa(),
    {
        if self.negative {
            -(self.magnitude as i128)
        } else {
            self.magnitude as i128
        }
    }

    /// Whether the magnitude has at most 96 bits and the scale is at most
    /// 28.
    pub fn is_wf(&self) -> (r: bool)
        ensures
            r == self.wf(),
    {
        self.magnitude <= 0xffff_ffff_ffff_ffff_ffff_ffff && self.scale <= 28
    }
}

impl<const N: u32> FixedDecimal<N> {
    /// The value type of a decimal stored at scale `N`.
    pub fn kind() -> (kind: ValueKind)
        ensures
            kind == ValueKind::FixedDecimal(N),
    {
        ValueKind::FixedDecimal(N)
    }

    /// The decimal as a native value of that type.
    pub fn value(&self) -> (value: Value)
        ensures
            value@ == ValueView::FixedDecimal(self.0),
    {
        Value::FixedDecimal(self.0)
    }

    /// Registers the signed-integer field that holds the decimals.
    pub fn add_field(builder: &mut SchemaBuilder, name: &str, options: FieldOptions)
        requires
            builder_takes(*old(builder), name@),
        ensures
            builder_added(
                *old(builder),
                *final(builder),
                name@,
                FieldKind::I64(options@.numeric()),
            ),
    {
        ValueKind::FixedDecimal(N).add_field(builder, name, options)
    }

    /// The number of field ids that a fixed decimal occupies.
    pub fn count_fields() -> (n: u32)
        ensures
            n == 1,
    {
        1
    }

    /// Writes the decimal, rounded to scale `N`, as the low 64 bits of its
    /// mantissa at that scale.
    pub fn insert_into_document(document: &mut TantivyDocument, field_id: u32, value: &Self)
        requires
            value.0.wf(),
            N <= MAX_SCALE,
            field_id <= MAX_FIELD_ID,
            doc_payload(*old(document)) + 16 <= MAX_PAYLOAD,
        ensures
            doc_entries(*final(document)) == doc_entries(*old(document)).push(
                Entry {
                    field: field_id,
                    value: ValueKind::FixedDecimal(N).encode(ValueView::FixedDecimal(value.0)),
                },
            ),
            doc_payload(*final(document)) <= doc_payload(*old(document)) + 16,
            N <= value.0.scale ==> doc_entries(*final(document)) == doc_entries(
                *old(document),
            ).push(
                Entry {
                    field: field_id,
                    value: RawValueView::I64((fixed_mantissa(value.0, N) as i128) as i64),
                },
            ),
    {
        ValueKind::FixedDecimal(N).insert_into_document(document, field_id, &value.value())
    }

    /// The decimal of scale `N` whose mantissa a stored integer is; none
    /// for a raw value that is no signed integer.
    pub fn map_value(raw: &RawValue) -> (r: Option<Self>)
        ensures
            match r {
                Some(fixed) => raw@ matches RawValueView::I64(v) && fixed.0 == Decimal::of_mantissa(
                    v as int,
                    N,
                ),
                None => !(raw@ is I64),
            },
    {
        match raw {
            RawValue::I64(v) => Some(FixedDecimal(Decimal::from_integer(*v, N))),
            _ => None,
        }
    }
}

impl Value {
    /// The URL that `text` is read as, in its serialized form; none where
    /// the text is no URL.
    pub fn url(text: &str) -> (r: Option<Value>)
        ensures
            opt_view(r) == ValueKind::Url.decode(RawValueView::Str(text@)),
    {
        match url_from_text(text) {
            Some(url) => Some(Value::Url(url)),
            None => None,
        }
    }

    /// The identifier that `text` is read as; none where the text is no
    /// identifier.
    pub fn uuid(text: &str) -> (r: Option<Value>)
        ensures
            opt_view(r) == ValueKind::Uuid.decode(RawValueView::Str(text@)),
    {
        match uuid_from_text(text) {
            Some(bits) => Some(Value::Uuid(bits)),
            None => None,
        }
    }
}

impl ValueKind {
    /// Whether `value` is a native value of this type.
    pub fn accepts(&self, value: &Value) -> (r: bool)
        ensures
            r == self.admits(value@),
    {
        match (self, value) {
            (ValueKind::Bool, Value::Bool(_)) => true,
            (ValueKind::U64, Value::U64(_)) => true,
            (ValueKind::I64, Value::I64(_)) => true,
            (ValueKind::F64, Value::F64(_)) => true,
            (ValueKind::Text, Value::Text(_)) => true,
            (ValueKind::Facet, Value::Facet(_)) => true,
            (ValueKind::IpAddr, Value::IpAddr(_)) => true,
            (ValueKind::Bytes, Value::Bytes(_)) => true,
            (ValueKind::DateTime, Value::DateTime(d)) => d.nanoseconds < 1_000_000_000,
            (ValueKind::Date, Value::Date(_)) => true,
            (ValueKind::Timestamp, Value::Timestamp(_)) => true,
            (ValueKind::Decimal, Value::Decimal(d)) => d.is_wf(),
            (ValueKind::FixedDecimal(scale), Value::FixedDecimal(d)) => d.is_wf() && *scale <= 28,
            (ValueKind::Url, Value::Url(_)) => true,
            (ValueKind::Uuid, Value::Uuid(_)) => true,
            _ => false,
        }
    }
}

} // verus!
