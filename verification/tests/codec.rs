use tantivy::schema::{Field, OwnedValue, TantivyDocument, Value as _};
use tantivy_record::document::RawValue;
use tantivy_record::kinds::{
    CalendarDate, Decimal, FixedDecimal, Instant, UtcDateTime, Value, ValueKind,
};
use tantivy_record::layout::{FieldLayout, LogicalField, TypeDescriptor};
use tantivy_record::options::FieldOptions;
use tantivy_record::record::{FieldValue, RecordValue};

fn field(name: &str, type_descriptor: TypeDescriptor, stored: bool) -> LogicalField {
    let mut options = FieldOptions::default();
    options.set_stored(stored);
    LogicalField { name: name.to_string(), type_descriptor, options }
}

fn scalar(name: &str, kind: ValueKind, stored: bool) -> LogicalField {
    field(name, TypeDescriptor::Scalar(kind), stored)
}

fn text(s: &str) -> FieldValue {
    FieldValue::Scalar(Value::Text(s.to_string()))
}

fn all_at(document: &TantivyDocument, id: u32) -> Vec<OwnedValue> {
    document.get_all(Field::from_field_id(id)).map(|v| v.into()).collect()
}

fn round_trip_of(kind: ValueKind, value: Value) -> Option<RecordValue> {
    let layout = FieldLayout { fields: vec![scalar("x", kind, true)] };
    let record = RecordValue { fields: vec![FieldValue::Scalar(value)] };
    let document = layout.to_raw_document(&record);
    layout.from_raw_document(&document)
}

fn reads_back(kind: ValueKind, value: Value) -> bool {
    let expected = RecordValue { fields: vec![FieldValue::Scalar(value.clone())] };
    round_trip_of(kind, value) == Some(expected)
}

#[test]
fn text_and_stored_text() {
    let layout = FieldLayout {
        fields: vec![
            scalar("body", ValueKind::Text, false),
            scalar("title", ValueKind::Text, true),
        ],
    };
    let record = RecordValue { fields: vec![text("the quick fox"), text("Fox Story")] };
    let document = layout.to_raw_document(&record);
    assert_eq!(all_at(&document, 0), vec![OwnedValue::Str("the quick fox".to_string())]);
    assert_eq!(all_at(&document, 1), vec![OwnedValue::Str("Fox Story".to_string())]);
    assert_eq!(document.len(), 2);
    let stored = layout.from_raw_document(&document).unwrap();
    assert_eq!(stored, RecordValue { fields: vec![text("Fox Story")] });
}

#[test]
fn an_absent_optional_writes_nothing_and_reads_as_absent() {
    let layout = FieldLayout {
        fields: vec![
            field("maybe", TypeDescriptor::Optional(ValueKind::U64), true),
            scalar("count", ValueKind::U64, true),
        ],
    };
    let record = RecordValue {
        fields: vec![FieldValue::Optional(None), FieldValue::Scalar(Value::U64(7))],
    };
    let document = layout.to_raw_document(&record);
    assert!(all_at(&document, 0).is_empty());
    assert_eq!(all_at(&document, 1), vec![OwnedValue::U64(7)]);
    assert_eq!(layout.from_raw_document(&document), Some(record));
}

#[test]
fn a_present_optional_round_trips() {
    let layout = FieldLayout {
        fields: vec![field("maybe", TypeDescriptor::Optional(ValueKind::U64), true)],
    };
    let record = RecordValue { fields: vec![FieldValue::Optional(Some(Value::U64(3)))] };
    let document = layout.to_raw_document(&record);
    assert_eq!(all_at(&document, 0), vec![OwnedValue::U64(3)]);
    assert_eq!(layout.from_raw_document(&document), Some(record));
}

#[test]
fn an_optional_of_another_kind_reads_as_absent() {
    let layout = FieldLayout {
        fields: vec![field("maybe", TypeDescriptor::Optional(ValueKind::U64), true)],
    };
    let mut document = TantivyDocument::new();
    document.add_text(Field::from_field_id(0), "seven");
    assert_eq!(
        layout.from_raw_document(&document),
        Some(RecordValue { fields: vec![FieldValue::Optional(None)] })
    );
}

#[test]
fn a_missing_required_field_fails_the_whole_read() {
    let layout = FieldLayout {
        fields: vec![
            scalar("a", ValueKind::U64, true),
            scalar("b", ValueKind::U64, true),
        ],
    };
    let mut document = TantivyDocument::new();
    document.add_u64(Field::from_field_id(0), 1);
    assert_eq!(layout.from_raw_document(&document), None);
    document.add_text(Field::from_field_id(1), "two");
    assert_eq!(layout.from_raw_document(&document), None);
}

#[test]
fn an_unstored_field_may_be_missing() {
    let layout = FieldLayout {
        fields: vec![
            scalar("a", ValueKind::U64, false),
            scalar("b", ValueKind::U64, true),
            scalar("c", ValueKind::Text, false),
        ],
    };
    let mut document = TantivyDocument::new();
    document.add_u64(Field::from_field_id(1), 5);
    let stored = layout.from_raw_document(&document).unwrap();
    assert_eq!(stored, RecordValue { fields: vec![FieldValue::Scalar(Value::U64(5))] });
    document.add_text(Field::from_field_id(0), "not a number");
    document.add_u64(Field::from_field_id(2), 9);
    assert_eq!(layout.from_raw_document(&document), Some(stored));
}

#[test]
fn the_first_value_under_an_id_is_the_scalar() {
    let layout = FieldLayout { fields: vec![scalar("a", ValueKind::U64, true)] };
    let mut document = TantivyDocument::new();
    document.add_u64(Field::from_field_id(0), 1);
    document.add_u64(Field::from_field_id(0), 2);
    assert_eq!(
        layout.from_raw_document(&document),
        Some(RecordValue { fields: vec![FieldValue::Scalar(Value::U64(1))] })
    );
}

#[test]
fn repeated_elements_share_one_id_and_later_fields_stay_aligned() {
    let layout = FieldLayout {
        fields: vec![
            field("tags", TypeDescriptor::Repeated(ValueKind::Text), true),
            scalar("count", ValueKind::U64, true),
            field("more", TypeDescriptor::Repeated(ValueKind::U64), true),
            scalar("last", ValueKind::Text, true),
        ],
    };
    let record = RecordValue {
        fields: vec![
            FieldValue::Repeated(vec![
                Value::Text("a".to_string()),
                Value::Text("b".to_string()),
                Value::Text("c".to_string()),
            ]),
            FieldValue::Scalar(Value::U64(7)),
            FieldValue::Repeated(vec![]),
            text("end"),
        ],
    };
    let document = layout.to_raw_document(&record);
    assert_eq!(
        all_at(&document, 0),
        vec![
            OwnedValue::Str("a".to_string()),
            OwnedValue::Str("b".to_string()),
            OwnedValue::Str("c".to_string()),
        ]
    );
    assert_eq!(all_at(&document, 1), vec![OwnedValue::U64(7)]);
    assert!(all_at(&document, 2).is_empty());
    assert_eq!(all_at(&document, 3), vec![OwnedValue::Str("end".to_string())]);
    assert_eq!(document.len(), 5);
    assert_eq!(layout.count_fields(), 4);
    assert_eq!(layout.from_raw_document(&document), Some(record));
}

#[test]
fn a_repeated_field_with_a_foreign_value_fails() {
    let layout = FieldLayout {
        fields: vec![field("tags", TypeDescriptor::Repeated(ValueKind::U64), true)],
    };
    let mut document = TantivyDocument::new();
    document.add_u64(Field::from_field_id(0), 1);
    document.add_text(Field::from_field_id(0), "two");
    assert_eq!(layout.from_raw_document(&document), None);
}

#[test]
fn a_record_attribute_round_trips() {
    let inner = FieldLayout {
        fields: vec![
            scalar("street", ValueKind::Text, true),
            scalar("number", ValueKind::U64, true),
        ],
    };
    let layout = FieldLayout {
        fields: vec![
            scalar("name", ValueKind::Text, true),
            field("address", TypeDescriptor::Record(inner), true),
            scalar("age", ValueKind::U64, true),
        ],
    };
    let record = RecordValue {
        fields: vec![
            text("Ada"),
            FieldValue::Record(RecordValue {
                fields: vec![text("Main"), FieldValue::Scalar(Value::U64(12))],
            }),
            FieldValue::Scalar(Value::U64(36)),
        ],
    };
    let document = layout.to_raw_document(&record);
    assert_eq!(all_at(&document, 0), vec![OwnedValue::Str("Ada".to_string())]);
    assert_eq!(all_at(&document, 1), vec![OwnedValue::Str("Main".to_string())]);
    assert_eq!(all_at(&document, 2), vec![OwnedValue::U64(12)]);
    assert_eq!(all_at(&document, 3), vec![OwnedValue::U64(36)]);
    assert_eq!(layout.from_raw_document(&document), Some(record));
}

#[test]
fn a_record_attribute_is_narrowed_to_its_stored_attributes() {
    let inner = FieldLayout {
        fields: vec![
            scalar("street", ValueKind::Text, false),
            scalar("number", ValueKind::U64, true),
        ],
    };
    let hidden = FieldLayout { fields: vec![scalar("secret", ValueKind::Text, true)] };
    let layout = FieldLayout {
        fields: vec![
            field("address", TypeDescriptor::Record(inner), true),
            field("hidden", TypeDescriptor::Record(hidden), false),
            scalar("age", ValueKind::U64, true),
        ],
    };
    let record = RecordValue {
        fields: vec![
            FieldValue::Record(RecordValue {
                fields: vec![text("Main"), FieldValue::Scalar(Value::U64(12))],
            }),
            FieldValue::Record(RecordValue { fields: vec![text("hush")] }),
            FieldValue::Scalar(Value::U64(36)),
        ],
    };
    let document = layout.to_raw_document(&record);
    assert_eq!(all_at(&document, 2), vec![OwnedValue::Str("hush".to_string())]);
    let stored = layout.from_raw_document(&document).unwrap();
    assert_eq!(
        stored,
        RecordValue {
            fields: vec![
                FieldValue::Record(RecordValue {
                    fields: vec![FieldValue::Scalar(Value::U64(12))],
                }),
                FieldValue::Scalar(Value::U64(36)),
            ],
        }
    );
}

#[test]
fn plain_scalars_read_back() {
    assert!(reads_back(ValueKind::Bool, Value::Bool(true)));
    assert!(reads_back(ValueKind::U64, Value::U64(u64::MAX)));
    assert!(reads_back(ValueKind::I64, Value::I64(i64::MIN)));
    assert!(reads_back(ValueKind::Text, Value::Text("déjà vu".to_string())));
    assert!(reads_back(ValueKind::Bytes, Value::Bytes(vec![0, 1, 255])));
    assert!(reads_back(ValueKind::IpAddr, Value::IpAddr(1)));
    assert!(reads_back(ValueKind::Facet, Value::Facet("a\u{0}b".to_string())));
}

#[test]
fn a_float_is_stored_as_the_float_of_its_code() {
    let code = tantivy::f64_to_u64(1.5);
    let layout = FieldLayout { fields: vec![scalar("x", ValueKind::F64, true)] };
    let record = RecordValue { fields: vec![FieldValue::Scalar(Value::F64(code))] };
    let document = layout.to_raw_document(&record);
    assert_eq!(all_at(&document, 0), vec![OwnedValue::F64(1.5)]);
    assert_eq!(layout.from_raw_document(&document), Some(record));
    assert!(reads_back(ValueKind::F64, Value::F64(tantivy::f64_to_u64(-0.0))));
    assert!(reads_back(ValueKind::F64, Value::F64(0)));
    assert!(reads_back(ValueKind::F64, Value::F64(u64::MAX)));
}

#[test]
fn an_ip_address_is_stored_as_the_address_of_its_bits() {
    let bits = 0x2001_0db8_0000_0000_0000_0000_0000_0001u128;
    let layout = FieldLayout { fields: vec![scalar("x", ValueKind::IpAddr, true)] };
    let record = RecordValue { fields: vec![FieldValue::Scalar(Value::IpAddr(bits))] };
    let document = layout.to_raw_document(&record);
    let stored = document.get_first(Field::from_field_id(0)).unwrap().as_ip_addr().unwrap();
    assert_eq!(format!("{stored}"), "2001:db8::1");
    assert_eq!(layout.from_raw_document(&document), Some(record));
}

#[test]
fn a_facet_is_stored_as_the_facet_of_its_encoded_path() {
    let facet = tantivy::schema::Facet::from("/animals/fox");
    let layout = FieldLayout { fields: vec![scalar("x", ValueKind::Facet, true)] };
    let record = RecordValue {
        fields: vec![FieldValue::Scalar(Value::Facet(facet.encoded_str().to_string()))],
    };
    let document = layout.to_raw_document(&record);
    assert_eq!(all_at(&document, 0), vec![OwnedValue::Facet(facet)]);
    assert_eq!(layout.from_raw_document(&document), Some(record));
}

#[test]
fn a_date_and_time_is_stored_as_nanoseconds() {
    let moment = UtcDateTime { seconds: 1, nanoseconds: 500 };
    let layout = FieldLayout { fields: vec![scalar("x", ValueKind::DateTime, true)] };
    let record = RecordValue { fields: vec![FieldValue::Scalar(Value::DateTime(moment))] };
    let document = layout.to_raw_document(&record);
    let stored = document.get_first(Field::from_field_id(0)).unwrap().as_datetime().unwrap();
    assert_eq!(stored.into_timestamp_nanos(), 1_000_000_500);
    assert_eq!(layout.from_raw_document(&document), Some(record));
    let before = UtcDateTime { seconds: -1, nanoseconds: 999_999_999 };
    let back = round_trip_of(ValueKind::DateTime, Value::DateTime(before)).unwrap();
    assert_eq!(back.fields, vec![FieldValue::Scalar(Value::DateTime(before))]);
}

#[test]
fn a_date_and_time_out_of_range_is_stored_as_zero() {
    let far = UtcDateTime { seconds: 9_223_372_037, nanoseconds: 0 };
    let back = round_trip_of(ValueKind::DateTime, Value::DateTime(far)).unwrap();
    assert_eq!(
        back.fields,
        vec![FieldValue::Scalar(Value::DateTime(UtcDateTime { seconds: 0, nanoseconds: 0 }))]
    );
}

#[test]
fn a_date_is_stored_as_its_midnight() {
    let day = CalendarDate { epoch_days: 2 };
    let layout = FieldLayout { fields: vec![scalar("x", ValueKind::Date, true)] };
    let record = RecordValue { fields: vec![FieldValue::Scalar(Value::Date(day))] };
    let document = layout.to_raw_document(&record);
    let stored = document.get_first(Field::from_field_id(0)).unwrap().as_datetime().unwrap();
    assert_eq!(stored.into_timestamp_nanos(), 172_800_000_000_000);
    assert_eq!(layout.from_raw_document(&document), Some(record));
    assert!(reads_back(ValueKind::Date, Value::Date(CalendarDate { epoch_days: -1 })));
    let far = CalendarDate { epoch_days: 200_000 };
    let back = round_trip_of(ValueKind::Date, Value::Date(far)).unwrap();
    assert_eq!(
        back.fields,
        vec![FieldValue::Scalar(Value::Date(CalendarDate { epoch_days: 0 }))]
    );
}

#[test]
fn a_date_read_from_a_moment_within_a_day() {
    let mut document = TantivyDocument::new();
    document.add_date(
        Field::from_field_id(0),
        tantivy::DateTime::from_timestamp_nanos(-1),
    );
    assert_eq!(
        ValueKind::Date.extract_from_document(&document, 0),
        Some(Value::Date(CalendarDate { epoch_days: -1 }))
    );
    assert_eq!(
        ValueKind::DateTime.extract_from_document(&document, 0),
        Some(Value::DateTime(UtcDateTime { seconds: -1, nanoseconds: 999_999_999 }))
    );
}

#[test]
fn an_instant_keeps_its_low_64_bits() {
    assert!(reads_back(ValueKind::Timestamp, Value::Timestamp(Instant { nanoseconds: -5 })));
    let wide = Instant { nanoseconds: (1i128 << 64) + 9 };
    let back = round_trip_of(ValueKind::Timestamp, Value::Timestamp(wide)).unwrap();
    assert_eq!(
        back.fields,
        vec![FieldValue::Scalar(Value::Timestamp(Instant { nanoseconds: 9 }))]
    );
}

#[test]
fn a_decimal_is_stored_as_its_sixteen_bytes() {
    let decimal = Decimal::new(-31415, 4).unwrap();
    let layout = FieldLayout { fields: vec![scalar("x", ValueKind::Decimal, true)] };
    let record = RecordValue { fields: vec![FieldValue::Scalar(Value::Decimal(decimal))] };
    let document = layout.to_raw_document(&record);
    let expected = rust_decimal::Decimal::new(-31415, 4).serialize().to_vec();
    assert_eq!(all_at(&document, 0), vec![OwnedValue::Bytes(expected)]);
    assert_eq!(layout.from_raw_document(&document), Some(record));
}

#[test]
fn a_negative_zero_keeps_its_sign() {
    let zero = Decimal { negative: true, magnitude: 0, scale: 1 };
    let layout = FieldLayout { fields: vec![scalar("x", ValueKind::Decimal, true)] };
    let record = RecordValue { fields: vec![FieldValue::Scalar(Value::Decimal(zero))] };
    let document = layout.to_raw_document(&record);
    let mut expected = rust_decimal::Decimal::new(0, 1);
    expected.set_sign_negative(true);
    assert_eq!(all_at(&document, 0), vec![OwnedValue::Bytes(expected.serialize().to_vec())]);
    assert_ne!(expected.serialize(), rust_decimal::Decimal::new(0, 1).serialize());
    assert_eq!(layout.from_raw_document(&document), Some(record));
    assert_eq!(zero.signed(), 0);
}

#[test]
fn a_decimal_has_sign_magnitude_and_scale() {
    let decimal = Decimal::new(-31415, 4).unwrap();
    assert_eq!(decimal, Decimal { negative: true, magnitude: 31415, scale: 4 });
    assert_eq!(decimal.signed(), -31415);
    assert_eq!(Decimal::from_integer(-7, 2), Decimal { negative: true, magnitude: 7, scale: 2 });
    assert_eq!(
        Decimal::from_integer(i64::MIN, 0),
        Decimal { negative: true, magnitude: 1u128 << 63, scale: 0 }
    );
    assert!(Decimal { negative: false, magnitude: (1u128 << 96) - 1, scale: 28 }.is_wf());
    assert!(!Decimal { negative: false, magnitude: 1u128 << 96, scale: 0 }.is_wf());
    assert!(!Decimal { negative: false, magnitude: 0, scale: 29 }.is_wf());
}

#[test]
fn bytes_of_another_length_are_no_decimal() {
    let mut document = TantivyDocument::new();
    document.add_bytes(Field::from_field_id(0), &[1, 2, 3]);
    assert_eq!(ValueKind::Decimal.extract_from_document(&document, 0), None);
}

#[test]
fn decimal_bounds() {
    assert!(Decimal::new(0, 28).is_some());
    assert!(Decimal::new(0, 29).is_none());
    assert!(Decimal::new((1i128 << 96) - 1, 0).is_some());
    assert!(Decimal::new(1i128 << 96, 0).is_none());
    assert!(Decimal::new(-(1i128 << 96), 0).is_none());
}

#[test]
fn a_fixed_decimal_is_stored_rounded_to_its_scale() {
    let value = FixedDecimal::<2>(Decimal::new(19995, 3).unwrap());
    let kind = FixedDecimal::<2>::kind();
    let layout = FieldLayout { fields: vec![scalar("price", kind, true)] };
    let record = RecordValue { fields: vec![FieldValue::Scalar(value.value())] };
    let document = layout.to_raw_document(&record);
    let stored = document.get_first(Field::from_field_id(0)).unwrap().as_i64().unwrap();
    assert!(stored == 1999 || stored == 2000);
    assert_eq!(stored, 2000);
    let back = layout.from_raw_document(&document).unwrap();
    let rounded = Decimal::new(2000, 2).unwrap();
    assert_eq!(back.fields, vec![FieldValue::Scalar(Value::FixedDecimal(rounded))]);
    let again = layout.to_raw_document(&back);
    assert_eq!(layout.from_raw_document(&again), Some(back));
}

#[test]
fn a_fixed_decimal_rounds_by_the_first_digit_shed() {
    let stored = |mantissa: i128, scale: u32| -> Decimal {
        let back = round_trip_of(
            ValueKind::FixedDecimal(2),
            Value::FixedDecimal(Decimal::new(mantissa, scale).unwrap()),
        )
        .unwrap();
        match &back.fields[0] {
            FieldValue::Scalar(Value::FixedDecimal(d)) => *d,
            other => panic!("unexpected {other:?}"),
        }
    };
    assert_eq!(stored(19994, 3), Decimal::new(1999, 2).unwrap());
    assert_eq!(stored(19995, 3), Decimal::new(2000, 2).unwrap());
    assert_eq!(stored(-19995, 3), Decimal::new(-2000, 2).unwrap());
    assert_eq!(stored(1234549, 5), Decimal::new(1235, 2).unwrap());
    assert_eq!(stored(1234449, 5), Decimal::new(1234, 2).unwrap());
    assert_eq!(stored(4, 3), Decimal::new(0, 2).unwrap());
    assert_eq!(stored(1234, 2), Decimal::new(1234, 2).unwrap());
}

#[test]
fn a_fixed_decimal_is_scaled_up_where_needed() {
    let back = round_trip_of(
        ValueKind::FixedDecimal(3),
        Value::FixedDecimal(Decimal::new(-15, 1).unwrap()),
    )
    .unwrap();
    assert_eq!(
        back.fields,
        vec![FieldValue::Scalar(Value::FixedDecimal(Decimal::new(-1500, 3).unwrap()))]
    );
}

#[test]
fn an_identifier_is_stored_as_its_hyphenated_text() {
    let bits = 0x67e5_5044_10b1_426f_9247_bb68_0e5f_e0c8u128;
    let layout = FieldLayout { fields: vec![scalar("id", ValueKind::Uuid, true)] };
    let record = RecordValue { fields: vec![FieldValue::Scalar(Value::Uuid(bits))] };
    let document = layout.to_raw_document(&record);
    assert_eq!(
        all_at(&document, 0),
        vec![OwnedValue::Str("67e55044-10b1-426f-9247-bb680e5fe0c8".to_string())]
    );
    assert_eq!(layout.from_raw_document(&document), Some(record));
    assert_eq!(
        Value::uuid("67E5504410B1426F9247BB680E5FE0C8"),
        Some(Value::Uuid(bits))
    );
}

#[test]
fn a_text_that_is_no_identifier_gives_no_value() {
    let mut document = TantivyDocument::new();
    document.add_text(Field::from_field_id(0), "not-an-identifier");
    assert_eq!(ValueKind::Uuid.extract_from_document(&document, 0), None);
    assert_eq!(Value::uuid("zz"), None);
}

#[test]
fn a_url_is_stored_as_its_text_and_read_in_serialized_form() {
    let url = Value::url("https://example.com/a b").unwrap();
    assert_eq!(url, Value::Url("https://example.com/a%20b".to_string()));
    assert!(reads_back(ValueKind::Url, url));
    let back = round_trip_of(ValueKind::Url, Value::Url("HTTP://EXAMPLE.com".to_string())).unwrap();
    assert_eq!(
        back.fields,
        vec![FieldValue::Scalar(Value::Url("http://example.com/".to_string()))]
    );
}

#[test]
fn a_text_that_is_no_url_gives_no_value() {
    assert_eq!(Value::url("no url"), None);
    assert_eq!(round_trip_of(ValueKind::Url, Value::Url("no url".to_string())), None);
}

#[test]
fn a_value_of_another_kind_stands_for_nothing() {
    let mut document = TantivyDocument::new();
    document.add_i64(Field::from_field_id(0), 5);
    assert_eq!(ValueKind::U64.extract_from_document(&document, 0), None);
    assert_eq!(ValueKind::I64.extract_from_document(&document, 0), Some(Value::I64(5)));
    assert_eq!(ValueKind::I64.extract_from_document(&document, 1), None);
    assert_eq!(ValueKind::Bool.extract_from_document(&document, 0), None);
}

#[test]
fn instances_are_told_from_other_values() {
    let layout = FieldLayout {
        fields: vec![
            scalar("a", ValueKind::U64, true),
            field("b", TypeDescriptor::Repeated(ValueKind::Text), true),
        ],
    };
    let good = RecordValue {
        fields: vec![FieldValue::Scalar(Value::U64(1)), FieldValue::Repeated(vec![])],
    };
    assert!(layout.accepts(&good));
    assert!(layout.is_writable(&good));
    let short = RecordValue { fields: vec![FieldValue::Scalar(Value::U64(1))] };
    assert!(!layout.accepts(&short));
    assert!(layout.try_to_raw_document(&short).is_none());
    let wrong = RecordValue {
        fields: vec![
            FieldValue::Scalar(Value::I64(1)),
            FieldValue::Repeated(vec![]),
        ],
    };
    assert!(!layout.accepts(&wrong));
    let mixed = RecordValue {
        fields: vec![
            FieldValue::Scalar(Value::U64(1)),
            FieldValue::Repeated(vec![Value::Text("x".to_string()), Value::U64(2)]),
        ],
    };
    assert!(!layout.accepts(&mixed));
    let late = UtcDateTime { seconds: 0, nanoseconds: 1_000_000_000 };
    assert!(!ValueKind::DateTime.accepts(&Value::DateTime(late)));
    assert!(!ValueKind::FixedDecimal(29)
        .accepts(&Value::FixedDecimal(Decimal::new(1, 0).unwrap())));
}

#[test]
fn the_checked_writer_writes_what_the_writer_writes() {
    let layout = FieldLayout { fields: vec![scalar("a", ValueKind::Text, true)] };
    let record = RecordValue { fields: vec![text("hello")] };
    let document = layout.try_to_raw_document(&record).unwrap();
    assert_eq!(document, layout.to_raw_document(&record));
    assert_eq!(layout.payload_bound(&record), 25);
}

#[test]
fn payload_bounds() {
    assert_eq!(ValueKind::U64.payload_bound(&Value::U64(1)), 16);
    assert_eq!(ValueKind::Bytes.payload_bound(&Value::Bytes(vec![1, 2, 3])), 8);
    assert_eq!(ValueKind::Uuid.payload_bound(&Value::Uuid(0)), 149);
    assert_eq!(
        ValueKind::Decimal.payload_bound(&Value::Decimal(Decimal::new(0, 0).unwrap())),
        21
    );
}

#[test]
fn writing_at_a_base_shifts_every_id() {
    let layout = FieldLayout {
        fields: vec![scalar("a", ValueKind::U64, true), scalar("b", ValueKind::U64, true)],
    };
    let record = RecordValue {
        fields: vec![FieldValue::Scalar(Value::U64(1)), FieldValue::Scalar(Value::U64(2))],
    };
    let mut document = TantivyDocument::new();
    layout.insert_into_document(&mut document, 10, &record);
    assert_eq!(all_at(&document, 10), vec![OwnedValue::U64(1)]);
    assert_eq!(all_at(&document, 11), vec![OwnedValue::U64(2)]);
    assert_eq!(layout.extract_from_document(&document, 10), Some(record));
    assert_eq!(layout.extract_from_document(&document, 0), None);
}

#[test]
fn a_fixed_decimal_writes_and_reads_by_itself() {
    let value = FixedDecimal::<2>(Decimal::new(19995, 3).unwrap());
    let mut document = TantivyDocument::new();
    FixedDecimal::<2>::insert_into_document(&mut document, 4, &value);
    assert_eq!(all_at(&document, 4), vec![OwnedValue::I64(2000)]);
    assert_eq!(FixedDecimal::<2>::count_fields(), 1);
    let back = FixedDecimal::<2>::map_value(&RawValue::I64(2000)).unwrap();
    assert_eq!(back.0, Decimal::new(2000, 2).unwrap());
    assert!(FixedDecimal::<2>::map_value(&RawValue::U64(2000)).is_none());
    let mut builder = tantivy::schema::Schema::builder();
    FixedDecimal::<2>::add_field(&mut builder, "price", FieldOptions::default());
    let schema = builder.build();
    let entry = schema.get_field_entry(schema.get_field("price").unwrap());
    assert!(matches!(entry.field_type(), tantivy::schema::FieldType::I64(_)));
}

#[test]
fn raw_values_map_by_kind() {
    assert_eq!(ValueKind::Bool.map_value(&RawValue::Bool(true)), Some(Value::Bool(true)));
    assert_eq!(ValueKind::Bool.map_value(&RawValue::U64(1)), None);
    assert_eq!(
        ValueKind::Text.map_value(&RawValue::Str("x".to_string())),
        Some(Value::Text("x".to_string()))
    );
    assert_eq!(ValueKind::Text.map_value(&RawValue::Facet("x".to_string())), None);
    assert_eq!(
        ValueKind::Facet.map_value(&RawValue::Facet("x".to_string())),
        Some(Value::Facet("x".to_string()))
    );
    assert_eq!(ValueKind::U64.map_value(&RawValue::Null), None);
    assert_eq!(ValueKind::U64.map_value(&RawValue::Composite), None);
    assert_eq!(
        ValueKind::Timestamp.map_value(&RawValue::Date(-3)),
        Some(Value::Timestamp(Instant { nanoseconds: -3 }))
    );
}

#[test]
fn the_payload_stays_under_its_bound() {
    let layout = FieldLayout {
        fields: vec![
            scalar("a", ValueKind::Text, true),
            field("b", TypeDescriptor::Repeated(ValueKind::Bytes), true),
            scalar("c", ValueKind::Uuid, true),
            scalar("d", ValueKind::Decimal, true),
            scalar("e", ValueKind::Bool, true),
            scalar("f", ValueKind::IpAddr, true),
        ],
    };
    let record = RecordValue {
        fields: vec![
            text("héllo wörld"),
            FieldValue::Repeated(vec![Value::Bytes(vec![7; 300]), Value::Bytes(vec![])]),
            FieldValue::Scalar(Value::Uuid(5)),
            FieldValue::Scalar(Value::Decimal(Decimal::new(5, 1).unwrap())),
            FieldValue::Scalar(Value::Bool(true)),
            FieldValue::Scalar(Value::IpAddr(9)),
        ],
    };
    let bound = layout.payload_bound(&record);
    assert_eq!(bound, (4 * 11 + 5) + (305 + 5) + 149 + 21 + 16 + 16);
    let document = layout.to_raw_document(&record);
    assert!(document.node_data.len() as u64 <= bound);
    assert_eq!(layout.from_raw_document(&document), Some(record));
}
