use tantivy::schema::{FieldType, NumericOptions, Schema, STORED, TEXT};
use tantivy_record::kinds::ValueKind;
use tantivy_record::layout::{FieldLayout, LogicalField, SchemaError, TypeDescriptor};
use tantivy_record::options::FieldOptions;

fn field(name: &str, type_descriptor: TypeDescriptor, set: &[&str]) -> LogicalField {
    let mut options = FieldOptions::default();
    for flag in set {
        match *flag {
            "stored" => options.set_stored(true),
            "text" => options.set_text(true),
            "fast" => options.set_fast(true),
            "indexed" => options.set_indexed(true),
            other => panic!("unknown flag {other}"),
        }
    }
    LogicalField { name: name.to_string(), type_descriptor, options }
}

fn scalar(name: &str, kind: ValueKind, set: &[&str]) -> LogicalField {
    field(name, TypeDescriptor::Scalar(kind), set)
}

fn names(schema: &Schema) -> Vec<String> {
    schema.fields().map(|(_, entry)| entry.name().to_string()).collect()
}

#[test]
fn schema_registers_fields_in_declaration_order() {
    let layout = FieldLayout {
        fields: vec![
            scalar("body", ValueKind::Text, &["text"]),
            scalar("title", ValueKind::Text, &["stored", "text"]),
        ],
    };
    let schema = layout.schema().unwrap();
    assert_eq!(names(&schema), vec!["body", "title"]);
    assert_eq!(schema.get_field("body").unwrap().field_id(), 0);
    assert_eq!(schema.get_field("title").unwrap().field_id(), 1);
    let body = schema.get_field_entry(schema.get_field("body").unwrap());
    let title = schema.get_field_entry(schema.get_field("title").unwrap());
    assert_eq!(body.field_type(), &FieldType::Str(TEXT));
    assert_eq!(title.field_type(), &FieldType::Str(TEXT | STORED));
}

#[test]
fn each_value_type_registers_its_field_kind() {
    let kinds = vec![
        ("a", ValueKind::Bool),
        ("b", ValueKind::U64),
        ("c", ValueKind::I64),
        ("d", ValueKind::F64),
        ("e", ValueKind::Text),
        ("f", ValueKind::Facet),
        ("g", ValueKind::IpAddr),
        ("h", ValueKind::Bytes),
        ("i", ValueKind::DateTime),
        ("j", ValueKind::Date),
        ("k", ValueKind::Timestamp),
        ("l", ValueKind::Decimal),
        ("m", ValueKind::FixedDecimal(2)),
        ("n", ValueKind::Url),
        ("o", ValueKind::Uuid),
    ];
    let layout = FieldLayout {
        fields: kinds.iter().map(|(name, kind)| scalar(name, *kind, &["stored"])).collect(),
    };
    assert_eq!(layout.count_fields(), 15);
    let schema = layout.schema().unwrap();
    let types: Vec<&FieldType> = schema.fields().map(|(_, entry)| entry.field_type()).collect();
    assert!(matches!(types[0], FieldType::Bool(_)));
    assert!(matches!(types[1], FieldType::U64(_)));
    assert!(matches!(types[2], FieldType::U64(_)));
    assert!(matches!(types[3], FieldType::F64(_)));
    assert!(matches!(types[4], FieldType::Str(_)));
    assert!(matches!(types[5], FieldType::Facet(_)));
    assert!(matches!(types[6], FieldType::IpAddr(_)));
    assert!(matches!(types[7], FieldType::Bytes(_)));
    assert!(matches!(types[8], FieldType::Date(_)));
    assert!(matches!(types[9], FieldType::Date(_)));
    assert!(matches!(types[10], FieldType::Date(_)));
    assert!(matches!(types[11], FieldType::Bytes(_)));
    assert!(matches!(types[12], FieldType::I64(_)));
    assert!(matches!(types[13], FieldType::Str(_)));
    assert!(matches!(types[14], FieldType::Str(_)));
    assert_eq!(types[1], &FieldType::U64(NumericOptions::default().set_stored()));
}

#[test]
fn optional_and_repeated_take_one_id_each() {
    let layout = FieldLayout {
        fields: vec![
            field("maybe", TypeDescriptor::Optional(ValueKind::U64), &["stored"]),
            field("tags", TypeDescriptor::Repeated(ValueKind::Text), &["stored"]),
            scalar("count", ValueKind::U64, &["stored"]),
        ],
    };
    assert_eq!(layout.fields[0].count_fields(), 1);
    assert_eq!(layout.fields[1].count_fields(), 1);
    assert_eq!(layout.count_fields(), 3);
    let schema = layout.schema().unwrap();
    assert_eq!(names(&schema), vec!["maybe", "tags", "count"]);
    assert_eq!(schema.fields().count() as u32, layout.count_fields());
}

#[test]
fn a_record_attribute_lies_flat_among_the_others() {
    let inner = FieldLayout {
        fields: vec![
            scalar("street", ValueKind::Text, &["stored"]),
            scalar("number", ValueKind::U64, &["stored"]),
        ],
    };
    let layout = FieldLayout {
        fields: vec![
            scalar("name", ValueKind::Text, &["stored"]),
            field("address", TypeDescriptor::Record(inner), &["stored"]),
            scalar("age", ValueKind::U64, &[]),
        ],
    };
    assert_eq!(layout.fields[1].count_fields(), 2);
    assert_eq!(layout.count_fields(), 4);
    assert_eq!(layout.id_count(), 4);
    let schema = layout.schema().unwrap();
    assert_eq!(names(&schema), vec!["name", "street", "number", "age"]);
    assert_eq!(schema.fields().count() as u32, layout.count_fields());
}

#[test]
fn an_empty_record_has_no_fields() {
    let layout = FieldLayout { fields: vec![] };
    assert_eq!(layout.count_fields(), 0);
    assert_eq!(layout.schema().unwrap().fields().count(), 0);
}

#[test]
fn building_a_schema_twice_gives_equal_schemas() {
    let layout = FieldLayout {
        fields: vec![
            scalar("a", ValueKind::U64, &["fast"]),
            scalar("b", ValueKind::Text, &["text", "stored"]),
        ],
    };
    assert_eq!(layout.schema().unwrap(), layout.schema().unwrap());
}

#[test]
fn record_types_with_a_shared_field_name_build_apart() {
    let first = FieldLayout { fields: vec![scalar("value", ValueKind::U64, &["stored"])] };
    let second = FieldLayout { fields: vec![scalar("value", ValueKind::Text, &["stored"])] };
    let first = first.schema().unwrap();
    let second = second.schema().unwrap();
    let in_first = first.get_field_entry(first.get_field("value").unwrap());
    let in_second = second.get_field_entry(second.get_field("value").unwrap());
    assert!(matches!(in_first.field_type(), FieldType::U64(_)));
    assert!(matches!(in_second.field_type(), FieldType::Str(_)));
}

#[test]
fn a_duplicate_name_is_reported() {
    let layout = FieldLayout {
        fields: vec![
            scalar("a", ValueKind::U64, &[]),
            scalar("b", ValueKind::U64, &[]),
            scalar("a", ValueKind::Text, &[]),
        ],
    };
    assert_eq!(
        layout.schema().unwrap_err(),
        SchemaError::DuplicateFieldName("a".to_string())
    );
}

#[test]
fn a_duplicate_name_inside_a_record_attribute_is_reported() {
    let inner = FieldLayout { fields: vec![scalar("id", ValueKind::U64, &[])] };
    let layout = FieldLayout {
        fields: vec![
            scalar("id", ValueKind::U64, &[]),
            field("inner", TypeDescriptor::Record(inner), &[]),
        ],
    };
    assert_eq!(
        layout.schema().unwrap_err(),
        SchemaError::DuplicateFieldName("id".to_string())
    );
}

#[test]
fn an_invalid_name_is_reported() {
    let layout = FieldLayout { fields: vec![scalar("", ValueKind::U64, &[])] };
    assert_eq!(layout.schema().unwrap_err(), SchemaError::InvalidFieldName(String::new()));
    let layout = FieldLayout { fields: vec![scalar("-x", ValueKind::U64, &[])] };
    assert_eq!(
        layout.schema().unwrap_err(),
        SchemaError::InvalidFieldName("-x".to_string())
    );
}

#[test]
fn an_unsupported_type_is_reported() {
    let layout = FieldLayout {
        fields: vec![
            scalar("ok", ValueKind::FixedDecimal(28), &[]),
            scalar("wide", ValueKind::FixedDecimal(29), &[]),
        ],
    };
    assert_eq!(
        layout.schema().unwrap_err(),
        SchemaError::UnsupportedValueType("wide".to_string())
    );
    assert!(ValueKind::FixedDecimal(28).is_supported());
    assert!(!ValueKind::FixedDecimal(29).is_supported());
}

#[test]
fn the_first_fault_in_id_order_is_reported() {
    let layout = FieldLayout {
        fields: vec![
            scalar("a", ValueKind::U64, &[]),
            scalar("a", ValueKind::FixedDecimal(40), &[]),
            scalar("", ValueKind::U64, &[]),
        ],
    };
    assert_eq!(
        layout.schema().unwrap_err(),
        SchemaError::UnsupportedValueType("a".to_string())
    );
}

#[test]
fn attributes_begin_where_those_before_them_end() {
    let inner = FieldLayout {
        fields: vec![
            scalar("x", ValueKind::U64, &[]),
            scalar("y", ValueKind::U64, &[]),
            scalar("z", ValueKind::U64, &[]),
        ],
    };
    let layout = FieldLayout {
        fields: vec![
            scalar("a", ValueKind::Text, &[]),
            field("p", TypeDescriptor::Record(inner), &[]),
            field("tags", TypeDescriptor::Repeated(ValueKind::Text), &[]),
            scalar("b", ValueKind::Text, &[]),
        ],
    };
    assert_eq!(layout.offset_of(0), 0);
    assert_eq!(layout.offset_of(1), 1);
    assert_eq!(layout.offset_of(2), 4);
    assert_eq!(layout.offset_of(3), 5);
    assert_eq!(layout.offset_of(4), 6);
    assert_eq!(layout.count_fields(), 6);
    let schema = layout.schema().unwrap();
    assert_eq!(schema.get_field("tags").unwrap().field_id(), layout.offset_of(2));
    assert_eq!(schema.get_field("b").unwrap().field_id(), layout.offset_of(3));
}

#[test]
fn a_boolean_field_is_registered_without_coercion() {
    let mut options = FieldOptions::default();
    options.set_coerce(true);
    options.set_indexed(true);
    let layout = FieldLayout {
        fields: vec![
            LogicalField {
                name: "flag".to_string(),
                type_descriptor: TypeDescriptor::Scalar(ValueKind::Bool),
                options: options.clone(),
            },
            LogicalField {
                name: "count".to_string(),
                type_descriptor: TypeDescriptor::Scalar(ValueKind::U64),
                options,
            },
        ],
    };
    let schema = layout.schema().unwrap();
    let flag = schema.get_field_entry(schema.get_field("flag").unwrap());
    let count = schema.get_field_entry(schema.get_field("count").unwrap());
    assert_eq!(flag.field_type(), &FieldType::Bool(NumericOptions::default().set_indexed()));
    assert_eq!(
        count.field_type(),
        &FieldType::U64(NumericOptions::default().set_indexed().set_coerce())
    );
}
