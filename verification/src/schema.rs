//! The schema under construction: tantivy's builder, seen as the list of
//! field entries registered so far.

use crate::index_options::{
    bytes_settings, date_settings, facet_settings, ip_addr_settings, numeric_settings,
    text_settings, BytesSettings, DateSettings, FacetSettings, IpAddrSettings, NumericSettings,
    TextSettings,
};
use tantivy::schema::{
    BytesOptions, DateOptions, FacetOptions, IpAddrOptions, NumericOptions, Schema, SchemaBuilder,
    TextOptions,
};
use vstd::prelude::*;

verus! {

/// The kind of an index field, with the settings of that kind.
pub enum FieldKind {
    Bool(NumericSettings),
    U64(NumericSettings),
    I64(NumericSettings),
    F64(NumericSettings),
    Text(TextSettings),
    Facet(FacetSettings),
    IpAddr(IpAddrSettings),
    Bytes(BytesSettings),
    Date(DateSettings),
    Json,
}

/// One registered index field.
pub struct FieldEntry {
    pub name: Seq<char>,
    pub kind: FieldKind,
}

/// The names of `fields`, in their order.
pub open spec fn names_of(fields: Seq<FieldEntry>) -> Seq<Seq<char>> {
    fields.map_values(|entry: FieldEntry| entry.name)
}

/// Whether the index accepts `name` for a field: it is not empty and does
/// not begin with a hyphen.
pub open spec fn valid_field_name(name: Seq<char>) -> bool {
    name.len() > 0 && name[0] != '-'
}

#[verifier::external_type_specification]
#[verifier::external_body]
pub struct ExSchemaBuilder(SchemaBuilder);

#[verifier::external_type_specification]
#[verifier::external_body]
pub struct ExSchema(Schema);

/// The field entries that a builder holds, in the order of their ids.
pub uninterp spec fn builder_fields(builder: SchemaBuilder) -> Seq<FieldEntry>;

/// The field entries of a schema, in the order of their ids.
pub uninterp spec fn schema_fields(schema: Schema) -> Seq<FieldEntry>;

/// Whether `builder` takes a new field called `name`: the name is valid and
/// no registered field has it. (The builder panics on the others.)
pub open spec fn builder_takes(builder: SchemaBuilder, name: Seq<char>) -> bool {
    valid_field_name(name) && !names_of(builder_fields(builder)).contains(name)
}

/// What a builder is after the field `name` of kind `kind` was registered.
pub open spec fn builder_added(
    old: SchemaBuilder,
    new: SchemaBuilder,
    name: Seq<char>,
    kind: FieldKind,
) -> bool {
    builder_fields(new) == builder_fields(old).push(FieldEntry { name, kind })
}

/// `Schema::builder()`: a builder without fields.
#[verifier::external_body]
pub(crate) fn new_builder() -> (builder: SchemaBuilder)
    ensures
        builder_fields(builder) == Seq::<FieldEntry>::empty(),
{
    Schema::builder()
}

/// `SchemaBuilder::build`: the schema of the registered fields.
#[verifier::external_body]
pub(crate) fn finish(builder: SchemaBuilder) -> (schema: Schema)
    ensures
        schema_fields(schema) == builder_fields(builder),
{
    builder.build()
}

/// `add_bool_field`: registers a boolean field as the next one.
#[verifier::external_body]
pub(crate) fn register_bool(builder: &mut SchemaBuilder, name: &str, options: NumericOptions)
    requires
        builder_takes(*old(builder), name@),
    ensures
        builder_added(*old(builder), *final(builder), name@, FieldKind::Bool(numeric_settings(options))),
{
    builder.add_bool_field(name, options);
}

/// `add_u64_field`: registers an unsigned-integer field as the next one.
#[verifier::external_body]
pub(crate) fn register_u64(builder: &mut SchemaBuilder, name: &str, options: NumericOptions)
    requires
        builder_takes(*old(builder), name@),
    ensures
        builder_added(*old(builder), *final(builder), name@, FieldKind::U64(numeric_settings(options))),
{
    builder.add_u64_field(name, options);
}

/// `add_i64_field`: registers a signed-integer field as the next one.
#[verifier::external_body]
pub(crate) fn register_i64(builder: &mut SchemaBuilder, name: &str, options: NumericOptions)
    requires
        builder_takes(*old(builder), name@),
    ensures
        builder_added(*old(builder), *final(builder), name@, FieldKind::I64(numeric_settings(options))),
{
    builder.add_i64_field(name, options);
}

/// `add_f64_field`: registers a float field as the next one.
#[verifier::external_body]
pub(crate) fn register_float(builder: &mut SchemaBuilder, name: &str, options: NumericOptions)
    requires
        builder_takes(*old(builder), name@),
    ensures
        builder_added(*old(builder), *final(builder), name@, FieldKind::F64(numeric_settings(options))),
{
    builder.add_f64_field(name, options);
}

/// `add_text_field`: registers a text field as the next one.
#[verifier::external_body]
pub(crate) fn register_text(builder: &mut SchemaBuilder, name: &str, options: TextOptions)
    requires
        builder_takes(*old(builder), name@),
    ensures
        builder_added(*old(builder), *final(builder), name@, FieldKind::Text(text_settings(options))),
{
    builder.add_text_field(name, options);
}

/// `add_facet_field`: registers a facet field as the next one.
#[verifier::external_body]
pub(crate) fn register_facet(builder: &mut SchemaBuilder, name: &str, options: FacetOptions)
    requires
        builder_takes(*old(builder), name@),
    ensures
        builder_added(*old(builder), *final(builder), name@, FieldKind::Facet(facet_settings(options))),
{
    builder.add_facet_field(name, options);
}

/// `add_ip_addr_field`: registers an IP-address field as the next one.
#[verifier::external_body]
pub(crate) fn register_ip_addr(builder: &mut SchemaBuilder, name: &str, options: IpAddrOptions)
    requires
        builder_takes(*old(builder), name@),
    ensures
        builder_added(*old(builder), *final(builder), name@, FieldKind::IpAddr(ip_addr_settings(options))),
{
    builder.add_ip_addr_field(name, options);
}

/// `add_bytes_field`: registers a bytes field as the next one.
#[verifier::external_body]
pub(crate) fn register_bytes(builder: &mut SchemaBuilder, name: &str, options: BytesOptions)
    requires
        builder_takes(*old(builder), name@),
    ensures
        builder_added(*old(builder), *final(builder), name@, FieldKind::Bytes(bytes_settings(options))),
{
    builder.add_bytes_field(name, options);
}

/// `add_date_field`: registers a date field as the next one.
#[verifier::external_body]
pub(crate) fn register_date(builder: &mut SchemaBuilder, name: &str, options: DateOptions)
    requires
        builder_takes(*old(builder), name@),
    ensures
        builder_added(*old(builder), *final(builder), name@, FieldKind::Date(date_settings(options))),
{
    builder.add_date_field(name, options);
}

} // verus!
