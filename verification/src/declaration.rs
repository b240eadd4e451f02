//! The declaration of a record type as it is written down: for each
//! attribute an identifier, flags, and a few settings given as text. A
//! declaration is turned into the logical field that the layout holds, and
//! into the attribute's place in the stored projection.

use crate::kinds::ValueKind;
use crate::layout::{FieldLayout, LogicalField, TypeDescriptor};
use crate::options::{DateTimePrecision, FieldOptionSet, FieldOptions, IndexRecordOption, name_view};
use vstd::prelude::*;

verus! {

/// One attribute as declared.
#[derive(Debug)]
pub struct FieldDeclaration {
    pub ident: String,
    pub coerce: bool,
    pub fast: bool,
    pub fieldnorms: bool,
    pub indexed: bool,
    pub stored: bool,
    /// The type that the attribute has in the stored projection, where it
    /// is not its declared type.
    pub store_target: Option<String>,
    pub string: bool,
    pub text: bool,
    pub fast_tokenizer: Option<String>,
    pub tokenizer: Option<String>,
    /// `basic`, `frequency` or `frequency-and-position`.
    pub index_option: Option<String>,
    /// `seconds`, `milliseconds`, `microseconds` or `nanoseconds`.
    pub precision: Option<String>,
}

/// An attribute's place in the stored projection: its identifier, and the
/// type it has there where that is not its declared type.
#[derive(Debug, PartialEq, Eq)]
pub struct StoredField {
    pub ident: String,
    pub target: Option<String>,
}

/// The declaration of a stored projection: its name and its attributes.
#[derive(Debug, PartialEq, Eq)]
pub struct StoredDocument {
    pub ident: String,
    pub fields: Vec<StoredField>,
}

/// One argument of a record declaration, of the form `name = value`; the
/// value is there where it was given as a text.
#[derive(Debug)]
pub struct DeclarationArg {
    pub name: String,
    pub value: Option<String>,
}

/// The number of underscores that `ident` begins with.
pub open spec fn leading_underscores(ident: Seq<char>) -> nat
    decreases ident.len(),
{
    if ident.len() > 0 && ident[0] == '_' {
        1 + leading_underscores(ident.skip(1))
    } else {
        0
    }
}

/// An identifier without the underscores it begins with.
pub open spec fn stripped(ident: Seq<char>) -> Seq<char> {
    ident.skip(leading_underscores(ident) as int)
}

/// The name that an attribute is registered under: its identifier without
/// the underscores it begins with. An identifier that is nothing but
/// underscores gives no name.
pub open spec fn field_name(ident: Seq<char>) -> Option<Seq<char>> {
    if stripped(ident).len() > 0 {
        Some(stripped(ident))
    } else {
        None
    }
}

/// The recording depth that a declaration names.
pub open spec fn index_option_of(text: Seq<char>) -> Option<IndexRecordOption> {
    if text == "basic"@ {
        Some(IndexRecordOption::Basic)
    } else if text == "frequency"@ {
        Some(IndexRecordOption::WithFreqs)
    } else if text == "frequency-and-position"@ {
        Some(IndexRecordOption::WithFreqsAndPositions)
    } else {
        None
    }
}

/// The precision that a declaration names.
pub open spec fn precision_of(text: Seq<char>) -> Option<DateTimePrecision> {
    if text == "seconds"@ {
        Some(DateTimePrecision::Seconds)
    } else if text == "milliseconds"@ {
        Some(DateTimePrecision::Milliseconds)
    } else if text == "microseconds"@ {
        Some(DateTimePrecision::Microseconds)
    } else if text == "nanoseconds"@ {
        Some(DateTimePrecision::Nanoseconds)
    } else {
        None
    }
}

/// The value type that a type's name stands for, among the types that are
/// held as they are named: `bool`, `u64`, `i64`, `String`, `Facet`,
/// `Ipv6Addr`, `Bytes`, `DateTime`, `NaiveDate`, `Timestamp`, `Decimal`,
/// `Url` and `Uuid`.
pub open spec fn kind_named(name: Seq<char>) -> Option<ValueKind> {
    if name == "bool"@ {
        Some(ValueKind::Bool)
    } else if name == "u64"@ {
        Some(ValueKind::U64)
    } else if name == "i64"@ {
        Some(ValueKind::I64)
    } else if name == "String"@ {
        Some(ValueKind::Text)
    } else if name == "Facet"@ {
        Some(ValueKind::Facet)
    } else if name == "Ipv6Addr"@ {
        Some(ValueKind::IpAddr)
    } else if name == "Bytes"@ {
        Some(ValueKind::Bytes)
    } else if name == "DateTime"@ {
        Some(ValueKind::DateTime)
    } else if name == "NaiveDate"@ {
        Some(ValueKind::Date)
    } else if name == "Timestamp"@ {
        Some(ValueKind::Timestamp)
    } else if name == "Decimal"@ {
        Some(ValueKind::Decimal)
    } else if name == "Url"@ {
        Some(ValueKind::Url)
    } else if name == "Uuid"@ {
        Some(ValueKind::Uuid)
    } else {
        None
    }
}

/// The name of the stored projection of the record type `ident`, after the
/// first `n` of the declaration's arguments: the value of the last argument
/// `name` that has one, and `Stored` before the identifier where there is
/// none.
pub open spec fn stored_name_upto(ident: Seq<char>, args: Seq<DeclarationArg>, n: nat) -> Seq<char>
    decreases n,
{
    if n == 0 || n > args.len() {
        "Stored"@ + ident
    } else if args[n - 1].name@ == "name"@ && args[n - 1].value is Some {
        args[n - 1].value->0@
    } else {
        stored_name_upto(ident, args, (n - 1) as nat)
    }
}

impl FieldDeclaration {
    /// The intents that the declaration states. A recording depth or a
    /// precision that is none of the known words states nothing.
    pub open spec fn option_set(self) -> FieldOptionSet {
        FieldOptionSet {
            coerce: self.coerce,
            fast: self.fast,
            fieldnorms: self.fieldnorms,
            indexed: self.indexed,
            stored: self.stored,
            string: self.string,
            text: self.text,
            fast_tokenizer: name_view(self.fast_tokenizer),
            tokenizer: name_view(self.tokenizer),
            index_option: match self.index_option {
                Some(text) => index_option_of(text@),
                None => None,
            },
            precision: match self.precision {
                Some(text) => precision_of(text@),
                None => None,
            },
        }
    }
}

/// Whether two texts are the same.
fn same_text(a: &str, b: &str) -> (r: bool)
    ensures
        r == (a@ == b@),
{
    String::from_str(a) == String::from_str(b)
}

/// The recording depth that `text` names, if it names one.
pub fn parse_index_option(text: &str) -> (r: Option<IndexRecordOption>)
    ensures
        r == index_option_of(text@),
{
    if same_text(text, "basic") {
        Some(IndexRecordOption::Basic)
    } else if same_text(text, "frequency") {
        Some(IndexRecordOption::WithFreqs)
    } else if same_text(text, "frequency-and-position") {
        Some(IndexRecordOption::WithFreqsAndPositions)
    } else {
        None
    }
}

/// The integer and text types of [`kind_named`].
fn plain_kind_named(name: &str) -> (r: Option<ValueKind>)
    ensures
        r is Some ==> r == kind_named(name@),
        r is None ==> name@ != "bool"@ && name@ != "u64"@ && name@ != "i64"@ && name@
            != "String"@ && name@ != "Facet"@ && name@ != "Ipv6Addr"@ && name@ != "Bytes"@,
{
    if same_text(name, "bool") {
        Some(ValueKind::Bool)
    } else if same_text(name, "u64") {
        Some(ValueKind::U64)
    } else if same_text(name, "i64") {
        Some(ValueKind::I64)
    } else if same_text(name, "String") {
        Some(ValueKind::Text)
    } else if same_text(name, "Facet") {
        Some(ValueKind::Facet)
    } else if same_text(name, "Ipv6Addr") {
        Some(ValueKind::IpAddr)
    } else if same_text(name, "Bytes") {
        Some(ValueKind::Bytes)
    } else {
        None
    }
}

/// The value type that the type called `name` is held as, if it is one of
/// the types that are held as they are named.
pub fn value_kind_named(name: &str) -> (r: Option<ValueKind>)
    ensures
        r == kind_named(name@),
{
    match plain_kind_named(name) {
        Some(kind) => Some(kind),
        None => {
            if same_text(name, "DateTime") {
                Some(ValueKind::DateTime)
            } else if same_text(name, "NaiveDate") {
                Some(ValueKind::Date)
            } else if same_text(name, "Timestamp") {
                Some(ValueKind::Timestamp)
            } else if same_text(name, "Decimal") {
                Some(ValueKind::Decimal)
            } else if same_text(name, "Url") {
                Some(ValueKind::Url)
            } else if same_text(name, "Uuid") {
                Some(ValueKind::Uuid)
            } else {
                None
            }
        },
    }
}

/// The precision that `text` names, if it names one.
pub fn parse_precision(text: &str) -> (r: Option<DateTimePrecision>)
    ensures
        r == precision_of(text@),
{
    if same_text(text, "seconds") {
        Some(DateTimePrecision::Seconds)
    } else if same_text(text, "milliseconds") {
        Some(DateTimePrecision::Milliseconds)
    } else if same_text(text, "microseconds") {
        Some(DateTimePrecision::Microseconds)
    } else if same_text(text, "nanoseconds") {
        Some(DateTimePrecision::Nanoseconds)
    } else {
        None
    }
}

/// An identifier that begins with `k` underscores and then with something
/// else, or ends, has `k` leading underscores.
proof fn lemma_leading_underscores(ident: Seq<char>, k: nat)
    requires
        k <= ident.len(),
        forall|j: int| 0 <= j < k ==> ident[j] == '_',
        k == ident.len() || ident[k as int] != '_',
    ensures
        leading_underscores(ident) == k,
    decreases k,
{
    if k > 0 {
        let rest = ident.skip(1);
        assert forall|j: int| 0 <= j < k - 1 implies rest[j] == '_' by {
            assert(rest[j] == ident[j + 1]);
        }
        if k < ident.len() {
            assert(rest[k - 1] == ident[k as int]);
        }
        lemma_leading_underscores(rest, (k - 1) as nat);
    }
}

/// The name that the attribute `ident` is registered under, if it has
/// one.
pub fn field_name_of(ident: &str) -> (name: Option<String>)
    ensures
        name_view(name) == field_name(ident@),
{
    let len = ident.unicode_len();
    let mut k: usize = 0;
    while k < len && ident.get_char(k) == '_'
        invariant
            k <= len,
            len == ident@.len(),
            forall|j: int| 0 <= j < k ==> ident@[j] == '_',
        decreases len - k,
    {
        k += 1;
    }
    proof {
        lemma_leading_underscores(ident@, k as nat);
    }
    if k < len {
        Some(String::from_str(ident.substring_char(k, len)))
    } else {
        None
    }
}

/// The name of the stored projection of the record type `ident`: the one
/// that the declaration's arguments give it, else `Stored` before the
/// identifier.
pub fn stored_name(ident: &str, args: &Vec<DeclarationArg>) -> (name: String)
    ensures
        name@ == stored_name_upto(ident@, args@, args@.len()),
{
    let mut name = String::from_str("Stored").concat(ident);
    let mut i: usize = 0;
    while i < args.len()
        invariant
            i <= args.len(),
            name@ == stored_name_upto(ident@, args@, i as nat),
        decreases args.len() - i,
    {
        let arg = &args[i];
        if same_text(arg.name.as_str(), "name") {
            if let Some(value) = &arg.value {
                name = value.clone();
            }
        }
        i += 1;
    }
    name
}

impl FieldDeclaration {
    /// The name that the attribute is registered under, if it has one.
    pub fn name(&self) -> (name: Option<String>)
        ensures
            name_view(name) == field_name(self.ident@),
    {
        field_name_of(self.ident.as_str())
    }

    /// Sets the tokenizers that the declaration names.
    fn set_tokenizers(&self, options: &mut FieldOptions)
        ensures
            final(options)@ == (FieldOptionSet {
                fast_tokenizer: match self.fast_tokenizer {
                    Some(name) => Some(name@),
                    None => old(options)@.fast_tokenizer,
                },
                tokenizer: match self.tokenizer {
                    Some(name) => Some(name@),
                    None => old(options)@.tokenizer,
                },
                ..old(options)@
            }),
    {
        if let Some(tokenizer) = &self.fast_tokenizer {
            options.set_fast_tokenizer(tokenizer.as_str());
        }
        if let Some(tokenizer) = &self.tokenizer {
            options.set_tokenizer(tokenizer.as_str());
        }
    }

    /// Sets the recording depth and the precision that the declaration
    /// names, where it names known ones.
    fn set_parsed(&self, options: &mut FieldOptions)
        ensures
            final(options)@ == (FieldOptionSet {
                index_option: match self.option_set().index_option {
                    Some(index_option) => Some(index_option),
                    None => old(options)@.index_option,
                },
                precision: match self.option_set().precision {
                    Some(precision) => Some(precision),
                    None => old(options)@.precision,
                },
                ..old(options)@
            }),
    {
        if let Some(text) = &self.index_option {
            if let Some(index_option) = parse_index_option(text.as_str()) {
                options.set_index_option(index_option);
            }
        }
        if let Some(text) = &self.precision {
            if let Some(precision) = parse_precision(text.as_str()) {
                options.set_precision(precision);
            }
        }
    }

    /// The intents that the declaration states, set one by one on an empty
    /// set.
    pub fn options(&self) -> (options: FieldOptions)
        ensures
            options@ == self.option_set(),
    {
        let mut options = FieldOptions::default();
        options.set_coerce(self.coerce);
        options.set_fast(self.fast);
        options.set_fieldnorms(self.fieldnorms);
        options.set_indexed(self.indexed);
        options.set_stored(self.stored);
        options.set_string(self.string);
        options.set_text(self.text);
        self.set_tokenizers(&mut options);
        self.set_parsed(&mut options);
        options
    }

    /// The logical field that the declaration stands for, given the type
    /// that the attribute is declared with; none where the identifier gives
    /// no name.
    pub fn parse(&self, type_descriptor: TypeDescriptor) -> (r: Option<LogicalField>)
        ensures
            r is Some == field_name(self.ident@) is Some,
            r matches Some(field) ==> declares(*self, type_descriptor, field),
    {
        match self.name() {
            Some(name) => LogicalField::new(name, type_descriptor, self.options()),
            None => None,
        }
    }

    /// The attribute's place in the stored projection: none unless it is
    /// marked `stored`.
    pub fn parse_stored(&self) -> (r: Option<StoredField>)
        ensures
            r is Some == self.stored,
            r matches Some(field) ==> field.ident@ == self.ident@ && name_view(field.target)
                == name_view(self.store_target),
    {
        if self.stored {
            Some(
                StoredField {
                    ident: self.ident.clone(),
                    target: match &self.store_target {
                        Some(target) => Some(target.clone()),
                        None => None,
                    },
                },
            )
        } else {
            None
        }
    }
}

/// Mathematical value of a [`StoredField`].
pub struct StoredFieldView {
    pub ident: Seq<char>,
    pub target: Option<Seq<char>>,
}

impl View for StoredField {
    type V = StoredFieldView;

    open spec fn view(&self) -> StoredFieldView {
        StoredFieldView { ident: self.ident@, target: name_view(self.target) }
    }
}

/// The mathematical values of `fields`, in their order.
pub open spec fn stored_field_views(fields: Seq<StoredField>) -> Seq<StoredFieldView> {
    fields.map_values(|field: StoredField| field@)
}

/// The places in the stored projection of the first `n` declared
/// attributes: those of the attributes marked `stored`, in declaration
/// order, each under its identifier as written.
pub open spec fn stored_fields_upto(fields: Seq<FieldDeclaration>, n: nat) -> Seq<StoredFieldView>
    decreases n,
{
    if n == 0 || n > fields.len() {
        Seq::empty()
    } else if fields[n - 1].stored {
        stored_fields_upto(fields, (n - 1) as nat).push(
            StoredFieldView {
                ident: fields[n - 1].ident@,
                target: name_view(fields[n - 1].store_target),
            },
        )
    } else {
        stored_fields_upto(fields, (n - 1) as nat)
    }
}

/// The declaration of the stored projection of the record type `ident`:
/// its name, and the attributes marked `stored`.
pub fn tantivy_document(ident: &str, args: &Vec<DeclarationArg>, fields: &Vec<FieldDeclaration>) -> (r:
    StoredDocument)
    ensures
        r.ident@ == stored_name_upto(ident@, args@, args@.len()),
        stored_field_views(r.fields@) == stored_fields_upto(fields@, fields@.len()),
{
    let mut stored: Vec<StoredField> = Vec::new();
    let mut i: usize = 0;
    while i < fields.len()
        invariant
            i <= fields.len(),
            stored_field_views(stored@) == stored_fields_upto(fields@, i as nat),
        decreases fields.len() - i,
    {
        let ghost before = stored_field_views(stored@);
        if let Some(field) = fields[i].parse_stored() {
            stored.push(field);
            assert(stored_field_views(stored@) =~= before.push(field@));
        }
        i += 1;
    }
    StoredDocument { ident: stored_name(ident, args), fields: stored }
}

/// Whether `field` is the logical field that `declaration` stands for,
/// given the type `type_descriptor`.
pub open spec fn declares(
    declaration: FieldDeclaration,
    type_descriptor: TypeDescriptor,
    field: LogicalField,
) -> bool {
    &&& field.wf()
    &&& Some(field.name@) == field_name(declaration.ident@)
    &&& field.type_descriptor == type_descriptor
    &&& field.options@ == declaration.option_set()
}

/// Why declarations do not make a record type.
#[derive(Debug, Clone, PartialEq, Eq)]
pub enum DeclarationError {
    /// There are not as many types as declarations.
    TypeCount,
    /// The identifier of the attribute gives no name: it is nothing but
    /// underscores.
    EmptyName(String),
}

/// Whether the declaration `i` is the first whose identifier gives no
/// name.
pub open spec fn first_nameless(declarations: Seq<FieldDeclaration>, i: int) -> bool {
    &&& 0 <= i < declarations.len()
    &&& field_name(declarations[i].ident@) is None
    &&& forall|j: int| 0 <= j < i ==> field_name((#[trigger] declarations[j]).ident@) is Some
}

/// Whether `ident` is the identifier of the first declaration whose
/// identifier gives no name.
pub open spec fn first_nameless_is(declarations: Seq<FieldDeclaration>, ident: Seq<char>) -> bool {
    exists|i: int| #[trigger]
        first_nameless(declarations, i) && declarations[i].ident@ == ident
}

/// The layout of the record type that `declarations` declare, the
/// attributes having the types `types`, one for one.
///
/// Declarations and types that differ in number make no record type, nor
/// does a declaration whose identifier gives no name; of those the first
/// is reported.
pub fn derive_document(declarations: &Vec<FieldDeclaration>, types: Vec<TypeDescriptor>) -> (r:
    Result<FieldLayout, DeclarationError>)
    ensures
        match r {
            Ok(layout) => declarations@.len() == types@.len() && layout.fields@.len()
                == declarations@.len() && forall|i: int|
                0 <= i < declarations@.len() ==> declares(
                    #[trigger] declarations@[i],
                    types@[i],
                    layout.fields@[i],
                ),
            Err(DeclarationError::TypeCount) => declarations@.len() != types@.len(),
            Err(DeclarationError::EmptyName(ident)) => declarations@.len() == types@.len()
                && first_nameless_is(declarations@, ident@),
        },
{
    if declarations.len() != types.len() {
        return Err(DeclarationError::TypeCount);
    }
    let mut k: usize = 0;
    while k < declarations.len()
        invariant
            k <= declarations@.len(),
            declarations@.len() == types@.len(),
            forall|j: int| 0 <= j < k ==> field_name((#[trigger] declarations@[j]).ident@) is Some,
        decreases declarations.len() - k,
    {
        if declarations[k].name().is_none() {
            let ident = declarations[k].ident.clone();
            assert(first_nameless(declarations@, k as int) && declarations@[k as int].ident@
                == ident@);
            assert(first_nameless_is(declarations@, ident@));
            return Err(DeclarationError::EmptyName(ident));
        }
        k += 1;
    }
    let ghost all = types@;
    let mut types = types;
    let mut fields: Vec<LogicalField> = Vec::new();
    let mut i: usize = declarations.len();
    while i > 0
        invariant
            i <= declarations@.len(),
            all.len() == declarations@.len(),
            types@ == all.take(i as int),
            fields@.len() == declarations@.len() - i,
            forall|j: int|
                0 <= j < declarations@.len() ==> field_name(
                    (#[trigger] declarations@[j]).ident@,
                ) is Some,
            forall|j: int|
                i <= j < declarations@.len() ==> declares(
                    #[trigger] declarations@[j],
                    all[j],
                    fields@[j - i],
                ),
        decreases i,
    {
        i -= 1;
        let type_descriptor = types.pop().unwrap();
        match declarations[i].parse(type_descriptor) {
            Some(field) => {
                fields.insert(0, field);
            },
            None => {
                // Not reached: every declaration was seen to have a name.
                assert(field_name(declarations@[i as int].ident@) is Some);
                return Err(DeclarationError::TypeCount);
            },
        }
        assert(types@ =~= all.take(i as int));
    }
    Ok(FieldLayout { fields })
}

} // verus!
