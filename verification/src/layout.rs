//! The field layout of a record type: its attributes in declaration order,
//! and the range of field ids that each of them occupies.
//!
//! Ids are counted from a base, attribute by attribute. A scalar, an
//! optional and a repeated attribute take one id each (a repeated one files
//! all its elements under that one id); an attribute that is itself a
//! record takes the ids of all its own attributes, which lie flat among
//! those of the record around it.

use crate::kinds::ValueKind;
use crate::options::{FieldOptionSet, FieldOptions};
use crate::schema::{
    builder_fields, finish, names_of, new_builder, schema_fields, valid_field_name, FieldEntry,
};
use tantivy::schema::Schema;
use vstd::prelude::*;

verus! {

/// The declared type of an attribute.
#[derive(Debug)]
pub enum TypeDescriptor {
    /// One value, which must be there.
    Scalar(ValueKind),
    /// One value, which may be absent.
    Optional(ValueKind),
    /// Any number of values.
    Repeated(ValueKind),
    /// A record of its own, laid out among the attributes around it.
    Record(FieldLayout),
}

/// One declared attribute of a record type. Its name is not empty; the
/// checked constructor [`LogicalField::new`] sees to that.
#[derive(Debug)]
pub struct LogicalField {
    pub name: String,
    pub type_descriptor: TypeDescriptor,
    pub options: FieldOptions,
}

/// The attributes of one record type, in declaration order.
#[derive(Debug)]
pub struct FieldLayout {
    pub fields: Vec<LogicalField>,
}

/// One index field of a layout: the name it is registered under, the value
/// type behind it, and the intents it was declared with.
pub struct Leaf {
    pub name: Seq<char>,
    pub kind: ValueKind,
    pub options: FieldOptionSet,
}

impl TypeDescriptor {
    /// The number of field ids that an attribute of this type occupies.
    pub open spec fn arity(self) -> nat
        decreases self, 0nat,
    {
        match self {
            TypeDescriptor::Record(layout) => layout.arity(),
            _ => 1,
        }
    }
}

impl LogicalField {
    /// Whether the attribute has a name.
    pub open spec fn wf(self) -> bool {
        self.name@.len() > 0
    }

    /// The number of field ids that the attribute occupies.
    pub open spec fn arity(self) -> nat
        decreases self, 1nat,
    {
        self.type_descriptor.arity()
    }

    /// The index fields of the attribute, in id order. An attribute that is
    /// a record contributes those of its own attributes, under their own
    /// names and intents.
    pub open spec fn leaves(self) -> Seq<Leaf>
        decreases self, 1nat,
    {
        match self.type_descriptor {
            TypeDescriptor::Scalar(kind) => seq![
                Leaf { name: self.name@, kind, options: self.options@ },
            ],
            TypeDescriptor::Optional(kind) => seq![
                Leaf { name: self.name@, kind, options: self.options@ },
            ],
            TypeDescriptor::Repeated(kind) => seq![
                Leaf { name: self.name@, kind, options: self.options@ },
            ],
            TypeDescriptor::Record(layout) => layout.leaves(),
        }
    }
}

impl FieldLayout {
    /// The number of field ids that the first `n` attributes occupy.
    pub open spec fn arity_upto(self, n: nat) -> nat
        decreases self, n,
    {
        if n == 0 || n > self.fields.len() {
            0
        } else {
            self.arity_upto((n - 1) as nat) + self.fields[n - 1].arity()
        }
    }

    /// The number of field ids that a record of this layout occupies: the
    /// sum of the arities of its attributes.
    pub open spec fn arity(self) -> nat
        decreases self, self.fields.len() + 1,
    {
        self.arity_upto(self.fields.len() as nat)
    }

    /// The index fields of the first `n` attributes, in id order.
    pub open spec fn leaves_upto(self, n: nat) -> Seq<Leaf>
        decreases self, n,
    {
        if n == 0 || n > self.fields.len() {
            Seq::empty()
        } else {
            self.leaves_upto((n - 1) as nat) + self.fields[n - 1].leaves()
        }
    }

    /// The index fields of the layout, in id order.
    pub open spec fn leaves(self) -> Seq<Leaf>
        decreases self, self.fields.len() + 1,
    {
        self.leaves_upto(self.fields.len() as nat)
    }
}

/// Why a layout cannot be registered as a schema.
#[derive(Debug, Clone, PartialEq, Eq)]
pub enum SchemaError {
    /// The attribute's value type has no adapter.
    UnsupportedValueType(String),
    /// The attribute's name is empty or begins with a hyphen.
    InvalidFieldName(String),
    /// An earlier attribute has the same name.
    DuplicateFieldName(String),
}

/// Mathematical value of a [`SchemaError`].
pub enum SchemaErrorView {
    UnsupportedValueType(Seq<char>),
    InvalidFieldName(Seq<char>),
    DuplicateFieldName(Seq<char>),
}

impl View for SchemaError {
    type V = SchemaErrorView;

    open spec fn view(&self) -> SchemaErrorView {
        match self {
            SchemaError::UnsupportedValueType(name) => SchemaErrorView::UnsupportedValueType(name@),
            SchemaError::InvalidFieldName(name) => SchemaErrorView::InvalidFieldName(name@),
            SchemaError::DuplicateFieldName(name) => SchemaErrorView::DuplicateFieldName(name@),
        }
    }
}

impl Leaf {
    /// The entry that the index field is registered as.
    pub open spec fn entry(self) -> FieldEntry {
        FieldEntry { name: self.name, kind: self.kind.field_kind(self.options) }
    }
}

/// The entries that `leaves` are registered as, in their order.
pub open spec fn entries_of(leaves: Seq<Leaf>) -> Seq<FieldEntry> {
    leaves.map_values(|leaf: Leaf| leaf.entry())
}

/// Whether one of the first `i` of `leaves` is called `name`.
pub open spec fn named_before(leaves: Seq<Leaf>, i: int, name: Seq<char>) -> bool {
    exists|j: int| 0 <= j < i && j < leaves.len() && #[trigger] leaves[j].name == name
}

/// What is wrong with the index field `i` of `leaves`, given those before
/// it: its type first, then its name, then a clash with an earlier name.
pub open spec fn leaf_error(leaves: Seq<Leaf>, i: int) -> Option<SchemaErrorView> {
    let leaf = leaves[i];
    if !leaf.kind.supported() {
        Some(SchemaErrorView::UnsupportedValueType(leaf.name))
    } else if !valid_field_name(leaf.name) {
        Some(SchemaErrorView::InvalidFieldName(leaf.name))
    } else if named_before(leaves, i, leaf.name) {
        Some(SchemaErrorView::DuplicateFieldName(leaf.name))
    } else {
        None
    }
}

/// The first thing that is wrong among the first `n` of `leaves`.
pub open spec fn first_error(leaves: Seq<Leaf>, n: nat) -> Option<SchemaErrorView>
    decreases n,
{
    if n == 0 || n > leaves.len() {
        None
    } else if first_error(leaves, (n - 1) as nat) is Some {
        first_error(leaves, (n - 1) as nat)
    } else {
        leaf_error(leaves, n - 1)
    }
}

/// One index field of a layout, as the walk over the layout collects it.
#[derive(Debug)]
pub struct LeafField {
    pub name: String,
    pub kind: ValueKind,
    pub options: FieldOptions,
}

impl View for LeafField {
    type V = Leaf;

    open spec fn view(&self) -> Leaf {
        Leaf { name: self.name@, kind: self.kind, options: self.options@ }
    }
}

/// The index fields that `fields` stand for.
pub open spec fn leaf_views(fields: Seq<LeafField>) -> Seq<Leaf> {
    fields.map_values(|field: LeafField| field@)
}

impl ValueKind {
    /// Whether the type has an adapter.
    pub fn is_supported(&self) -> (r: bool)
        ensures
            r == self.supported(),
    {
        match self {
            ValueKind::FixedDecimal(scale) => *scale <= 28,
            _ => true,
        }
    }
}

/// Whether the index accepts `name` for a field.
pub fn is_valid_field_name(name: &str) -> (r: bool)
    ensures
        r == valid_field_name(name@),
{
    name.unicode_len() > 0 && name.get_char(0) != '-'
}

impl LogicalField {
    /// The attribute `name` of the given type and intents; none where the
    /// name is empty.
    pub fn new(name: String, type_descriptor: TypeDescriptor, options: FieldOptions) -> (r: Option<
        LogicalField,
    >)
        ensures
            r is Some == (name@.len() > 0),
            r matches Some(field) ==> field.wf() && field.name@ == name@ && field.type_descriptor
                == type_descriptor && field.options@ == options@,
    {
        if name.as_str().unicode_len() > 0 {
            Some(LogicalField { name, type_descriptor, options })
        } else {
            None
        }
    }

    /// Appends the index fields of the attribute to `out`.
    pub fn collect_leaves(&self, out: &mut Vec<LeafField>)
        ensures
            leaf_views(final(out)@) == leaf_views(old(out)@) + self.leaves(),
        decreases self, 1nat,
    {
        match &self.type_descriptor {
            TypeDescriptor::Scalar(kind) => {
                out.push(
                    LeafField { name: self.name.clone(), kind: *kind, options: self.options.clone() },
                );
            },
            TypeDescriptor::Optional(kind) => {
                out.push(
                    LeafField { name: self.name.clone(), kind: *kind, options: self.options.clone() },
                );
            },
            TypeDescriptor::Repeated(kind) => {
                out.push(
                    LeafField { name: self.name.clone(), kind: *kind, options: self.options.clone() },
                );
            },
            TypeDescriptor::Record(layout) => {
                layout.collect_leaves(out);
            },
        }
        assert(leaf_views(out@) =~= leaf_views(old(out)@) + self.leaves());
    }
}

impl FieldLayout {
    /// Appends the index fields of the layout to `out`, in id order.
    pub fn collect_leaves(&self, out: &mut Vec<LeafField>)
        ensures
            leaf_views(final(out)@) == leaf_views(old(out)@) + self.leaves(),
        decreases self, self.fields.len() + 1,
    {
        let ghost before = leaf_views(out@);
        let mut i: usize = 0;
        while i < self.fields.len()
            invariant
                i <= self.fields.len(),
                leaf_views(out@) == before + self.leaves_upto(i as nat),
            decreases self.fields.len() - i,
        {
            self.fields[i].collect_leaves(out);
            i += 1;
            assert(leaf_views(out@) =~= before + self.leaves_upto(i as nat));
        }
    }
}

/// Whether one of the first `i` of `leaves` is called `name`.
fn is_named_before(leaves: &Vec<LeafField>, i: usize, name: &String) -> (r: bool)
    requires
        i <= leaves.len(),
    ensures
        r == named_before(leaf_views(leaves@), i as int, name@),
{
    let mut j: usize = 0;
    while j < i
        invariant
            j <= i <= leaves.len(),
            !named_before(leaf_views(leaves@), j as int, name@),
        decreases i - j,
    {
        if leaves[j].name == *name {
            assert(leaf_views(leaves@)[j as int].name == name@);
            return true;
        }
        j += 1;
    }
    false
}

/// What is wrong with the index field `i` of `leaves`, given those before
/// it.
fn check_leaf(leaves: &Vec<LeafField>, i: usize) -> (r: Option<SchemaError>)
    requires
        i < leaves.len(),
    ensures
        r matches Some(e) ==> leaf_error(leaf_views(leaves@), i as int) == Some(e@),
        r is None ==> leaf_error(leaf_views(leaves@), i as int) is None,
{
    let leaf = &leaves[i];
    if !leaf.kind.is_supported() {
        Some(SchemaError::UnsupportedValueType(leaf.name.clone()))
    } else if !is_valid_field_name(leaf.name.as_str()) {
        Some(SchemaError::InvalidFieldName(leaf.name.clone()))
    } else if is_named_before(leaves, i, &leaf.name) {
        Some(SchemaError::DuplicateFieldName(leaf.name.clone()))
    } else {
        None
    }
}

impl FieldLayout {
    /// Whether the layout can be registered: every index field has a
    /// supported type and a valid name, and no two have the same name.
    pub open spec fn valid(self) -> bool {
        first_error(self.leaves(), self.leaves().len()) is None
    }

    /// Builds the schema of the record type: its index fields, registered
    /// in id order under their names, each with the options that its
    /// intents collapse to for its kind.
    ///
    /// A layout that cannot be registered gives the first thing that is
    /// wrong with it, in id order.
    pub fn schema(&self) -> (r: Result<Schema, SchemaError>)
        ensures
            match r {
                Ok(schema) => self.valid() && schema_fields(schema) == entries_of(self.leaves()),
                Err(e) => first_error(self.leaves(), self.leaves().len()) == Some(e@),
            },
    {
        let mut leaves: Vec<LeafField> = Vec::new();
        self.collect_leaves(&mut leaves);
        assert(leaf_views(leaves@) =~= self.leaves());
        let mut builder = new_builder();
        let mut i: usize = 0;
        while i < leaves.len()
            invariant
                i <= leaves.len(),
                leaf_views(leaves@) == self.leaves(),
                first_error(self.leaves(), i as nat) is None,
                builder_fields(builder) == entries_of(self.leaves().take(i as int)),
            decreases leaves.len() - i,
        {
            match check_leaf(&leaves, i) {
                Some(e) => {
                    proof {
                        lemma_first_error_stays(self.leaves(), (i + 1) as nat, self.leaves().len());
                    }
                    return Err(e);
                },
                None => {},
            }
            let leaf = &leaves[i];
            proof {
                let done = self.leaves().take(i as int);
                assert(leaf@ == self.leaves()[i as int]);
                assert(names_of(entries_of(done)).contains(leaf.name@) ==> named_before(
                    self.leaves(),
                    i as int,
                    leaf.name@,
                )) by {
                    if names_of(entries_of(done)).contains(leaf.name@) {
                        let j = choose|j: int|
                            0 <= j < names_of(entries_of(done)).len() && names_of(
                                entries_of(done),
                            )[j] == leaf.name@;
                        assert(self.leaves()[j].name == leaf.name@);
                    }
                }
                assert(self.leaves().take(i + 1) =~= done.push(self.leaves()[i as int]));
                assert(entries_of(done.push(self.leaves()[i as int])) =~= entries_of(done).push(
                    self.leaves()[i as int].entry(),
                ));
            }
            leaf.kind.add_field(&mut builder, leaf.name.as_str(), leaf.options.clone());
            i += 1;
        }
        assert(self.leaves().take(i as int) =~= self.leaves());
        Ok(finish(builder))
    }
}

/// Once something is wrong among the first `n` index fields, the first
/// wrong thing among any longer prefix is the same.
pub proof fn lemma_first_error_stays(leaves: Seq<Leaf>, n: nat, m: nat)
    requires
        n <= m <= leaves.len(),
        first_error(leaves, n) is Some,
    ensures
        first_error(leaves, m) == first_error(leaves, n),
    decreases m,
{
    if n < m {
        lemma_first_error_stays(leaves, n, (m - 1) as nat);
    }
}

impl FieldLayout {
    /// The ids of a longer run of attributes include those of a shorter.
    pub proof fn lemma_arity_upto_grows(self, i: nat, j: nat)
        requires
            i <= j <= self.fields.len(),
        ensures
            self.arity_upto(i) <= self.arity_upto(j),
        decreases j,
    {
        if i < j {
            self.lemma_arity_upto_grows(i, (j - 1) as nat);
        }
    }

    /// The offset from the record's base id at which the attribute `index`
    /// begins: the sum of the arities of the attributes before it.
    pub fn offset_of(&self, index: usize) -> (offset: u32)
        requires
            index <= self.fields.len(),
            self.arity() <= u32::MAX,
        ensures
            offset == self.arity_upto(index as nat),
    {
        let mut offset: u32 = 0;
        let mut i: usize = 0;
        while i < index
            invariant
                i <= index <= self.fields.len(),
                offset == self.arity_upto(i as nat),
                self.arity() <= u32::MAX,
            decreases index - i,
        {
            proof {
                self.lemma_arity_upto_grows((i + 1) as nat, self.fields.len() as nat);
            }
            offset += self.fields[i].count_fields();
            i += 1;
        }
        offset
    }

    /// The number of field ids that a record of this layout occupies.
    pub fn count_fields(&self) -> (n: u32)
        requires
            self.arity() <= u32::MAX,
        ensures
            n == self.arity(),
        decreases self, self.fields.len() + 1,
    {
        let mut count: u32 = 0;
        let mut i: usize = 0;
        while i < self.fields.len()
            invariant
                i <= self.fields.len(),
                count == self.arity_upto(i as nat),
                self.arity() <= u32::MAX,
            decreases self.fields.len() - i,
        {
            proof {
                self.lemma_arity_upto_grows((i + 1) as nat, self.fields.len() as nat);
            }
            count += self.fields[i].count_fields();
            i += 1;
        }
        count
    }
}

impl LogicalField {
    /// The number of field ids that the attribute occupies.
    pub fn count_fields(&self) -> (n: u32)
        requires
            self.arity() <= u32::MAX,
        ensures
            n == self.arity(),
        decreases self, 1nat,
    {
        self.type_descriptor.count_fields()
    }
}

impl TypeDescriptor {
    /// The number of field ids that an attribute of this type occupies.
    pub fn count_fields(&self) -> (n: u32)
        requires
            self.arity() <= u32::MAX,
        ensures
            n == self.arity(),
        decreases self, 0nat,
    {
        match self {
            TypeDescriptor::Record(layout) => layout.count_fields(),
            _ => 1,
        }
    }
}

} // verus!
