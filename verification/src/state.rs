//! The schema registry: the tables that were declared, with their fields in
//! the order of declaration, and the placeholder records kept for each query.

use std::collections::HashMap;
use vstd::prelude::*;
use vstd::string::*;
use crate::error::Span;
use crate::string::{
    distinct, index_of, lemma_index_of, lemma_index_of_found, lemma_index_of_missing, text_eq,
};

verus! {

/// The type of a table field.
#[derive(Debug, PartialEq, Eq)]
pub enum Type {
    /// An auto-incrementing primary key.
    Serial,
    I32,
    I64,
    F32,
    F64,
    Bool,
    String,
    ByteString,
    DateTime,
    Date,
    Time,
    /// A nullable wrapper.
    Optional(Box<Type>),
    /// A reference to the row of another table, by that table's name.
    ForeignKey(String),
    /// A name yet to be resolved against the registry; it has to name a table.
    Custom(String),
    /// A type outside the supported set, recorded for diagnostics only.
    UnsupportedType(String),
}

/// The mathematical content of a `Type`.
pub enum TypeView {
    Serial,
    I32,
    I64,
    F32,
    F64,
    Bool,
    String,
    ByteString,
    DateTime,
    Date,
    Time,
    Optional(Box<TypeView>),
    ForeignKey(Seq<char>),
    Custom(Seq<char>),
    UnsupportedType(Seq<char>),
}

/// The content of a type, by recursion on its shape.
pub open spec fn type_view(t: Type) -> TypeView
    decreases t,
{
    match t {
        Type::Serial => TypeView::Serial,
        Type::I32 => TypeView::I32,
        Type::I64 => TypeView::I64,
        Type::F32 => TypeView::F32,
        Type::F64 => TypeView::F64,
        Type::Bool => TypeView::Bool,
        Type::String => TypeView::String,
        Type::ByteString => TypeView::ByteString,
        Type::DateTime => TypeView::DateTime,
        Type::Date => TypeView::Date,
        Type::Time => TypeView::Time,
        Type::Optional(inner) => TypeView::Optional(Box::new(type_view(*inner))),
        Type::ForeignKey(table) => TypeView::ForeignKey(table@),
        Type::Custom(name) => TypeView::Custom(name@),
        Type::UnsupportedType(name) => TypeView::UnsupportedType(name@),
    }
}

impl View for Type {
    type V = TypeView;

    open spec fn view(&self) -> TypeView {
        type_view(*self)
    }
}

impl DeepView for Type {
    type V = TypeView;

    open spec fn deep_view(&self) -> TypeView {
        self@
    }
}

/// The name under which a type is shown in diagnostics.
pub open spec fn type_text(t: TypeView) -> Seq<char>
    decreases t,
{
    match t {
        TypeView::Serial => "i32"@,
        TypeView::I32 => "i32"@,
        TypeView::I64 => "i64"@,
        TypeView::F32 => "f32"@,
        TypeView::F64 => "f64"@,
        TypeView::Bool => "bool"@,
        TypeView::String => "String"@,
        TypeView::ByteString => "Vec<u8>"@,
        TypeView::DateTime => "DateTime"@,
        TypeView::Date => "Date"@,
        TypeView::Time => "Time"@,
        TypeView::Optional(inner) => "Option<"@ + type_text(*inner) + ">"@,
        TypeView::ForeignKey(table) => "ForeignKey<"@ + table + ">"@,
        TypeView::Custom(name) => name,
        TypeView::UnsupportedType(name) => name,
    }
}

/// The table that a type refers to: that of a foreign key or of a custom
/// type, bare or optional.
pub open spec fn foreign_target(t: TypeView) -> Option<Seq<char>>
    decreases t,
{
    match t {
        TypeView::ForeignKey(table) => Some(table),
        TypeView::Custom(name) => Some(name),
        TypeView::Optional(inner) => foreign_target(*inner),
        _ => None,
    }
}

impl Clone for Type {
    fn clone(&self) -> (r: Type)
        ensures
            r@ == self@,
        decreases self,
    {
        match self {
            Type::Serial => Type::Serial,
            Type::I32 => Type::I32,
            Type::I64 => Type::I64,
            Type::F32 => Type::F32,
            Type::F64 => Type::F64,
            Type::Bool => Type::Bool,
            Type::String => Type::String,
            Type::ByteString => Type::ByteString,
            Type::DateTime => Type::DateTime,
            Type::Date => Type::Date,
            Type::Time => Type::Time,
            Type::Optional(inner) => {
                let copy = (**inner).clone();
                Type::Optional(Box::new(copy))
            },
            Type::ForeignKey(table) => Type::ForeignKey(table.clone()),
            Type::Custom(name) => Type::Custom(name.clone()),
            Type::UnsupportedType(name) => Type::UnsupportedType(name.clone()),
        }
    }
}

impl Type {
    /// Whether two types are the same.
    pub fn same(&self, other: &Type) -> (r: bool)
        ensures
            r == (self@ == other@),
        decreases self,
    {
        match self {
            Type::Serial => match other {
                Type::Serial => true,
                _ => false,
            },
            Type::I32 => match other {
                Type::I32 => true,
                _ => false,
            },
            Type::I64 => match other {
                Type::I64 => true,
                _ => false,
            },
            Type::F32 => match other {
                Type::F32 => true,
                _ => false,
            },
            Type::F64 => match other {
                Type::F64 => true,
                _ => false,
            },
            Type::Bool => match other {
                Type::Bool => true,
                _ => false,
            },
            Type::String => match other {
                Type::String => true,
                _ => false,
            },
            Type::ByteString => match other {
                Type::ByteString => true,
                _ => false,
            },
            Type::DateTime => match other {
                Type::DateTime => true,
                _ => false,
            },
            Type::Date => match other {
                Type::Date => true,
                _ => false,
            },
            Type::Time => match other {
                Type::Time => true,
                _ => false,
            },
            Type::Optional(a) => match other {
                Type::Optional(b) => a.same(b),
                _ => false,
            },
            Type::ForeignKey(a) => match other {
                Type::ForeignKey(b) => *a == *b,
                _ => false,
            },
            Type::Custom(a) => match other {
                Type::Custom(b) => *a == *b,
                _ => false,
            },
            Type::UnsupportedType(a) => match other {
                Type::UnsupportedType(b) => *a == *b,
                _ => false,
            },
        }
    }

    /// The table that the type refers to, if it refers to one.
    pub fn foreign_target(&self) -> (r: Option<&String>)
        ensures
            r.deep_view() == foreign_target(self@),
        decreases self,
    {
        match self {
            Type::ForeignKey(table) => Some(table),
            Type::Custom(name) => Some(name),
            Type::Optional(inner) => inner.foreign_target(),
            _ => None,
        }
    }

    /// Appends the name under which the type is shown in diagnostics.
    pub fn push_text(&self, out: &mut String)
        ensures
            final(out)@ == old(out)@ + type_text(self@),
        decreases self,
    {
        match self {
            Type::Serial => out.append("i32"),
            Type::I32 => out.append("i32"),
            Type::I64 => out.append("i64"),
            Type::F32 => out.append("f32"),
            Type::F64 => out.append("f64"),
            Type::Bool => out.append("bool"),
            Type::String => out.append("String"),
            Type::ByteString => out.append("Vec<u8>"),
            Type::DateTime => out.append("DateTime"),
            Type::Date => out.append("Date"),
            Type::Time => out.append("Time"),
            Type::Optional(inner) => {
                out.append("Option<");
                inner.push_text(out);
                out.append(">");
            },
            Type::ForeignKey(table) => {
                out.append("ForeignKey<");
                out.append(table.as_str());
                out.append(">");
            },
            Type::Custom(name) => out.append(name.as_str()),
            Type::UnsupportedType(name) => out.append(name.as_str()),
        }
    }
}

/// A field of a table: its name, its type and where it was declared.
#[derive(Clone, Debug, PartialEq, Eq)]
pub struct Field {
    pub name: String,
    pub typ: Type,
    pub span: Span,
}

/// The mathematical content of a `Field`.
pub struct FieldView {
    pub name: Seq<char>,
    pub typ: TypeView,
    pub span: Span,
}

impl View for Field {
    type V = FieldView;

    open spec fn view(&self) -> FieldView {
        FieldView { name: self.name@, typ: self.typ@, span: self.span }
    }
}

impl DeepView for Field {
    type V = FieldView;

    open spec fn deep_view(&self) -> FieldView {
        self@
    }
}

/// The names of some fields, in their order.
pub open spec fn field_names(fields: Seq<FieldView>) -> Seq<Seq<char>> {
    Seq::new(fields.len(), |i: int| fields[i].name)
}

/// The field of that name, if there is one.
pub open spec fn find_field(fields: Seq<FieldView>, name: Seq<char>) -> Option<FieldView> {
    match index_of(field_names(fields), name) {
        Some(i) => Some(fields[i]),
        None => None,
    }
}

/// The fields after `field` was put among them: in the place of the field of
/// the same name, or else at the end.
pub open spec fn fields_insert(fields: Seq<FieldView>, field: FieldView) -> Seq<FieldView> {
    match index_of(field_names(fields), field.name) {
        Some(i) => fields.update(i, field),
        None => fields.push(field),
    }
}

/// Whether two lists of fields agree in names and types, place by place.
pub open spec fn same_fields(a: Seq<FieldView>, b: Seq<FieldView>) -> bool {
    &&& a.len() == b.len()
    &&& forall|i: int| 0 <= i < a.len() ==> a[i].name == b[i].name && a[i].typ == b[i].typ
}

/// A declared table: a name and an ordered mapping from field names to
/// their types. The order is the order of declaration.
#[derive(Clone, Debug, PartialEq, Eq)]
pub struct Table {
    name: String,
    fields: Vec<Field>,
    span: Span,
}

/// The mathematical content of a `Table`.
pub struct TableView {
    pub name: Seq<char>,
    pub fields: Seq<FieldView>,
    pub span: Span,
}

impl View for Table {
    type V = TableView;

    closed spec fn view(&self) -> TableView {
        TableView { name: self.name@, fields: self.fields.deep_view(), span: self.span }
    }
}

impl DeepView for Table {
    type V = TableView;

    open spec fn deep_view(&self) -> TableView {
        self@
    }
}

impl Table {
    /// Whether no two fields share a name. Every table built by `new` and
    /// `insert` is well formed.
    pub open spec fn wf(&self) -> bool {
        distinct(field_names(self@.fields))
    }

    /// A table without fields.
    pub fn new(name: String, span: Span) -> (t: Table)
        ensures
            t@ == (TableView { name: name@, fields: Seq::empty(), span }),
            t.wf(),
    {
        let t = Table { name, fields: Vec::new(), span };
        assert(t.fields.deep_view() =~= Seq::empty());
        t
    }

    /// The table's name.
    pub fn name(&self) -> (r: &String)
        ensures
            r@ == self@.name,
    {
        &self.name
    }

    /// Where the table was declared.
    pub fn span(&self) -> (r: Span)
        ensures
            r == self@.span,
    {
        self.span
    }

    /// The fields in the order of declaration.
    pub fn fields(&self) -> (r: &Vec<Field>)
        ensures
            r.deep_view() == self@.fields,
    {
        &self.fields
    }

    /// The position of the field of that name.
    fn position(&self, name: &str) -> (r: Option<usize>)
        ensures
            match r {
                Some(i) => index_of(field_names(self@.fields), name@) == Some(i as int) && i
                    < self.fields@.len(),
                None => index_of(field_names(self@.fields), name@) is None,
            },
    {
        let ghost names = field_names(self@.fields);
        let mut i: usize = 0;
        while i < self.fields.len()
            invariant
                i <= self.fields@.len(),
                names == field_names(self@.fields),
                names.len() == self.fields@.len(),
                forall|j: int| 0 <= j < i ==> names[j] != name@,
            decreases self.fields@.len() - i,
        {
            if text_eq(self.fields[i].name.as_str(), name) {
                proof {
                    lemma_index_of_found(names, name@, i as int);
                }
                return Some(i);
            }
            i += 1;
        }
        proof {
            lemma_index_of_missing(names, name@);
        }
        None
    }

    /// The field of that name, if the table has one.
    pub fn get(&self, name: &str) -> (r: Option<&Field>)
        ensures
            r.deep_view() == find_field(self@.fields, name@),
    {
        match self.position(name) {
            Some(i) => Some(&self.fields[i]),
            None => None,
        }
    }

    /// Puts a field into the table: in the place of the field of the same
    /// name if there is one, and else after the others.
    pub fn insert(&mut self, field: Field)
        ensures
            final(self)@ == (TableView {
                fields: fields_insert(old(self)@.fields, field@),
                ..old(self)@
            }),
            old(self).wf() ==> final(self).wf(),
    {
        let ghost before = self.fields.deep_view();
        let ghost names = field_names(before);
        match self.position(field.name.as_str()) {
            Some(i) => {
                proof {
                    lemma_index_of(names, field@.name);
                }
                self.fields.set(i, field);
                proof {
                    let after = self.fields.deep_view();
                    assert(after =~= before.update(i as int, field@));
                    if old(self).wf() {
                        assert forall|a: int, b: int| 0 <= a < b < after.len() implies field_names(
                            after,
                        )[a] != field_names(after)[b] by {
                            assert(names[a] == before[a].name);
                            assert(names[b] == before[b].name);
                        }
                    }
                }
            },
            None => {
                proof {
                    lemma_index_of(names, field@.name);
                }
                self.fields.push(field);
                proof {
                    let after = self.fields.deep_view();
                    assert(after =~= before.push(field@));
                    if old(self).wf() {
                        assert forall|a: int, b: int| 0 <= a < b < after.len() implies field_names(
                            after,
                        )[a] != field_names(after)[b] by {
                            assert(names[a] == before[a].name);
                            if b < before.len() {
                                assert(names[b] == before[b].name);
                            }
                        }
                    }
                }
            },
        }
    }

    /// The names of the fields, in the order of declaration.
    pub fn field_names(&self) -> (r: Vec<String>)
        ensures
            r.deep_view() == field_names(self@.fields),
    {
        let mut names: Vec<String> = Vec::new();
        let mut i: usize = 0;
        while i < self.fields.len()
            invariant
                i <= self.fields@.len(),
                names@.len() == i,
                forall|j: int| 0 <= j < i ==> names@[j]@ == self.fields@[j].name@,
            decreases self.fields@.len() - i,
        {
            names.push(self.fields[i].name.clone());
            i += 1;
        }
        names
    }
}

/// Whether two lists of fields agree in names and types, place by place.
pub fn fields_agree(a: &Vec<Field>, b: &Vec<Field>) -> (r: bool)
    ensures
        r == same_fields(a.deep_view(), b.deep_view()),
{
    if a.len() != b.len() {
        return false;
    }
    let mut i: usize = 0;
    while i < a.len()
        invariant
            a@.len() == b@.len(),
            i <= a@.len(),
            forall|j: int|
                0 <= j < i ==> a.deep_view()[j].name == b.deep_view()[j].name && a.deep_view()[j].typ
                    == b.deep_view()[j].typ,
        decreases a@.len() - i,
    {
        let same = text_eq(a[i].name.as_str(), b[i].name.as_str()) && a[i].typ.same(&b[i].typ);
        if !same {
            assert(a.deep_view()[i as int] == a@[i as int]@);
            return false;
        }
        i += 1;
    }
    true
}

/// Why a table could not be registered.
#[derive(Clone, Debug, PartialEq, Eq)]
pub enum RegistryError {
    /// A table of that name is registered already, with other fields.
    DuplicateTable(String),
}

/// The names of some tables, in their order.
pub open spec fn table_names(tables: Seq<TableView>) -> Seq<Seq<char>> {
    Seq::new(tables.len(), |i: int| tables[i].name)
}

/// The table of that name, if there is one.
pub open spec fn find_table(tables: Seq<TableView>, name: Seq<char>) -> Option<TableView> {
    match index_of(table_names(tables), name) {
        Some(i) => Some(tables[i]),
        None => None,
    }
}

/// Whether a table of the same name and with other fields is among `tables`.
pub open spec fn conflicts(tables: Seq<TableView>, table: TableView) -> bool {
    match find_table(tables, table.name) {
        Some(known) => !same_fields(known.fields, table.fields),
        None => false,
    }
}

/// The table that the field `fk` of `table` refers to, if `fk` is a field
/// that refers to a registered table.
pub open spec fn related_table(table: TableView, tables: Seq<TableView>, fk: Seq<char>) -> Option<
    TableView,
> {
    match find_field(table.fields, fk) {
        Some(field) => match foreign_target(field.typ) {
            Some(target) => find_table(tables, target),
            None => None,
        },
        None => None,
    }
}

/// The tables after `table` was registered without a conflict.
pub open spec fn registered(tables: Seq<TableView>, table: TableView) -> Seq<TableView> {
    match find_table(tables, table.name) {
        Some(_) => tables,
        None => tables.push(table),
    }
}

/// Registration only adds: a table that could be found before a
/// registration is found unchanged after it, and the registered table is
/// found under its name.
pub proof fn lemma_registered_tables_stay(
    tables: Seq<TableView>,
    table: TableView,
    name: Seq<char>,
)
    ensures
        find_table(tables, name) is Some ==> find_table(registered(tables, table), name)
            == find_table(tables, name),
        find_table(registered(tables, table), table.name) is Some,
        !conflicts(tables, table) ==> same_fields(
            find_table(registered(tables, table), table.name)->Some_0.fields,
            table.fields,
        ),
{
    let names = table_names(tables);
    let after = registered(tables, table);
    lemma_index_of(names, table.name);
    lemma_index_of(names, name);
    if find_table(tables, table.name) is None {
        let later = table_names(after);
        assert(forall|j: int| 0 <= j < names.len() ==> later[j] == names[j]);
        lemma_index_of_found(later, table.name, names.len() as int);
        if let Some(i) = index_of(names, name) {
            lemma_index_of_found(later, name, i);
        }
    }
}

/// The declared tables, in the order of registration.
#[derive(Clone, Debug, PartialEq, Eq)]
pub struct Registry {
    tables: Vec<Table>,
}

impl View for Registry {
    type V = Seq<TableView>;

    closed spec fn view(&self) -> Seq<TableView> {
        self.tables.deep_view()
    }
}

impl Registry {
    /// Whether no two tables share a name, and no two fields of a table.
    /// Every registry built by `new` and `register` from well-formed tables
    /// is well formed.
    pub open spec fn wf(&self) -> bool {
        &&& distinct(table_names(self@))
        &&& forall|i: int| 0 <= i < self@.len() ==> distinct(field_names(#[trigger] self@[i].fields))
    }

    /// A registry without tables.
    pub fn new() -> (r: Registry)
        ensures
            r@ == Seq::<TableView>::empty(),
            r.wf(),
    {
        let r = Registry { tables: Vec::new() };
        r
    }

    /// The position of the table of that name.
    fn position(&self, name: &str) -> (r: Option<usize>)
        ensures
            match r {
                Some(i) => index_of(table_names(self@), name@) == Some(i as int) && i
                    < self.tables@.len(),
                None => index_of(table_names(self@), name@) is None,
            },
    {
        let ghost names = table_names(self@);
        let mut i: usize = 0;
        while i < self.tables.len()
            invariant
                i <= self.tables@.len(),
                names == table_names(self@),
                names.len() == self.tables@.len(),
                forall|j: int| 0 <= j < i ==> names[j] != name@,
            decreases self.tables@.len() - i,
        {
            if text_eq(self.tables[i].name().as_str(), name) {
                proof {
                    lemma_index_of_found(names, name@, i as int);
                }
                return Some(i);
            }
            i += 1;
        }
        proof {
            lemma_index_of_missing(names, name@);
        }
        None
    }

    /// The table of that name, if it is registered.
    pub fn lookup(&self, name: &str) -> (r: Option<&Table>)
        ensures
            r.deep_view() == find_table(self@, name@),
    {
        match self.position(name) {
            Some(i) => Some(&self.tables[i]),
            None => None,
        }
    }

    /// The table that a foreign key or a custom type names, if it is
    /// registered.
    pub fn resolve_foreign(&self, name: &str) -> (r: Option<&Table>)
        ensures
            r.deep_view() == find_table(self@, name@),
    {
        self.lookup(name)
    }

    /// The table that the field `fk` of `table` refers to, if `fk` is a
    /// field that refers to a registered table.
    pub fn related_table(&self, table: &Table, fk: &str) -> (r: Option<&Table>)
        ensures
            r.deep_view() == related_table(table@, self@, fk@),
    {
        match table.get(fk) {
            Some(field) => match field.typ.foreign_target() {
                Some(target) => self.lookup(target.as_str()),
                None => None,
            },
            None => None,
        }
    }

    /// The registered tables, in the order of registration.
    pub fn iterate(&self) -> (r: &Vec<Table>)
        ensures
            r.deep_view() == self@,
    {
        &self.tables
    }

    /// Registers a table. A table that is registered already with the same
    /// fields is left as it is; one of the same name with other fields is
    /// refused.
    pub fn register(&mut self, table: Table) -> (r: Result<(), RegistryError>)
        ensures
            r is Err <==> conflicts(old(self)@, table@),
            r matches Err(RegistryError::DuplicateTable(name)) ==> name@ == table@.name,
            r is Err ==> final(self)@ == old(self)@,
            r is Ok ==> final(self)@ == registered(old(self)@, table@),
            old(self).wf() && table.wf() ==> final(self).wf(),
    {
        let ghost before = self@;
        let ghost names = table_names(before);
        match self.position(table.name().as_str()) {
            Some(i) => {
                if fields_agree(self.tables[i].fields(), table.fields()) {
                    Ok(())
                } else {
                    Err(RegistryError::DuplicateTable(table.name().clone()))
                }
            },
            None => {
                proof {
                    lemma_index_of(names, table@.name);
                }
                self.tables.push(table);
                proof {
                    let after = self@;
                    assert(after =~= before.push(table@));
                    if old(self).wf() && table.wf() {
                        assert forall|a: int, b: int| 0 <= a < b < after.len() implies table_names(
                            after,
                        )[a] != table_names(after)[b] by {
                            assert(names[a] == before[a].name);
                            if b < before.len() {
                                assert(names[b] == before[b].name);
                            }
                        }
                        assert(forall|k: int|
                            0 <= k < before.len() ==> (#[trigger] after[k]) == before[k]);
                    }
                }
                Ok(())
            },
        }
    }

    /// The names of the registered tables, in the order of registration.
    pub fn table_names(&self) -> (r: Vec<String>)
        ensures
            r.deep_view() == table_names(self@),
    {
        let mut names: Vec<String> = Vec::new();
        let mut i: usize = 0;
        while i < self.tables.len()
            invariant
                i <= self.tables@.len(),
                names@.len() == i,
                forall|j: int| 0 <= j < i ==> names@[j]@ == self.tables@[j]@.name,
            decreases self.tables@.len() - i,
        {
            names.push(self.tables[i].name().clone());
            i += 1;
        }
        names
    }
}

/// The name under which the operand of an index or of a range is recorded.
pub open spec fn index_name() -> Seq<char> {
    "i64"@
}

/// The record kept of a host expression that a query binds: where it
/// stands, which column it is compared with (or `i64` for an index or a
/// range), and its position among the arguments of the query. The column
/// is one of the query's table, or of the table that the foreign key `via`
/// of the query's table refers to.
#[derive(Clone, Debug, PartialEq, Eq)]
pub struct Placeholder {
    pub name: String,
    pub via: Option<String>,
    pub span: Span,
    pub call_site: Span,
    pub ordinal: usize,
}

/// The mathematical content of a `Placeholder`.
pub struct PlaceholderView {
    pub name: Seq<char>,
    pub via: Option<Seq<char>>,
    pub span: Span,
    pub call_site: Span,
    pub ordinal: nat,
}

impl View for Placeholder {
    type V = PlaceholderView;

    open spec fn view(&self) -> PlaceholderView {
        PlaceholderView {
            name: self.name@,
            via: match self.via {
                Some(v) => Some(v@),
                None => None,
            },
            span: self.span,
            call_site: self.call_site,
            ordinal: self.ordinal as nat,
        }
    }
}

impl DeepView for Placeholder {
    type V = PlaceholderView;

    open spec fn deep_view(&self) -> PlaceholderView {
        self@
    }
}

/// What is kept of a query for the check of its arguments' types: the
/// table it is about and its placeholders.
#[derive(Clone, Debug, PartialEq, Eq)]
pub struct QueryRecord {
    pub table_name: String,
    pub placeholders: Vec<Placeholder>,
}

/// The mathematical content of a `QueryRecord`.
pub struct QueryRecordView {
    pub table_name: Seq<char>,
    pub placeholders: Seq<PlaceholderView>,
}

impl View for QueryRecord {
    type V = QueryRecordView;

    open spec fn view(&self) -> QueryRecordView {
        QueryRecordView {
            table_name: self.table_name@,
            placeholders: self.placeholders.deep_view(),
        }
    }
}

impl DeepView for QueryRecord {
    type V = QueryRecordView;

    open spec fn deep_view(&self) -> QueryRecordView {
        self@
    }
}

/// The placeholder table: the record of each query, under the position in
/// the source at which the query starts.
pub struct PlaceholderTable {
    records: HashMap<u32, QueryRecord>,
}

impl View for PlaceholderTable {
    type V = Map<u32, QueryRecordView>;

    closed spec fn view(&self) -> Map<u32, QueryRecordView> {
        Map::new(|k: u32| self.records@.contains_key(k), |k: u32| self.records@[k]@)
    }
}

impl PlaceholderTable {
    /// A table without records.
    pub fn new() -> (t: PlaceholderTable)
        ensures
            t@ == Map::<u32, QueryRecordView>::empty(),
    {
        let t = PlaceholderTable { records: HashMap::new() };
        t
    }

    /// Keeps the record of the query at `position`, in the place of an
    /// earlier record for that position.
    pub fn record(&mut self, position: u32, query: QueryRecord)
        ensures
            final(self)@ == old(self)@.insert(position, query@),
    {
        broadcast use vstd::std_specs::hash::group_hash_axioms;

        self.records.insert(position, query);
    }

    /// The record of the query at `position`, if one was kept.
    pub fn get(&self, position: u32) -> (r: Option<&QueryRecord>)
        ensures
            match r {
                Some(q) => self@.contains_key(position) && self@[position] == q@,
                None => !self@.contains_key(position),
            },
    {
        broadcast use vstd::std_specs::hash::group_hash_axioms;

        self.records.get(&position)
    }
}

} // verus!
