//! The checks that run once the types are known: of the declared tables,
//! and of the types of the arguments that a query binds.

use vstd::prelude::*;
use vstd::string::*;
use crate::analyzer::{
    mismatch_message, unknown_field, unknown_field_error, unknown_table, unknown_table_error,
};
use crate::error::{push_error, res, Diagnostic, Error, ErrorType, Span, SqlResult};
use crate::state::{
    field_names, find_field, find_table, index_name, related_table, type_text, FieldView,
    Placeholder, PlaceholderTable, PlaceholderView, QueryRecord, QueryRecordView, Registry, Table,
    TableView, Type, TypeView,
};
use crate::string::text_eq;

verus! {

/// The type that the host compiler found for an argument of a query.
#[derive(Debug, PartialEq, Eq)]
pub enum HostType {
    /// The 32-bit integer.
    Int32,
    /// The 64-bit integer.
    Int64,
    /// The string slice.
    Str,
    /// A reference to a value of the inner type.
    Ref(Box<HostType>),
    /// A record, by its name.
    Record(String),
    /// The nullable wrapper over the inner type.
    Nullable(Box<HostType>),
    /// Any other type, as the host compiler prints it.
    Other(String),
}

/// The mathematical content of a `HostType`.
pub enum HostTypeView {
    Int32,
    Int64,
    Str,
    Ref(Box<HostTypeView>),
    Record(Seq<char>),
    Nullable(Box<HostTypeView>),
    Other(Seq<char>),
}

/// The content of a host type, by recursion on its shape.
pub open spec fn host_type_view(t: HostType) -> HostTypeView
    decreases t,
{
    match t {
        HostType::Int32 => HostTypeView::Int32,
        HostType::Int64 => HostTypeView::Int64,
        HostType::Str => HostTypeView::Str,
        HostType::Ref(inner) => HostTypeView::Ref(Box::new(host_type_view(*inner))),
        HostType::Record(name) => HostTypeView::Record(name@),
        HostType::Nullable(inner) => HostTypeView::Nullable(Box::new(host_type_view(*inner))),
        HostType::Other(text) => HostTypeView::Other(text@),
    }
}

impl View for HostType {
    type V = HostTypeView;

    open spec fn view(&self) -> HostTypeView {
        host_type_view(*self)
    }
}

impl DeepView for HostType {
    type V = HostTypeView;

    open spec fn deep_view(&self) -> HostTypeView {
        self@
    }
}

impl Clone for HostType {
    fn clone(&self) -> (r: HostType)
        ensures
            r@ == self@,
        decreases self,
    {
        match self {
            HostType::Int32 => HostType::Int32,
            HostType::Int64 => HostType::Int64,
            HostType::Str => HostType::Str,
            HostType::Ref(inner) => {
                let copy = (**inner).clone();
                HostType::Ref(Box::new(copy))
            },
            HostType::Record(name) => HostType::Record(name.clone()),
            HostType::Nullable(inner) => {
                let copy = (**inner).clone();
                HostType::Nullable(Box::new(copy))
            },
            HostType::Other(text) => HostType::Other(text.clone()),
        }
    }
}

/// The name under which a host type is shown in diagnostics.
pub open spec fn host_text(t: HostTypeView) -> Seq<char>
    decreases t,
{
    match t {
        HostTypeView::Int32 => "i32"@,
        HostTypeView::Int64 => "i64"@,
        HostTypeView::Str => "str"@,
        HostTypeView::Ref(inner) => "&"@ + host_text(*inner),
        HostTypeView::Record(name) => name,
        HostTypeView::Nullable(inner) => "Option<"@ + host_text(*inner) + ">"@,
        HostTypeView::Other(text) => text,
    }
}

impl HostType {
    /// Appends the name under which the type is shown in diagnostics.
    pub fn push_text(&self, out: &mut String)
        ensures
            final(out)@ == old(out)@ + host_text(self@),
        decreases self,
    {
        match self {
            HostType::Int32 => out.append("i32"),
            HostType::Int64 => out.append("i64"),
            HostType::Str => out.append("str"),
            HostType::Ref(inner) => {
                out.append("&");
                inner.push_text(out);
            },
            HostType::Record(name) => out.append(name.as_str()),
            HostType::Nullable(inner) => {
                out.append("Option<");
                inner.push_text(out);
                out.append(">");
            },
            HostType::Other(text) => out.append(text.as_str()),
        }
    }
}

/// Whether a column of type `column` accepts an argument of type
/// `argument`: a 32-bit integer for `Serial` and `I32`, a 64-bit integer for
/// `I64`, a reference to a string slice for `String`, the record of the
/// table's name for a foreign key, and for an optional column what the
/// inner type accepts, bare or in the nullable wrapper.
pub open spec fn accepts(column: TypeView, argument: HostTypeView) -> bool
    decreases column,
{
    match column {
        TypeView::Serial => argument == HostTypeView::Int32,
        TypeView::I32 => argument == HostTypeView::Int32,
        TypeView::I64 => argument == HostTypeView::Int64,
        TypeView::String => argument == HostTypeView::Ref(Box::new(HostTypeView::Str)),
        TypeView::ForeignKey(table) => argument == HostTypeView::Record(table),
        TypeView::Optional(inner) => accepts(*inner, argument) || match argument {
            HostTypeView::Nullable(wrapped) => accepts(*inner, *wrapped),
            _ => false,
        },
        _ => false,
    }
}

/// Compares the type of a field with the type found for an argument.
pub fn same_type(field_type: &Type, expected_type: &HostType) -> (r: bool)
    ensures
        r == accepts(field_type@, expected_type@),
    decreases field_type,
{
    match field_type {
        Type::Serial => match expected_type {
            HostType::Int32 => true,
            _ => false,
        },
        Type::I32 => match expected_type {
            HostType::Int32 => true,
            _ => false,
        },
        Type::I64 => match expected_type {
            HostType::Int64 => true,
            _ => false,
        },
        Type::String => {
            proof {
                reveal_with_fuel(host_type_view, 2);
            }
            match expected_type {
                HostType::Ref(inner) => match **inner {
                    HostType::Str => true,
                    _ => false,
                },
                _ => false,
            }
        },
        Type::ForeignKey(table) => match expected_type {
            HostType::Record(name) => text_eq(table.as_str(), name.as_str()),
            _ => false,
        },
        Type::Optional(inner) => {
            if same_type(inner, expected_type) {
                true
            } else {
                match expected_type {
                    HostType::Nullable(wrapped) => same_type(inner, wrapped),
                    _ => false,
                }
            }
        },
        _ => false,
    }
}

/// The diagnostics for an argument of type `found` bound to a column of
/// type `field_type`: none if the column accepts it, and else the error at
/// the argument and a note at the query.
pub open spec fn type_mismatch(
    field_type: TypeView,
    found: HostTypeView,
    position: Span,
    note_position: Span,
) -> Seq<Diagnostic> {
    if accepts(field_type, found) {
        Seq::empty()
    } else {
        seq![
            Diagnostic {
                code: Some("E0308"@),
                kind: ErrorType::Error,
                message: mismatch_message(type_text(field_type), host_text(found)),
                position,
            },
            Diagnostic {
                code: None,
                kind: ErrorType::Note,
                message: "in this expansion of sql!"@,
                position: note_position,
            },
        ]
    }
}

/// Checks that the column accepts the type found for the argument, and
/// adds the diagnostics if it does not.
pub fn check_type(
    field_type: &Type,
    expected_type: &HostType,
    position: Span,
    note_position: Span,
    errors: &mut Vec<Error>,
)
    ensures
        final(errors).deep_view() == old(errors).deep_view() + type_mismatch(
            field_type@,
            expected_type@,
            position,
            note_position,
        ),
{
    if !same_type(field_type, expected_type) {
        let mut message = "mismatched types:\n expected `".to_owned();
        field_type.push_text(&mut message);
        message.append("`,    found `");
        expected_type.push_text(&mut message);
        message.append("`");
        push_error(errors, Error::new_with_code(message, position, "E0308"));
        push_error(errors, Error::new_note("in this expansion of sql!".to_owned(), note_position));
    }
}

/// The shape of a host expression, as far as the arguments of a query are
/// read from it.
#[derive(Debug, PartialEq, Eq)]
pub enum HostExprKind {
    /// A reference to the value of the inner expression.
    AddrOf(Box<HostExpr>),
    /// An array of expressions.
    Array(Vec<HostExpr>),
    /// Any other expression.
    Other,
}

/// A host expression with the type that the host compiler found for it.
#[derive(Debug, PartialEq, Eq)]
pub struct HostExpr {
    pub kind: HostExprKind,
    pub ty: HostType,
}

/// The mathematical content of a `HostExprKind`.
pub enum HostExprKindView {
    AddrOf(Box<HostExprView>),
    Array(Seq<HostExprView>),
    Other,
}

/// The mathematical content of a `HostExpr`.
pub struct HostExprView {
    pub kind: HostExprKindView,
    pub ty: HostTypeView,
}

/// The content of a host expression, by recursion on its shape.
pub open spec fn host_expr_view(e: HostExpr) -> HostExprView
    decreases e,
{
    HostExprView {
        kind: match e.kind {
            HostExprKind::AddrOf(inner) => HostExprKindView::AddrOf(
                Box::new(host_expr_view(*inner)),
            ),
            HostExprKind::Array(elements) => HostExprKindView::Array(
                Seq::new(
                    elements@.len(),
                    |i: int|
                        if 0 <= i < elements@.len() {
                            host_expr_view(elements@[i])
                        } else {
                            HostExprView { kind: HostExprKindView::Other, ty: e.ty@ }
                        },
                ),
            ),
            HostExprKind::Other => HostExprKindView::Other,
        },
        ty: e.ty@,
    }
}

impl View for HostExpr {
    type V = HostExprView;

    open spec fn view(&self) -> HostExprView {
        host_expr_view(*self)
    }
}

impl DeepView for HostExpr {
    type V = HostExprView;

    open spec fn deep_view(&self) -> HostExprView {
        self@
    }
}

/// The types of the expressions that the elements refer to; an element
/// that is no reference gives none.
pub open spec fn referenced_types(elements: Seq<HostExprView>) -> Seq<HostTypeView>
    decreases elements.len(),
{
    if elements.len() == 0 {
        Seq::empty()
    } else {
        let before = referenced_types(elements.drop_last());
        match elements.last().kind {
            HostExprKindView::AddrOf(inner) => before.push(inner.ty),
            _ => before,
        }
    }
}

/// The types of the arguments that a query binds: those that the elements
/// of a referenced array refer to. Any other expression binds none.
pub open spec fn bound_types(arguments: HostExprView) -> Seq<HostTypeView> {
    match arguments.kind {
        HostExprKindView::AddrOf(argument) => match argument.kind {
            HostExprKindView::Array(vector) => referenced_types(vector),
            _ => Seq::empty(),
        },
        _ => Seq::empty(),
    }
}

/// Gets the types of the elements of the referenced array of arguments.
pub fn argument_types(arguments: &HostExpr) -> (types: Vec<HostType>)
    ensures
        types.deep_view() == bound_types(arguments@),
{
    let mut types: Vec<HostType> = Vec::new();
    if let HostExprKind::AddrOf(argument) = &arguments.kind {
        if let HostExprKind::Array(vector) = &argument.kind {
            let ghost views = argument@.kind->Array_0;
            let mut i: usize = 0;
            while i < vector.len()
                invariant
                    i <= vector@.len(),
                    views.len() == vector@.len(),
                    forall|k: int| 0 <= k < vector@.len() ==> views[k] == vector@[k]@,
                    types.deep_view() == referenced_types(views.take(i as int)),
                decreases vector@.len() - i,
            {
                proof {
                    reveal_with_fuel(host_expr_view, 2);
                    assert(views.take(i + 1).drop_last() =~= views.take(i as int));
                }
                if let HostExprKind::AddrOf(field) = &vector[i].kind {
                    types.push(field.ty.clone());
                }
                i += 1;
            }
            assert(views.take(i as int) =~= views);
        }
    }
    types
}

/// The diagnostics for a placeholder bound to the column `name` of
/// `table`, given the type found for its argument: the check against the
/// column's type, or the unknown field.
pub open spec fn column_diagnostics(
    table: TableView,
    placeholder: PlaceholderView,
    found: HostTypeView,
) -> Seq<Diagnostic> {
    match find_field(table.fields, placeholder.name) {
        Some(field) => type_mismatch(field.typ, found, placeholder.span, placeholder.call_site),
        None => unknown_field(
            placeholder.name,
            table.name,
            field_names(table.fields),
            placeholder.span,
        ),
    }
}

/// The diagnostics for one placeholder of a query on `table`, given the
/// types found for the query's arguments: none where no type was found
/// for it; else the check against `I64` for an index or a range, and else
/// the check against the column of `table` or, for a column reached
/// through a foreign key, of the table that the key refers to (none if
/// that table cannot be found).
pub open spec fn placeholder_diagnostics(
    table: TableView,
    tables: Seq<TableView>,
    placeholder: PlaceholderView,
    types: Seq<HostTypeView>,
) -> Seq<Diagnostic> {
    if placeholder.ordinal >= types.len() {
        Seq::empty()
    } else {
        let found = types[placeholder.ordinal as int];
        match placeholder.via {
            None => if placeholder.name == index_name() {
                type_mismatch(TypeView::I64, found, placeholder.span, placeholder.call_site)
            } else {
                column_diagnostics(table, placeholder, found)
            },
            Some(fk) => match related_table(table, tables, fk) {
                Some(target) => column_diagnostics(target, placeholder, found),
                None => Seq::empty(),
            },
        }
    }
}

/// The diagnostics for the placeholders of a query, one after the other.
pub open spec fn record_diagnostics(
    table: TableView,
    tables: Seq<TableView>,
    placeholders: Seq<PlaceholderView>,
    types: Seq<HostTypeView>,
) -> Seq<Diagnostic>
    decreases placeholders.len(),
{
    if placeholders.len() == 0 {
        Seq::empty()
    } else {
        record_diagnostics(table, tables, placeholders.drop_last(), types)
            + placeholder_diagnostics(table, tables, placeholders.last(), types)
    }
}

/// Checks the type found for an argument against the column of `table`
/// that its placeholder names.
fn check_column(table: &Table, placeholder: &Placeholder, found: &HostType, errors: &mut Vec<Error>)
    ensures
        final(errors).deep_view() == old(errors).deep_view() + column_diagnostics(
            table@,
            placeholder@,
            found@,
        ),
{
    match table.get(placeholder.name.as_str()) {
        Some(field) => {
            check_type(&field.typ, found, placeholder.span, placeholder.call_site, errors);
        },
        None => {
            let names = table.field_names();
            unknown_field_error(
                placeholder.name.as_str(),
                table.name().as_str(),
                &names,
                placeholder.span,
                errors,
            );
        },
    }
}

/// Checks the types found for the arguments of a query against the
/// columns that its placeholders are bound to.
pub fn check_arguments(
    table: &Table,
    sql_tables: &Registry,
    record: &QueryRecord,
    types: &Vec<HostType>,
) -> (errors: Vec<Error>)
    ensures
        errors.deep_view() == record_diagnostics(
            table@,
            sql_tables@,
            record@.placeholders,
            types.deep_view(),
        ),
{
    let mut errors: Vec<Error> = Vec::new();
    let ghost placeholders = record@.placeholders;
    let mut i: usize = 0;
    while i < record.placeholders.len()
        invariant
            i <= record.placeholders@.len(),
            placeholders == record@.placeholders,
            placeholders.len() == record.placeholders@.len(),
            errors.deep_view() == record_diagnostics(
                table@,
                sql_tables@,
                placeholders.take(i as int),
                types.deep_view(),
            ),
        decreases record.placeholders@.len() - i,
    {
        let placeholder = &record.placeholders[i];
        proof {
            assert(placeholders.take(i + 1).drop_last() =~= placeholders.take(i as int));
        }
        if placeholder.ordinal < types.len() {
            let found = &types[placeholder.ordinal];
            match &placeholder.via {
                None => {
                    if text_eq(placeholder.name.as_str(), "i64") {
                        check_type(
                            &Type::I64,
                            found,
                            placeholder.span,
                            placeholder.call_site,
                            &mut errors,
                        );
                    } else {
                        check_column(table, placeholder, found, &mut errors);
                    }
                },
                Some(fk) => {
                    if let Some(target) = sql_tables.related_table(table, fk.as_str()) {
                        check_column(target, placeholder, found, &mut errors);
                    }
                },
            }
        }
        i += 1;
    }
    assert(placeholders.take(i as int) =~= placeholders);
    errors
}

/// What is read of a method call in the host program: the method's name,
/// its arguments after the receiver's place, and where the call stands.
#[derive(Debug, PartialEq, Eq)]
pub struct MethodCall {
    pub name: String,
    pub arguments: Vec<HostExpr>,
    pub span: Span,
}

/// The mathematical content of a `MethodCall`.
pub struct MethodCallView {
    pub name: Seq<char>,
    pub arguments: Seq<HostExprView>,
    pub span: Span,
}

impl View for MethodCall {
    type V = MethodCallView;

    open spec fn view(&self) -> MethodCallView {
        MethodCallView {
            name: self.name@,
            arguments: self.arguments.deep_view(),
            span: self.span,
        }
    }
}

/// Whether the call submits a query: a call of `query` or of `execute` that
/// has a second argument.
pub open spec fn submits_query(expr: MethodCallView) -> bool {
    (expr.name == "query"@ || expr.name == "execute"@) && expr.arguments.len() > 1
}

/// The diagnostics for a method call: those of the arguments' types, where
/// the call submits a query that was recorded at the call's position and
/// whose table is registered; none for any other call.
pub open spec fn call_diagnostics(
    tables: Seq<TableView>,
    calls: Map<u32, QueryRecordView>,
    expr: MethodCallView,
) -> Seq<Diagnostic> {
    if submits_query(expr) && calls.contains_key(expr.span.lo) {
        let record = calls[expr.span.lo];
        match find_table(tables, record.table_name) {
            Some(table) => record_diagnostics(
                table,
                tables,
                record.placeholders,
                bound_types(expr.arguments[1]),
            ),
            None => Seq::empty(),
        }
    } else {
        Seq::empty()
    }
}

/// The check of the types of the arguments that queries bind.
#[derive(Clone, Copy, Debug, PartialEq, Eq)]
pub struct SqlError;

impl SqlError {
    /// Checks the types of the array argument of a call of `query` or of
    /// `execute` against the record kept of the query at that position.
    pub fn check_expr(&mut self, tables: &Registry, calls: &PlaceholderTable, expr: &MethodCall) -> (errors:
        Vec<Error>)
        ensures
            errors.deep_view() == call_diagnostics(tables@, calls@, expr@),
    {
        let submits = (text_eq(expr.name.as_str(), "query") || text_eq(
            expr.name.as_str(),
            "execute",
        )) && expr.arguments.len() > 1;
        if submits {
            if let Some(record) = calls.get(expr.span.lo) {
                if let Some(table) = tables.lookup(record.table_name.as_str()) {
                    let types = argument_types(&expr.arguments[1]);
                    return check_arguments(table, tables, record, &types);
                }
            }
        }
        let errors: Vec<Error> = Vec::new();
        errors
    }
}

/// The message for a field of a type outside the supported set.
pub open spec fn unsupported_type_message(name: Seq<char>) -> Seq<char> {
    "Use of unsupported type name `"@ + name + "`"@
}

/// The diagnostics for the type of a field declared at `position`: the
/// unknown table for a foreign key or a custom type that names no
/// registered table, and an error for a type outside the supported set.
pub open spec fn type_diagnostics(typ: TypeView, position: Span, tables: Seq<TableView>) -> Seq<
    Diagnostic,
>
    decreases typ,
{
    match typ {
        TypeView::Custom(name) => if find_table(tables, name) is None {
            unknown_table(name, position, tables)
        } else {
            Seq::empty()
        },
        TypeView::ForeignKey(name) => if find_table(tables, name) is None {
            unknown_table(name, position, tables)
        } else {
            Seq::empty()
        },
        TypeView::UnsupportedType(name) => seq![
            Diagnostic {
                code: Some("E0412"@),
                kind: ErrorType::Error,
                message: unsupported_type_message(name),
                position,
            },
        ],
        TypeView::Optional(inner) => type_diagnostics(*inner, position, tables),
        _ => Seq::empty(),
    }
}

/// The diagnostics for the fields of a table, one field after the other.
pub open spec fn fields_diagnostics(fields: Seq<FieldView>, tables: Seq<TableView>) -> Seq<
    Diagnostic,
>
    decreases fields.len(),
{
    if fields.len() == 0 {
        Seq::empty()
    } else {
        fields_diagnostics(fields.drop_last(), tables) + type_diagnostics(
            fields.last().typ,
            fields.last().span,
            tables,
        )
    }
}

/// Whether one of the fields is a primary key.
pub open spec fn has_primary_key(fields: Seq<FieldView>) -> bool {
    exists|i: int| 0 <= i < fields.len() && (#[trigger] fields[i]).typ == TypeView::Serial
}

/// The diagnostics for a declared table: those of its fields, and a
/// warning at the declaration if no field is a primary key.
pub open spec fn table_diagnostics(table: TableView, tables: Seq<TableView>) -> Seq<Diagnostic> {
    fields_diagnostics(table.fields, tables) + if has_primary_key(table.fields) {
        Seq::<Diagnostic>::empty()
    } else {
        seq![
            Diagnostic {
                code: None,
                kind: ErrorType::Warning,
                message: "No primary key found"@,
                position: table.span,
            },
        ]
    }
}

/// Adds the diagnostics for the type of a field.
fn check_field_type(typ: &Type, position: Span, sql_tables: &Registry, errors: &mut Vec<Error>)
    ensures
        final(errors).deep_view() == old(errors).deep_view() + type_diagnostics(
            typ@,
            position,
            sql_tables@,
        ),
    decreases typ,
{
    match typ {
        Type::Custom(related_table_name) => {
            if sql_tables.lookup(related_table_name.as_str()).is_none() {
                unknown_table_error(related_table_name.as_str(), position, sql_tables, errors);
            }
        },
        Type::ForeignKey(related_table_name) => {
            if sql_tables.lookup(related_table_name.as_str()).is_none() {
                unknown_table_error(related_table_name.as_str(), position, sql_tables, errors);
            }
        },
        Type::UnsupportedType(name) => {
            let mut message = "Use of unsupported type name `".to_owned();
            message.append(name.as_str());
            message.append("`");
            push_error(errors, Error::new_with_code(message, position, "E0412"));
        },
        Type::Optional(inner) => {
            check_field_type(inner, position, sql_tables, errors);
        },
        _ => {},
    }
}

/// All the diagnostics for a declared table, warnings included.
pub fn check_table(table: &Table, sql_tables: &Registry) -> (errors: Vec<Error>)
    ensures
        errors.deep_view() == table_diagnostics(table@, sql_tables@),
{
    let mut errors: Vec<Error> = Vec::new();
    let fields = table.fields();
    let ghost views = table@.fields;
    let mut primary_key = false;
    let mut i: usize = 0;
    while i < fields.len()
        invariant
            i <= fields@.len(),
            views == fields.deep_view(),
            views.len() == fields@.len(),
            errors.deep_view() == fields_diagnostics(views.take(i as int), sql_tables@),
            primary_key == has_primary_key(views.take(i as int)),
        decreases fields@.len() - i,
    {
        let field = &fields[i];
        proof {
            assert(views.take(i + 1).drop_last() =~= views.take(i as int));
        }
        check_field_type(&field.typ, field.span, sql_tables, &mut errors);
        let serial = match field.typ {
            Type::Serial => true,
            _ => false,
        };
        proof {
            let shorter = views.take(i as int);
            let longer = views.take(i + 1);
            assert(forall|k: int| 0 <= k < i ==> (#[trigger] longer[k]) == shorter[k]);
            assert(longer[i as int] == field@);
        }
        if serial {
            primary_key = true;
        }
        i += 1;
    }
    assert(views.take(i as int) =~= views);
    if !primary_key {
        push_error(&mut errors, Error::new_warning("No primary key found".to_owned(), table.span()));
    }
    errors
}

/// Analyzes the types of the fields of a declared table: `Ok` iff none of
/// its diagnostics is an error.
pub fn analyze_table_types(table: &Table, sql_tables: &Registry) -> (r: SqlResult<()>)
    ensures
        r is Ok <==> !crate::error::has_error(table_diagnostics(table@, sql_tables@)),
        r matches Err(errors) ==> errors.deep_view() == table_diagnostics(table@, sql_tables@),
{
    res((), check_table(table, sql_tables))
}

/// The way in which a diagnostic is handed to the host compiler.
#[derive(Clone, Debug, PartialEq, Eq)]
pub enum Emission {
    /// An error with a code, shown at a span.
    SpanErrWithCode { position: Span, message: String, code: String },
    /// An error without a code, shown at a span.
    SpanErr { position: Span, message: String },
    /// A help message, shown with the file and the line.
    FilelineHelp { position: Span, message: String },
    /// A note, shown with the file and the line.
    FilelineNote { position: Span, message: String },
    /// A warning, shown at a span.
    SpanWarn { position: Span, message: String },
}

/// The mathematical content of an `Emission`.
pub enum EmissionView {
    SpanErrWithCode { position: Span, message: Seq<char>, code: Seq<char> },
    SpanErr { position: Span, message: Seq<char> },
    FilelineHelp { position: Span, message: Seq<char> },
    FilelineNote { position: Span, message: Seq<char> },
    SpanWarn { position: Span, message: Seq<char> },
}

impl View for Emission {
    type V = EmissionView;

    open spec fn view(&self) -> EmissionView {
        match self {
            Emission::SpanErrWithCode { position, message, code } => EmissionView::SpanErrWithCode {
                position: *position,
                message: message@,
                code: code@,
            },
            Emission::SpanErr { position, message } => EmissionView::SpanErr {
                position: *position,
                message: message@,
            },
            Emission::FilelineHelp { position, message } => EmissionView::FilelineHelp {
                position: *position,
                message: message@,
            },
            Emission::FilelineNote { position, message } => EmissionView::FilelineNote {
                position: *position,
                message: message@,
            },
            Emission::SpanWarn { position, message } => EmissionView::SpanWarn {
                position: *position,
                message: message@,
            },
        }
    }
}

impl DeepView for Emission {
    type V = EmissionView;

    open spec fn deep_view(&self) -> EmissionView {
        self@
    }
}

/// The way in which a diagnostic is shown, by its kind and its code.
pub open spec fn emission(d: Diagnostic) -> EmissionView {
    match d.kind {
        ErrorType::Error => match d.code {
            Some(code) => EmissionView::SpanErrWithCode {
                position: d.position,
                message: d.message,
                code,
            },
            None => EmissionView::SpanErr { position: d.position, message: d.message },
        },
        ErrorType::Help => EmissionView::FilelineHelp { position: d.position, message: d.message },
        ErrorType::Note => EmissionView::FilelineNote { position: d.position, message: d.message },
        ErrorType::Warning => EmissionView::SpanWarn { position: d.position, message: d.message },
    }
}

/// The ways in which some diagnostics are shown, in their order.
pub open spec fn emissions(diagnostics: Seq<Diagnostic>) -> Seq<EmissionView> {
    Seq::new(diagnostics.len(), |i: int| emission(diagnostics[i]))
}

/// Decides how each of the diagnostics is shown.
pub fn span_errors(errors: Vec<Error>) -> (shown: Vec<Emission>)
    ensures
        shown.deep_view() == emissions(errors.deep_view()),
{
    let mut shown: Vec<Emission> = Vec::new();
    let mut i: usize = 0;
    while i < errors.len()
        invariant
            i <= errors@.len(),
            shown@.len() == i,
            forall|j: int| 0 <= j < i ==> shown@[j]@ == emission(errors@[j]@),
        decreases errors@.len() - i,
    {
        let error = &errors[i];
        let position = error.position;
        let message = error.message.clone();
        let one = match error.kind {
            ErrorType::Error => match &error.code {
                Some(code) => Emission::SpanErrWithCode { position, message, code: code.clone() },
                None => Emission::SpanErr { position, message },
            },
            ErrorType::Help => Emission::FilelineHelp { position, message },
            ErrorType::Note => Emission::FilelineNote { position, message },
            ErrorType::Warning => Emission::SpanWarn { position, message },
        };
        shown.push(one);
        i += 1;
    }
    shown
}

/// The diagnostics for the first tables of `checked`, each checked against
/// all of `tables`.
pub open spec fn tables_diagnostics(checked: Seq<TableView>, tables: Seq<TableView>) -> Seq<
    Diagnostic,
>
    decreases checked.len(),
{
    if checked.len() == 0 {
        Seq::empty()
    } else {
        tables_diagnostics(checked.drop_last(), tables) + table_diagnostics(checked.last(), tables)
    }
}

/// All the diagnostics for the declared tables, in the order of registration.
pub fn check_tables(sql_tables: &Registry) -> (errors: Vec<Error>)
    ensures
        errors.deep_view() == tables_diagnostics(sql_tables@, sql_tables@),
{
    let mut errors: Vec<Error> = Vec::new();
    let tables = sql_tables.iterate();
    let ghost views = sql_tables@;
    let mut i: usize = 0;
    while i < tables.len()
        invariant
            i <= tables@.len(),
            views == sql_tables@,
            views == tables.deep_view(),
            views.len() == tables@.len(),
            errors.deep_view() == tables_diagnostics(views.take(i as int), views),
        decreases tables@.len() - i,
    {
        proof {
            assert(views.take(i + 1).drop_last() =~= views.take(i as int));
        }
        let mut found = check_table(&tables[i], sql_tables);
        errors.append(&mut found);
        i += 1;
    }
    assert(views.take(i as int) =~= views);
    errors
}

/// The check of the declared tables, which runs once.
#[derive(Clone, Copy, Debug, PartialEq, Eq)]
pub struct SqlAttrError {
    pub analyze_done: bool,
}

impl SqlAttrError {
    /// The check before it has run.
    pub fn new() -> (r: SqlAttrError)
        ensures
            !r.analyze_done,
    {
        SqlAttrError { analyze_done: false }
    }

    /// Checks the declared tables the first time it is called, and says
    /// how to show what was found; a later call finds nothing to do.
    pub fn exit_lint_attrs(&mut self, sql_tables: &Registry) -> (shown: Vec<Emission>)
        ensures
            final(self).analyze_done,
            shown.deep_view() == if old(self).analyze_done {
                Seq::<EmissionView>::empty()
            } else {
                emissions(tables_diagnostics(sql_tables@, sql_tables@))
            },
    {
        let done = self.analyze_done;
        self.analyze_done = true;
        if !done {
            span_errors(check_tables(sql_tables))
        } else {
            let shown: Vec<Emission> = Vec::new();
            shown
        }
    }
}

} // verus!
