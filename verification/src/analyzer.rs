//! The checks of a query against the declared tables.

use vstd::prelude::*;
use vstd::string::*;
use crate::error::{has_error, push_error, res, Diagnostic, Error, ErrorType, Span, SqlResult};
use crate::placeholders::{placeholder_records, query_bindings, query_operands, records};
use crate::query::{
    option_filter_view, option_limit_view, Aggregate, AggregateView, Assignment, AssignmentView,
    Condition, ConditionView, DatePart, FieldPath, FieldPathView, Filter, FilterView, Limit,
    LimitView, Literal, LiteralView, MethodOp, NullOp, Operand, OperandView, Order, OrderView,
    Query, QueryView,
};
use crate::sql::{find_alias, lookup_alias};
use crate::state::{
    field_names, find_field, find_table, foreign_target, table_names, type_text, QueryRecord,
    QueryRecordView, Registry, Table, TableView, Type, TypeView,
};
use crate::string::{find_near, nearest};

verus! {

/// The message that proposes another name.
pub open spec fn did_you_mean(name: Seq<char>) -> Seq<char> {
    "did you mean `"@ + name + "`?"@
}

/// The help that proposes the nearest of the candidates, if one is near.
pub open spec fn proposal(name: Seq<char>, candidates: Seq<Seq<char>>, position: Span) -> Seq<
    Diagnostic,
> {
    match nearest(name, candidates) {
        Some(near) => seq![
            Diagnostic { code: None, kind: ErrorType::Help, message: did_you_mean(near), position },
        ],
        None => Seq::empty(),
    }
}

/// Adds the help that proposes the nearest of the candidates, if one is near.
pub fn propose_similar_name(
    name: &str,
    candidates: &Vec<String>,
    position: Span,
    errors: &mut Vec<Error>,
)
    ensures
        final(errors).deep_view() == old(errors).deep_view() + proposal(
            name@,
            candidates.deep_view(),
            position,
        ),
{
    match find_near(name, candidates) {
        Some(near) => {
            let mut message = "did you mean `".to_owned();
            message.append(near.as_str());
            message.append("`?");
            push_error(errors, Error::new_help(message, position));
        },
        None => {
        },
    }
}

/// The message for a name that is no table's.
pub open spec fn unknown_table_message(name: Seq<char>) -> Seq<char> {
    "`"@ + name + "` does not name an SQL table"@
}

/// The diagnostics for a table that is not registered: the error, and the
/// nearest registered name if one is near.
pub open spec fn unknown_table(name: Seq<char>, position: Span, tables: Seq<TableView>) -> Seq<
    Diagnostic,
> {
    seq![
        Diagnostic {
            code: None,
            kind: ErrorType::Error,
            message: unknown_table_message(name),
            position,
        },
    ] + proposal(name, table_names(tables), position)
}

/// Adds the diagnostics for a table that is not registered.
pub fn unknown_table_error(
    table_name: &str,
    position: Span,
    sql_tables: &Registry,
    errors: &mut Vec<Error>,
)
    ensures
        final(errors).deep_view() == old(errors).deep_view() + unknown_table(
            table_name@,
            position,
            sql_tables@,
        ),
{
    let mut message = "`".to_owned();
    message.append(table_name);
    message.append("` does not name an SQL table");
    push_error(errors, Error::new(message, position));
    let names = sql_tables.table_names();
    propose_similar_name(table_name, &names, position, errors);
}

/// The message for a name that is no field of the table.
pub open spec fn unknown_field_message(field: Seq<char>, table: Seq<char>) -> Seq<char> {
    "attempted access of field `"@ + field + "` on type `"@ + table
        + "`, but no field with that name was found"@
}

/// The diagnostics for a field that the table does not have: the error, and
/// the nearest of the table's field names if one is near.
pub open spec fn unknown_field(
    field: Seq<char>,
    table: Seq<char>,
    candidates: Seq<Seq<char>>,
    position: Span,
) -> Seq<Diagnostic> {
    seq![
        Diagnostic {
            code: None,
            kind: ErrorType::Error,
            message: unknown_field_message(field, table),
            position,
        },
    ] + proposal(field, candidates, position)
}

/// Adds the diagnostics for a field that the table does not have.
pub fn unknown_field_error(
    field: &str,
    table: &str,
    candidates: &Vec<String>,
    position: Span,
    errors: &mut Vec<Error>,
)
    ensures
        final(errors).deep_view() == old(errors).deep_view() + unknown_field(
            field@,
            table@,
            candidates.deep_view(),
            position,
        ),
{
    let mut message = "attempted access of field `".to_owned();
    message.append(field);
    message.append("` on type `");
    message.append(table);
    message.append("`, but no field with that name was found");
    push_error(errors, Error::new(message, position));
    propose_similar_name(field, candidates, position, errors);
    assert(final(errors).deep_view() =~= old(errors).deep_view() + unknown_field(
        field@,
        table@,
        candidates.deep_view(),
        position,
    ));
}

/// The message for a value of a type other than the one expected.
pub open spec fn mismatch_message(expected: Seq<char>, found: Seq<char>) -> Seq<char> {
    "mismatched types:\n expected `"@ + expected + "`,    found `"@ + found + "`"@
}

/// The name under which the type of a literal is shown.
pub open spec fn literal_text(l: LiteralView) -> Seq<char> {
    match l {
        LiteralView::Int(_) => "integral variable"@,
        LiteralView::Str(_) => "&'static str"@,
        LiteralView::Bool(_) => "bool"@,
    }
}

/// Whether a literal can be compared with a column of type `typ`: an
/// integer with a column of an integer type, a text with a text column, a
/// boolean with a boolean column, and with an optional column whatever can
/// be compared with its inner type.
pub open spec fn literal_fits(typ: TypeView, l: LiteralView) -> bool
    decreases typ,
{
    match typ {
        TypeView::Serial => l is Int,
        TypeView::I32 => l is Int,
        TypeView::I64 => l is Int,
        TypeView::String => l is Str,
        TypeView::Bool => l is Bool,
        TypeView::Optional(inner) => literal_fits(*inner, l),
        _ => false,
    }
}

/// The error for a value of a type other than the one expected.
pub open spec fn mismatch(expected: Seq<char>, found: Seq<char>, position: Span) -> Seq<Diagnostic> {
    seq![
        Diagnostic {
            code: Some("E0308"@),
            kind: ErrorType::Error,
            message: mismatch_message(expected, found),
            position,
        },
    ]
}

/// The diagnostics for an operand compared with a column of type `typ`:
/// an error for a literal that does not fit; a host expression is checked
/// once its type is known.
pub open spec fn operand_diagnostics(typ: TypeView, x: OperandView) -> Seq<Diagnostic> {
    match x {
        OperandView::Literal(l, span) => if literal_fits(typ, l) {
            Seq::empty()
        } else {
            mismatch(type_text(typ), literal_text(l), span)
        },
        OperandView::HostExpr(_) => Seq::empty(),
    }
}

/// The diagnostics for an operand that has to be an integer.
pub open spec fn integer_diagnostics(x: OperandView) -> Seq<Diagnostic> {
    match x {
        OperandView::Literal(l, span) => if l is Int {
            Seq::empty()
        } else {
            mismatch("i64"@, literal_text(l), span)
        },
        OperandView::HostExpr(_) => Seq::empty(),
    }
}

/// The diagnostics for an operand that has to be a text.
pub open spec fn text_diagnostics(x: OperandView) -> Seq<Diagnostic> {
    match x {
        OperandView::Literal(l, span) => if l is Str {
            Seq::empty()
        } else {
            mismatch("String"@, literal_text(l), span)
        },
        OperandView::HostExpr(_) => Seq::empty(),
    }
}

/// The message for a method that a column's type does not have.
pub open spec fn no_method_message(method: Seq<char>, typ: Seq<char>) -> Seq<char> {
    "no method named `"@ + method + "` found for type `"@ + typ + "`"@
}

/// The error for a method that a column's type does not have.
pub open spec fn no_method(method: Seq<char>, typ: TypeView, position: Span) -> Seq<Diagnostic> {
    seq![
        Diagnostic {
            code: Some("E0599"@),
            kind: ErrorType::Error,
            message: no_method_message(method, type_text(typ)),
            position,
        },
    ]
}

/// The message for a name in a condition on groups that no aggregate was
/// given.
pub open spec fn no_aggregate_message(name: Seq<char>) -> Seq<char> {
    "no aggregate field named `"@ + name + "` was found"@
}

/// The error for a condition on groups that is about no aggregate.
pub open spec fn no_aggregate(name: Seq<char>, position: Span) -> Seq<Diagnostic> {
    seq![
        Diagnostic {
            code: None,
            kind: ErrorType::Error,
            message: no_aggregate_message(name),
            position,
        },
    ]
}

/// The type of the column at `path` in a query on `table`, or the
/// diagnostics that say why there is no such column: the field is unknown,
/// or the path goes through a field that is no foreign key, or through one
/// that refers to a table that is not registered.
pub open spec fn resolution(table: TableView, tables: Seq<TableView>, path: FieldPathView) -> Result<
    TypeView,
    Seq<Diagnostic>,
> {
    match find_field(table.fields, path.field) {
        None => Err(unknown_field(path.field, table.name, field_names(table.fields), path.span)),
        Some(field) => match path.related {
            None => Ok(field.typ),
            Some(column) => match foreign_target(field.typ) {
                None => Err(mismatch("ForeignKey<_>"@, type_text(field.typ), path.span)),
                Some(target) => match find_table(tables, target) {
                    None => Err(unknown_table(target, path.span, tables)),
                    Some(other) => match find_field(other.fields, column) {
                        None => Err(
                            unknown_field(column, other.name, field_names(other.fields), path.span),
                        ),
                        Some(found) => Ok(found.typ),
                    },
                },
            },
        },
    }
}

/// The name of a method on a text column.
pub open spec fn method_name(m: MethodOp) -> Seq<char> {
    match m {
        MethodOp::Contains => "contains"@,
        MethodOp::StartsWith => "starts_with"@,
        MethodOp::EndsWith => "ends_with"@,
        MethodOp::Regex => "regex"@,
        MethodOp::IRegex => "iregex"@,
    }
}

/// The name of a test of an optional column.
pub open spec fn null_name(n: NullOp) -> Seq<char> {
    match n {
        NullOp::IsNone => "is_none"@,
        NullOp::IsSome => "is_some"@,
    }
}

/// The name of the method that gives a part of a date or of a time.
pub open spec fn part_name(part: DatePart) -> Seq<char> {
    match part {
        DatePart::Year => "year"@,
        DatePart::Month => "month"@,
        DatePart::Day => "day"@,
        DatePart::Hour => "hour"@,
        DatePart::Minute => "minute"@,
        DatePart::Second => "second"@,
    }
}

/// Whether a type is that of a date, of a time or of both.
pub open spec fn is_temporal(typ: TypeView) -> bool {
    typ is DateTime || typ is Date || typ is Time
}

/// The diagnostics for a condition on the rows of `table`.
pub open spec fn condition_diagnostics(
    table: TableView,
    tables: Seq<TableView>,
    c: ConditionView,
) -> Seq<Diagnostic> {
    match c {
        ConditionView::Compare(path, _, x) => match resolution(table, tables, path) {
            Ok(typ) => operand_diagnostics(typ, x),
            Err(d) => d,
        },
        ConditionView::MethodPredicate(path, m, x) => match resolution(table, tables, path) {
            Ok(typ) => if typ is String {
                text_diagnostics(x)
            } else {
                no_method(method_name(m), typ, path.span)
            },
            Err(d) => d,
        },
        ConditionView::NullPredicate(path, n) => match resolution(table, tables, path) {
            Ok(typ) => if typ is Optional {
                Seq::empty()
            } else {
                no_method(null_name(n), typ, path.span)
            },
            Err(d) => d,
        },
        ConditionView::Length(path, _, x) => match resolution(table, tables, path) {
            Ok(typ) => if typ is String {
                integer_diagnostics(x)
            } else {
                no_method("len"@, typ, path.span)
            },
            Err(d) => d,
        },
        ConditionView::DatetimePart(path, part, _, x) => match resolution(table, tables, path) {
            Ok(typ) => if is_temporal(typ) {
                integer_diagnostics(x)
            } else {
                no_method(part_name(part), typ, path.span)
            },
            Err(d) => d,
        },
        ConditionView::Constant(_) => Seq::empty(),
    }
}

/// The diagnostics for a condition on the groups of an aggregation: it has
/// to compare a name given to one of the aggregates with an integer.
pub open spec fn group_condition_diagnostics(
    aggregates: Seq<AggregateView>,
    c: ConditionView,
) -> Seq<Diagnostic> {
    match c {
        ConditionView::Compare(path, _, x) => if path.related is None && find_alias(
            aggregates,
            path.field,
        ) is Some {
            integer_diagnostics(x)
        } else {
            no_aggregate(path.field, path.span)
        },
        ConditionView::MethodPredicate(path, _, _) => no_aggregate(path.field, path.span),
        ConditionView::NullPredicate(path, _) => no_aggregate(path.field, path.span),
        ConditionView::Length(path, _, _) => no_aggregate(path.field, path.span),
        ConditionView::DatetimePart(path, _, _, _) => no_aggregate(path.field, path.span),
        ConditionView::Constant(_) => Seq::empty(),
    }
}

/// The diagnostics for a filter, from left to right: on the rows of
/// `table`, or on the groups of the aggregates if some are given.
pub open spec fn filter_diagnostics(
    table: TableView,
    tables: Seq<TableView>,
    groups_of: Option<Seq<AggregateView>>,
    f: FilterView,
) -> Seq<Diagnostic>
    decreases f,
{
    match f {
        FilterView::And(l, r) => filter_diagnostics(table, tables, groups_of, *l)
            + filter_diagnostics(table, tables, groups_of, *r),
        FilterView::Or(l, r) => filter_diagnostics(table, tables, groups_of, *l)
            + filter_diagnostics(table, tables, groups_of, *r),
        FilterView::Not(inner) => filter_diagnostics(table, tables, groups_of, *inner),
        FilterView::Leaf(c) => match groups_of {
            Some(aggregates) => group_condition_diagnostics(aggregates, c),
            None => condition_diagnostics(table, tables, c),
        },
    }
}

/// The diagnostics for an optional filter.
pub open spec fn option_filter_diagnostics(
    table: TableView,
    tables: Seq<TableView>,
    groups_of: Option<Seq<AggregateView>>,
    f: Option<FilterView>,
) -> Seq<Diagnostic> {
    match f {
        Some(f) => filter_diagnostics(table, tables, groups_of, f),
        None => Seq::empty(),
    }
}

/// The diagnostics for a join: the field has to be known, to be a foreign
/// key, and to refer to a registered table.
pub open spec fn join_diagnostics(table: TableView, tables: Seq<TableView>, join: FieldPathView) -> Seq<
    Diagnostic,
> {
    match find_field(table.fields, join.field) {
        None => unknown_field(join.field, table.name, field_names(table.fields), join.span),
        Some(field) => match foreign_target(field.typ) {
            None => mismatch("ForeignKey<_>"@, type_text(field.typ), join.span),
            Some(target) => if find_table(tables, target) is None {
                unknown_table(target, join.span, tables)
            } else {
                Seq::empty()
            },
        },
    }
}

/// The diagnostics for the joins, one after the other.
pub open spec fn joins_diagnostics(
    table: TableView,
    tables: Seq<TableView>,
    joins: Seq<FieldPathView>,
) -> Seq<Diagnostic>
    decreases joins.len(),
{
    if joins.len() == 0 {
        Seq::empty()
    } else {
        joins_diagnostics(table, tables, joins.drop_last()) + join_diagnostics(
            table,
            tables,
            joins.last(),
        )
    }
}

/// The diagnostics for a path that has to lead to a column.
pub open spec fn path_diagnostics(table: TableView, tables: Seq<TableView>, path: FieldPathView) -> Seq<
    Diagnostic,
> {
    match resolution(table, tables, path) {
        Ok(_) => Seq::empty(),
        Err(d) => d,
    }
}

/// The diagnostics for the paths, one after the other.
pub open spec fn paths_diagnostics(
    table: TableView,
    tables: Seq<TableView>,
    paths: Seq<FieldPathView>,
) -> Seq<Diagnostic>
    decreases paths.len(),
{
    if paths.len() == 0 {
        Seq::empty()
    } else {
        paths_diagnostics(table, tables, paths.drop_last()) + path_diagnostics(
            table,
            tables,
            paths.last(),
        )
    }
}

/// The diagnostics for the columns of a sort, one after the other.
pub open spec fn order_diagnostics(table: TableView, tables: Seq<TableView>, order: Seq<OrderView>) -> Seq<
    Diagnostic,
>
    decreases order.len(),
{
    if order.len() == 0 {
        Seq::empty()
    } else {
        order_diagnostics(table, tables, order.drop_last()) + path_diagnostics(
            table,
            tables,
            order.last().field,
        )
    }
}

/// The diagnostics for an index or a range: its bounds have to be integers.
pub open spec fn limit_diagnostics(limit: Option<LimitView>) -> Seq<Diagnostic> {
    match limit {
        None => Seq::empty(),
        Some(LimitView::Index(i)) => integer_diagnostics(i),
        Some(LimitView::Range(start, end)) => integer_diagnostics(start) + integer_diagnostics(end),
        Some(LimitView::StartRange(start)) => integer_diagnostics(start),
        Some(LimitView::EndRange(end)) => integer_diagnostics(end),
    }
}

/// The diagnostics for an assignment: the field has to be known, and a
/// literal has to fit its type.
pub open spec fn assignment_diagnostics(table: TableView, a: AssignmentView) -> Seq<Diagnostic> {
    match find_field(table.fields, a.field) {
        None => unknown_field(a.field, table.name, field_names(table.fields), a.span),
        Some(field) => operand_diagnostics(field.typ, a.value),
    }
}

/// The diagnostics for the assignments, one after the other.
pub open spec fn assignments_diagnostics(table: TableView, assignments: Seq<AssignmentView>) -> Seq<
    Diagnostic,
>
    decreases assignments.len(),
{
    if assignments.len() == 0 {
        Seq::empty()
    } else {
        assignments_diagnostics(table, assignments.drop_last()) + assignment_diagnostics(
            table,
            assignments.last(),
        )
    }
}

/// The diagnostics for the aggregates, one after the other: the field of
/// each has to be known.
pub open spec fn aggregates_diagnostics(table: TableView, aggregates: Seq<AggregateView>) -> Seq<
    Diagnostic,
>
    decreases aggregates.len(),
{
    if aggregates.len() == 0 {
        Seq::empty()
    } else {
        aggregates_diagnostics(table, aggregates.drop_last()) + match find_field(
            table.fields,
            aggregates.last().field,
        ) {
            None => unknown_field(
                aggregates.last().field,
                table.name,
                field_names(table.fields),
                aggregates.last().span,
            ),
            Some(_) => Seq::<Diagnostic>::empty(),
        }
    }
}

/// The diagnostics for a query on the registered tables, in the order of
/// the query's parts: the unknown table, or else what is wrong with the
/// columns that the query names and with the literals that it compares
/// them with.
pub open spec fn query_diagnostics(q: QueryView, tables: Seq<TableView>) -> Seq<Diagnostic> {
    match find_table(tables, q.table().name) {
        None => unknown_table(q.table().name, q.table().span, tables),
        Some(table) => match q {
            QueryView::Select(s) => joins_diagnostics(table, tables, s.joins)
                + option_filter_diagnostics(table, tables, None, s.filter) + order_diagnostics(
                table,
                tables,
                s.order,
            ) + limit_diagnostics(s.limit),
            QueryView::Insert { assignments, .. } => assignments_diagnostics(table, assignments),
            QueryView::Update { assignments, filter, .. } => assignments_diagnostics(
                table,
                assignments,
            ) + option_filter_diagnostics(table, tables, None, filter),
            QueryView::Delete { filter, .. } => option_filter_diagnostics(
                table,
                tables,
                None,
                filter,
            ),
            QueryView::CreateTable { .. } => Seq::empty(),
            QueryView::DropTable { .. } => Seq::empty(),
            QueryView::Aggregate { aggregates, groups, filter, having, .. } => paths_diagnostics(
                table,
                tables,
                groups,
            ) + aggregates_diagnostics(table, aggregates) + option_filter_diagnostics(
                table,
                tables,
                None,
                filter,
            ) + option_filter_diagnostics(table, tables, Some(aggregates), having),
        },
    }
}

/// What is kept of an analyzed query: its table, and the records of the
/// host expressions that it binds.
pub open spec fn query_record(q: QueryView, call_site: Span) -> QueryRecordView {
    QueryRecordView {
        table_name: q.table().name,
        placeholders: records(query_bindings(q), call_site),
    }
}

/// Whether `r` is the result of the analysis of the query `q`, written at
/// `call_site`, against `tables`: the query's record if none of its
/// diagnostics is an error, and else all the diagnostics.
pub open spec fn analyzed(
    q: QueryView,
    tables: Seq<TableView>,
    call_site: Span,
    r: SqlResult<QueryRecord>,
) -> bool {
    match r {
        Ok(record) => !has_error(query_diagnostics(q, tables)) && record@ == query_record(
            q,
            call_site,
        ),
        Err(errors) => has_error(query_diagnostics(q, tables)) && errors.deep_view()
            == query_diagnostics(q, tables),
    }
}

fn literal_name(l: &Literal) -> (s: &'static str)
    ensures
        s@ == literal_text(l@),
{
    match l {
        Literal::Int(_) => "integral variable",
        Literal::Str(_) => "&'static str",
        Literal::Bool(_) => "bool",
    }
}

fn fits(typ: &Type, l: &Literal) -> (r: bool)
    ensures
        r == literal_fits(typ@, l@),
    decreases typ,
{
    match typ {
        Type::Serial => match l {
            Literal::Int(_) => true,
            _ => false,
        },
        Type::I32 => match l {
            Literal::Int(_) => true,
            _ => false,
        },
        Type::I64 => match l {
            Literal::Int(_) => true,
            _ => false,
        },
        Type::String => match l {
            Literal::Str(_) => true,
            _ => false,
        },
        Type::Bool => match l {
            Literal::Bool(_) => true,
            _ => false,
        },
        Type::Optional(inner) => fits(inner, l),
        _ => false,
    }
}

/// Adds the error for a value of a type other than the one expected.
fn push_mismatch(expected: &str, found: &str, position: Span, errors: &mut Vec<Error>)
    ensures
        final(errors).deep_view() == old(errors).deep_view() + mismatch(
            expected@,
            found@,
            position,
        ),
{
    let mut message = "mismatched types:\n expected `".to_owned();
    message.append(expected);
    message.append("`,    found `");
    message.append(found);
    message.append("`");
    assert(message@ =~= mismatch_message(expected@, found@));
    push_error(errors, Error::new_with_code(message, position, "E0308"));
}

fn type_label(typ: &Type) -> (s: String)
    ensures
        s@ == type_text(typ@),
{
    let mut s = String::new();
    typ.push_text(&mut s);
    s
}

fn check_operand(typ: &Type, x: &Operand, errors: &mut Vec<Error>)
    ensures
        final(errors).deep_view() == old(errors).deep_view() + operand_diagnostics(typ@, x@),
{
    match x {
        Operand::Literal(l, span) => {
            if !fits(typ, l) {
                push_mismatch(type_label(typ).as_str(), literal_name(l), *span, errors);
                return ;
            }
        },
        Operand::HostExpr(_) => {},
    }
}

fn check_integer(x: &Operand, errors: &mut Vec<Error>)
    ensures
        final(errors).deep_view() == old(errors).deep_view() + integer_diagnostics(x@),
{
    match x {
        Operand::Literal(l, span) => match l {
            Literal::Int(_) => {},
            _ => {
                push_mismatch("i64", literal_name(l), *span, errors);
                return ;
            },
        },
        Operand::HostExpr(_) => {},
    }
}

fn check_text(x: &Operand, errors: &mut Vec<Error>)
    ensures
        final(errors).deep_view() == old(errors).deep_view() + text_diagnostics(x@),
{
    match x {
        Operand::Literal(l, span) => match l {
            Literal::Str(_) => {},
            _ => {
                push_mismatch("String", literal_name(l), *span, errors);
                return ;
            },
        },
        Operand::HostExpr(_) => {},
    }
    assert(errors.deep_view() + Seq::<Diagnostic>::empty() =~= errors.deep_view());
}

fn push_no_method(method: &str, typ: &Type, position: Span, errors: &mut Vec<Error>)
    ensures
        final(errors).deep_view() == old(errors).deep_view() + no_method(method@, typ@, position),
{
    let mut message = "no method named `".to_owned();
    message.append(method);
    message.append("` found for type `");
    typ.push_text(&mut message);
    message.append("`");
    push_error(errors, Error::new_with_code(message, position, "E0599"));
}

fn push_no_aggregate(name: &str, position: Span, errors: &mut Vec<Error>)
    ensures
        final(errors).deep_view() == old(errors).deep_view() + no_aggregate(name@, position),
{
    let mut message = "no aggregate field named `".to_owned();
    message.append(name);
    message.append("` was found");
    push_error(errors, Error::new(message, position));
}

/// Finds the type of the column at `path`, or adds the diagnostics that
/// say why there is no such column.
fn resolve<'a>(
    table: &'a Table,
    registry: &'a Registry,
    path: &FieldPath,
    errors: &mut Vec<Error>,
) -> (r: Option<&'a Type>)
    ensures
        match resolution(table@, registry@, path@) {
            Ok(typ) => r.deep_view() == Some(typ) && final(errors).deep_view() == old(
                errors,
            ).deep_view(),
            Err(d) => r is None && final(errors).deep_view() == old(errors).deep_view() + d,
        },
{
    let field = match table.get(path.field.as_str()) {
        Some(field) => field,
        None => {
            let names = table.field_names();
            unknown_field_error(
                path.field.as_str(),
                table.name().as_str(),
                &names,
                path.span,
                errors,
            );
            return None;
        },
    };
    let column = match &path.related {
        None => {
            return Some(&field.typ);
        },
        Some(column) => column,
    };
    let target = match field.typ.foreign_target() {
        Some(target) => target,
        None => {
            push_mismatch("ForeignKey<_>", type_label(&field.typ).as_str(), path.span, errors);
            return None;
        },
    };
    let other = match registry.lookup(target.as_str()) {
        Some(other) => other,
        None => {
            unknown_table_error(target.as_str(), path.span, registry, errors);
            return None;
        },
    };
    match other.get(column.as_str()) {
        Some(found) => Some(&found.typ),
        None => {
            let names = other.field_names();
            unknown_field_error(column.as_str(), other.name().as_str(), &names, path.span, errors);
            None
        },
    }
}

fn method_str(m: MethodOp) -> (s: &'static str)
    ensures
        s@ == method_name(m),
{
    match m {
        MethodOp::Contains => "contains",
        MethodOp::StartsWith => "starts_with",
        MethodOp::EndsWith => "ends_with",
        MethodOp::Regex => "regex",
        MethodOp::IRegex => "iregex",
    }
}

fn null_str(n: NullOp) -> (s: &'static str)
    ensures
        s@ == null_name(n),
{
    match n {
        NullOp::IsNone => "is_none",
        NullOp::IsSome => "is_some",
    }
}

fn part_str(part: DatePart) -> (s: &'static str)
    ensures
        s@ == part_name(part),
{
    match part {
        DatePart::Year => "year",
        DatePart::Month => "month",
        DatePart::Day => "day",
        DatePart::Hour => "hour",
        DatePart::Minute => "minute",
        DatePart::Second => "second",
    }
}

fn check_condition(table: &Table, registry: &Registry, c: &Condition, errors: &mut Vec<Error>)
    ensures
        final(errors).deep_view() == old(errors).deep_view() + condition_diagnostics(
            table@,
            registry@,
            c@,
        ),
{
    match c {
        Condition::Compare(path, _, x) => {
            if let Some(typ) = resolve(table, registry, path, errors) {
                check_operand(typ, x, errors);
            }
        },
        Condition::MethodPredicate(path, m, x) => {
            if let Some(typ) = resolve(table, registry, path, errors) {
                match typ {
                    Type::String => check_text(x, errors),
                    _ => push_no_method(method_str(*m), typ, path.span, errors),
                }
            }
        },
        Condition::NullPredicate(path, n) => {
            if let Some(typ) = resolve(table, registry, path, errors) {
                match typ {
                    Type::Optional(_) => {},
                    _ => push_no_method(null_str(*n), typ, path.span, errors),
                }
            }
        },
        Condition::Length(path, _, x) => {
            if let Some(typ) = resolve(table, registry, path, errors) {
                match typ {
                    Type::String => check_integer(x, errors),
                    _ => push_no_method("len", typ, path.span, errors),
                }
            }
        },
        Condition::DatetimePart(path, part, _, x) => {
            if let Some(typ) = resolve(table, registry, path, errors) {
                match typ {
                    Type::DateTime => check_integer(x, errors),
                    Type::Date => check_integer(x, errors),
                    Type::Time => check_integer(x, errors),
                    _ => push_no_method(part_str(*part), typ, path.span, errors),
                }
            }
        },
        Condition::Constant(_) => {},
    }
}

fn check_group_condition(aggregates: &Vec<Aggregate>, c: &Condition, errors: &mut Vec<Error>)
    ensures
        final(errors).deep_view() == old(errors).deep_view() + group_condition_diagnostics(
            aggregates.deep_view(),
            c@,
        ),
{
    match c {
        Condition::Compare(path, _, x) => {
            if path.related.is_none() && lookup_alias(aggregates, path.field.as_str()).is_some() {
                check_integer(x, errors);
            } else {
                push_no_aggregate(path.field.as_str(), path.span, errors);
            }
        },
        Condition::MethodPredicate(path, _, _) => {
            push_no_aggregate(path.field.as_str(), path.span, errors);
        },
        Condition::NullPredicate(path, _) => {
            push_no_aggregate(path.field.as_str(), path.span, errors);
        },
        Condition::Length(path, _, _) => {
            push_no_aggregate(path.field.as_str(), path.span, errors);
        },
        Condition::DatetimePart(path, _, _, _) => {
            push_no_aggregate(path.field.as_str(), path.span, errors);
        },
        Condition::Constant(_) => {},
    }
}

#[verifier::rlimit(50)]
fn check_filter(
    table: &Table,
    registry: &Registry,
    groups_of: Option<&Vec<Aggregate>>,
    f: &Filter,
    errors: &mut Vec<Error>,
)
    ensures
        final(errors).deep_view() == old(errors).deep_view() + filter_diagnostics(
            table@,
            registry@,
            groups_of.deep_view(),
            f@,
        ),
    decreases f,
{
    let ghost base = errors.deep_view();
    let ghost groups = groups_of.deep_view();
    match f {
        Filter::And(l, r) => {
            check_filter(table, registry, groups_of, l, errors);
            check_filter(table, registry, groups_of, r, errors);
            assert(errors.deep_view() =~= base + (filter_diagnostics(table@, registry@, groups, l@)
                + filter_diagnostics(table@, registry@, groups, r@)));
        },
        Filter::Or(l, r) => {
            check_filter(table, registry, groups_of, l, errors);
            check_filter(table, registry, groups_of, r, errors);
            assert(errors.deep_view() =~= base + (filter_diagnostics(table@, registry@, groups, l@)
                + filter_diagnostics(table@, registry@, groups, r@)));
        },
        Filter::Not(inner) => {
            check_filter(table, registry, groups_of, inner, errors);
        },
        Filter::Leaf(c) => match groups_of {
            Some(aggregates) => check_group_condition(aggregates, c, errors),
            None => check_condition(table, registry, c, errors),
        },
    }
}

fn check_option_filter(
    table: &Table,
    registry: &Registry,
    groups_of: Option<&Vec<Aggregate>>,
    f: &Option<Filter>,
    errors: &mut Vec<Error>,
)
    ensures
        final(errors).deep_view() == old(errors).deep_view() + option_filter_diagnostics(
            table@,
            registry@,
            groups_of.deep_view(),
            option_filter_view(*f),
        ),
{
    match f {
        Some(f) => check_filter(table, registry, groups_of, f, errors),
        None => {
        },
    }
}

fn check_join(table: &Table, registry: &Registry, join: &FieldPath, errors: &mut Vec<Error>)
    ensures
        final(errors).deep_view() == old(errors).deep_view() + join_diagnostics(
            table@,
            registry@,
            join@,
        ),
{
    match table.get(join.field.as_str()) {
        None => {
            let names = table.field_names();
            unknown_field_error(
                join.field.as_str(),
                table.name().as_str(),
                &names,
                join.span,
                errors,
            );
        },
        Some(field) => match field.typ.foreign_target() {
            None => {
                push_mismatch("ForeignKey<_>", type_label(&field.typ).as_str(), join.span, errors);
            },
            Some(target) => {
                if registry.lookup(target.as_str()).is_none() {
                    unknown_table_error(target.as_str(), join.span, registry, errors);
                }
            },
        },
    }
}

fn check_joins(table: &Table, registry: &Registry, joins: &Vec<FieldPath>, errors: &mut Vec<Error>)
    ensures
        final(errors).deep_view() == old(errors).deep_view() + joins_diagnostics(
            table@,
            registry@,
            joins.deep_view(),
        ),
{
    let ghost base = errors.deep_view();
    let ghost views = joins.deep_view();
    let mut i: usize = 0;
    while i < joins.len()
        invariant
            i <= joins@.len(),
            views == joins.deep_view(),
            views.len() == joins@.len(),
            errors.deep_view() == base + joins_diagnostics(table@, registry@, views.take(i as int)),
        decreases joins@.len() - i,
    {
        proof {
            assert(views.take(i + 1).drop_last() =~= views.take(i as int));
        }
        check_join(table, registry, &joins[i], errors);
        i += 1;
    }
    assert(views.take(i as int) =~= views);
}

fn check_path(table: &Table, registry: &Registry, path: &FieldPath, errors: &mut Vec<Error>)
    ensures
        final(errors).deep_view() == old(errors).deep_view() + path_diagnostics(
            table@,
            registry@,
            path@,
        ),
{
    let _ = resolve(table, registry, path, errors);
}

fn check_paths(table: &Table, registry: &Registry, paths: &Vec<FieldPath>, errors: &mut Vec<Error>)
    ensures
        final(errors).deep_view() == old(errors).deep_view() + paths_diagnostics(
            table@,
            registry@,
            paths.deep_view(),
        ),
{
    let ghost base = errors.deep_view();
    let ghost views = paths.deep_view();
    let mut i: usize = 0;
    while i < paths.len()
        invariant
            i <= paths@.len(),
            views == paths.deep_view(),
            views.len() == paths@.len(),
            errors.deep_view() == base + paths_diagnostics(table@, registry@, views.take(i as int)),
        decreases paths@.len() - i,
    {
        proof {
            assert(views.take(i + 1).drop_last() =~= views.take(i as int));
        }
        check_path(table, registry, &paths[i], errors);
        i += 1;
    }
    assert(views.take(i as int) =~= views);
}

fn check_order(table: &Table, registry: &Registry, order: &Vec<Order>, errors: &mut Vec<Error>)
    ensures
        final(errors).deep_view() == old(errors).deep_view() + order_diagnostics(
            table@,
            registry@,
            order.deep_view(),
        ),
{
    let ghost base = errors.deep_view();
    let ghost views = order.deep_view();
    let mut i: usize = 0;
    while i < order.len()
        invariant
            i <= order@.len(),
            views == order.deep_view(),
            views.len() == order@.len(),
            errors.deep_view() == base + order_diagnostics(table@, registry@, views.take(i as int)),
        decreases order@.len() - i,
    {
        proof {
            assert(views.take(i + 1).drop_last() =~= views.take(i as int));
        }
        check_path(table, registry, &order[i].field, errors);
        i += 1;
    }
    assert(views.take(i as int) =~= views);
}

fn check_limit(limit: &Option<Limit>, errors: &mut Vec<Error>)
    ensures
        final(errors).deep_view() == old(errors).deep_view() + limit_diagnostics(
            option_limit_view(*limit),
        ),
{
    match limit {
        None => {},
        Some(Limit::Index(i)) => check_integer(i, errors),
        Some(Limit::Range(start, end)) => {
            check_integer(start, errors);
            check_integer(end, errors);
        },
        Some(Limit::StartRange(start)) => check_integer(start, errors),
        Some(Limit::EndRange(end)) => check_integer(end, errors),
    }
}

fn check_assignments(table: &Table, assignments: &Vec<Assignment>, errors: &mut Vec<Error>)
    ensures
        final(errors).deep_view() == old(errors).deep_view() + assignments_diagnostics(
            table@,
            assignments.deep_view(),
        ),
{
    let ghost base = errors.deep_view();
    let ghost views = assignments.deep_view();
    let mut i: usize = 0;
    while i < assignments.len()
        invariant
            i <= assignments@.len(),
            views == assignments.deep_view(),
            views.len() == assignments@.len(),
            errors.deep_view() == base + assignments_diagnostics(table@, views.take(i as int)),
        decreases assignments@.len() - i,
    {
        proof {
            assert(views.take(i + 1).drop_last() =~= views.take(i as int));
        }
        let a = &assignments[i];
        match table.get(a.field.as_str()) {
            None => {
                let names = table.field_names();
                unknown_field_error(
                    a.field.as_str(),
                    table.name().as_str(),
                    &names,
                    a.span,
                    errors,
                );
            },
            Some(field) => check_operand(&field.typ, &a.value, errors),
        }
        i += 1;
    }
    assert(views.take(i as int) =~= views);
}

fn check_aggregates(table: &Table, aggregates: &Vec<Aggregate>, errors: &mut Vec<Error>)
    ensures
        final(errors).deep_view() == old(errors).deep_view() + aggregates_diagnostics(
            table@,
            aggregates.deep_view(),
        ),
{
    let ghost base = errors.deep_view();
    let ghost views = aggregates.deep_view();
    let mut i: usize = 0;
    while i < aggregates.len()
        invariant
            i <= aggregates@.len(),
            views == aggregates.deep_view(),
            views.len() == aggregates@.len(),
            errors.deep_view() == base + aggregates_diagnostics(table@, views.take(i as int)),
        decreases aggregates@.len() - i,
    {
        proof {
            assert(views.take(i + 1).drop_last() =~= views.take(i as int));
        }
        let a = &aggregates[i];
        if table.get(a.field.as_str()).is_none() {
            let names = table.field_names();
            unknown_field_error(a.field.as_str(), table.name().as_str(), &names, a.span, errors);
        }
        i += 1;
    }
    assert(views.take(i as int) =~= views);
}

/// All the diagnostics for a query on the registered tables.
pub fn check_query(query: &Query, registry: &Registry) -> (errors: Vec<Error>)
    ensures
        errors.deep_view() == query_diagnostics(query@, registry@),
{
    let mut errors: Vec<Error> = Vec::new();
    let reference = query.table();
    let table = match registry.lookup(reference.name.as_str()) {
        Some(table) => table,
        None => {
            unknown_table_error(reference.name.as_str(), reference.span, registry, &mut errors);
            return errors;
        },
    };
    match query {
        Query::Select(s) => {
            check_joins(table, registry, &s.joins, &mut errors);
            check_option_filter(table, registry, None, &s.filter, &mut errors);
            check_order(table, registry, &s.order, &mut errors);
            check_limit(&s.limit, &mut errors);
        },
        Query::Insert { assignments, .. } => {
            check_assignments(table, assignments, &mut errors);
        },
        Query::Update { assignments, filter, .. } => {
            check_assignments(table, assignments, &mut errors);
            check_option_filter(table, registry, None, filter, &mut errors);
        },
        Query::Delete { filter, .. } => {
            check_option_filter(table, registry, None, filter, &mut errors);
        },
        Query::CreateTable { .. } => {},
        Query::DropTable { .. } => {},
        Query::Aggregate { aggregates, groups, filter, having, .. } => {
            check_paths(table, registry, groups, &mut errors);
            check_aggregates(table, aggregates, &mut errors);
            check_option_filter(table, registry, None, filter, &mut errors);
            check_option_filter(table, registry, Some(aggregates), having, &mut errors);
        },
    }
    errors
}

/// Analyzes a query written at `call_site` against the registered tables:
/// gives the record to keep of it if none of its diagnostics is an error,
/// and else all its diagnostics.
pub fn analyze(query: &Query, registry: &Registry, call_site: Span) -> (r: SqlResult<QueryRecord>)
    ensures
        analyzed(query@, registry@, call_site, r),
{
    let errors = check_query(query, registry);
    let operands = query_operands(query);
    let record = QueryRecord {
        table_name: query.table().name.clone(),
        placeholders: placeholder_records(&operands, call_site),
    };
    res(record, errors)
}

} // verus!
