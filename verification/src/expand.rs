//! What is done at one query site: the expression is parsed, the query is
//! analyzed against the registered tables, its placeholders are recorded,
//! and its SQL is generated.

use vstd::prelude::*;
use vstd::string::*;
use crate::analyzer::{
    aggregates_diagnostics, analyze, analyzed, assignment_diagnostics, assignments_diagnostics,
    condition_diagnostics, filter_diagnostics, group_condition_diagnostics, join_diagnostics,
    joins_diagnostics, limit_diagnostics, option_filter_diagnostics, order_diagnostics,
    paths_diagnostics, query_diagnostics, query_record, resolution, unknown_table,
};
use crate::ast::{span_of, Node, NodeView};
use crate::error::{has_error, Diagnostic, Error, ErrorType, Span, SqlResult};
use crate::parser::{failure, parse, parsed_query};
use crate::placeholders::{
    assignment_bindings, bound_bindings, condition_bindings, filter_bindings,
    lemma_records_index_bindings, length_bindings, limit_bindings, option_filter_bindings,
    query_bindings, records,
};
use crate::query::{
    AggregateView, AssignmentView, ConditionView, FieldPathView, FilterView, LimitView, Query,
    QueryView,
};
use crate::sql::{
    bindings, find_alias, generate, generates, joins_resolve, render, statement, BindingView,
    Dialect, GenerateError, Generated, TokenView,
};
use crate::state::{
    find_field, find_table, index_name, related_table, PlaceholderTable, QueryRecord, Registry,
    TableView,
};
use crate::type_analyzer::{placeholder_diagnostics, HostTypeView};

verus! {

/// The message for a query that has no statement.
pub open spec fn generation_message(e: GenerateError) -> Seq<char> {
    match e {
        GenerateError::UnknownTable => "the table of the query is not registered"@,
        GenerateError::UnresolvedJoin => "a join does not refer to a registered table"@,
        GenerateError::UnsupportedRegex => "`regex` is not supported by this database"@,
        GenerateError::UnsupportedType => "a column has a type that this database does not have"@,
    }
}

fn generation_text(e: GenerateError) -> (s: &'static str)
    ensures
        s@ == generation_message(e),
{
    match e {
        GenerateError::UnknownTable => "the table of the query is not registered",
        GenerateError::UnresolvedJoin => "a join does not refer to a registered table",
        GenerateError::UnsupportedRegex => "`regex` is not supported by this database",
        GenerateError::UnsupportedType => "a column has a type that this database does not have",
    }
}

/// What a query site expands to: the query and the tokens of its
/// statement, or the diagnostics of the first stage that fails.
pub open spec fn expansion(node: NodeView, tables: Seq<TableView>, dialect: Dialect) -> Result<
    (QueryView, Seq<TokenView>),
    Seq<Diagnostic>,
> {
    match parsed_query(node) {
        Err(d) => Err(d),
        Ok(q) => if has_error(query_diagnostics(q, tables)) {
            Err(query_diagnostics(q, tables))
        } else {
            match statement(q, tables, dialect) {
                Ok(tokens) => Ok((q, tokens)),
                Err(e) => Err(failure(generation_message(e), span_of(node))),
            }
        },
    }
}

/// What a query site expands to: the query that was read, and the SQL
/// generated for it.
#[derive(Debug, PartialEq, Eq)]
pub struct Expansion {
    pub query: Query,
    pub generated: Generated,
}

/// Expands a query site: gives the query with its SQL and what the
/// placeholders of the SQL bind, and keeps the record of the query under
/// the position of the site; or gives the diagnostics, and keeps nothing.
pub fn expand(
    node: &Node,
    registry: &Registry,
    calls: &mut PlaceholderTable,
    call_site: Span,
    dialect: Dialect,
) -> (r: SqlResult<Expansion>)
    ensures
        match expansion(node@, registry@, dialect) {
            Ok((q, tokens)) => {
                &&& r matches Ok(x)
                &&& x.query@ == q
                &&& x.generated.sql@ == render(tokens, dialect)
                &&& x.generated.args.deep_view() == bindings(tokens)
                &&& final(calls)@ == old(calls)@.insert(call_site.lo, query_record(q, call_site))
            },
            Err(d) => {
                &&& r matches Err(e)
                &&& e.deep_view() == d
                &&& final(calls)@ == old(calls)@
            },
        },
{
    let query = match parse(node) {
        Ok(query) => query,
        Err(errors) => {
            return Err(errors);
        },
    };
    let record = match analyze(&query, registry, call_site) {
        Ok(record) => record,
        Err(errors) => {
            return Err(errors);
        },
    };
    match generate(&query, registry, dialect) {
        Ok(generated) => {
            calls.record(call_site.lo, record);
            Ok(Expansion { query, generated })
        },
        Err(e) => {
            let mut errors: Vec<Error> = Vec::new();
            errors.push(Error::new(generation_text(e).to_owned(), node.span()));
            Err(errors)
        },
    }
}

/// Diagnostics after other diagnostics hold an error where either holds
/// one.
pub proof fn lemma_has_error_concat(a: Seq<Diagnostic>, b: Seq<Diagnostic>)
    ensures
        has_error(a + b) <==> has_error(a) || has_error(b),
{
    if has_error(a) {
        let i = choose|i: int| 0 <= i < a.len() && (#[trigger] a[i]).kind == ErrorType::Error;
        assert((a + b)[i].kind == ErrorType::Error);
    }
    if has_error(b) {
        let i = choose|i: int| 0 <= i < b.len() && (#[trigger] b[i]).kind == ErrorType::Error;
        assert((a + b)[a.len() + i].kind == ErrorType::Error);
    }
    if has_error(a + b) {
        let i = choose|i: int|
            0 <= i < (a + b).len() && (#[trigger] (a + b)[i]).kind == ErrorType::Error;
        assert(i < a.len() ==> a[i].kind == ErrorType::Error);
        assert(i >= a.len() ==> b[i - a.len()].kind == ErrorType::Error);
    }
}

/// Joins without an error resolve.
pub proof fn lemma_checked_joins_resolve(
    table: TableView,
    tables: Seq<TableView>,
    joins: Seq<FieldPathView>,
)
    requires
        !has_error(joins_diagnostics(table, tables, joins)),
    ensures
        joins_resolve(table, tables, joins),
    decreases joins.len(),
{
    if joins.len() > 0 {
        let before = joins_diagnostics(table, tables, joins.drop_last());
        let last = join_diagnostics(table, tables, joins.last());
        lemma_has_error_concat(before, last);
        lemma_checked_joins_resolve(table, tables, joins.drop_last());
        if related_table(table, tables, joins.last().field) is None {
            assert(last[0].kind == ErrorType::Error);
        }
        assert forall|i: int| 0 <= i < joins.len() implies related_table(
            table,
            tables,
            (#[trigger] joins[i]).field,
        ) is Some by {
            if i < joins.len() - 1 {
                assert(joins.drop_last()[i] == joins[i]);
            }
        }
    }
}

/// The generator can rely on the analyzer: a query whose analysis finds
/// no error has a statement, unless the dialect cannot express it.
pub proof fn lemma_analyzed_query_has_statement(
    q: QueryView,
    tables: Seq<TableView>,
    dialect: Dialect,
)
    requires
        !has_error(query_diagnostics(q, tables)),
    ensures
        match statement(q, tables, dialect) {
            Ok(_) => true,
            Err(e) => e == GenerateError::UnsupportedRegex || e == GenerateError::UnsupportedType,
        },
{
    match find_table(tables, q.table().name) {
        None => {
            assert(unknown_table(q.table().name, q.table().span, tables)[0].kind
                == ErrorType::Error);
        },
        Some(table) => {
            if let QueryView::Select(s) = q {
                let joins = joins_diagnostics(table, tables, s.joins);
                let filter = crate::analyzer::option_filter_diagnostics(
                    table,
                    tables,
                    None,
                    s.filter,
                );
                let order = crate::analyzer::order_diagnostics(table, tables, s.order);
                let limit = crate::analyzer::limit_diagnostics(s.limit);
                lemma_has_error_concat(joins + filter + order, limit);
                lemma_has_error_concat(joins + filter, order);
                lemma_has_error_concat(joins, filter);
                lemma_checked_joins_resolve(table, tables, s.joins);
            }
        },
    }
}

/// Whether the column that a binding names can be found: a column of
/// `table`, or of the table that a foreign key of `table` refers to; the
/// name for an integer stands for no column.
pub open spec fn binding_resolves(table: TableView, tables: Seq<TableView>, b: BindingView) -> bool {
    match b.via {
        None => b.name == index_name() || find_field(table.fields, b.name) is Some,
        Some(fk) => related_table(table, tables, fk) matches Some(target) && find_field(
            target.fields,
            b.name,
        ) is Some,
    }
}

/// Whether the columns that the bindings name can all be found.
pub open spec fn all_resolve(table: TableView, tables: Seq<TableView>, bs: Seq<BindingView>) -> bool {
    forall|i: int| 0 <= i < bs.len() ==> binding_resolves(table, tables, #[trigger] bs[i])
}

proof fn lemma_all_resolve_concat(
    table: TableView,
    tables: Seq<TableView>,
    a: Seq<BindingView>,
    b: Seq<BindingView>,
)
    requires
        all_resolve(table, tables, a),
        all_resolve(table, tables, b),
    ensures
        all_resolve(table, tables, a + b),
{
    assert forall|i: int| 0 <= i < (a + b).len() implies binding_resolves(
        table,
        tables,
        #[trigger] (a + b)[i],
    ) by {
        if i < a.len() {
            assert((a + b)[i] == a[i]);
        } else {
            assert((a + b)[i] == b[i - a.len()]);
        }
    }
}

/// A path that does not lead to a column has an error among its
/// diagnostics, and one that does names a column that can be found.
proof fn lemma_resolution(table: TableView, tables: Seq<TableView>, path: FieldPathView)
    ensures
        match resolution(table, tables, path) {
            Ok(_) => forall|x| binding_resolves(
                table,
                tables,
                #[trigger] crate::sql::column_binding(path, x),
            ),
            Err(d) => has_error(d),
        },
{
    match resolution(table, tables, path) {
        Ok(_) => {},
        Err(d) => {
            assert(d[0].kind == ErrorType::Error);
        },
    }
}

proof fn lemma_condition_resolves(table: TableView, tables: Seq<TableView>, c: ConditionView)
    requires
        !has_error(condition_diagnostics(table, tables, c)),
    ensures
        all_resolve(table, tables, condition_bindings(Seq::empty(), c)),
{
    match c {
        ConditionView::Compare(path, _, x) => {
            lemma_resolution(table, tables, path);
            assert(find_alias(Seq::<AggregateView>::empty(), path.field) is None);
            assert(binding_resolves(table, tables, crate::sql::column_binding(path, x)));
        },
        ConditionView::MethodPredicate(path, _, x) => {
            lemma_resolution(table, tables, path);
            assert(binding_resolves(table, tables, crate::sql::column_binding(path, x)));
        },
        _ => {},
    }
}

proof fn lemma_group_condition_resolves(
    table: TableView,
    tables: Seq<TableView>,
    aggregates: Seq<AggregateView>,
    c: ConditionView,
)
    requires
        !has_error(group_condition_diagnostics(aggregates, c)),
    ensures
        all_resolve(table, tables, condition_bindings(aggregates, c)),
{
    let d = group_condition_diagnostics(aggregates, c);
    match c {
        ConditionView::Compare(path, _, x) => {
            if !(path.related is None && find_alias(aggregates, path.field) is Some) {
                assert(d[0].kind == ErrorType::Error);
            }
        },
        ConditionView::Constant(_) => {},
        _ => {
            assert(d[0].kind == ErrorType::Error);
        },
    }
}

proof fn lemma_filter_resolves(
    table: TableView,
    tables: Seq<TableView>,
    groups_of: Option<Seq<AggregateView>>,
    f: FilterView,
)
    requires
        !has_error(filter_diagnostics(table, tables, groups_of, f)),
    ensures
        all_resolve(
            table,
            tables,
            filter_bindings(
                match groups_of {
                    Some(aggregates) => aggregates,
                    None => Seq::empty(),
                },
                f,
            ),
        ),
    decreases f,
{
    let aliases = match groups_of {
        Some(aggregates) => aggregates,
        None => Seq::empty(),
    };
    match f {
        FilterView::And(l, r) => {
            lemma_has_error_concat(
                filter_diagnostics(table, tables, groups_of, *l),
                filter_diagnostics(table, tables, groups_of, *r),
            );
            lemma_filter_resolves(table, tables, groups_of, *l);
            lemma_filter_resolves(table, tables, groups_of, *r);
            lemma_all_resolve_concat(
                table,
                tables,
                filter_bindings(aliases, *l),
                filter_bindings(aliases, *r),
            );
        },
        FilterView::Or(l, r) => {
            lemma_has_error_concat(
                filter_diagnostics(table, tables, groups_of, *l),
                filter_diagnostics(table, tables, groups_of, *r),
            );
            lemma_filter_resolves(table, tables, groups_of, *l);
            lemma_filter_resolves(table, tables, groups_of, *r);
            lemma_all_resolve_concat(
                table,
                tables,
                filter_bindings(aliases, *l),
                filter_bindings(aliases, *r),
            );
        },
        FilterView::Not(inner) => {
            lemma_filter_resolves(table, tables, groups_of, *inner);
        },
        FilterView::Leaf(c) => match groups_of {
            Some(aggregates) => lemma_group_condition_resolves(table, tables, aggregates, c),
            None => lemma_condition_resolves(table, tables, c),
        },
    }
}

proof fn lemma_option_filter_resolves(
    table: TableView,
    tables: Seq<TableView>,
    groups_of: Option<Seq<AggregateView>>,
    f: Option<FilterView>,
)
    requires
        !has_error(option_filter_diagnostics(table, tables, groups_of, f)),
    ensures
        all_resolve(
            table,
            tables,
            option_filter_bindings(
                match groups_of {
                    Some(aggregates) => aggregates,
                    None => Seq::empty(),
                },
                f,
            ),
        ),
{
    if let Some(f) = f {
        lemma_filter_resolves(table, tables, groups_of, f);
    }
}

proof fn lemma_assignments_resolve(
    table: TableView,
    tables: Seq<TableView>,
    assignments: Seq<AssignmentView>,
)
    requires
        !has_error(assignments_diagnostics(table, assignments)),
    ensures
        all_resolve(table, tables, assignment_bindings(assignments)),
    decreases assignments.len(),
{
    if assignments.len() > 0 {
        let before = assignments_diagnostics(table, assignments.drop_last());
        let last = assignment_diagnostics(table, assignments.last());
        lemma_has_error_concat(before, last);
        lemma_assignments_resolve(table, tables, assignments.drop_last());
        if find_field(table.fields, assignments.last().field) is None {
            assert(last[0].kind == ErrorType::Error);
        }
        assert forall|i: int| 0 <= i < assignments.len() implies binding_resolves(
            table,
            tables,
            #[trigger] assignment_bindings(assignments)[i],
        ) by {
            if i < assignments.len() - 1 {
                assert(assignment_bindings(assignments)[i] == assignment_bindings(
                    assignments.drop_last(),
                )[i]);
            }
        }
    }
}

proof fn lemma_limit_resolves(table: TableView, tables: Seq<TableView>, limit: Option<LimitView>)
    ensures
        all_resolve(table, tables, limit_bindings(limit)),
{
    if let Some(LimitView::Range(start, end)) = limit {
        lemma_all_resolve_concat(
            table,
            tables,
            length_bindings(start, end),
            bound_bindings(start),
        );
    }
}

/// After an analysis without an error, every operand of the query is
/// bound to a column that can be found, or to an integer.
pub proof fn lemma_analyzed_bindings_resolve(q: QueryView, tables: Seq<TableView>)
    requires
        !has_error(query_diagnostics(q, tables)),
    ensures
        find_table(tables, q.table().name) matches Some(table) && all_resolve(
            table,
            tables,
            query_bindings(q),
        ),
{
    lemma_analyzed_query_has_statement(q, tables, Dialect::Postgres);
    let table = find_table(tables, q.table().name)->Some_0;
    let none = Seq::<AggregateView>::empty();
    match q {
        QueryView::Select(s) => {
            let joins = joins_diagnostics(table, tables, s.joins);
            let filter = option_filter_diagnostics(table, tables, None, s.filter);
            let order = order_diagnostics(table, tables, s.order);
            let limit = limit_diagnostics(s.limit);
            lemma_has_error_concat(joins + filter + order, limit);
            lemma_has_error_concat(joins + filter, order);
            lemma_has_error_concat(joins, filter);
            lemma_option_filter_resolves(table, tables, None, s.filter);
            lemma_limit_resolves(table, tables, s.limit);
            lemma_all_resolve_concat(
                table,
                tables,
                option_filter_bindings(none, s.filter),
                limit_bindings(s.limit),
            );
        },
        QueryView::Insert { assignments, .. } => {
            lemma_assignments_resolve(table, tables, assignments);
        },
        QueryView::Update { assignments, filter, .. } => {
            lemma_has_error_concat(
                assignments_diagnostics(table, assignments),
                option_filter_diagnostics(table, tables, None, filter),
            );
            lemma_assignments_resolve(table, tables, assignments);
            lemma_option_filter_resolves(table, tables, None, filter);
            lemma_all_resolve_concat(
                table,
                tables,
                assignment_bindings(assignments),
                option_filter_bindings(none, filter),
            );
        },
        QueryView::Delete { filter, .. } => {
            lemma_option_filter_resolves(table, tables, None, filter);
        },
        QueryView::CreateTable { .. } => {},
        QueryView::DropTable { .. } => {},
        QueryView::Aggregate { aggregates, groups, filter, having, .. } => {
            let first = paths_diagnostics(table, tables, groups);
            let second = aggregates_diagnostics(table, aggregates);
            let third = option_filter_diagnostics(table, tables, None, filter);
            let fourth = option_filter_diagnostics(table, tables, Some(aggregates), having);
            lemma_has_error_concat(first + second + third, fourth);
            lemma_has_error_concat(first + second, third);
            lemma_option_filter_resolves(table, tables, None, filter);
            lemma_option_filter_resolves(table, tables, Some(aggregates), having);
            lemma_all_resolve_concat(
                table,
                tables,
                option_filter_bindings(none, filter),
                option_filter_bindings(aggregates, having),
            );
        },
    }
}

/// The later check of the types adds to what the analysis found and does
/// not repeat it: for a query analyzed without an error, against the same
/// tables, the check of a recorded placeholder finds the column, so that
/// it says nothing or reports a type that does not fit.
pub proof fn lemma_late_check_finds_columns(
    q: QueryView,
    tables: Seq<TableView>,
    call_site: Span,
    types: Seq<HostTypeView>,
    i: int,
)
    requires
        !has_error(query_diagnostics(q, tables)),
        0 <= i < records(query_bindings(q), call_site).len(),
    ensures
        find_table(tables, q.table().name) is Some,
        ({
            let found = placeholder_diagnostics(
                find_table(tables, q.table().name)->Some_0,
                tables,
                records(query_bindings(q), call_site)[i],
                types,
            );
            found.len() == 0 || (found.len() == 2 && found[0].code == Some("E0308"@))
        }),
{
    lemma_analyzed_bindings_resolve(q, tables);
    lemma_records_index_bindings(query_bindings(q), call_site, i);
    let record = records(query_bindings(q), call_site)[i];
    let table = find_table(tables, q.table().name)->Some_0;
    assert(binding_resolves(table, tables, query_bindings(q)[record.ordinal as int]));
}

/// Analysis and generation are functions of the query and of the
/// registered tables: two runs on the same query give the same record, the
/// same SQL and the same arguments, or the same diagnostics.
pub proof fn lemma_runs_agree(
    q: QueryView,
    tables: Seq<TableView>,
    call_site: Span,
    dialect: Dialect,
    first: SqlResult<QueryRecord>,
    second: SqlResult<QueryRecord>,
    sql_first: Result<Generated, GenerateError>,
    sql_second: Result<Generated, GenerateError>,
)
    requires
        analyzed(q, tables, call_site, first),
        analyzed(q, tables, call_site, second),
        generates(q, tables, dialect, sql_first),
        generates(q, tables, dialect, sql_second),
    ensures
        first is Ok <==> second is Ok,
        first is Ok ==> first->Ok_0@ == second->Ok_0@,
        first is Err ==> first->Err_0.deep_view() == second->Err_0.deep_view(),
        sql_first is Ok <==> sql_second is Ok,
        sql_first is Ok ==> sql_first->Ok_0.sql@ == sql_second->Ok_0.sql@
            && sql_first->Ok_0.args.deep_view() == sql_second->Ok_0.args.deep_view(),
        sql_first is Err ==> sql_first->Err_0 == sql_second->Err_0,
{
}

} // verus!
