//! The operands of a query in the order in which they are met, the
//! records kept of those that are host expressions, and the proof that the
//! generator numbers its placeholders in that order.

use vstd::prelude::*;
use vstd::string::*;
use crate::error::Span;
use crate::query::{
    option_filter_view, option_limit_view, Aggregate, AggregateView, Assignment, AssignmentView,
    Condition, ConditionView, FieldPathView, Filter, FilterView, Limit, LimitView, Literal,
    LiteralView, MethodOp, Operand, OperandView, OrderView, Query, QueryView,
};
use crate::sql::{
    assignment_binding, assignment_value, bindings, column_binding, compared_binding,
    condition_tokens, filter_tokens, integer_binding, join_tokens, lemma_bindings_concat,
    limit_tokens, needs_parens, order_tokens, set_tokens, statement, value_tokens, where_tokens,
    wrapped, Arg, ArgView, Binding, BindingView, Dialect, TokenView,
};
use crate::state::{find_table, Placeholder, PlaceholderView, TableView};

verus! {

/// What the operands of a condition are bound to, from left to right. In
/// a condition on groups, `aliases` are the aggregates of the query.
pub open spec fn condition_bindings(aliases: Seq<AggregateView>, c: ConditionView) -> Seq<
    BindingView,
> {
    match c {
        ConditionView::Compare(path, _, x) => seq![compared_binding(aliases, path, x)],
        ConditionView::MethodPredicate(path, _, x) => seq![column_binding(path, x)],
        ConditionView::NullPredicate(_, _) => Seq::empty(),
        ConditionView::Length(_, _, x) => seq![integer_binding(ArgView::Value(x))],
        ConditionView::DatetimePart(_, _, _, x) => seq![integer_binding(ArgView::Value(x))],
        ConditionView::Constant(_) => Seq::empty(),
    }
}

/// What the operands of a filter are bound to, from left to right.
pub open spec fn filter_bindings(aliases: Seq<AggregateView>, f: FilterView) -> Seq<BindingView>
    decreases f,
{
    match f {
        FilterView::And(l, r) => filter_bindings(aliases, *l) + filter_bindings(aliases, *r),
        FilterView::Or(l, r) => filter_bindings(aliases, *l) + filter_bindings(aliases, *r),
        FilterView::Not(inner) => filter_bindings(aliases, *inner),
        FilterView::Leaf(c) => condition_bindings(aliases, c),
    }
}

/// What the operands of an optional filter are bound to.
pub open spec fn option_filter_bindings(
    aliases: Seq<AggregateView>,
    f: Option<FilterView>,
) -> Seq<BindingView> {
    match f {
        Some(f) => filter_bindings(aliases, f),
        None => Seq::empty(),
    }
}

/// What a bound of an index or of a range is bound to: nothing for an
/// integer literal, which is written into the statement.
pub open spec fn bound_bindings(x: OperandView) -> Seq<BindingView> {
    match x {
        OperandView::Literal(LiteralView::Int(_), _) => Seq::empty(),
        _ => seq![integer_binding(ArgView::Value(x))],
    }
}

/// What the length of a range is bound to: nothing where both bounds are
/// integer literals.
pub open spec fn length_bindings(start: OperandView, end: OperandView) -> Seq<BindingView> {
    match (start, end) {
        (
            OperandView::Literal(LiteralView::Int(_), _),
            OperandView::Literal(LiteralView::Int(_), _),
        ) => Seq::empty(),
        _ => seq![integer_binding(ArgView::Difference(end, start))],
    }
}

/// What the operands of an index or of a range are bound to, in the order
/// of the statement: the length before the start.
pub open spec fn limit_bindings(limit: Option<LimitView>) -> Seq<BindingView> {
    match limit {
        None => Seq::empty(),
        Some(LimitView::Index(i)) => bound_bindings(i),
        Some(LimitView::Range(start, end)) => length_bindings(start, end) + bound_bindings(start),
        Some(LimitView::StartRange(start)) => bound_bindings(start),
        Some(LimitView::EndRange(end)) => bound_bindings(end),
    }
}

/// What the values of some assignments are bound to.
pub open spec fn assignment_bindings(assignments: Seq<AssignmentView>) -> Seq<BindingView> {
    Seq::new(assignments.len(), |i: int| assignment_binding(assignments[i]))
}

/// What the operands of a query are bound to, in the order in which the
/// query's statement meets them.
pub open spec fn query_bindings(q: QueryView) -> Seq<BindingView> {
    match q {
        QueryView::Select(s) => option_filter_bindings(Seq::empty(), s.filter) + limit_bindings(
            s.limit,
        ),
        QueryView::Insert { assignments, .. } => assignment_bindings(assignments),
        QueryView::Update { assignments, filter, .. } => assignment_bindings(assignments)
            + option_filter_bindings(Seq::empty(), filter),
        QueryView::Delete { filter, .. } => option_filter_bindings(Seq::empty(), filter),
        QueryView::CreateTable { .. } => Seq::empty(),
        QueryView::DropTable { .. } => Seq::empty(),
        QueryView::Aggregate { aggregates, filter, having, .. } => option_filter_bindings(
            Seq::empty(),
            filter,
        ) + option_filter_bindings(aggregates, having),
    }
}

/// The records of the bindings that are no literals: each with its
/// position among all the bindings.
pub open spec fn records(bindings: Seq<BindingView>, call_site: Span) -> Seq<PlaceholderView>
    decreases bindings.len(),
{
    if bindings.len() == 0 {
        Seq::empty()
    } else {
        let before = records(bindings.drop_last(), call_site);
        let last = bindings.last();
        if last.arg.is_literal() {
            before
        } else {
            before.push(
                PlaceholderView {
                    name: last.name,
                    via: last.via,
                    span: last.arg.span(),
                    call_site,
                    ordinal: (bindings.len() - 1) as nat,
                },
            )
        }
    }
}

/// Each record stands for a binding that is no literal: the record's
/// ordinal is the position of that binding among all the bindings, and
/// the record has the binding's name, the foreign key that leads to its
/// column, and the place of its argument. The records are in the order of
/// their ordinals.
pub proof fn lemma_records_index_bindings(bindings: Seq<BindingView>, call_site: Span, i: int)
    requires
        0 <= i < records(bindings, call_site).len(),
    ensures
        ({
            let record = records(bindings, call_site)[i];
            &&& record.ordinal < bindings.len()
            &&& !bindings[record.ordinal as int].arg.is_literal()
            &&& record.name == bindings[record.ordinal as int].name
            &&& record.via == bindings[record.ordinal as int].via
            &&& record.span == bindings[record.ordinal as int].arg.span()
            &&& record.call_site == call_site
            &&& i + 1 < records(bindings, call_site).len() ==> record.ordinal < records(
                bindings,
                call_site,
            )[i + 1].ordinal
        }),
    decreases bindings.len(),
{
    let before = records(bindings.drop_last(), call_site);
    if i < before.len() {
        lemma_records_index_bindings(bindings.drop_last(), call_site, i);
    }
}

/// Every binding that is no literal has its record.
pub proof fn lemma_bindings_have_records(bindings: Seq<BindingView>, call_site: Span, k: int)
    requires
        0 <= k < bindings.len(),
        !bindings[k].arg.is_literal(),
    ensures
        exists|i: int|
            0 <= i < records(bindings, call_site).len() && (#[trigger] records(
                bindings,
                call_site,
            )[i]).ordinal == k,
    decreases bindings.len(),
{
    let all = records(bindings, call_site);
    if k == bindings.len() - 1 {
        assert(all[all.len() - 1].ordinal == k);
    } else {
        lemma_bindings_have_records(bindings.drop_last(), call_site, k);
        let before = records(bindings.drop_last(), call_site);
        let i = choose|i: int| 0 <= i < before.len() && (#[trigger] before[i]).ordinal == k;
        assert(all[i].ordinal == k);
    }
}

/// Tokens without a placeholder bind nothing.
pub proof fn lemma_bindings_none(tokens: Seq<TokenView>)
    requires
        forall|i: int| 0 <= i < tokens.len() ==> !(tokens[i] is Param),
    ensures
        bindings(tokens) == Seq::<BindingView>::empty(),
    decreases tokens.len(),
{
    if tokens.len() > 0 {
        lemma_bindings_none(tokens.drop_last());
    }
}

/// Tokens with a single placeholder bind what that placeholder binds.
pub proof fn lemma_bindings_one(tokens: Seq<TokenView>, i: int)
    requires
        0 <= i < tokens.len(),
        tokens[i] is Param,
        forall|j: int| 0 <= j < tokens.len() && j != i ==> !(tokens[j] is Param),
    ensures
        bindings(tokens) == seq![tokens[i]->Param_0],
    decreases tokens.len(),
{
    let shorter = tokens.drop_last();
    if i == tokens.len() - 1 {
        lemma_bindings_none(shorter);
    } else {
        lemma_bindings_one(shorter, i);
    }
}

/// The placeholders of a condition's tokens bind the condition's operands.
pub proof fn lemma_condition_bindings(
    table: TableView,
    qualify: bool,
    aliases: Seq<AggregateView>,
    c: ConditionView,
    dialect: Dialect,
)
    ensures
        bindings(condition_tokens(table, qualify, aliases, c, dialect)) == condition_bindings(
            aliases,
            c,
        ),
{
    let tokens = condition_tokens(table, qualify, aliases, c, dialect);
    match c {
        ConditionView::Compare(path, _, x) => {
            lemma_bindings_one(tokens, 2);
        },
        ConditionView::MethodPredicate(path, method, x) => {
            match method {
                MethodOp::Contains => lemma_bindings_one(tokens, 2),
                MethodOp::StartsWith => lemma_bindings_one(tokens, 2),
                MethodOp::EndsWith => lemma_bindings_one(tokens, 2),
                MethodOp::Regex => lemma_bindings_one(tokens, 2),
                MethodOp::IRegex => lemma_bindings_one(tokens, 2),
            }
        },
        ConditionView::NullPredicate(_, _) => {
            lemma_bindings_none(tokens);
        },
        ConditionView::Length(_, _, x) => {
            lemma_bindings_one(tokens, 4);
        },
        ConditionView::DatetimePart(path, part, op, x) => {
            lemma_bindings_one(tokens, 6);
        },
        ConditionView::Constant(_) => {
            lemma_bindings_none(tokens);
        },
    }
}

/// Parentheses bind nothing.
pub proof fn lemma_wrapped_bindings(tokens: Seq<TokenView>, parens: bool)
    ensures
        bindings(wrapped(tokens, parens)) == bindings(tokens),
{
    if parens {
        let open = seq![TokenView::Text("("@)];
        let close = seq![TokenView::Text(")"@)];
        lemma_bindings_none(open);
        lemma_bindings_none(close);
        lemma_bindings_concat(open, tokens);
        lemma_bindings_concat(open + tokens, close);
    }
}

/// The placeholders of a filter's tokens bind the filter's operands, from
/// left to right.
pub proof fn lemma_filter_bindings(
    table: TableView,
    qualify: bool,
    aliases: Seq<AggregateView>,
    f: FilterView,
    dialect: Dialect,
)
    ensures
        bindings(filter_tokens(table, qualify, aliases, f, dialect)) == filter_bindings(aliases, f),
    decreases f,
{
    match f {
        FilterView::And(l, r) => {
            let left = wrapped(
                filter_tokens(table, qualify, aliases, *l, dialect),
                needs_parens(*l, true),
            );
            let right = wrapped(
                filter_tokens(table, qualify, aliases, *r, dialect),
                needs_parens(*r, true),
            );
            let middle = seq![TokenView::Text(" AND "@)];
            lemma_filter_bindings(table, qualify, aliases, *l, dialect);
            lemma_filter_bindings(table, qualify, aliases, *r, dialect);
            lemma_wrapped_bindings(
                filter_tokens(table, qualify, aliases, *l, dialect),
                needs_parens(*l, true),
            );
            lemma_wrapped_bindings(
                filter_tokens(table, qualify, aliases, *r, dialect),
                needs_parens(*r, true),
            );
            lemma_bindings_none(middle);
            lemma_bindings_concat(left, middle);
            lemma_bindings_concat(left + middle, right);
        },
        FilterView::Or(l, r) => {
            let left = wrapped(
                filter_tokens(table, qualify, aliases, *l, dialect),
                needs_parens(*l, false),
            );
            let right = wrapped(
                filter_tokens(table, qualify, aliases, *r, dialect),
                needs_parens(*r, false),
            );
            let middle = seq![TokenView::Text(" OR "@)];
            lemma_filter_bindings(table, qualify, aliases, *l, dialect);
            lemma_filter_bindings(table, qualify, aliases, *r, dialect);
            lemma_wrapped_bindings(
                filter_tokens(table, qualify, aliases, *l, dialect),
                needs_parens(*l, false),
            );
            lemma_wrapped_bindings(
                filter_tokens(table, qualify, aliases, *r, dialect),
                needs_parens(*r, false),
            );
            lemma_bindings_none(middle);
            lemma_bindings_concat(left, middle);
            lemma_bindings_concat(left + middle, right);
        },
        FilterView::Not(inner) => {
            let open = seq![TokenView::Text("NOT ("@)];
            let close = seq![TokenView::Text(")"@)];
            let middle = filter_tokens(table, qualify, aliases, *inner, dialect);
            lemma_filter_bindings(table, qualify, aliases, *inner, dialect);
            lemma_bindings_none(open);
            lemma_bindings_none(close);
            lemma_bindings_concat(open, middle);
            lemma_bindings_concat(open + middle, close);
        },
        FilterView::Leaf(c) => {
            lemma_condition_bindings(table, qualify, aliases, c, dialect);
        },
    }
}

/// The placeholders of the tokens of an optional filter bind its operands.
pub proof fn lemma_where_bindings(
    keyword: Seq<char>,
    table: TableView,
    qualify: bool,
    aliases: Seq<AggregateView>,
    filter: Option<FilterView>,
    dialect: Dialect,
)
    ensures
        bindings(where_tokens(keyword, table, qualify, aliases, filter, dialect))
            == option_filter_bindings(aliases, filter),
{
    match filter {
        Some(f) => {
            let head = seq![TokenView::Text(keyword)];
            lemma_bindings_none(head);
            lemma_filter_bindings(table, qualify, aliases, f, dialect);
            lemma_bindings_concat(head, filter_tokens(table, qualify, aliases, f, dialect));
        },
        None => {},
    }
}

/// The tokens of a sort hold no placeholder.
pub proof fn lemma_order_bindings(table: TableView, qualify: bool, order: Seq<OrderView>)
    ensures
        bindings(order_tokens(table, qualify, order)) == Seq::<BindingView>::empty(),
    decreases order.len(),
{
    if order.len() > 0 {
        let head = if order.len() == 1 {
            seq![TokenView::Text(" ORDER BY "@)]
        } else {
            order_tokens(table, qualify, order.drop_last()) + seq![TokenView::Text(", "@)]
        };
        let last = seq![
            TokenView::Text(
                crate::sql::column_text(table, qualify, Seq::empty(), order.last().field),
            ),
            TokenView::Text(crate::sql::direction_text(order.last().direction)),
        ];
        if order.len() == 1 {
            lemma_bindings_none(head);
        } else {
            let comma = seq![TokenView::Text(", "@)];
            lemma_order_bindings(table, qualify, order.drop_last());
            lemma_bindings_none(comma);
            lemma_bindings_concat(order_tokens(table, qualify, order.drop_last()), comma);
        }
        lemma_bindings_none(last);
        lemma_bindings_concat(head, last);
    }
}

/// The tokens of the joins hold no placeholder.
pub proof fn lemma_join_bindings(
    table: TableView,
    tables: Seq<TableView>,
    joins: Seq<FieldPathView>,
)
    ensures
        bindings(join_tokens(table, tables, joins)) == Seq::<BindingView>::empty(),
    decreases joins.len(),
{
    if joins.len() > 0 {
        let head = join_tokens(table, tables, joins.drop_last());
        let last: Seq<TokenView> = match crate::state::related_table(
            table,
            tables,
            joins.last().field,
        ) {
            Some(target) => seq![
                TokenView::Text(" JOIN "@),
                TokenView::Text(target.name),
                TokenView::Text(" ON "@),
                TokenView::Text(table.name + "."@ + joins.last().field),
                TokenView::Text(" = "@),
                TokenView::Text(target.name + ".id"@),
            ],
            None => Seq::empty(),
        };
        lemma_join_bindings(table, tables, joins.drop_last());
        lemma_bindings_none(last);
        lemma_bindings_concat(head, last);
    }
}

/// The placeholders of the tokens of an index or of a range bind its
/// operands that are no integer literals.
pub proof fn lemma_limit_bindings(limit: Option<LimitView>)
    ensures
        bindings(limit_tokens(limit)) == limit_bindings(limit),
{
    let tokens = limit_tokens(limit);
    match limit {
        None => {},
        Some(LimitView::Index(i)) => {
            if crate::sql::bound_token(i) is Param {
                lemma_bindings_one(tokens, 1);
            } else {
                lemma_bindings_none(tokens);
            }
        },
        Some(LimitView::Range(start, end)) => {
            let first = seq![TokenView::Text(" LIMIT "@), crate::sql::length_token(start, end)];
            let second = seq![TokenView::Text(" OFFSET "@), crate::sql::bound_token(start)];
            assert(tokens =~= first + second);
            lemma_bindings_concat(first, second);
            if crate::sql::length_token(start, end) is Param {
                lemma_bindings_one(first, 1);
            } else {
                lemma_bindings_none(first);
            }
            if crate::sql::bound_token(start) is Param {
                lemma_bindings_one(second, 1);
            } else {
                lemma_bindings_none(second);
            }
        },
        Some(LimitView::StartRange(start)) => {
            if crate::sql::bound_token(start) is Param {
                lemma_bindings_one(tokens, 1);
            } else {
                lemma_bindings_none(tokens);
            }
        },
        Some(LimitView::EndRange(end)) => {
            if crate::sql::bound_token(end) is Param {
                lemma_bindings_one(tokens, 1);
            } else {
                lemma_bindings_none(tokens);
            }
        },
    }
}

/// The placeholders of the values of an insertion bind the values, one
/// assignment after the other.
pub proof fn lemma_value_bindings(assignments: Seq<AssignmentView>)
    ensures
        bindings(value_tokens(assignments)) == assignment_bindings(assignments),
    decreases assignments.len(),
{
    if assignments.len() > 0 {
        let last = seq![crate::sql::assignment_param(assignments.last())];
        lemma_bindings_one(last, 0);
        if assignments.len() == 1 {
            lemma_bindings_concat(Seq::<TokenView>::empty(), last);
        } else {
            let comma = seq![TokenView::Text(", "@)];
            lemma_value_bindings(assignments.drop_last());
            lemma_bindings_none(comma);
            lemma_bindings_concat(value_tokens(assignments.drop_last()), comma);
            lemma_bindings_concat(value_tokens(assignments.drop_last()) + comma, last);
        }
    }
}

/// The placeholders of the assignments of an update bind the values, one
/// assignment after the other.
pub proof fn lemma_set_bindings(assignments: Seq<AssignmentView>)
    ensures
        bindings(set_tokens(assignments)) == assignment_bindings(assignments),
    decreases assignments.len(),
{
    if assignments.len() > 0 {
        let last = seq![
            TokenView::Text(assignments.last().field),
            TokenView::Text(" = "@),
            crate::sql::assignment_param(assignments.last()),
        ];
        lemma_bindings_one(last, 2);
        if assignments.len() == 1 {
            lemma_bindings_concat(Seq::<TokenView>::empty(), last);
        } else {
            let comma = seq![TokenView::Text(", "@)];
            lemma_set_bindings(assignments.drop_last());
            lemma_bindings_none(comma);
            lemma_bindings_concat(set_tokens(assignments.drop_last()), comma);
            lemma_bindings_concat(set_tokens(assignments.drop_last()) + comma, last);
        }
    }
}

/// The placeholders of a query's statement stand in the order in which
/// the query's operands are met from left to right: what the statement's
/// tokens bind is what the operands of the query are bound to, whatever
/// the registered tables and the dialect.
pub proof fn lemma_statement_bindings(q: QueryView, tables: Seq<TableView>, dialect: Dialect)
    ensures
        statement(q, tables, dialect) matches Ok(tokens) ==> bindings(tokens) == query_bindings(q),
{
    if let Ok(tokens) = statement(q, tables, dialect) {
        let table = find_table(tables, q.table().name)->Some_0;
        let none = Seq::<AggregateView>::empty();
        match q {
            QueryView::Select(s) => {
                let qualify = s.joins.len() > 0;
                let head = seq![
                    TokenView::Text("SELECT "@),
                    TokenView::Text(
                        crate::sql::joined(
                            crate::sql::selected_columns(table, tables, s.joins),
                            ", "@,
                        ),
                    ),
                    TokenView::Text(" FROM "@),
                    TokenView::Text(table.name),
                ];
                let joins = join_tokens(table, tables, s.joins);
                let filter = where_tokens(" WHERE "@, table, qualify, none, s.filter, dialect);
                let order = order_tokens(table, qualify, s.order);
                let limit = limit_tokens(s.limit);
                lemma_bindings_none(head);
                lemma_join_bindings(table, tables, s.joins);
                lemma_where_bindings(" WHERE "@, table, qualify, none, s.filter, dialect);
                lemma_order_bindings(table, qualify, s.order);
                lemma_limit_bindings(s.limit);
                lemma_bindings_concat(head, joins);
                lemma_bindings_concat(head + joins, filter);
                lemma_bindings_concat(head + joins + filter, order);
                lemma_bindings_concat(head + joins + filter + order, limit);
            },
            QueryView::Insert { table: _, assignments } => {
                let head = seq![
                    TokenView::Text("INSERT INTO "@),
                    TokenView::Text(table.name),
                    TokenView::Text("("@),
                    TokenView::Text(
                        crate::sql::joined(crate::sql::assigned_fields(assignments), ", "@),
                    ),
                    TokenView::Text(") VALUES("@),
                ];
                let close = seq![TokenView::Text(")"@)];
                lemma_bindings_none(head);
                lemma_bindings_none(close);
                lemma_value_bindings(assignments);
                lemma_bindings_concat(head, value_tokens(assignments));
                lemma_bindings_concat(head + value_tokens(assignments), close);
            },
            QueryView::Update { table: _, assignments, filter } => {
                let head = seq![
                    TokenView::Text("UPDATE "@),
                    TokenView::Text(table.name),
                    TokenView::Text(" SET "@),
                ];
                let condition = where_tokens(" WHERE "@, table, false, none, filter, dialect);
                lemma_bindings_none(head);
                lemma_set_bindings(assignments);
                lemma_where_bindings(" WHERE "@, table, false, none, filter, dialect);
                lemma_bindings_concat(head, set_tokens(assignments));
                lemma_bindings_concat(head + set_tokens(assignments), condition);
            },
            QueryView::Delete { table: _, filter } => {
                let head = seq![TokenView::Text("DELETE FROM "@), TokenView::Text(table.name)];
                let condition = where_tokens(" WHERE "@, table, false, none, filter, dialect);
                lemma_bindings_none(head);
                lemma_where_bindings(" WHERE "@, table, false, none, filter, dialect);
                lemma_bindings_concat(head, condition);
            },
            QueryView::CreateTable { table: _ } => {
                lemma_bindings_none(tokens);
            },
            QueryView::DropTable { table: _ } => {
                lemma_bindings_none(tokens);
            },
            QueryView::Aggregate { table: _, aggregates, groups, filter, having } => {
                let head = seq![
                    TokenView::Text("SELECT "@),
                    TokenView::Text(
                        crate::sql::joined(
                            crate::sql::group_columns(table, groups) + crate::sql::aggregate_items(
                                aggregates,
                            ),
                            ", "@,
                        ),
                    ),
                    TokenView::Text(" FROM "@),
                    TokenView::Text(table.name),
                ];
                let condition = where_tokens(" WHERE "@, table, false, none, filter, dialect);
                let grouping = crate::sql::group_tokens(table, groups);
                let last = where_tokens(" HAVING "@, table, false, aggregates, having, dialect);
                lemma_bindings_none(head);
                lemma_bindings_none(grouping);
                lemma_where_bindings(" WHERE "@, table, false, none, filter, dialect);
                lemma_where_bindings(" HAVING "@, table, false, aggregates, having, dialect);
                lemma_bindings_concat(head, condition);
                lemma_bindings_concat(head + condition, grouping);
                lemma_bindings_concat(head + condition + grouping, last);
            },
        }
    }
}

fn push_binding(out: &mut Vec<Binding>, b: Binding)
    ensures
        final(out).deep_view() == old(out).deep_view() + seq![b@],
{
    out.push(b);
}

fn collect_condition(out: &mut Vec<Binding>, aliases: &Vec<Aggregate>, c: &Condition)
    ensures
        final(out).deep_view() == old(out).deep_view() + condition_bindings(
            aliases.deep_view(),
            c@,
        ),
{
    match c {
        Condition::Compare(path, _, x) => push_binding(out, Binding::compared(aliases, path, x)),
        Condition::MethodPredicate(path, _, x) => push_binding(out, Binding::column(path, x)),
        Condition::Length(_, _, x) => push_binding(
            out,
            Binding::integer(Arg::Value(x.duplicate())),
        ),
        Condition::DatetimePart(_, _, _, x) => push_binding(
            out,
            Binding::integer(Arg::Value(x.duplicate())),
        ),
        _ => {
        },
    }
}

#[verifier::rlimit(50)]
fn collect_filter(out: &mut Vec<Binding>, aliases: &Vec<Aggregate>, f: &Filter)
    ensures
        final(out).deep_view() == old(out).deep_view() + filter_bindings(aliases.deep_view(), f@),
    decreases f,
{
    let ghost base = out.deep_view();
    let ghost named = aliases.deep_view();
    match f {
        Filter::And(l, r) => {
            collect_filter(out, aliases, l);
            collect_filter(out, aliases, r);
            assert(out.deep_view() =~= base + (filter_bindings(named, l@) + filter_bindings(
                named,
                r@,
            )));
        },
        Filter::Or(l, r) => {
            collect_filter(out, aliases, l);
            collect_filter(out, aliases, r);
            assert(out.deep_view() =~= base + (filter_bindings(named, l@) + filter_bindings(
                named,
                r@,
            )));
        },
        Filter::Not(inner) => {
            collect_filter(out, aliases, inner);
        },
        Filter::Leaf(c) => {
            collect_condition(out, aliases, c);
        },
    }
}

fn collect_option_filter(out: &mut Vec<Binding>, aliases: &Vec<Aggregate>, f: &Option<Filter>)
    ensures
        final(out).deep_view() == old(out).deep_view() + option_filter_bindings(
            aliases.deep_view(),
            option_filter_view(*f),
        ),
{
    match f {
        Some(f) => collect_filter(out, aliases, f),
        None => {
        },
    }
}

fn collect_bound(out: &mut Vec<Binding>, x: &Operand)
    ensures
        final(out).deep_view() == old(out).deep_view() + bound_bindings(x@),
{
    match x {
        Operand::Literal(Literal::Int(_), _) => {
        },
        _ => push_binding(out, Binding::integer(Arg::Value(x.duplicate()))),
    }
}

fn collect_length(out: &mut Vec<Binding>, start: &Operand, end: &Operand)
    ensures
        final(out).deep_view() == old(out).deep_view() + length_bindings(start@, end@),
{
    match start {
        Operand::Literal(Literal::Int(_), _) => match end {
            Operand::Literal(Literal::Int(_), _) => {
                return ;
            },
            _ => {},
        },
        _ => {},
    }
    push_binding(out, Binding::integer(Arg::Difference(end.duplicate(), start.duplicate())));
}

fn collect_limit(out: &mut Vec<Binding>, limit: &Option<Limit>)
    ensures
        final(out).deep_view() == old(out).deep_view() + limit_bindings(option_limit_view(*limit)),
{
    match limit {
        None => {
        },
        Some(Limit::Index(i)) => collect_bound(out, i),
        Some(Limit::Range(start, end)) => {
            collect_length(out, start, end);
            collect_bound(out, start);
        },
        Some(Limit::StartRange(start)) => collect_bound(out, start),
        Some(Limit::EndRange(end)) => collect_bound(out, end),
    }
}

fn collect_assignments(out: &mut Vec<Binding>, assignments: &Vec<Assignment>)
    ensures
        final(out).deep_view() == old(out).deep_view() + assignment_bindings(
            assignments.deep_view(),
        ),
{
    let ghost base = out.deep_view();
    let ghost views = assignments.deep_view();
    let mut i: usize = 0;
    while i < assignments.len()
        invariant
            i <= assignments@.len(),
            views == assignments.deep_view(),
            views.len() == assignments@.len(),
            out.deep_view() == base + assignment_bindings(views).take(i as int),
        decreases assignments@.len() - i,
    {
        push_binding(out, assignment_value(&assignments[i]));
        i += 1;
    }
}

/// What the operands of a query are bound to, in the order in which the
/// query's statement meets them.
pub fn query_operands(query: &Query) -> (out: Vec<Binding>)
    ensures
        out.deep_view() == query_bindings(query@),
{
    let mut out: Vec<Binding> = Vec::new();
    let none: Vec<Aggregate> = Vec::new();
    assert(out.deep_view() =~= Seq::empty());
    assert(none.deep_view() =~= Seq::empty());
    match query {
        Query::Select(s) => {
            collect_option_filter(&mut out, &none, &s.filter);
            collect_limit(&mut out, &s.limit);
        },
        Query::Insert { assignments, .. } => {
            collect_assignments(&mut out, assignments);
        },
        Query::Update { assignments, filter, .. } => {
            collect_assignments(&mut out, assignments);
            collect_option_filter(&mut out, &none, filter);
        },
        Query::Delete { filter, .. } => {
            collect_option_filter(&mut out, &none, filter);
        },
        Query::CreateTable { .. } => {},
        Query::DropTable { .. } => {},
        Query::Aggregate { aggregates, filter, having, .. } => {
            collect_option_filter(&mut out, &none, filter);
            collect_option_filter(&mut out, aggregates, having);
        },
    }
    assert(out.deep_view() =~= query_bindings(query@));
    out
}

impl Arg {
    /// Whether the argument is a literal, which needs no record.
    pub fn is_literal(&self) -> (r: bool)
        ensures
            r == self@.is_literal(),
    {
        match self {
            Arg::Value(Operand::Literal(_, _)) => true,
            _ => false,
        }
    }

    /// Where the argument stands in the source.
    pub fn span(&self) -> (r: Span)
        ensures
            r == self@.span(),
    {
        match self {
            Arg::Value(x) => x.span(),
            Arg::Difference(end, start) => Span { lo: start.span().lo, hi: end.span().hi },
        }
    }
}

/// The records of the bindings that are no literals, each with its
/// position among all the bindings.
pub fn placeholder_records(bindings: &Vec<Binding>, call_site: Span) -> (out: Vec<Placeholder>)
    ensures
        out.deep_view() == records(bindings.deep_view(), call_site),
{
    let mut out: Vec<Placeholder> = Vec::new();
    let ghost views = bindings.deep_view();
    let mut i: usize = 0;
    while i < bindings.len()
        invariant
            i <= bindings@.len(),
            views == bindings.deep_view(),
            views.len() == bindings@.len(),
            out.deep_view() == records(views.take(i as int), call_site),
        decreases bindings@.len() - i,
    {
        proof {
            assert(views.take(i + 1).drop_last() =~= views.take(i as int));
        }
        let b = &bindings[i];
        if !b.arg.is_literal() {
            let via = match &b.via {
                Some(v) => Some(v.clone()),
                None => None,
            };
            let record = Placeholder {
                name: b.name.clone(),
                via,
                span: b.arg.span(),
                call_site,
                ordinal: i,
            };
            out.push(record);
        }
        i += 1;
    }
    assert(views.take(i as int) =~= views);
    out
}

} // verus!
