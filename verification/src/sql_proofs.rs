//! What holds of the text of every generated statement.

use vstd::prelude::*;
use crate::query::{
    AggregateView, ConditionView, FieldPathView, FilterView, NullOp, QueryView, SelectView,
};
use crate::sql::{
    bindings, column_text, condition_tokens, filter_tokens, joined, lemma_bindings_concat,
    needs_parens, placeholder_text, render, render_after, selected_columns, statement, token_text,
    unsupported, wrapped, BindingView, Dialect, TokenView,
};
use crate::state::{field_names, find_table, TableView};

verus! {

/// The text of tokens after other tokens is the text of the first, then
/// the text of the others with their placeholders numbered on from those
/// of the first.
pub proof fn lemma_render_concat(
    a: Seq<TokenView>,
    b: Seq<TokenView>,
    dialect: Dialect,
    before: nat,
)
    ensures
        render_after(a + b, dialect, before) == render_after(a, dialect, before) + render_after(
            b,
            dialect,
            before + bindings(a).len(),
        ),
    decreases b.len(),
{
    if b.len() == 0 {
    } else {
        assert((a + b).drop_last() =~= a + b.drop_last());
        lemma_render_concat(a, b.drop_last(), dialect, before);
        lemma_bindings_concat(a, b.drop_last());
    }
}

/// The text of a single token.
pub proof fn lemma_render_one(t: TokenView, dialect: Dialect, before: nat)
    ensures
        render_after(seq![t], dialect, before) == token_text(t, dialect, before),
{
    reveal_with_fuel(render_after, 2);
    reveal_with_fuel(bindings, 2);
}

/// The numbering of placeholders: a placeholder is spelt with the number
/// of the placeholders that stand before it in the statement, and that
/// number is the position, in the list of what the placeholders bind, of
/// what it binds.
pub proof fn lemma_placeholder_numbering(tokens: Seq<TokenView>, dialect: Dialect, i: int)
    requires
        0 <= i < tokens.len(),
        tokens[i] is Param,
    ensures
        bindings(tokens.take(i)).len() < bindings(tokens).len(),
        bindings(tokens)[bindings(tokens.take(i)).len() as int] == tokens[i]->Param_0,
        render(tokens, dialect) == render(tokens.take(i), dialect) + placeholder_text(
            dialect,
            bindings(tokens.take(i)).len(),
        ) + render_after(tokens.skip(i + 1), dialect, bindings(tokens.take(i)).len() + 1),
{
    let head = tokens.take(i);
    let one = seq![tokens[i]];
    let rest = tokens.skip(i + 1);
    assert(tokens =~= head + one + rest);
    crate::placeholders::lemma_bindings_one(one, 0);
    lemma_bindings_concat(head, one);
    lemma_bindings_concat(head + one, rest);
    lemma_render_concat(head, one, dialect, 0);
    lemma_render_concat(head + one, rest, dialect, 0);
    lemma_render_one(tokens[i], dialect, bindings(head).len());
}

/// The columns of a selection without joins are the table's fields in the
/// order of their declaration: the statement is `SELECT`, the names of the
/// fields in that order with commas between, `FROM`, the table's name, and
/// what follows.
pub proof fn lemma_select_lists_fields_in_order(
    s: SelectView,
    tables: Seq<TableView>,
    dialect: Dialect,
)
    requires
        find_table(tables, s.table.name) is Some,
        s.joins.len() == 0,
    ensures
        selected_columns(find_table(tables, s.table.name)->Some_0, tables, s.joins) == field_names(
            find_table(tables, s.table.name)->Some_0.fields,
        ),
        statement(QueryView::Select(s), tables, dialect) is Ok <==> !unsupported(s.filter, dialect),
        statement(QueryView::Select(s), tables, dialect) matches Ok(tokens) ==> {
            let table = find_table(tables, s.table.name)->Some_0;
            &&& tokens.len() >= 4
            &&& render(tokens, dialect) == "SELECT "@ + joined(field_names(table.fields), ", "@)
                + " FROM "@ + table.name + render(tokens.skip(4), dialect)
        },
{
    let table = find_table(tables, s.table.name)->Some_0;
    if let Ok(tokens) = statement(QueryView::Select(s), tables, dialect) {
        let select = TokenView::Text("SELECT "@);
        let columns = TokenView::Text(joined(field_names(table.fields), ", "@));
        let from = TokenView::Text(" FROM "@);
        let name = TokenView::Text(table.name);
        let head = seq![select, columns, from, name];
        assert(tokens =~= head + tokens.skip(4));
        assert(head =~= seq![select] + seq![columns] + seq![from] + seq![name]);
        crate::placeholders::lemma_bindings_none(head);
        crate::placeholders::lemma_bindings_none(seq![select]);
        crate::placeholders::lemma_bindings_none(seq![select] + seq![columns]);
        crate::placeholders::lemma_bindings_none(seq![select] + seq![columns] + seq![from]);
        lemma_render_concat(head, tokens.skip(4), dialect, 0);
        lemma_render_concat(seq![select] + seq![columns] + seq![from], seq![name], dialect, 0);
        lemma_render_concat(seq![select] + seq![columns], seq![from], dialect, 0);
        lemma_render_concat(seq![select], seq![columns], dialect, 0);
        lemma_render_one(select, dialect, 0);
        lemma_render_one(columns, dialect, 0);
        lemma_render_one(from, dialect, 0);
        lemma_render_one(name, dialect, 0);
    }
}

/// A negation is written as `NOT (`, the negated filter and `)`, so that
/// negations nest.
pub proof fn lemma_not_is_wrapped(
    table: TableView,
    qualify: bool,
    aliases: Seq<AggregateView>,
    p: FilterView,
    dialect: Dialect,
    before: nat,
)
    ensures
        render_after(
            filter_tokens(table, qualify, aliases, FilterView::Not(Box::new(p)), dialect),
            dialect,
            before,
        ) == "NOT ("@ + render_after(
            filter_tokens(table, qualify, aliases, p, dialect),
            dialect,
            before,
        ) + ")"@,
        render_after(
            filter_tokens(
                table,
                qualify,
                aliases,
                FilterView::Not(Box::new(FilterView::Not(Box::new(p)))),
                dialect,
            ),
            dialect,
            before,
        ) == "NOT ("@ + ("NOT ("@ + render_after(
            filter_tokens(table, qualify, aliases, p, dialect),
            dialect,
            before,
        ) + ")"@) + ")"@,
{
    lemma_not_once(table, qualify, aliases, p, dialect, before);
    lemma_not_once(table, qualify, aliases, FilterView::Not(Box::new(p)), dialect, before);
}

proof fn lemma_not_once(
    table: TableView,
    qualify: bool,
    aliases: Seq<AggregateView>,
    p: FilterView,
    dialect: Dialect,
    before: nat,
)
    ensures
        render_after(
            filter_tokens(table, qualify, aliases, FilterView::Not(Box::new(p)), dialect),
            dialect,
            before,
        ) == "NOT ("@ + render_after(
            filter_tokens(table, qualify, aliases, p, dialect),
            dialect,
            before,
        ) + ")"@,
{
    let inner = filter_tokens(table, qualify, aliases, p, dialect);
    lemma_parenthesized(seq![TokenView::Text("NOT ("@)], inner, dialect, before);
}

/// The text of tokens between an opening text token and `)`.
proof fn lemma_parenthesized(
    open: Seq<TokenView>,
    inner: Seq<TokenView>,
    dialect: Dialect,
    before: nat,
)
    requires
        open.len() == 1,
        open[0] is Text,
    ensures
        render_after(open + inner + seq![TokenView::Text(")"@)], dialect, before)
            == open[0]->Text_0 + render_after(inner, dialect, before) + ")"@,
        bindings(open + inner + seq![TokenView::Text(")"@)]) == bindings(inner),
{
    let close = seq![TokenView::Text(")"@)];
    crate::placeholders::lemma_bindings_none(open);
    crate::placeholders::lemma_bindings_none(close);
    lemma_bindings_concat(open, inner);
    lemma_bindings_concat(open + inner, close);
    lemma_render_concat(open, inner, dialect, before);
    lemma_render_concat(open + inner, close, dialect, before);
    assert(open =~= seq![open[0]]);
    lemma_render_one(open[0], dialect, before);
    lemma_render_one(TokenView::Text(")"@), dialect, before + bindings(open + inner).len());
}

/// A disjunction under a conjunction is put in parentheses, and so is a
/// conjunction under a disjunction: `(A || B) && C` is written as `(`, the
/// text of `A || B`, `) AND ` and the text of `C`, and `A || B && C` as
/// the text of `A`, ` OR (`, the text of `B && C` and `)`. (The text of `A`
/// and that of `C` are themselves in parentheses where they need to be.)
pub proof fn lemma_mixed_operators_are_wrapped(
    table: TableView,
    qualify: bool,
    aliases: Seq<AggregateView>,
    a: FilterView,
    b: FilterView,
    c: FilterView,
    dialect: Dialect,
)
    ensures
        ({
            let either = FilterView::Or(Box::new(a), Box::new(b));
            let both = FilterView::And(Box::new(either), Box::new(c));
            let first = filter_tokens(table, qualify, aliases, either, dialect);
            let last = wrapped(
                filter_tokens(table, qualify, aliases, c, dialect),
                needs_parens(c, true),
            );
            render(filter_tokens(table, qualify, aliases, both, dialect), dialect) == "("@ + render(
                first,
                dialect,
            ) + ")"@ + " AND "@ + render_after(last, dialect, bindings(first).len())
        }),
        ({
            let both = FilterView::And(Box::new(b), Box::new(c));
            let either = FilterView::Or(Box::new(a), Box::new(both));
            let first = wrapped(
                filter_tokens(table, qualify, aliases, a, dialect),
                needs_parens(a, false),
            );
            render(filter_tokens(table, qualify, aliases, either, dialect), dialect) == render(
                first,
                dialect,
            ) + " OR "@ + ("("@ + render_after(
                filter_tokens(table, qualify, aliases, both, dialect),
                dialect,
                bindings(first).len(),
            ) + ")"@)
        }),
{
    {
        let either = FilterView::Or(Box::new(a), Box::new(b));
        let first = filter_tokens(table, qualify, aliases, either, dialect);
        let last = wrapped(
            filter_tokens(table, qualify, aliases, c, dialect),
            needs_parens(c, true),
        );
        let open = seq![TokenView::Text("("@)];
        let and = seq![TokenView::Text(" AND "@)];
        lemma_parenthesized(open, first, dialect, 0);
        assert(wrapped(first, true) =~= open + first + seq![TokenView::Text(")"@)]);
        lemma_render_concat(wrapped(first, true), and, dialect, 0);
        lemma_render_concat(wrapped(first, true) + and, last, dialect, 0);
        lemma_render_one(TokenView::Text(" AND "@), dialect, bindings(wrapped(first, true)).len());
        crate::placeholders::lemma_bindings_none(and);
        lemma_bindings_concat(wrapped(first, true), and);
    }
    {
        let both = FilterView::And(Box::new(b), Box::new(c));
        let first = wrapped(
            filter_tokens(table, qualify, aliases, a, dialect),
            needs_parens(a, false),
        );
        let last = filter_tokens(table, qualify, aliases, both, dialect);
        let open = seq![TokenView::Text("("@)];
        let or = seq![TokenView::Text(" OR "@)];
        crate::placeholders::lemma_bindings_none(or);
        lemma_bindings_concat(first, or);
        lemma_parenthesized(open, last, dialect, bindings(first).len());
        assert(wrapped(last, true) =~= open + last + seq![TokenView::Text(")"@)]);
        lemma_render_concat(first, or, dialect, 0);
        lemma_render_concat(first + or, wrapped(last, true), dialect, 0);
        lemma_render_one(TokenView::Text(" OR "@), dialect, bindings(first).len());
    }
}

/// A test of an optional column binds nothing: it is written as the
/// column and `IS NULL` or `IS NOT NULL`, without a placeholder.
pub proof fn lemma_null_test_binds_nothing(
    table: TableView,
    qualify: bool,
    aliases: Seq<AggregateView>,
    path: FieldPathView,
    test: NullOp,
    dialect: Dialect,
    before: nat,
)
    ensures
        bindings(
            condition_tokens(
                table,
                qualify,
                aliases,
                ConditionView::NullPredicate(path, test),
                dialect,
            ),
        ) == Seq::<BindingView>::empty(),
        render_after(
            condition_tokens(
                table,
                qualify,
                aliases,
                ConditionView::NullPredicate(path, test),
                dialect,
            ),
            dialect,
            before,
        ) == column_text(table, qualify, aliases, path) + match test {
            NullOp::IsNone => " IS NULL"@,
            NullOp::IsSome => " IS NOT NULL"@,
        },
{
    let tokens = condition_tokens(
        table,
        qualify,
        aliases,
        ConditionView::NullPredicate(path, test),
        dialect,
    );
    crate::placeholders::lemma_bindings_none(tokens);
    let first = seq![tokens[0]];
    let second = seq![tokens[1]];
    assert(tokens =~= first + second);
    lemma_render_concat(first, second, dialect, before);
    lemma_render_one(tokens[0], dialect, before);
    lemma_render_one(tokens[1], dialect, before + bindings(first).len());
}

} // verus!
