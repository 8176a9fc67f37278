//! The SQL generator: a query becomes a sequence of tokens, and the tokens
//! become the SQL text and the list of what its placeholders bind.

use vstd::prelude::*;
use vstd::string::*;
use crate::error::Span;
use crate::query::{
    name_view, Aggregate, AggregateFn, AggregateView, Assignment, AssignmentView, CompareOp,
    Condition, ConditionView, DatePart, Direction, FieldPath, FieldPathView, Filter, FilterView,
    Limit, LimitView, Literal, LiteralView, MethodOp, NullOp, Operand, OperandView, Order,
    OrderView, Query, QueryView, Select, SelectView,
};
use crate::state::{
    field_names, find_field, find_table, foreign_target, index_name, related_table, Field,
    FieldView, Registry, Table, TableView, Type, TypeView,
};
use crate::string::{decimal, push_decimal, push_signed_decimal, signed_decimal};

verus! {

/// The SQL dialect to generate.
#[derive(Clone, Copy, Debug, PartialEq, Eq, Structural)]
pub enum Dialect {
    Postgres,
    Sqlite,
}

impl Default for Dialect {
    /// The dialect to generate where none is chosen.
    fn default() -> (d: Dialect)
        ensures
            d == Dialect::Sqlite,
    {
        Dialect::Sqlite
    }
}

/// What a placeholder binds: the value of an operand, or the difference
/// of two operands (the first less the second), which is the length of a
/// range.
#[derive(Clone, Debug, PartialEq, Eq)]
pub enum Arg {
    Value(Operand),
    Difference(Operand, Operand),
}

/// The mathematical content of an `Arg`.
pub enum ArgView {
    Value(OperandView),
    Difference(OperandView, OperandView),
}

impl View for Arg {
    type V = ArgView;

    open spec fn view(&self) -> ArgView {
        match self {
            Arg::Value(x) => ArgView::Value(x@),
            Arg::Difference(end, start) => ArgView::Difference(end@, start@),
        }
    }
}

impl ArgView {
    /// Whether the argument is a literal, which needs no record.
    pub open spec fn is_literal(self) -> bool {
        self matches ArgView::Value(OperandView::Literal(_, _))
    }

    /// Where the argument stands in the source: for a difference, from the
    /// start of the range to its end.
    pub open spec fn span(self) -> Span {
        match self {
            ArgView::Value(x) => x.span(),
            ArgView::Difference(end, start) => Span { lo: start.span().lo, hi: end.span().hi },
        }
    }
}

impl Arg {
    /// A copy of the argument.
    pub fn duplicate(&self) -> (r: Arg)
        ensures
            r@ == self@,
    {
        match self {
            Arg::Value(x) => Arg::Value(x.duplicate()),
            Arg::Difference(end, start) => Arg::Difference(end.duplicate(), start.duplicate()),
        }
    }
}

/// A placeholder's content: the column that the argument is compared with
/// (or `i64` for an index, a range, a length or a part of a date), the
/// foreign key through which that column is reached if it is a column of
/// another table, and the argument.
#[derive(Clone, Debug, PartialEq, Eq)]
pub struct Binding {
    pub name: String,
    pub via: Option<String>,
    pub arg: Arg,
}

/// The mathematical content of a `Binding`.
pub struct BindingView {
    pub name: Seq<char>,
    pub via: Option<Seq<char>>,
    pub arg: ArgView,
}

impl View for Binding {
    type V = BindingView;

    open spec fn view(&self) -> BindingView {
        BindingView { name: self.name@, via: name_view(self.via), arg: self.arg@ }
    }
}

impl Binding {
    /// A copy of the binding.
    pub fn duplicate(&self) -> (r: Binding)
        ensures
            r@ == self@,
    {
        let via = match &self.via {
            Some(v) => Some(v.clone()),
            None => None,
        };
        Binding { name: self.name.clone(), via, arg: self.arg.duplicate() }
    }
}

impl DeepView for Binding {
    type V = BindingView;

    open spec fn deep_view(&self) -> BindingView {
        self@
    }
}

/// A piece of a statement: text to emit as it is, a number to emit in
/// decimal, or a placeholder.
#[derive(Clone, Debug, PartialEq, Eq)]
pub enum Token {
    Text(String),
    Number(i128),
    Param(Binding),
}

/// The mathematical content of a `Token`.
pub enum TokenView {
    Text(Seq<char>),
    Number(i128),
    Param(BindingView),
}

impl View for Token {
    type V = TokenView;

    open spec fn view(&self) -> TokenView {
        match self {
            Token::Text(s) => TokenView::Text(s@),
            Token::Number(n) => TokenView::Number(*n),
            Token::Param(b) => TokenView::Param(b@),
        }
    }
}

impl DeepView for Token {
    type V = TokenView;

    open spec fn deep_view(&self) -> TokenView {
        self@
    }
}

/// What the placeholders among the tokens bind, from left to right.
pub open spec fn bindings(tokens: Seq<TokenView>) -> Seq<BindingView>
    decreases tokens.len(),
{
    if tokens.len() == 0 {
        Seq::empty()
    } else {
        let before = bindings(tokens.drop_last());
        match tokens.last() {
            TokenView::Param(b) => before.push(b),
            _ => before,
        }
    }
}

/// The spelling of the placeholder for the argument at position `index`.
pub open spec fn placeholder_text(dialect: Dialect, index: nat) -> Seq<char> {
    match dialect {
        Dialect::Postgres => "$"@ + decimal(index + 1),
        Dialect::Sqlite => "?"@,
    }
}

/// The text of one token, where `index` placeholders stand before it.
pub open spec fn token_text(token: TokenView, dialect: Dialect, index: nat) -> Seq<char> {
    match token {
        TokenView::Text(s) => s,
        TokenView::Number(n) => signed_decimal(n as int),
        TokenView::Param(_) => placeholder_text(dialect, index),
    }
}

/// The text of the tokens where `before` placeholders stand before them:
/// each placeholder is spelt with its position among the placeholders,
/// counted from the left.
pub open spec fn render_after(tokens: Seq<TokenView>, dialect: Dialect, before: nat) -> Seq<char>
    decreases tokens.len(),
{
    if tokens.len() == 0 {
        Seq::empty()
    } else {
        render_after(tokens.drop_last(), dialect, before) + token_text(
            tokens.last(),
            dialect,
            before + bindings(tokens.drop_last()).len(),
        )
    }
}

/// The text of the tokens of a statement.
pub open spec fn render(tokens: Seq<TokenView>, dialect: Dialect) -> Seq<char> {
    render_after(tokens, dialect, 0)
}

/// The placeholders of the tokens after more tokens: those of the first,
/// then those of the others.
pub proof fn lemma_bindings_concat(a: Seq<TokenView>, b: Seq<TokenView>)
    ensures
        bindings(a + b) == bindings(a) + bindings(b),
    decreases b.len(),
{
    if b.len() == 0 {
    } else {
        assert((a + b).drop_last() =~= a + b.drop_last());
        lemma_bindings_concat(a, b.drop_last());
    }
}

/// The text of the tokens and the list of what their placeholders bind.
pub fn render_tokens(tokens: &Vec<Token>, dialect: Dialect) -> (r: (String, Vec<Binding>))
    ensures
        r.0@ == render(tokens.deep_view(), dialect),
        r.1.deep_view() == bindings(tokens.deep_view()),
{
    let mut sql = String::new();
    let mut args: Vec<Binding> = Vec::new();
    let ghost views = tokens.deep_view();
    let mut i: usize = 0;
    while i < tokens.len()
        invariant
            i <= tokens@.len(),
            views == tokens.deep_view(),
            views.len() == tokens@.len(),
            sql@ == render(views.take(i as int), dialect),
            args.deep_view() == bindings(views.take(i as int)),
            args@.len() <= i,
        decreases tokens@.len() - i,
    {
        proof {
            assert(views.take(i + 1).drop_last() =~= views.take(i as int));
        }
        match &tokens[i] {
            Token::Text(s) => {
                sql.append(s.as_str());
            },
            Token::Number(n) => {
                push_signed_decimal(&mut sql, *n);
            },
            Token::Param(b) => {
                match dialect {
                    Dialect::Postgres => {
                        sql.append("$");
                        let ordinal: u128 = args.len() as u128 + 1;
                        push_decimal(&mut sql, ordinal);
                    },
                    Dialect::Sqlite => {
                        sql.append("?");
                    },
                }
                args.push(b.duplicate());
            },
        }
        i += 1;
    }
    assert(views.take(i as int) =~= views);
    (sql, args)
}

/// What the placeholder for an operand compared with the column at `path`
/// binds.
pub open spec fn column_binding(path: FieldPathView, operand: OperandView) -> BindingView {
    match path.related {
        Some(column) => BindingView {
            name: column,
            via: Some(path.field),
            arg: ArgView::Value(operand),
        },
        None => BindingView { name: path.field, via: None, arg: ArgView::Value(operand) },
    }
}

/// What the placeholder for an argument that is an integer binds.
pub open spec fn integer_binding(arg: ArgView) -> BindingView {
    BindingView { name: index_name(), via: None, arg }
}

/// What the placeholder for an operand of a comparison binds: an integer
/// where the path is a name given to one of the aggregates, and else what
/// is compared with the column at `path`.
pub open spec fn compared_binding(
    aliases: Seq<AggregateView>,
    path: FieldPathView,
    operand: OperandView,
) -> BindingView {
    if path.related is None && find_alias(aliases, path.field) is Some {
        integer_binding(ArgView::Value(operand))
    } else {
        column_binding(path, operand)
    }
}

/// The placeholder for an operand compared with the column at `path`.
pub open spec fn column_param(path: FieldPathView, operand: OperandView) -> TokenView {
    TokenView::Param(column_binding(path, operand))
}

/// The placeholder for an argument that is an integer.
pub open spec fn integer_param(arg: ArgView) -> TokenView {
    TokenView::Param(integer_binding(arg))
}

fn push_text(out: &mut Vec<Token>, s: &str)
    ensures
        final(out).deep_view() == old(out).deep_view().push(TokenView::Text(s@)),
{
    out.push(Token::Text(s.to_owned()));
}

fn push_owned(out: &mut Vec<Token>, s: String)
    ensures
        final(out).deep_view() == old(out).deep_view().push(TokenView::Text(s@)),
{
    out.push(Token::Text(s));
    assert(out.deep_view() =~= old(out).deep_view().push(TokenView::Text(s@)));
}

fn push_number(out: &mut Vec<Token>, n: i128)
    ensures
        final(out).deep_view() == old(out).deep_view().push(TokenView::Number(n)),
{
    out.push(Token::Number(n));
}

impl Binding {
    /// What the placeholder for an operand compared with the column at
    /// `path` binds.
    pub fn column(path: &FieldPath, operand: &Operand) -> (b: Binding)
        ensures
            b@ == column_binding(path@, operand@),
    {
        match &path.related {
            Some(column) => Binding {
                name: column.clone(),
                via: Some(path.field.clone()),
                arg: Arg::Value(operand.duplicate()),
            },
            None => Binding {
                name: path.field.clone(),
                via: None,
                arg: Arg::Value(operand.duplicate()),
            },
        }
    }

    /// What the placeholder for an operand of a comparison binds.
    pub fn compared(aliases: &Vec<Aggregate>, path: &FieldPath, operand: &Operand) -> (b: Binding)
        ensures
            b@ == compared_binding(aliases.deep_view(), path@, operand@),
    {
        if path.related.is_none() && lookup_alias(aliases, path.field.as_str()).is_some() {
            Binding::integer(Arg::Value(operand.duplicate()))
        } else {
            Binding::column(path, operand)
        }
    }

    /// What the placeholder for an argument that is an integer binds.
    pub fn integer(arg: Arg) -> (b: Binding)
        ensures
            b@ == integer_binding(arg@),
    {
        Binding { name: "i64".to_owned(), via: None, arg }
    }
}

fn push_param(out: &mut Vec<Token>, b: Binding)
    ensures
        final(out).deep_view() == old(out).deep_view().push(TokenView::Param(b@)),
{
    out.push(Token::Param(b));
    assert(out.deep_view() =~= old(out).deep_view().push(TokenView::Param(b@)));
}

fn push_column_param(out: &mut Vec<Token>, path: &FieldPath, operand: &Operand)
    ensures
        final(out).deep_view() == old(out).deep_view().push(column_param(path@, operand@)),
{
    out.push(Token::Param(Binding::column(path, operand)));
}

fn push_integer_param(out: &mut Vec<Token>, arg: Arg)
    ensures
        final(out).deep_view() == old(out).deep_view().push(integer_param(arg@)),
{
    out.push(Token::Param(Binding::integer(arg)));
}

/// The SQL name of an aggregate function.
pub open spec fn function_text(f: AggregateFn) -> Seq<char> {
    match f {
        AggregateFn::Avg => "AVG"@,
        AggregateFn::Count => "COUNT"@,
        AggregateFn::Max => "MAX"@,
        AggregateFn::Min => "MIN"@,
        AggregateFn::Sum => "SUM"@,
    }
}

/// The SQL expression of an aggregate.
pub open spec fn aggregate_text(a: AggregateView) -> Seq<char> {
    function_text(a.function) + "("@ + a.field + ")"@
}

/// The first of the aggregates that was given the name `name`.
pub open spec fn find_alias(aliases: Seq<AggregateView>, name: Seq<char>) -> Option<AggregateView>
    decreases aliases.len(),
{
    if aliases.len() == 0 {
        None
    } else {
        match find_alias(aliases.drop_last(), name) {
            Some(a) => Some(a),
            None => if aliases.last().alias == Some(name) {
                Some(aliases.last())
            } else {
                None
            },
        }
    }
}

/// The SQL text for the column at `path`, in a query on `table`. A column
/// reached through a foreign key is named with the table that the key
/// refers to. A name given to one of the aggregates stands for that
/// aggregate. Any other column is named with its table where `qualify`
/// is set, and bare where it is not.
pub open spec fn column_text(
    table: TableView,
    qualify: bool,
    aliases: Seq<AggregateView>,
    path: FieldPathView,
) -> Seq<char> {
    match path.related {
        Some(column) => {
            let target = match find_field(table.fields, path.field) {
                Some(field) => match foreign_target(field.typ) {
                    Some(target) => target,
                    None => path.field,
                },
                None => path.field,
            };
            target + "."@ + column
        },
        None => match find_alias(aliases, path.field) {
            Some(a) => aggregate_text(a),
            None => if qualify {
                table.name + "."@ + path.field
            } else {
                path.field
            },
        },
    }
}

fn function_name(f: AggregateFn) -> (s: &'static str)
    ensures
        s@ == function_text(f),
{
    match f {
        AggregateFn::Avg => "AVG",
        AggregateFn::Count => "COUNT",
        AggregateFn::Max => "MAX",
        AggregateFn::Min => "MIN",
        AggregateFn::Sum => "SUM",
    }
}

fn aggregate_expression(a: &Aggregate) -> (s: String)
    ensures
        s@ == aggregate_text(a@),
{
    let mut s = function_name(a.function).to_owned();
    s.append("(");
    s.append(a.field.as_str());
    s.append(")");
    assert(s@ =~= aggregate_text(a@));
    s
}

/// The first of the aggregates that was given the name `name`.
pub fn lookup_alias<'a>(aliases: &'a Vec<Aggregate>, name: &str) -> (r: Option<&'a Aggregate>)
    ensures
        r.deep_view() == find_alias(aliases.deep_view(), name@),
{
    let ghost views = aliases.deep_view();
    let mut found: Option<&'a Aggregate> = None;
    let mut i: usize = 0;
    while i < aliases.len()
        invariant
            i <= aliases@.len(),
            views == aliases.deep_view(),
            views.len() == aliases@.len(),
            found.deep_view() == find_alias(views.take(i as int), name@),
        decreases aliases@.len() - i,
    {
        proof {
            assert(views.take(i + 1).drop_last() =~= views.take(i as int));
        }
        if found.is_none() {
            let named = match &aliases[i].alias {
                Some(alias) => crate::string::text_eq(alias.as_str(), name),
                None => false,
            };
            if named {
                found = Some(&aliases[i]);
            }
        }
        i += 1;
    }
    assert(views.take(i as int) =~= views);
    found
}

/// Builds the SQL text for the column at `path`.
pub fn column_name(table: &Table, qualify: bool, aliases: &Vec<Aggregate>, path: &FieldPath) -> (s:
    String)
    ensures
        s@ == column_text(table@, qualify, aliases.deep_view(), path@),
{
    match &path.related {
        Some(column) => {
            let mut s = match table.get(path.field.as_str()) {
                Some(field) => match field.typ.foreign_target() {
                    Some(target) => target.clone(),
                    None => path.field.clone(),
                },
                None => path.field.clone(),
            };
            s.append(".");
            s.append(column.as_str());
            s
        },
        None => match lookup_alias(aliases, path.field.as_str()) {
            Some(a) => aggregate_expression(a),
            None => {
                if qualify {
                    let mut s = table.name().clone();
                    s.append(".");
                    s.append(path.field.as_str());
                    s
                } else {
                    path.field.clone()
                }
            },
        },
    }
}

/// The SQL spelling of a comparison, between spaces.
pub open spec fn compare_text(op: CompareOp) -> Seq<char> {
    match op {
        CompareOp::Eq => " = "@,
        CompareOp::Ne => " <> "@,
        CompareOp::Lt => " < "@,
        CompareOp::Le => " <= "@,
        CompareOp::Gt => " > "@,
        CompareOp::Ge => " >= "@,
    }
}

/// The SQL name of a part of a date or of a time.
pub open spec fn part_text(part: DatePart) -> Seq<char> {
    match part {
        DatePart::Year => "YEAR"@,
        DatePart::Month => "MONTH"@,
        DatePart::Day => "DAY"@,
        DatePart::Hour => "HOUR"@,
        DatePart::Minute => "MINUTE"@,
        DatePart::Second => "SECOND"@,
    }
}

/// The format that selects a part of a date or of a time.
pub open spec fn part_format(part: DatePart) -> Seq<char> {
    match part {
        DatePart::Year => "%Y"@,
        DatePart::Month => "%m"@,
        DatePart::Day => "%d"@,
        DatePart::Hour => "%H"@,
        DatePart::Minute => "%M"@,
        DatePart::Second => "%S"@,
    }
}

/// The tokens of a method on a text column.
pub open spec fn method_tokens(
    column: Seq<char>,
    param: TokenView,
    method: MethodOp,
    dialect: Dialect,
) -> Seq<TokenView> {
    match method {
        MethodOp::Contains => seq![
            TokenView::Text(column),
            TokenView::Text(" LIKE '%'||"@),
            param,
            TokenView::Text("||'%'"@),
        ],
        MethodOp::StartsWith => seq![
            TokenView::Text(column),
            TokenView::Text(" LIKE "@),
            param,
            TokenView::Text("||'%'"@),
        ],
        MethodOp::EndsWith => seq![
            TokenView::Text(column),
            TokenView::Text(" LIKE '%'||"@),
            param,
        ],
        MethodOp::Regex => seq![
            TokenView::Text(column),
            TokenView::Text(
                match dialect {
                    Dialect::Postgres => " ~ "@,
                    Dialect::Sqlite => " REGEXP "@,
                },
            ),
            param,
        ],
        MethodOp::IRegex => match dialect {
            Dialect::Postgres => seq![TokenView::Text(column), TokenView::Text(" ~* "@), param],
            Dialect::Sqlite => seq![
                TokenView::Text(column),
                TokenView::Text(" LIKE "@),
                param,
                TokenView::Text(" COLLATE NOCASE"@),
            ],
        },
    }
}

/// The tokens that select a part of a date or of a time.
pub open spec fn part_tokens(column: Seq<char>, part: DatePart, dialect: Dialect) -> Seq<TokenView> {
    match dialect {
        Dialect::Postgres => seq![
            TokenView::Text("EXTRACT("@),
            TokenView::Text(part_text(part)),
            TokenView::Text(" FROM "@),
            TokenView::Text(column),
            TokenView::Text(")"@),
        ],
        Dialect::Sqlite => seq![
            TokenView::Text("strftime('"@),
            TokenView::Text(part_format(part)),
            TokenView::Text("', "@),
            TokenView::Text(column),
            TokenView::Text(")"@),
        ],
    }
}

/// The tokens of a condition.
pub open spec fn condition_tokens(
    table: TableView,
    qualify: bool,
    aliases: Seq<AggregateView>,
    c: ConditionView,
    dialect: Dialect,
) -> Seq<TokenView> {
    match c {
        ConditionView::Compare(path, op, x) => seq![
            TokenView::Text(column_text(table, qualify, aliases, path)),
            TokenView::Text(compare_text(op)),
            TokenView::Param(compared_binding(aliases, path, x)),
        ],
        ConditionView::MethodPredicate(path, method, x) => method_tokens(
            column_text(table, qualify, aliases, path),
            column_param(path, x),
            method,
            dialect,
        ),
        ConditionView::NullPredicate(path, test) => seq![
            TokenView::Text(column_text(table, qualify, aliases, path)),
            TokenView::Text(
                match test {
                    NullOp::IsNone => " IS NULL"@,
                    NullOp::IsSome => " IS NOT NULL"@,
                },
            ),
        ],
        ConditionView::Length(path, op, x) => seq![
            TokenView::Text("CHAR_LENGTH("@),
            TokenView::Text(column_text(table, qualify, aliases, path)),
            TokenView::Text(")"@),
            TokenView::Text(compare_text(op)),
            integer_param(ArgView::Value(x)),
        ],
        ConditionView::DatetimePart(path, part, op, x) => part_tokens(
            column_text(table, qualify, aliases, path),
            part,
            dialect,
        ) + seq![TokenView::Text(compare_text(op)), integer_param(ArgView::Value(x))],
        ConditionView::Constant(b) => seq![
            TokenView::Text(
                if b {
                    "1 = 1"@
                } else {
                    "1 = 0"@
                },
            ),
        ],
    }
}

/// Whether a filter that stands under a conjunction (`under_and`) or under
/// a disjunction is put in parentheses: it is if its own operator is the
/// other of the two.
pub open spec fn needs_parens(child: FilterView, under_and: bool) -> bool {
    match child {
        FilterView::And(_, _) => !under_and,
        FilterView::Or(_, _) => under_and,
        _ => false,
    }
}

/// The tokens, in parentheses if asked.
pub open spec fn wrapped(tokens: Seq<TokenView>, parens: bool) -> Seq<TokenView> {
    if parens {
        seq![TokenView::Text("("@)] + tokens + seq![TokenView::Text(")"@)]
    } else {
        tokens
    }
}

/// The tokens of a filter.
pub open spec fn filter_tokens(
    table: TableView,
    qualify: bool,
    aliases: Seq<AggregateView>,
    f: FilterView,
    dialect: Dialect,
) -> Seq<TokenView>
    decreases f,
{
    match f {
        FilterView::And(l, r) => wrapped(
            filter_tokens(table, qualify, aliases, *l, dialect),
            needs_parens(*l, true),
        ) + seq![TokenView::Text(" AND "@)] + wrapped(
            filter_tokens(table, qualify, aliases, *r, dialect),
            needs_parens(*r, true),
        ),
        FilterView::Or(l, r) => wrapped(
            filter_tokens(table, qualify, aliases, *l, dialect),
            needs_parens(*l, false),
        ) + seq![TokenView::Text(" OR "@)] + wrapped(
            filter_tokens(table, qualify, aliases, *r, dialect),
            needs_parens(*r, false),
        ),
        FilterView::Not(inner) => seq![TokenView::Text("NOT ("@)] + filter_tokens(
            table,
            qualify,
            aliases,
            *inner,
            dialect,
        ) + seq![TokenView::Text(")"@)],
        FilterView::Leaf(c) => condition_tokens(table, qualify, aliases, c, dialect),
    }
}

fn compare_str(op: CompareOp) -> (s: &'static str)
    ensures
        s@ == compare_text(op),
{
    match op {
        CompareOp::Eq => " = ",
        CompareOp::Ne => " <> ",
        CompareOp::Lt => " < ",
        CompareOp::Le => " <= ",
        CompareOp::Gt => " > ",
        CompareOp::Ge => " >= ",
    }
}

fn part_str(part: DatePart) -> (s: &'static str)
    ensures
        s@ == part_text(part),
{
    match part {
        DatePart::Year => "YEAR",
        DatePart::Month => "MONTH",
        DatePart::Day => "DAY",
        DatePart::Hour => "HOUR",
        DatePart::Minute => "MINUTE",
        DatePart::Second => "SECOND",
    }
}

fn part_format_str(part: DatePart) -> (s: &'static str)
    ensures
        s@ == part_format(part),
{
    match part {
        DatePart::Year => "%Y",
        DatePart::Month => "%m",
        DatePart::Day => "%d",
        DatePart::Hour => "%H",
        DatePart::Minute => "%M",
        DatePart::Second => "%S",
    }
}

/// Appends the tokens of a condition.
fn push_condition(
    out: &mut Vec<Token>,
    table: &Table,
    qualify: bool,
    aliases: &Vec<Aggregate>,
    c: &Condition,
    dialect: Dialect,
)
    ensures
        final(out).deep_view() == old(out).deep_view() + condition_tokens(
            table@,
            qualify,
            aliases.deep_view(),
            c@,
            dialect,
        ),
{
    match c {
        Condition::Compare(path, op, x) => {
            push_owned(out, column_name(table, qualify, aliases, path));
            push_text(out, compare_str(*op));
            push_param(out, Binding::compared(aliases, path, x));
        },
        Condition::MethodPredicate(path, method, x) => {
            push_owned(out, column_name(table, qualify, aliases, path));
            match method {
                MethodOp::Contains => {
                    push_text(out, " LIKE '%'||");
                    push_column_param(out, path, x);
                    push_text(out, "||'%'");
                },
                MethodOp::StartsWith => {
                    push_text(out, " LIKE ");
                    push_column_param(out, path, x);
                    push_text(out, "||'%'");
                },
                MethodOp::EndsWith => {
                    push_text(out, " LIKE '%'||");
                    push_column_param(out, path, x);
                },
                MethodOp::Regex => {
                    match dialect {
                        Dialect::Postgres => push_text(out, " ~ "),
                        Dialect::Sqlite => push_text(out, " REGEXP "),
                    }
                    push_column_param(out, path, x);
                },
                MethodOp::IRegex => {
                    match dialect {
                        Dialect::Postgres => {
                            push_text(out, " ~* ");
                            push_column_param(out, path, x);
                        },
                        Dialect::Sqlite => {
                            push_text(out, " LIKE ");
                            push_column_param(out, path, x);
                            push_text(out, " COLLATE NOCASE");
                        },
                    }
                },
            }
        },
        Condition::NullPredicate(path, test) => {
            push_owned(out, column_name(table, qualify, aliases, path));
            match test {
                NullOp::IsNone => push_text(out, " IS NULL"),
                NullOp::IsSome => push_text(out, " IS NOT NULL"),
            }
        },
        Condition::Length(path, op, x) => {
            push_text(out, "CHAR_LENGTH(");
            push_owned(out, column_name(table, qualify, aliases, path));
            push_text(out, ")");
            push_text(out, compare_str(*op));
            push_integer_param(out, Arg::Value(x.duplicate()));
        },
        Condition::DatetimePart(path, part, op, x) => {
            match dialect {
                Dialect::Postgres => {
                    push_text(out, "EXTRACT(");
                    push_text(out, part_str(*part));
                    push_text(out, " FROM ");
                },
                Dialect::Sqlite => {
                    push_text(out, "strftime('");
                    push_text(out, part_format_str(*part));
                    push_text(out, "', ");
                },
            }
            push_owned(out, column_name(table, qualify, aliases, path));
            push_text(out, ")");
            push_text(out, compare_str(*op));
            push_integer_param(out, Arg::Value(x.duplicate()));
        },
        Condition::Constant(b) => {
            if *b {
                push_text(out, "1 = 1");
            } else {
                push_text(out, "1 = 0");
            }
        },
    }
}

fn parenthesized(child: &Filter, under_and: bool) -> (r: bool)
    ensures
        r == needs_parens(child@, under_and),
{
    match child {
        Filter::And(_, _) => !under_and,
        Filter::Or(_, _) => under_and,
        _ => false,
    }
}

/// Appends the tokens of a filter, in parentheses if asked.
#[verifier::rlimit(50)]
fn push_wrapped(
    out: &mut Vec<Token>,
    table: &Table,
    qualify: bool,
    aliases: &Vec<Aggregate>,
    f: &Filter,
    parens: bool,
    dialect: Dialect,
)
    ensures
        final(out).deep_view() == old(out).deep_view() + wrapped(
            filter_tokens(table@, qualify, aliases.deep_view(), f@, dialect),
            parens,
        ),
    decreases f, 1nat,
{
    if parens {
        push_text(out, "(");
    }
    push_filter(out, table, qualify, aliases, f, dialect);
    if parens {
        push_text(out, ")");
    }
    assert(final(out).deep_view() =~= old(out).deep_view() + wrapped(
        filter_tokens(table@, qualify, aliases.deep_view(), f@, dialect),
        parens,
    ));
}

/// Appends the tokens of a filter.
#[verifier::rlimit(50)]
pub fn push_filter(
    out: &mut Vec<Token>,
    table: &Table,
    qualify: bool,
    aliases: &Vec<Aggregate>,
    f: &Filter,
    dialect: Dialect,
)
    ensures
        final(out).deep_view() == old(out).deep_view() + filter_tokens(
            table@,
            qualify,
            aliases.deep_view(),
            f@,
            dialect,
        ),
    decreases f, 0nat,
{
    let ghost base = out.deep_view();
    let ghost views = aliases.deep_view();
    match f {
        Filter::And(l, r) => {
            let ghost left = wrapped(
                filter_tokens(table@, qualify, views, l@, dialect),
                needs_parens(l@, true),
            );
            let ghost right = wrapped(
                filter_tokens(table@, qualify, views, r@, dialect),
                needs_parens(r@, true),
            );
            push_wrapped(out, table, qualify, aliases, l, parenthesized(l, true), dialect);
            push_text(out, " AND ");
            push_wrapped(out, table, qualify, aliases, r, parenthesized(r, true), dialect);
            assert(out.deep_view() =~= base + (left + seq![TokenView::Text(" AND "@)] + right));
        },
        Filter::Or(l, r) => {
            let ghost left = wrapped(
                filter_tokens(table@, qualify, views, l@, dialect),
                needs_parens(l@, false),
            );
            let ghost right = wrapped(
                filter_tokens(table@, qualify, views, r@, dialect),
                needs_parens(r@, false),
            );
            push_wrapped(out, table, qualify, aliases, l, parenthesized(l, false), dialect);
            push_text(out, " OR ");
            push_wrapped(out, table, qualify, aliases, r, parenthesized(r, false), dialect);
            assert(out.deep_view() =~= base + (left + seq![TokenView::Text(" OR "@)] + right));
        },
        Filter::Not(inner) => {
            let ghost middle = filter_tokens(table@, qualify, views, inner@, dialect);
            push_text(out, "NOT (");
            push_filter(out, table, qualify, aliases, inner, dialect);
            push_text(out, ")");
            assert(out.deep_view() =~= base + (seq![TokenView::Text("NOT ("@)] + middle
                + seq![TokenView::Text(")"@)]));
        },
        Filter::Leaf(c) => {
            push_condition(out, table, qualify, aliases, c, dialect);
        },
    }
}

/// Why no SQL can be generated for a query.
#[derive(Clone, Copy, Debug, PartialEq, Eq, Structural)]
pub enum GenerateError {
    /// The query's table is not registered.
    UnknownTable,
    /// A join names a field that does not refer to a registered table.
    UnresolvedJoin,
    /// The dialect has no operator for a match against a regular expression.
    UnsupportedRegex,
    /// A column of the table to create has a type that SQL has no name for.
    UnsupportedType,
}

/// The texts with the separator between them.
pub open spec fn joined(items: Seq<Seq<char>>, separator: Seq<char>) -> Seq<char>
    decreases items.len(),
{
    if items.len() == 0 {
        Seq::empty()
    } else if items.len() == 1 {
        items[0]
    } else {
        joined(items.drop_last(), separator) + separator + items.last()
    }
}

/// Builds the texts with the separator between them.
pub fn join_texts(items: &Vec<String>, separator: &str) -> (s: String)
    ensures
        s@ == joined(items.deep_view(), separator@),
{
    let mut s = String::new();
    let ghost views = items.deep_view();
    let mut i: usize = 0;
    while i < items.len()
        invariant
            i <= items@.len(),
            views == items.deep_view(),
            views.len() == items@.len(),
            s@ == joined(views.take(i as int), separator@),
        decreases items@.len() - i,
    {
        proof {
            assert(views.take(i + 1).drop_last() =~= views.take(i as int));
        }
        if i > 0 {
            s.append(separator);
        }
        s.append(items[i].as_str());
        i += 1;
    }
    assert(views.take(i as int) =~= views);
    s
}

/// The names of the table's columns, each with the table's name before it.
pub open spec fn qualified_names(table: TableView) -> Seq<Seq<char>> {
    Seq::new(table.fields.len(), |i: int| table.name + "."@ + table.fields[i].name)
}

/// The columns of the tables that the joins refer to, each with its
/// table's name, join after join.
pub open spec fn joined_columns(
    table: TableView,
    tables: Seq<TableView>,
    joins: Seq<FieldPathView>,
) -> Seq<Seq<char>>
    decreases joins.len(),
{
    if joins.len() == 0 {
        Seq::empty()
    } else {
        joined_columns(table, tables, joins.drop_last()) + match related_table(
            table,
            tables,
            joins.last().field,
        ) {
            Some(target) => qualified_names(target),
            None => Seq::empty(),
        }
    }
}

/// The columns that a selection gives: those of its table in the order of
/// declaration and, with joins, those of the joined tables after them, each
/// then with its table's name.
pub open spec fn selected_columns(
    table: TableView,
    tables: Seq<TableView>,
    joins: Seq<FieldPathView>,
) -> Seq<Seq<char>> {
    if joins.len() == 0 {
        field_names(table.fields)
    } else {
        qualified_names(table) + joined_columns(table, tables, joins)
    }
}

/// Whether each join names a field that refers to a registered table.
pub open spec fn joins_resolve(
    table: TableView,
    tables: Seq<TableView>,
    joins: Seq<FieldPathView>,
) -> bool {
    forall|i: int|
        0 <= i < joins.len() ==> related_table(table, tables, (#[trigger] joins[i]).field) is Some
}

/// The tokens of the joins.
pub open spec fn join_tokens(
    table: TableView,
    tables: Seq<TableView>,
    joins: Seq<FieldPathView>,
) -> Seq<TokenView>
    decreases joins.len(),
{
    if joins.len() == 0 {
        Seq::empty()
    } else {
        join_tokens(table, tables, joins.drop_last()) + match related_table(
            table,
            tables,
            joins.last().field,
        ) {
            Some(target) => seq![
                TokenView::Text(" JOIN "@),
                TokenView::Text(target.name),
                TokenView::Text(" ON "@),
                TokenView::Text(table.name + "."@ + joins.last().field),
                TokenView::Text(" = "@),
                TokenView::Text(target.name + ".id"@),
            ],
            None => Seq::empty(),
        }
    }
}

/// The tokens of the condition on the rows, if there is one.
pub open spec fn where_tokens(
    keyword: Seq<char>,
    table: TableView,
    qualify: bool,
    aliases: Seq<AggregateView>,
    filter: Option<FilterView>,
    dialect: Dialect,
) -> Seq<TokenView> {
    match filter {
        Some(f) => seq![TokenView::Text(keyword)] + filter_tokens(
            table,
            qualify,
            aliases,
            f,
            dialect,
        ),
        None => Seq::empty(),
    }
}

/// The SQL spelling of a direction, after a space.
pub open spec fn direction_text(direction: Direction) -> Seq<char> {
    match direction {
        Direction::Asc => " ASC"@,
        Direction::Desc => " DESC"@,
    }
}

/// The tokens of the sort.
pub open spec fn order_tokens(table: TableView, qualify: bool, order: Seq<OrderView>) -> Seq<
    TokenView,
>
    decreases order.len(),
{
    if order.len() == 0 {
        Seq::empty()
    } else {
        (if order.len() == 1 {
            seq![TokenView::Text(" ORDER BY "@)]
        } else {
            order_tokens(table, qualify, order.drop_last()) + seq![TokenView::Text(", "@)]
        }) + seq![
            TokenView::Text(column_text(table, qualify, Seq::empty(), order.last().field)),
            TokenView::Text(direction_text(order.last().direction)),
        ]
    }
}

/// The token of a bound of an index or of a range: the number itself for
/// an integer literal, a placeholder for anything else.
pub open spec fn bound_token(x: OperandView) -> TokenView {
    match x {
        OperandView::Literal(LiteralView::Int(i), _) => TokenView::Number(i as i128),
        _ => integer_param(ArgView::Value(x)),
    }
}

/// The token of the length of a range: the difference itself where both
/// bounds are integer literals, and else a placeholder for the difference.
pub open spec fn length_token(start: OperandView, end: OperandView) -> TokenView {
    match (start, end) {
        (
            OperandView::Literal(LiteralView::Int(i), _),
            OperandView::Literal(LiteralView::Int(j), _),
        ) => TokenView::Number((j - i) as i128),
        _ => integer_param(ArgView::Difference(end, start)),
    }
}

/// The tokens of an index or of a range.
pub open spec fn limit_tokens(limit: Option<LimitView>) -> Seq<TokenView> {
    match limit {
        None => Seq::empty(),
        Some(LimitView::Index(i)) => seq![TokenView::Text(" LIMIT 1 OFFSET "@), bound_token(i)],
        Some(LimitView::Range(start, end)) => seq![
            TokenView::Text(" LIMIT "@),
            length_token(start, end),
            TokenView::Text(" OFFSET "@),
            bound_token(start),
        ],
        Some(LimitView::StartRange(start)) => seq![
            TokenView::Text(" OFFSET "@),
            bound_token(start),
        ],
        Some(LimitView::EndRange(end)) => seq![TokenView::Text(" LIMIT "@), bound_token(end)],
    }
}

/// Whether the filter holds a match against a regular expression that
/// tells upper case from lower case.
pub open spec fn uses_regex(f: FilterView) -> bool
    decreases f,
{
    match f {
        FilterView::And(l, r) => uses_regex(*l) || uses_regex(*r),
        FilterView::Or(l, r) => uses_regex(*l) || uses_regex(*r),
        FilterView::Not(inner) => uses_regex(*inner),
        FilterView::Leaf(c) => c matches ConditionView::MethodPredicate(_, MethodOp::Regex, _),
    }
}

/// Whether the dialect lacks an operator that the filter needs.
pub open spec fn unsupported(filter: Option<FilterView>, dialect: Dialect) -> bool {
    match filter {
        Some(f) => dialect == Dialect::Sqlite && uses_regex(f),
        None => false,
    }
}

/// The tokens of a selection from `table`.
pub open spec fn select_tokens(
    s: SelectView,
    table: TableView,
    tables: Seq<TableView>,
    dialect: Dialect,
) -> Seq<TokenView> {
    let qualify = s.joins.len() > 0;
    seq![
        TokenView::Text("SELECT "@),
        TokenView::Text(joined(selected_columns(table, tables, s.joins), ", "@)),
        TokenView::Text(" FROM "@),
        TokenView::Text(table.name),
    ] + join_tokens(table, tables, s.joins) + where_tokens(
        " WHERE "@,
        table,
        qualify,
        Seq::empty(),
        s.filter,
        dialect,
    ) + order_tokens(table, qualify, s.order) + limit_tokens(s.limit)
}

/// The names of the fields that are given values.
pub open spec fn assigned_fields(assignments: Seq<AssignmentView>) -> Seq<Seq<char>> {
    Seq::new(assignments.len(), |i: int| assignments[i].field)
}

/// What the placeholder for the value given to a field binds.
pub open spec fn assignment_binding(a: AssignmentView) -> BindingView {
    BindingView { name: a.field, via: None, arg: ArgView::Value(a.value) }
}

/// The placeholder for the value given to a field.
pub open spec fn assignment_param(a: AssignmentView) -> TokenView {
    TokenView::Param(assignment_binding(a))
}

/// The placeholders of the values of an insertion, with commas between.
pub open spec fn value_tokens(assignments: Seq<AssignmentView>) -> Seq<TokenView>
    decreases assignments.len(),
{
    if assignments.len() == 0 {
        Seq::empty()
    } else {
        (if assignments.len() == 1 {
            Seq::<TokenView>::empty()
        } else {
            value_tokens(assignments.drop_last()) + seq![TokenView::Text(", "@)]
        }) + seq![assignment_param(assignments.last())]
    }
}

/// The assignments of an update, with commas between.
pub open spec fn set_tokens(assignments: Seq<AssignmentView>) -> Seq<TokenView>
    decreases assignments.len(),
{
    if assignments.len() == 0 {
        Seq::empty()
    } else {
        (if assignments.len() == 1 {
            Seq::<TokenView>::empty()
        } else {
            set_tokens(assignments.drop_last()) + seq![TokenView::Text(", "@)]
        }) + seq![
            TokenView::Text(assignments.last().field),
            TokenView::Text(" = "@),
            assignment_param(assignments.last()),
        ]
    }
}

/// The SQL name of a column type that is not optional, if it has one.
pub open spec fn base_type(t: TypeView, dialect: Dialect) -> Option<Seq<char>> {
    match dialect {
        Dialect::Postgres => match t {
            TypeView::Serial => Some("SERIAL PRIMARY KEY"@),
            TypeView::I32 => Some("INTEGER"@),
            TypeView::I64 => Some("BIGINT"@),
            TypeView::F32 => Some("REAL"@),
            TypeView::F64 => Some("DOUBLE PRECISION"@),
            TypeView::Bool => Some("BOOLEAN"@),
            TypeView::String => Some("CHARACTER VARYING"@),
            TypeView::ByteString => Some("BYTEA"@),
            TypeView::DateTime => Some("TIMESTAMP WITH TIME ZONE"@),
            TypeView::Date => Some("DATE"@),
            TypeView::Time => Some("TIME"@),
            TypeView::ForeignKey(table) => Some("INTEGER REFERENCES "@ + table + "(id)"@),
            TypeView::Custom(table) => Some("INTEGER REFERENCES "@ + table + "(id)"@),
            _ => None,
        },
        Dialect::Sqlite => match t {
            TypeView::Serial => Some("INTEGER PRIMARY KEY AUTOINCREMENT"@),
            TypeView::I32 => Some("INTEGER"@),
            TypeView::I64 => Some("INTEGER"@),
            TypeView::F32 => Some("REAL"@),
            TypeView::F64 => Some("REAL"@),
            TypeView::Bool => Some("INTEGER"@),
            TypeView::String => Some("TEXT"@),
            TypeView::ByteString => Some("BLOB"@),
            TypeView::DateTime => Some("TEXT"@),
            TypeView::Date => Some("TEXT"@),
            TypeView::Time => Some("TEXT"@),
            TypeView::ForeignKey(table) => Some("INTEGER REFERENCES "@ + table + "(id)"@),
            TypeView::Custom(table) => Some("INTEGER REFERENCES "@ + table + "(id)"@),
            _ => None,
        },
    }
}

/// The SQL type of a column, if it has one: an optional column may be
/// null, any other may not.
pub open spec fn column_type(t: TypeView, dialect: Dialect) -> Option<Seq<char>> {
    match t {
        TypeView::Optional(inner) => base_type(*inner, dialect),
        _ => match base_type(t, dialect) {
            Some(name) => Some(name + " NOT NULL"@),
            None => None,
        },
    }
}

/// Whether every field has an SQL type.
pub open spec fn all_typed(fields: Seq<FieldView>, dialect: Dialect) -> bool {
    forall|i: int| 0 <= i < fields.len() ==> column_type((#[trigger] fields[i]).typ, dialect) is Some
}

/// The definitions of the columns of a table to create.
pub open spec fn column_definitions(fields: Seq<FieldView>, dialect: Dialect) -> Seq<Seq<char>> {
    Seq::new(
        fields.len(),
        |i: int|
            fields[i].name + " "@ + match column_type(fields[i].typ, dialect) {
                Some(name) => name,
                None => Seq::empty(),
            },
    )
}

/// The item of an aggregate in the list of what is selected.
pub open spec fn aggregate_item(a: AggregateView) -> Seq<char> {
    match a.alias {
        Some(alias) => aggregate_text(a) + " AS "@ + alias,
        None => aggregate_text(a),
    }
}

/// The columns to group by.
pub open spec fn group_columns(table: TableView, groups: Seq<FieldPathView>) -> Seq<Seq<char>> {
    Seq::new(groups.len(), |i: int| column_text(table, false, Seq::empty(), groups[i]))
}

/// The items of the aggregates.
pub open spec fn aggregate_items(aggregates: Seq<AggregateView>) -> Seq<Seq<char>> {
    Seq::new(aggregates.len(), |i: int| aggregate_item(aggregates[i]))
}

/// The tokens of the grouping, if there is one.
pub open spec fn group_tokens(table: TableView, groups: Seq<FieldPathView>) -> Seq<TokenView> {
    if groups.len() == 0 {
        Seq::empty()
    } else {
        seq![
            TokenView::Text(" GROUP BY "@),
            TokenView::Text(joined(group_columns(table, groups), ", "@)),
        ]
    }
}

/// The tokens of an insertion into `table`.
pub open spec fn insert_tokens(table: TableView, assignments: Seq<AssignmentView>) -> Seq<
    TokenView,
> {
    seq![
        TokenView::Text("INSERT INTO "@),
        TokenView::Text(table.name),
        TokenView::Text("("@),
        TokenView::Text(joined(assigned_fields(assignments), ", "@)),
        TokenView::Text(") VALUES("@),
    ] + value_tokens(assignments) + seq![TokenView::Text(")"@)]
}

/// The tokens of an update of `table`.
pub open spec fn update_tokens(
    table: TableView,
    assignments: Seq<AssignmentView>,
    filter: Option<FilterView>,
    dialect: Dialect,
) -> Seq<TokenView> {
    seq![TokenView::Text("UPDATE "@), TokenView::Text(table.name), TokenView::Text(" SET "@)]
        + set_tokens(assignments) + where_tokens(
        " WHERE "@,
        table,
        false,
        Seq::empty(),
        filter,
        dialect,
    )
}

/// The tokens of a deletion from `table`.
pub open spec fn delete_tokens(table: TableView, filter: Option<FilterView>, dialect: Dialect) -> Seq<
    TokenView,
> {
    seq![TokenView::Text("DELETE FROM "@), TokenView::Text(table.name)] + where_tokens(
        " WHERE "@,
        table,
        false,
        Seq::empty(),
        filter,
        dialect,
    )
}

/// The tokens of the creation of `table`.
pub open spec fn create_tokens(table: TableView, dialect: Dialect) -> Seq<TokenView> {
    seq![
        TokenView::Text("CREATE TABLE "@),
        TokenView::Text(table.name),
        TokenView::Text(" ("@),
        TokenView::Text(joined(column_definitions(table.fields, dialect), ", "@)),
        TokenView::Text(")"@),
    ]
}

/// The tokens of the removal of `table`.
pub open spec fn drop_tokens(table: TableView) -> Seq<TokenView> {
    seq![TokenView::Text("DROP TABLE "@), TokenView::Text(table.name)]
}

/// The tokens of a selection of aggregates from `table`: the columns to
/// group by and the aggregates are selected; the filter is on the rows,
/// and `having` on the groups, where a name given to an aggregate stands
/// for the aggregate.
pub open spec fn aggregate_tokens(
    table: TableView,
    aggregates: Seq<AggregateView>,
    groups: Seq<FieldPathView>,
    filter: Option<FilterView>,
    having: Option<FilterView>,
    dialect: Dialect,
) -> Seq<TokenView> {
    seq![
        TokenView::Text("SELECT "@),
        TokenView::Text(joined(group_columns(table, groups) + aggregate_items(aggregates), ", "@)),
        TokenView::Text(" FROM "@),
        TokenView::Text(table.name),
    ] + where_tokens(" WHERE "@, table, false, Seq::empty(), filter, dialect) + group_tokens(
        table,
        groups,
    ) + where_tokens(" HAVING "@, table, false, aggregates, having, dialect)
}

/// The tokens of the statement for a query, or why there is none. A
/// query on a table that is not registered has none. Nor has a selection
/// with a join that does not resolve, a query whose filter the dialect
/// cannot express, or the creation of a table with a column that SQL has
/// no type for.
pub open spec fn statement(q: QueryView, tables: Seq<TableView>, dialect: Dialect) -> Result<
    Seq<TokenView>,
    GenerateError,
> {
    match find_table(tables, q.table().name) {
        None => Err(GenerateError::UnknownTable),
        Some(table) => match q {
            QueryView::Select(s) => if !joins_resolve(table, tables, s.joins) {
                Err(GenerateError::UnresolvedJoin)
            } else if unsupported(s.filter, dialect) {
                Err(GenerateError::UnsupportedRegex)
            } else {
                Ok(select_tokens(s, table, tables, dialect))
            },
            QueryView::Insert { table: _, assignments } => Ok(insert_tokens(table, assignments)),
            QueryView::Update { table: _, assignments, filter } => if unsupported(filter, dialect) {
                Err(GenerateError::UnsupportedRegex)
            } else {
                Ok(update_tokens(table, assignments, filter, dialect))
            },
            QueryView::Delete { table: _, filter } => if unsupported(filter, dialect) {
                Err(GenerateError::UnsupportedRegex)
            } else {
                Ok(delete_tokens(table, filter, dialect))
            },
            QueryView::CreateTable { table: _ } => if !all_typed(table.fields, dialect) {
                Err(GenerateError::UnsupportedType)
            } else {
                Ok(create_tokens(table, dialect))
            },
            QueryView::DropTable { table: _ } => Ok(drop_tokens(table)),
            QueryView::Aggregate { table: _, aggregates, groups, filter, having } => if unsupported(
                filter,
                dialect,
            ) || unsupported(having, dialect) {
                Err(GenerateError::UnsupportedRegex)
            } else {
                Ok(aggregate_tokens(table, aggregates, groups, filter, having, dialect))
            },
        },
    }
}

fn qualified_columns(table: &Table) -> (names: Vec<String>)
    ensures
        names.deep_view() == qualified_names(table@),
{
    let fields = table.fields();
    let mut names: Vec<String> = Vec::new();
    let mut i: usize = 0;
    while i < fields.len()
        invariant
            i <= fields@.len(),
            fields.deep_view() == table@.fields,
            names@.len() == i,
            forall|j: int|
                0 <= j < i ==> names@[j]@ == table@.name + "."@ + (#[trigger] fields@[j]).name@,
        decreases fields@.len() - i,
    {
        let mut name = table.name().clone();
        name.append(".");
        name.append(fields[i].name.as_str());
        names.push(name);
        i += 1;
    }
    assert(names.deep_view() =~= qualified_names(table@));
    names
}

fn append_texts(to: &mut Vec<String>, from: Vec<String>)
    ensures
        final(to).deep_view() == old(to).deep_view() + from.deep_view(),
{
    let mut from = from;
    to.append(&mut from);
}

fn select_columns(table: &Table, registry: &Registry, joins: &Vec<FieldPath>) -> (names: Vec<
    String,
>)
    ensures
        names.deep_view() == selected_columns(table@, registry@, joins.deep_view()),
{
    if joins.len() == 0 {
        return table.field_names();
    }
    let mut names = qualified_columns(table);
    let ghost own = names.deep_view();
    let ghost views = joins.deep_view();
    let mut i: usize = 0;
    while i < joins.len()
        invariant
            i <= joins@.len(),
            views == joins.deep_view(),
            views.len() == joins@.len(),
            names.deep_view() == own + joined_columns(table@, registry@, views.take(i as int)),
        decreases joins@.len() - i,
    {
        proof {
            assert(views.take(i + 1).drop_last() =~= views.take(i as int));
        }
        if let Some(target) = registry.related_table(table, joins[i].field.as_str()) {
            append_texts(&mut names, qualified_columns(target));
        }
        i += 1;
    }
    assert(views.take(i as int) =~= views);
    names
}

fn joins_ok(table: &Table, registry: &Registry, joins: &Vec<FieldPath>) -> (r: bool)
    ensures
        r == joins_resolve(table@, registry@, joins.deep_view()),
{
    let ghost views = joins.deep_view();
    let mut i: usize = 0;
    while i < joins.len()
        invariant
            i <= joins@.len(),
            views == joins.deep_view(),
            views.len() == joins@.len(),
            forall|j: int|
                0 <= j < i ==> related_table(table@, registry@, (#[trigger] views[j]).field) is Some,
        decreases joins@.len() - i,
    {
        assert(views[i as int] == joins@[i as int]@);
        if registry.related_table(table, joins[i].field.as_str()).is_none() {
            return false;
        }
        i += 1;
    }
    true
}

fn push_joins(out: &mut Vec<Token>, table: &Table, registry: &Registry, joins: &Vec<FieldPath>)
    ensures
        final(out).deep_view() == old(out).deep_view() + join_tokens(
            table@,
            registry@,
            joins.deep_view(),
        ),
{
    let ghost base = out.deep_view();
    let ghost views = joins.deep_view();
    let mut i: usize = 0;
    while i < joins.len()
        invariant
            i <= joins@.len(),
            views == joins.deep_view(),
            views.len() == joins@.len(),
            out.deep_view() == base + join_tokens(table@, registry@, views.take(i as int)),
        decreases joins@.len() - i,
    {
        proof {
            assert(views.take(i + 1).drop_last() =~= views.take(i as int));
        }
        if let Some(target) = registry.related_table(table, joins[i].field.as_str()) {
            push_text(out, " JOIN ");
            push_owned(out, target.name().clone());
            push_text(out, " ON ");
            let mut left = table.name().clone();
            left.append(".");
            left.append(joins[i].field.as_str());
            push_owned(out, left);
            push_text(out, " = ");
            let mut right = target.name().clone();
            right.append(".id");
            push_owned(out, right);
        }
        i += 1;
    }
    assert(views.take(i as int) =~= views);
}

fn push_where(
    out: &mut Vec<Token>,
    keyword: &str,
    table: &Table,
    qualify: bool,
    aliases: &Vec<Aggregate>,
    filter: &Option<Filter>,
    dialect: Dialect,
)
    ensures
        final(out).deep_view() == old(out).deep_view() + where_tokens(
            keyword@,
            table@,
            qualify,
            aliases.deep_view(),
            crate::query::option_filter_view(*filter),
            dialect,
        ),
{
    match filter {
        Some(f) => {
            push_text(out, keyword);
            push_filter(out, table, qualify, aliases, f, dialect);
        },
        None => {},
    }
}

#[verifier::rlimit(50)]
fn push_order(out: &mut Vec<Token>, table: &Table, qualify: bool, order: &Vec<Order>)
    ensures
        final(out).deep_view() == old(out).deep_view() + order_tokens(
            table@,
            qualify,
            order.deep_view(),
        ),
{
    let ghost base = out.deep_view();
    let ghost views = order.deep_view();
    let none: Vec<Aggregate> = Vec::new();
    let mut i: usize = 0;
    while i < order.len()
        invariant
            i <= order@.len(),
            views == order.deep_view(),
            views.len() == order@.len(),
            none.deep_view() == Seq::<AggregateView>::empty(),
            out.deep_view() == base + order_tokens(table@, qualify, views.take(i as int)),
        decreases order@.len() - i,
    {
        proof {
            assert(views.take(i + 1).drop_last() =~= views.take(i as int));
        }
        if i == 0 {
            push_text(out, " ORDER BY ");
        } else {
            push_text(out, ", ");
        }
        push_owned(out, column_name(table, qualify, &none, &order[i].field));
        match order[i].direction {
            Direction::Asc => push_text(out, " ASC"),
            Direction::Desc => push_text(out, " DESC"),
        }
        i += 1;
    }
    assert(views.take(i as int) =~= views);
}

fn push_bound(out: &mut Vec<Token>, x: &Operand)
    ensures
        final(out).deep_view() == old(out).deep_view().push(bound_token(x@)),
{
    match x {
        Operand::Literal(Literal::Int(i), _) => push_number(out, *i as i128),
        _ => push_integer_param(out, Arg::Value(x.duplicate())),
    }
}

fn push_length(out: &mut Vec<Token>, start: &Operand, end: &Operand)
    ensures
        final(out).deep_view() == old(out).deep_view().push(length_token(start@, end@)),
{
    match start {
        Operand::Literal(Literal::Int(i), _) => match end {
            Operand::Literal(Literal::Int(j), _) => {
                push_number(out, *j as i128 - *i as i128);
                return ;
            },
            _ => {},
        },
        _ => {},
    }
    push_integer_param(out, Arg::Difference(end.duplicate(), start.duplicate()));
}

fn push_limit(out: &mut Vec<Token>, limit: &Option<Limit>)
    ensures
        final(out).deep_view() == old(out).deep_view() + limit_tokens(
            crate::query::option_limit_view(*limit),
        ),
{
    match limit {
        None => {},
        Some(Limit::Index(i)) => {
            push_text(out, " LIMIT 1 OFFSET ");
            push_bound(out, i);
        },
        Some(Limit::Range(start, end)) => {
            push_text(out, " LIMIT ");
            push_length(out, start, end);
            push_text(out, " OFFSET ");
            push_bound(out, start);
        },
        Some(Limit::StartRange(start)) => {
            push_text(out, " OFFSET ");
            push_bound(out, start);
        },
        Some(Limit::EndRange(end)) => {
            push_text(out, " LIMIT ");
            push_bound(out, end);
        },
    }
}

fn has_regex(f: &Filter) -> (r: bool)
    ensures
        r == uses_regex(f@),
    decreases f,
{
    match f {
        Filter::And(l, r) => has_regex(l) || has_regex(r),
        Filter::Or(l, r) => has_regex(l) || has_regex(r),
        Filter::Not(inner) => has_regex(inner),
        Filter::Leaf(c) => match c {
            Condition::MethodPredicate(_, MethodOp::Regex, _) => true,
            _ => false,
        },
    }
}

fn is_unsupported(filter: &Option<Filter>, dialect: Dialect) -> (r: bool)
    ensures
        r == unsupported(crate::query::option_filter_view(*filter), dialect),
{
    match filter {
        Some(f) => match dialect {
            Dialect::Sqlite => has_regex(f),
            Dialect::Postgres => false,
        },
        None => false,
    }
}

/// What the placeholder for the value given to a field binds.
pub fn assignment_value(a: &Assignment) -> (b: Binding)
    ensures
        b@ == assignment_binding(a@),
{
    Binding { name: a.field.clone(), via: None, arg: Arg::Value(a.value.duplicate()) }
}

fn push_assignment_param(out: &mut Vec<Token>, a: &Assignment)
    ensures
        final(out).deep_view() == old(out).deep_view().push(assignment_param(a@)),
{
    out.push(Token::Param(assignment_value(a)));
}

fn push_values(out: &mut Vec<Token>, assignments: &Vec<Assignment>)
    ensures
        final(out).deep_view() == old(out).deep_view() + value_tokens(assignments.deep_view()),
{
    let ghost base = out.deep_view();
    let ghost views = assignments.deep_view();
    let mut i: usize = 0;
    while i < assignments.len()
        invariant
            i <= assignments@.len(),
            views == assignments.deep_view(),
            views.len() == assignments@.len(),
            out.deep_view() == base + value_tokens(views.take(i as int)),
        decreases assignments@.len() - i,
    {
        proof {
            assert(views.take(i + 1).drop_last() =~= views.take(i as int));
        }
        if i > 0 {
            push_text(out, ", ");
        }
        push_assignment_param(out, &assignments[i]);
        i += 1;
    }
    assert(views.take(i as int) =~= views);
}

fn push_sets(out: &mut Vec<Token>, assignments: &Vec<Assignment>)
    ensures
        final(out).deep_view() == old(out).deep_view() + set_tokens(assignments.deep_view()),
{
    let ghost base = out.deep_view();
    let ghost views = assignments.deep_view();
    let mut i: usize = 0;
    while i < assignments.len()
        invariant
            i <= assignments@.len(),
            views == assignments.deep_view(),
            views.len() == assignments@.len(),
            out.deep_view() == base + set_tokens(views.take(i as int)),
        decreases assignments@.len() - i,
    {
        proof {
            assert(views.take(i + 1).drop_last() =~= views.take(i as int));
        }
        if i > 0 {
            push_text(out, ", ");
        }
        push_owned(out, assignments[i].field.clone());
        push_text(out, " = ");
        push_assignment_param(out, &assignments[i]);
        i += 1;
    }
    assert(views.take(i as int) =~= views);
}

fn assigned_names(assignments: &Vec<Assignment>) -> (names: Vec<String>)
    ensures
        names.deep_view() == assigned_fields(assignments.deep_view()),
{
    let mut names: Vec<String> = Vec::new();
    let mut i: usize = 0;
    while i < assignments.len()
        invariant
            i <= assignments@.len(),
            names@.len() == i,
            forall|j: int| 0 <= j < i ==> names@[j]@ == (#[trigger] assignments@[j]).field@,
        decreases assignments@.len() - i,
    {
        names.push(assignments[i].field.clone());
        i += 1;
    }
    assert(names.deep_view() =~= assigned_fields(assignments.deep_view()));
    names
}

fn references(table: &String) -> (s: String)
    ensures
        s@ == "INTEGER REFERENCES "@ + table@ + "(id)"@,
{
    let mut s = "INTEGER REFERENCES ".to_owned();
    s.append(table.as_str());
    s.append("(id)");
    s
}

fn base_type_name(t: &Type, dialect: Dialect) -> (r: Option<String>)
    ensures
        r.deep_view() == base_type(t@, dialect),
{
    match dialect {
        Dialect::Postgres => match t {
            Type::Serial => Some("SERIAL PRIMARY KEY".to_owned()),
            Type::I32 => Some("INTEGER".to_owned()),
            Type::I64 => Some("BIGINT".to_owned()),
            Type::F32 => Some("REAL".to_owned()),
            Type::F64 => Some("DOUBLE PRECISION".to_owned()),
            Type::Bool => Some("BOOLEAN".to_owned()),
            Type::String => Some("CHARACTER VARYING".to_owned()),
            Type::ByteString => Some("BYTEA".to_owned()),
            Type::DateTime => Some("TIMESTAMP WITH TIME ZONE".to_owned()),
            Type::Date => Some("DATE".to_owned()),
            Type::Time => Some("TIME".to_owned()),
            Type::ForeignKey(table) => Some(references(table)),
            Type::Custom(table) => Some(references(table)),
            _ => None,
        },
        Dialect::Sqlite => match t {
            Type::Serial => Some("INTEGER PRIMARY KEY AUTOINCREMENT".to_owned()),
            Type::I32 => Some("INTEGER".to_owned()),
            Type::I64 => Some("INTEGER".to_owned()),
            Type::F32 => Some("REAL".to_owned()),
            Type::F64 => Some("REAL".to_owned()),
            Type::Bool => Some("INTEGER".to_owned()),
            Type::String => Some("TEXT".to_owned()),
            Type::ByteString => Some("BLOB".to_owned()),
            Type::DateTime => Some("TEXT".to_owned()),
            Type::Date => Some("TEXT".to_owned()),
            Type::Time => Some("TEXT".to_owned()),
            Type::ForeignKey(table) => Some(references(table)),
            Type::Custom(table) => Some(references(table)),
            _ => None,
        },
    }
}

fn column_type_name(t: &Type, dialect: Dialect) -> (r: Option<String>)
    ensures
        r.deep_view() == column_type(t@, dialect),
{
    match t {
        Type::Optional(inner) => base_type_name(inner, dialect),
        _ => match base_type_name(t, dialect) {
            Some(name) => {
                let mut name = name;
                name.append(" NOT NULL");
                Some(name)
            },
            None => None,
        },
    }
}

/// The definitions of the columns, or `None` if one of them has no type.
fn definitions(fields: &Vec<Field>, dialect: Dialect) -> (r: Option<Vec<String>>)
    ensures
        r is Some <==> all_typed(fields.deep_view(), dialect),
        r matches Some(d) ==> d.deep_view() == column_definitions(fields.deep_view(), dialect),
{
    let ghost views = fields.deep_view();
    let mut all: Vec<String> = Vec::new();
    let mut i: usize = 0;
    while i < fields.len()
        invariant
            i <= fields@.len(),
            views == fields.deep_view(),
            views.len() == fields@.len(),
            all@.len() == i,
            forall|j: int| 0 <= j < i ==> column_type((#[trigger] views[j]).typ, dialect) is Some,
            forall|j: int|
                0 <= j < i ==> (#[trigger] all@[j])@ == column_definitions(views, dialect)[j],
        decreases fields@.len() - i,
    {
        assert(views[i as int] == fields@[i as int]@);
        match column_type_name(&fields[i].typ, dialect) {
            Some(name) => {
                let mut definition = fields[i].name.clone();
                definition.append(" ");
                definition.append(name.as_str());
                all.push(definition);
            },
            None => {
                return None;
            },
        }
        i += 1;
    }
    Some(all)
}

fn group_names(table: &Table, groups: &Vec<FieldPath>) -> (names: Vec<String>)
    ensures
        names.deep_view() == group_columns(table@, groups.deep_view()),
{
    let none: Vec<Aggregate> = Vec::new();
    let ghost views = groups.deep_view();
    let mut names: Vec<String> = Vec::new();
    let mut i: usize = 0;
    while i < groups.len()
        invariant
            i <= groups@.len(),
            views == groups.deep_view(),
            views.len() == groups@.len(),
            none.deep_view() == Seq::<AggregateView>::empty(),
            names@.len() == i,
            forall|j: int|
                0 <= j < i ==> (#[trigger] names@[j])@ == group_columns(table@, views)[j],
        decreases groups@.len() - i,
    {
        names.push(column_name(table, false, &none, &groups[i]));
        i += 1;
    }
    names
}

fn aggregate_names(aggregates: &Vec<Aggregate>) -> (names: Vec<String>)
    ensures
        names.deep_view() == aggregate_items(aggregates.deep_view()),
{
    let ghost views = aggregates.deep_view();
    let mut names: Vec<String> = Vec::new();
    let mut i: usize = 0;
    while i < aggregates.len()
        invariant
            i <= aggregates@.len(),
            views == aggregates.deep_view(),
            views.len() == aggregates@.len(),
            names@.len() == i,
            forall|j: int| 0 <= j < i ==> (#[trigger] names@[j])@ == aggregate_items(views)[j],
        decreases aggregates@.len() - i,
    {
        let mut item = aggregate_expression(&aggregates[i]);
        if let Some(alias) = &aggregates[i].alias {
            item.append(" AS ");
            item.append(alias.as_str());
        }
        names.push(item);
        i += 1;
    }
    names
}

fn select_statement(s: &Select, table: &Table, registry: &Registry, dialect: Dialect) -> (out:
    Vec<Token>)
    ensures
        out.deep_view() == select_tokens(s@, table@, registry@, dialect),
{
    let none: Vec<Aggregate> = Vec::new();
    assert(none.deep_view() =~= Seq::empty());
    let mut out: Vec<Token> = Vec::new();
    let qualify = s.joins.len() > 0;
    push_text(&mut out, "SELECT ");
    push_owned(&mut out, join_texts(&select_columns(table, registry, &s.joins), ", "));
    push_text(&mut out, " FROM ");
    push_owned(&mut out, table.name().clone());
    push_joins(&mut out, table, registry, &s.joins);
    push_where(&mut out, " WHERE ", table, qualify, &none, &s.filter, dialect);
    push_order(&mut out, table, qualify, &s.order);
    push_limit(&mut out, &s.limit);
    out
}

fn insert_statement(table: &Table, assignments: &Vec<Assignment>) -> (out: Vec<Token>)
    ensures
        out.deep_view() == insert_tokens(table@, assignments.deep_view()),
{
    let mut out: Vec<Token> = Vec::new();
    push_text(&mut out, "INSERT INTO ");
    push_owned(&mut out, table.name().clone());
    push_text(&mut out, "(");
    push_owned(&mut out, join_texts(&assigned_names(assignments), ", "));
    push_text(&mut out, ") VALUES(");
    push_values(&mut out, assignments);
    push_text(&mut out, ")");
    out
}

fn update_statement(
    table: &Table,
    assignments: &Vec<Assignment>,
    filter: &Option<Filter>,
    dialect: Dialect,
) -> (out: Vec<Token>)
    ensures
        out.deep_view() == update_tokens(
            table@,
            assignments.deep_view(),
            crate::query::option_filter_view(*filter),
            dialect,
        ),
{
    let none: Vec<Aggregate> = Vec::new();
    assert(none.deep_view() =~= Seq::empty());
    let mut out: Vec<Token> = Vec::new();
    push_text(&mut out, "UPDATE ");
    push_owned(&mut out, table.name().clone());
    push_text(&mut out, " SET ");
    push_sets(&mut out, assignments);
    push_where(&mut out, " WHERE ", table, false, &none, filter, dialect);
    out
}

fn delete_statement(table: &Table, filter: &Option<Filter>, dialect: Dialect) -> (out: Vec<Token>)
    ensures
        out.deep_view() == delete_tokens(
            table@,
            crate::query::option_filter_view(*filter),
            dialect,
        ),
{
    let none: Vec<Aggregate> = Vec::new();
    assert(none.deep_view() =~= Seq::empty());
    let mut out: Vec<Token> = Vec::new();
    push_text(&mut out, "DELETE FROM ");
    push_owned(&mut out, table.name().clone());
    push_where(&mut out, " WHERE ", table, false, &none, filter, dialect);
    out
}

fn create_statement(table: &Table, dialect: Dialect) -> (r: Option<Vec<Token>>)
    ensures
        r is Some <==> all_typed(table@.fields, dialect),
        r matches Some(out) ==> out.deep_view() == create_tokens(table@, dialect),
{
    match definitions(table.fields(), dialect) {
        None => None,
        Some(columns) => {
            let mut out: Vec<Token> = Vec::new();
            push_text(&mut out, "CREATE TABLE ");
            push_owned(&mut out, table.name().clone());
            push_text(&mut out, " (");
            push_owned(&mut out, join_texts(&columns, ", "));
            push_text(&mut out, ")");
            Some(out)
        },
    }
}

fn drop_statement(table: &Table) -> (out: Vec<Token>)
    ensures
        out.deep_view() == drop_tokens(table@),
{
    let mut out: Vec<Token> = Vec::new();
    push_text(&mut out, "DROP TABLE ");
    push_owned(&mut out, table.name().clone());
    out
}

fn aggregate_statement(
    table: &Table,
    aggregates: &Vec<Aggregate>,
    groups: &Vec<FieldPath>,
    filter: &Option<Filter>,
    having: &Option<Filter>,
    dialect: Dialect,
) -> (out: Vec<Token>)
    ensures
        out.deep_view() == aggregate_tokens(
            table@,
            aggregates.deep_view(),
            groups.deep_view(),
            crate::query::option_filter_view(*filter),
            crate::query::option_filter_view(*having),
            dialect,
        ),
{
    let none: Vec<Aggregate> = Vec::new();
    assert(none.deep_view() =~= Seq::empty());
    let mut out: Vec<Token> = Vec::new();
    let mut items = group_names(table, groups);
    append_texts(&mut items, aggregate_names(aggregates));
    push_text(&mut out, "SELECT ");
    push_owned(&mut out, join_texts(&items, ", "));
    push_text(&mut out, " FROM ");
    push_owned(&mut out, table.name().clone());
    push_where(&mut out, " WHERE ", table, false, &none, filter, dialect);
    if groups.len() > 0 {
        push_text(&mut out, " GROUP BY ");
        push_owned(&mut out, join_texts(&group_names(table, groups), ", "));
    }
    push_where(&mut out, " HAVING ", table, false, aggregates, having, dialect);
    out
}

/// The tokens of the statement for a query, or why there is none.
pub fn query_tokens(query: &Query, registry: &Registry, dialect: Dialect) -> (r: Result<
    Vec<Token>,
    GenerateError,
>)
    ensures
        match statement(query@, registry@, dialect) {
            Ok(tokens) => r matches Ok(t) && t.deep_view() == tokens,
            Err(e) => r == Err::<Vec<Token>, GenerateError>(e),
        },
{
    let table = match registry.lookup(query.table().name.as_str()) {
        Some(table) => table,
        None => {
            return Err(GenerateError::UnknownTable);
        },
    };
    match query {
        Query::Select(s) => {
            if !joins_ok(table, registry, &s.joins) {
                Err(GenerateError::UnresolvedJoin)
            } else if is_unsupported(&s.filter, dialect) {
                Err(GenerateError::UnsupportedRegex)
            } else {
                Ok(select_statement(s, table, registry, dialect))
            }
        },
        Query::Insert { table: _, assignments } => Ok(insert_statement(table, assignments)),
        Query::Update { table: _, assignments, filter } => {
            if is_unsupported(filter, dialect) {
                Err(GenerateError::UnsupportedRegex)
            } else {
                Ok(update_statement(table, assignments, filter, dialect))
            }
        },
        Query::Delete { table: _, filter } => {
            if is_unsupported(filter, dialect) {
                Err(GenerateError::UnsupportedRegex)
            } else {
                Ok(delete_statement(table, filter, dialect))
            }
        },
        Query::CreateTable { table: _ } => match create_statement(table, dialect) {
            Some(out) => Ok(out),
            None => Err(GenerateError::UnsupportedType),
        },
        Query::DropTable { table: _ } => Ok(drop_statement(table)),
        Query::Aggregate { table: _, aggregates, groups, filter, having } => {
            if is_unsupported(filter, dialect) || is_unsupported(having, dialect) {
                Err(GenerateError::UnsupportedRegex)
            } else {
                Ok(aggregate_statement(table, aggregates, groups, filter, having, dialect))
            }
        },
    }
}

/// What is generated for a query: the SQL text, and what each of its
/// placeholders binds, in the order in which they stand in the text.
#[derive(Clone, Debug, PartialEq, Eq)]
pub struct Generated {
    pub sql: String,
    pub args: Vec<Binding>,
}

/// Whether `r` is what is generated for the query `q` on `tables` in the
/// dialect: the text of the query's statement with what its placeholders
/// bind, or the reason why the query has no statement.
pub open spec fn generates(
    q: QueryView,
    tables: Seq<TableView>,
    dialect: Dialect,
    r: Result<Generated, GenerateError>,
) -> bool {
    match statement(q, tables, dialect) {
        Ok(tokens) => r matches Ok(g) && g.sql@ == render(tokens, dialect) && g.args.deep_view()
            == bindings(tokens),
        Err(e) => r == Err::<Generated, GenerateError>(e),
    }
}

/// Generates the SQL for a query in the given dialect: the text of the
/// query's statement, and the arguments that its placeholders bind.
pub fn generate(query: &Query, registry: &Registry, dialect: Dialect) -> (r: Result<
    Generated,
    GenerateError,
>)
    ensures
        generates(query@, registry@, dialect, r),
{
    match query_tokens(query, registry, dialect) {
        Ok(tokens) => {
            let (sql, args) = render_tokens(&tokens, dialect);
            Ok(Generated { sql, args })
        },
        Err(e) => Err(e),
    }
}

} // verus!
