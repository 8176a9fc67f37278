//! The representation of a query between the parser and the generator.

use vstd::prelude::*;
use crate::error::Span;

verus! {

/// A comparison operator.
#[derive(Clone, Copy, Debug, PartialEq, Eq, Structural)]
pub enum CompareOp {
    Eq,
    Ne,
    Lt,
    Le,
    Gt,
    Ge,
}

/// A method on a text column that takes a text operand.
#[derive(Clone, Copy, Debug, PartialEq, Eq, Structural)]
pub enum MethodOp {
    Contains,
    StartsWith,
    EndsWith,
    Regex,
    IRegex,
}

/// A test of an optional column.
#[derive(Clone, Copy, Debug, PartialEq, Eq, Structural)]
pub enum NullOp {
    IsNone,
    IsSome,
}

/// A part of a date or of a time.
#[derive(Clone, Copy, Debug, PartialEq, Eq, Structural)]
pub enum DatePart {
    Year,
    Month,
    Day,
    Hour,
    Minute,
    Second,
}

/// The direction of a sort.
#[derive(Clone, Copy, Debug, PartialEq, Eq, Structural)]
pub enum Direction {
    Asc,
    Desc,
}

/// Whether a selection gives all the rows or a single one.
#[derive(Clone, Copy, Debug, PartialEq, Eq, Structural)]
pub enum GetMode {
    All,
    One,
}

/// An aggregate function.
#[derive(Clone, Copy, Debug, PartialEq, Eq, Structural)]
pub enum AggregateFn {
    Avg,
    Count,
    Max,
    Min,
    Sum,
}

/// A literal of the host language.
#[derive(Clone, Debug, PartialEq, Eq)]
pub enum Literal {
    Int(i64),
    Str(String),
    Bool(bool),
}

/// The mathematical content of a `Literal`.
pub enum LiteralView {
    Int(i64),
    Str(Seq<char>),
    Bool(bool),
}

impl View for Literal {
    type V = LiteralView;

    open spec fn view(&self) -> LiteralView {
        match self {
            Literal::Int(i) => LiteralView::Int(*i),
            Literal::Str(s) => LiteralView::Str(s@),
            Literal::Bool(b) => LiteralView::Bool(*b),
        }
    }
}

/// What a column is compared with: a literal, or an expression of the host
/// program, known by its place in the source.
#[derive(Clone, Debug, PartialEq, Eq)]
pub enum Operand {
    Literal(Literal, Span),
    HostExpr(Span),
}

/// The mathematical content of an `Operand`.
pub enum OperandView {
    Literal(LiteralView, Span),
    HostExpr(Span),
}

impl View for Operand {
    type V = OperandView;

    open spec fn view(&self) -> OperandView {
        match self {
            Operand::Literal(l, span) => OperandView::Literal(l@, *span),
            Operand::HostExpr(span) => OperandView::HostExpr(*span),
        }
    }
}

impl DeepView for Operand {
    type V = OperandView;

    open spec fn deep_view(&self) -> OperandView {
        self@
    }
}

impl OperandView {
    /// Where the operand stands in the source.
    pub open spec fn span(self) -> Span {
        match self {
            OperandView::Literal(_, span) => span,
            OperandView::HostExpr(span) => span,
        }
    }
}

impl Operand {
    /// Where the operand stands in the source.
    pub fn span(&self) -> (r: Span)
        ensures
            r == self@.span(),
    {
        match self {
            Operand::Literal(_, span) => *span,
            Operand::HostExpr(span) => *span,
        }
    }

    /// A copy of the operand.
    pub fn duplicate(&self) -> (r: Operand)
        ensures
            r@ == self@,
    {
        match self {
            Operand::Literal(l, span) => {
                let copy = match l {
                    Literal::Int(i) => Literal::Int(*i),
                    Literal::Str(s) => Literal::Str(s.clone()),
                    Literal::Bool(b) => Literal::Bool(*b),
                };
                Operand::Literal(copy, *span)
            },
            Operand::HostExpr(span) => Operand::HostExpr(*span),
        }
    }
}

/// The text of an optional name.
pub open spec fn name_view(name: Option<String>) -> Option<Seq<char>> {
    match name {
        Some(n) => Some(n@),
        None => None,
    }
}

/// A path to a column: a field of the query's table, or a field of the
/// table that a foreign key of the query's table refers to.
#[derive(Clone, Debug, PartialEq, Eq)]
pub struct FieldPath {
    pub field: String,
    pub related: Option<String>,
    pub span: Span,
}

/// The mathematical content of a `FieldPath`.
pub struct FieldPathView {
    pub field: Seq<char>,
    pub related: Option<Seq<char>>,
    pub span: Span,
}

impl View for FieldPath {
    type V = FieldPathView;

    open spec fn view(&self) -> FieldPathView {
        FieldPathView { field: self.field@, related: name_view(self.related), span: self.span }
    }
}

impl DeepView for FieldPath {
    type V = FieldPathView;

    open spec fn deep_view(&self) -> FieldPathView {
        self@
    }
}

/// A condition on a row.
#[derive(Clone, Debug, PartialEq, Eq)]
pub enum Condition {
    /// The comparison of a column with an operand.
    Compare(FieldPath, CompareOp, Operand),
    /// A method on a text column, with its operand.
    MethodPredicate(FieldPath, MethodOp, Operand),
    /// A test of an optional column.
    NullPredicate(FieldPath, NullOp),
    /// The comparison of the length of a text column with an operand.
    Length(FieldPath, CompareOp, Operand),
    /// The comparison of a part of a date or of a time with an operand.
    DatetimePart(FieldPath, DatePart, CompareOp, Operand),
    /// A condition that holds of every row, or of none.
    Constant(bool),
}

/// The mathematical content of a `Condition`.
pub enum ConditionView {
    Compare(FieldPathView, CompareOp, OperandView),
    MethodPredicate(FieldPathView, MethodOp, OperandView),
    NullPredicate(FieldPathView, NullOp),
    Length(FieldPathView, CompareOp, OperandView),
    DatetimePart(FieldPathView, DatePart, CompareOp, OperandView),
    Constant(bool),
}

impl View for Condition {
    type V = ConditionView;

    open spec fn view(&self) -> ConditionView {
        match self {
            Condition::Compare(p, op, x) => ConditionView::Compare(p@, *op, x@),
            Condition::MethodPredicate(p, m, x) => ConditionView::MethodPredicate(p@, *m, x@),
            Condition::NullPredicate(p, n) => ConditionView::NullPredicate(p@, *n),
            Condition::Length(p, op, x) => ConditionView::Length(p@, *op, x@),
            Condition::DatetimePart(p, part, op, x) => ConditionView::DatetimePart(
                p@,
                *part,
                *op,
                x@,
            ),
            Condition::Constant(b) => ConditionView::Constant(*b),
        }
    }
}

/// A boolean expression over conditions.
#[derive(Debug, PartialEq, Eq)]
pub enum Filter {
    And(Box<Filter>, Box<Filter>),
    Or(Box<Filter>, Box<Filter>),
    Not(Box<Filter>),
    Leaf(Condition),
}

/// The mathematical content of a `Filter`.
pub enum FilterView {
    And(Box<FilterView>, Box<FilterView>),
    Or(Box<FilterView>, Box<FilterView>),
    Not(Box<FilterView>),
    Leaf(ConditionView),
}

/// The content of a filter, by recursion on its shape.
pub open spec fn filter_view(f: Filter) -> FilterView
    decreases f,
{
    match f {
        Filter::And(l, r) => FilterView::And(Box::new(filter_view(*l)), Box::new(filter_view(*r))),
        Filter::Or(l, r) => FilterView::Or(Box::new(filter_view(*l)), Box::new(filter_view(*r))),
        Filter::Not(inner) => FilterView::Not(Box::new(filter_view(*inner))),
        Filter::Leaf(c) => FilterView::Leaf(c@),
    }
}

impl View for Filter {
    type V = FilterView;

    open spec fn view(&self) -> FilterView {
        filter_view(*self)
    }
}

/// The content of an optional filter.
pub open spec fn option_filter_view(f: Option<Filter>) -> Option<FilterView> {
    match f {
        Some(f) => Some(f@),
        None => None,
    }
}

/// A column to sort by, with the direction.
#[derive(Clone, Debug, PartialEq, Eq)]
pub struct Order {
    pub field: FieldPath,
    pub direction: Direction,
}

/// The mathematical content of an `Order`.
pub struct OrderView {
    pub field: FieldPathView,
    pub direction: Direction,
}

impl View for Order {
    type V = OrderView;

    open spec fn view(&self) -> OrderView {
        OrderView { field: self.field@, direction: self.direction }
    }
}

impl DeepView for Order {
    type V = OrderView;

    open spec fn deep_view(&self) -> OrderView {
        self@
    }
}

/// The rows to give of those selected, from an index or a range.
#[derive(Clone, Debug, PartialEq, Eq)]
pub enum Limit {
    /// `[i]`: the row at that position alone.
    Index(Operand),
    /// `[a..b]`: the rows from `a` up to `b`.
    Range(Operand, Operand),
    /// `[a..]`: the rows from `a` on.
    StartRange(Operand),
    /// `[..b]`: the rows up to `b`.
    EndRange(Operand),
}

/// The mathematical content of a `Limit`.
pub enum LimitView {
    Index(OperandView),
    Range(OperandView, OperandView),
    StartRange(OperandView),
    EndRange(OperandView),
}

impl View for Limit {
    type V = LimitView;

    open spec fn view(&self) -> LimitView {
        match self {
            Limit::Index(i) => LimitView::Index(i@),
            Limit::Range(a, b) => LimitView::Range(a@, b@),
            Limit::StartRange(a) => LimitView::StartRange(a@),
            Limit::EndRange(b) => LimitView::EndRange(b@),
        }
    }
}

/// The content of an optional limit.
pub open spec fn option_limit_view(l: Option<Limit>) -> Option<LimitView> {
    match l {
        Some(l) => Some(l@),
        None => None,
    }
}

/// The value given to a field by an insertion or an update.
#[derive(Clone, Debug, PartialEq, Eq)]
pub struct Assignment {
    pub field: String,
    pub value: Operand,
    pub span: Span,
}

/// The mathematical content of an `Assignment`.
pub struct AssignmentView {
    pub field: Seq<char>,
    pub value: OperandView,
    pub span: Span,
}

impl View for Assignment {
    type V = AssignmentView;

    open spec fn view(&self) -> AssignmentView {
        AssignmentView { field: self.field@, value: self.value@, span: self.span }
    }
}

impl DeepView for Assignment {
    type V = AssignmentView;

    open spec fn deep_view(&self) -> AssignmentView {
        self@
    }
}

/// An aggregate of a column, under a name of its own if it was given one.
#[derive(Clone, Debug, PartialEq, Eq)]
pub struct Aggregate {
    pub function: AggregateFn,
    pub field: String,
    pub alias: Option<String>,
    pub span: Span,
}

/// The mathematical content of an `Aggregate`.
pub struct AggregateView {
    pub function: AggregateFn,
    pub field: Seq<char>,
    pub alias: Option<Seq<char>>,
    pub span: Span,
}

impl View for Aggregate {
    type V = AggregateView;

    open spec fn view(&self) -> AggregateView {
        AggregateView {
            function: self.function,
            field: self.field@,
            alias: name_view(self.alias),
            span: self.span,
        }
    }
}

impl DeepView for Aggregate {
    type V = AggregateView;

    open spec fn deep_view(&self) -> AggregateView {
        self@
    }
}

/// The table that a query is about, with the place at which it is named.
#[derive(Clone, Debug, PartialEq, Eq)]
pub struct TableRef {
    pub name: String,
    pub span: Span,
}

/// The mathematical content of a `TableRef`.
pub struct TableRefView {
    pub name: Seq<char>,
    pub span: Span,
}

impl View for TableRef {
    type V = TableRefView;

    open spec fn view(&self) -> TableRefView {
        TableRefView { name: self.name@, span: self.span }
    }
}

/// A selection of rows.
#[derive(Debug, PartialEq, Eq)]
pub struct Select {
    pub table: TableRef,
    pub filter: Option<Filter>,
    pub joins: Vec<FieldPath>,
    pub order: Vec<Order>,
    pub limit: Option<Limit>,
    pub get_mode: GetMode,
}

/// The mathematical content of a `Select`.
pub struct SelectView {
    pub table: TableRefView,
    pub filter: Option<FilterView>,
    pub joins: Seq<FieldPathView>,
    pub order: Seq<OrderView>,
    pub limit: Option<LimitView>,
    pub get_mode: GetMode,
}

impl View for Select {
    type V = SelectView;

    open spec fn view(&self) -> SelectView {
        SelectView {
            table: self.table@,
            filter: option_filter_view(self.filter),
            joins: self.joins.deep_view(),
            order: self.order.deep_view(),
            limit: option_limit_view(self.limit),
            get_mode: self.get_mode,
        }
    }
}

/// A query.
#[derive(Debug, PartialEq, Eq)]
pub enum Query {
    Select(Select),
    Insert { table: TableRef, assignments: Vec<Assignment> },
    Update { table: TableRef, assignments: Vec<Assignment>, filter: Option<Filter> },
    Delete { table: TableRef, filter: Option<Filter> },
    CreateTable { table: TableRef },
    DropTable { table: TableRef },
    Aggregate {
        table: TableRef,
        aggregates: Vec<Aggregate>,
        groups: Vec<FieldPath>,
        filter: Option<Filter>,
        having: Option<Filter>,
    },
}

/// The mathematical content of a `Query`.
pub enum QueryView {
    Select(SelectView),
    Insert { table: TableRefView, assignments: Seq<AssignmentView> },
    Update { table: TableRefView, assignments: Seq<AssignmentView>, filter: Option<FilterView> },
    Delete { table: TableRefView, filter: Option<FilterView> },
    CreateTable { table: TableRefView },
    DropTable { table: TableRefView },
    Aggregate {
        table: TableRefView,
        aggregates: Seq<AggregateView>,
        groups: Seq<FieldPathView>,
        filter: Option<FilterView>,
        having: Option<FilterView>,
    },
}

impl View for Query {
    type V = QueryView;

    open spec fn view(&self) -> QueryView {
        match self {
            Query::Select(s) => QueryView::Select(s@),
            Query::Insert { table, assignments } => QueryView::Insert {
                table: table@,
                assignments: assignments.deep_view(),
            },
            Query::Update { table, assignments, filter } => QueryView::Update {
                table: table@,
                assignments: assignments.deep_view(),
                filter: option_filter_view(*filter),
            },
            Query::Delete { table, filter } => QueryView::Delete {
                table: table@,
                filter: option_filter_view(*filter),
            },
            Query::CreateTable { table } => QueryView::CreateTable { table: table@ },
            Query::DropTable { table } => QueryView::DropTable { table: table@ },
            Query::Aggregate { table, aggregates, groups, filter, having } => QueryView::Aggregate {
                table: table@,
                aggregates: aggregates.deep_view(),
                groups: groups.deep_view(),
                filter: option_filter_view(*filter),
                having: option_filter_view(*having),
            },
        }
    }
}

impl QueryView {
    /// The table that the query is about.
    pub open spec fn table(self) -> TableRefView {
        match self {
            QueryView::Select(s) => s.table,
            QueryView::Insert { table, .. } => table,
            QueryView::Update { table, .. } => table,
            QueryView::Delete { table, .. } => table,
            QueryView::CreateTable { table } => table,
            QueryView::DropTable { table } => table,
            QueryView::Aggregate { table, .. } => table,
        }
    }
}

impl Query {
    /// The table that the query is about.
    pub fn table(&self) -> (r: &TableRef)
        ensures
            r@ == self@.table(),
    {
        match self {
            Query::Select(s) => &s.table,
            Query::Insert { table, .. } => table,
            Query::Update { table, .. } => table,
            Query::Delete { table, .. } => table,
            Query::CreateTable { table } => table,
            Query::DropTable { table } => table,
            Query::Aggregate { table, .. } => table,
        }
    }
}

} // verus!
