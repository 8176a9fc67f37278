//! The query parser: a host expression of the shape
//! `Table.method(args).method(args)[index]` becomes a query.

use vstd::prelude::*;
use vstd::string::*;
use crate::ast::{lemma_argument_views, node_view, span_of, BinaryOp, Node, NodeView, UnaryOp};
use crate::error::{Diagnostic, Error, ErrorType, Span};
use crate::error::SqlResult;
use crate::query::{
    Aggregate, AggregateFn, AggregateView, Assignment, AssignmentView, CompareOp, Condition,
    ConditionView, DatePart, Direction, FieldPath, FieldPathView, Filter, FilterView, GetMode,
    Limit, LimitView, Literal, LiteralView, MethodOp, NullOp, Operand, OperandView, Order,
    OrderView, Query, QueryView, Select, SelectView, TableRef, TableRefView,
};
use crate::string::text_eq;

verus! {

/// The operand that an expression stands for: a literal for a literal, also
/// with a minus sign or in parentheses, and a host expression for anything
/// else.
pub open spec fn operand_of(node: NodeView) -> OperandView
    decreases node,
{
    match node {
        NodeView::IntLit(i, span) => OperandView::Literal(LiteralView::Int(i), span),
        NodeView::StrLit(s, span) => OperandView::Literal(LiteralView::Str(s), span),
        NodeView::BoolLit(b, span) => OperandView::Literal(LiteralView::Bool(b), span),
        NodeView::UnaryOp(UnaryOp::Neg, inner, span) => match *inner {
            NodeView::IntLit(i, _) => if i > i64::MIN {
                OperandView::Literal(LiteralView::Int((-i) as i64), span)
            } else {
                OperandView::HostExpr(span)
            },
            _ => OperandView::HostExpr(span),
        },
        NodeView::Paren(inner) => operand_of(*inner),
        _ => OperandView::HostExpr(span_of(node)),
    }
}

/// Reads an expression as an operand.
pub fn operand(node: &Node) -> (r: Operand)
    ensures
        r@ == operand_of(node@),
    decreases node,
{
    proof {
        reveal_with_fuel(node_view, 2);
    }
    match node {
        Node::IntLit(i, span) => Operand::Literal(Literal::Int(*i), *span),
        Node::StrLit(s, span) => Operand::Literal(Literal::Str(s.clone()), *span),
        Node::BoolLit(b, span) => Operand::Literal(Literal::Bool(*b), *span),
        Node::UnaryOp(UnaryOp::Neg, inner, span) => match &**inner {
            Node::IntLit(i, _) => {
                if *i > i64::MIN {
                    Operand::Literal(Literal::Int(-*i), *span)
                } else {
                    Operand::HostExpr(*span)
                }
            },
            _ => Operand::HostExpr(*span),
        },
        Node::Paren(inner) => operand(inner),
        _ => Operand::HostExpr(node.span()),
    }
}

/// The path that an expression stands for: a name is a field of the
/// query's table, and `name.other` a field of the table that `name` refers
/// to.
pub open spec fn path_of(node: NodeView) -> Option<FieldPathView>
    decreases node,
{
    match node {
        NodeView::Ident(name, span) => Some(FieldPathView { field: name, related: None, span }),
        NodeView::Field(receiver, name, span) => match *receiver {
            NodeView::Ident(base, _) => Some(
                FieldPathView { field: base, related: Some(name), span },
            ),
            _ => None,
        },
        NodeView::Paren(inner) => path_of(*inner),
        _ => None,
    }
}

/// Reads an expression as a path.
pub fn path(node: &Node) -> (r: Option<FieldPath>)
    ensures
        r.deep_view() == path_of(node@),
    decreases node,
{
    proof {
        reveal_with_fuel(node_view, 2);
    }
    match node {
        Node::Ident(name, span) => Some(
            FieldPath { field: name.clone(), related: None, span: *span },
        ),
        Node::Field(receiver, name, span) => match &**receiver {
            Node::Ident(base, _) => Some(
                FieldPath { field: base.clone(), related: Some(name.clone()), span: *span },
            ),
            _ => None,
        },
        Node::Paren(inner) => path(inner),
        _ => None,
    }
}

/// The part of a date or of a time that a method gives.
pub open spec fn part_of(name: Seq<char>) -> Option<DatePart> {
    if name == "year"@ {
        Some(DatePart::Year)
    } else if name == "month"@ {
        Some(DatePart::Month)
    } else if name == "day"@ {
        Some(DatePart::Day)
    } else if name == "hour"@ {
        Some(DatePart::Hour)
    } else if name == "minute"@ {
        Some(DatePart::Minute)
    } else if name == "second"@ {
        Some(DatePart::Second)
    } else {
        None
    }
}

fn part(name: &str) -> (r: Option<DatePart>)
    ensures
        r == part_of(name@),
{
    if text_eq(name, "year") {
        Some(DatePart::Year)
    } else if text_eq(name, "month") {
        Some(DatePart::Month)
    } else if text_eq(name, "day") {
        Some(DatePart::Day)
    } else if text_eq(name, "hour") {
        Some(DatePart::Hour)
    } else if text_eq(name, "minute") {
        Some(DatePart::Minute)
    } else if text_eq(name, "second") {
        Some(DatePart::Second)
    } else {
        None
    }
}

/// The method on a text column of that name.
pub open spec fn method_of(name: Seq<char>) -> Option<MethodOp> {
    if name == "contains"@ {
        Some(MethodOp::Contains)
    } else if name == "starts_with"@ {
        Some(MethodOp::StartsWith)
    } else if name == "ends_with"@ {
        Some(MethodOp::EndsWith)
    } else if name == "regex"@ {
        Some(MethodOp::Regex)
    } else if name == "iregex"@ {
        Some(MethodOp::IRegex)
    } else {
        None
    }
}

fn method(name: &str) -> (r: Option<MethodOp>)
    ensures
        r == method_of(name@),
{
    if text_eq(name, "contains") {
        Some(MethodOp::Contains)
    } else if text_eq(name, "starts_with") {
        Some(MethodOp::StartsWith)
    } else if text_eq(name, "ends_with") {
        Some(MethodOp::EndsWith)
    } else if text_eq(name, "regex") {
        Some(MethodOp::Regex)
    } else if text_eq(name, "iregex") {
        Some(MethodOp::IRegex)
    } else {
        None
    }
}

/// The test of an optional column of that name.
pub open spec fn null_of(name: Seq<char>) -> Option<NullOp> {
    if name == "is_none"@ {
        Some(NullOp::IsNone)
    } else if name == "is_some"@ {
        Some(NullOp::IsSome)
    } else {
        None
    }
}

fn null_test(name: &str) -> (r: Option<NullOp>)
    ensures
        r == null_of(name@),
{
    if text_eq(name, "is_none") {
        Some(NullOp::IsNone)
    } else if text_eq(name, "is_some") {
        Some(NullOp::IsSome)
    } else {
        None
    }
}

/// What stands on the column's side of a comparison: a column, the length
/// of a text column, or a part of a date or of a time.
#[derive(Clone, Debug, PartialEq, Eq)]
pub enum Subject {
    Column(FieldPath),
    Length(FieldPath),
    Part(FieldPath, DatePart),
}

/// The mathematical content of a `Subject`.
pub enum SubjectView {
    Column(FieldPathView),
    Length(FieldPathView),
    Part(FieldPathView, DatePart),
}

impl View for Subject {
    type V = SubjectView;

    open spec fn view(&self) -> SubjectView {
        match self {
            Subject::Column(p) => SubjectView::Column(p@),
            Subject::Length(p) => SubjectView::Length(p@),
            Subject::Part(p, part) => SubjectView::Part(p@, *part),
        }
    }
}

impl DeepView for Subject {
    type V = SubjectView;

    open spec fn deep_view(&self) -> SubjectView {
        self@
    }
}

/// What an expression stands for on the column's side of a comparison:
/// `path.len()` is a length, `path.year()` and the like are parts, and a
/// path is a column. Any other expression is no column's side.
pub open spec fn subject_of(node: NodeView) -> Option<SubjectView>
    decreases node,
{
    match node {
        NodeView::MethodCall(receiver, name, args, _) => if args.len() == 0 {
            match path_of(*receiver) {
                Some(p) => if name == "len"@ {
                    Some(SubjectView::Length(p))
                } else {
                    match part_of(name) {
                        Some(part) => Some(SubjectView::Part(p, part)),
                        None => None,
                    }
                },
                None => None,
            }
        } else {
            None
        },
        NodeView::Paren(inner) => subject_of(*inner),
        NodeView::Ident(_, _) => match path_of(node) {
            Some(p) => Some(SubjectView::Column(p)),
            None => None,
        },
        NodeView::Field(_, _, _) => match path_of(node) {
            Some(p) => Some(SubjectView::Column(p)),
            None => None,
        },
        _ => None,
    }
}

/// Reads an expression as the column's side of a comparison.
pub fn subject(node: &Node) -> (r: Option<Subject>)
    ensures
        r.deep_view() == subject_of(node@),
    decreases node,
{
    match node {
        Node::MethodCall(receiver, name, args, _) => {
            if args.len() == 0 {
                match path(receiver) {
                    Some(p) => {
                        if text_eq(name.as_str(), "len") {
                            Some(Subject::Length(p))
                        } else {
                            match part(name.as_str()) {
                                Some(part) => Some(Subject::Part(p, part)),
                                None => None,
                            }
                        }
                    },
                    None => None,
                }
            } else {
                None
            }
        },
        Node::Paren(inner) => subject(inner),
        Node::Ident(_, _) => match path(node) {
            Some(p) => Some(Subject::Column(p)),
            None => None,
        },
        Node::Field(_, _, _) => match path(node) {
            Some(p) => Some(Subject::Column(p)),
            None => None,
        },
        _ => None,
    }
}

/// The comparison that a binary operator stands for.
pub open spec fn comparison_of(op: BinaryOp) -> Option<CompareOp> {
    match op {
        BinaryOp::Eq => Some(CompareOp::Eq),
        BinaryOp::Ne => Some(CompareOp::Ne),
        BinaryOp::Lt => Some(CompareOp::Lt),
        BinaryOp::Le => Some(CompareOp::Le),
        BinaryOp::Gt => Some(CompareOp::Gt),
        BinaryOp::Ge => Some(CompareOp::Ge),
        _ => None,
    }
}

fn comparison(op: BinaryOp) -> (r: Option<CompareOp>)
    ensures
        r == comparison_of(op),
{
    match op {
        BinaryOp::Eq => Some(CompareOp::Eq),
        BinaryOp::Ne => Some(CompareOp::Ne),
        BinaryOp::Lt => Some(CompareOp::Lt),
        BinaryOp::Le => Some(CompareOp::Le),
        BinaryOp::Gt => Some(CompareOp::Gt),
        BinaryOp::Ge => Some(CompareOp::Ge),
        _ => None,
    }
}

/// The comparison with its sides exchanged.
pub open spec fn flipped(op: CompareOp) -> CompareOp {
    match op {
        CompareOp::Eq => CompareOp::Eq,
        CompareOp::Ne => CompareOp::Ne,
        CompareOp::Lt => CompareOp::Gt,
        CompareOp::Le => CompareOp::Ge,
        CompareOp::Gt => CompareOp::Lt,
        CompareOp::Ge => CompareOp::Le,
    }
}

fn flip(op: CompareOp) -> (r: CompareOp)
    ensures
        r == flipped(op),
{
    match op {
        CompareOp::Eq => CompareOp::Eq,
        CompareOp::Ne => CompareOp::Ne,
        CompareOp::Lt => CompareOp::Gt,
        CompareOp::Le => CompareOp::Ge,
        CompareOp::Gt => CompareOp::Lt,
        CompareOp::Ge => CompareOp::Le,
    }
}

/// The condition that compares a subject with an operand.
pub open spec fn comparison_condition(s: SubjectView, op: CompareOp, x: OperandView) -> ConditionView {
    match s {
        SubjectView::Column(p) => ConditionView::Compare(p, op, x),
        SubjectView::Length(p) => ConditionView::Length(p, op, x),
        SubjectView::Part(p, part) => ConditionView::DatetimePart(p, part, op, x),
    }
}

fn compare_with(s: Subject, op: CompareOp, x: Operand) -> (c: Condition)
    ensures
        c@ == comparison_condition(s@, op, x@),
{
    match s {
        Subject::Column(p) => Condition::Compare(p, op, x),
        Subject::Length(p) => Condition::Length(p, op, x),
        Subject::Part(p, part) => Condition::DatetimePart(p, part, op, x),
    }
}

/// A single error.
pub open spec fn failure(message: Seq<char>, position: Span) -> Seq<Diagnostic> {
    seq![Diagnostic { code: None, kind: ErrorType::Error, message, position }]
}

/// The error for an expression that is no part of a query.
pub open spec fn parse_failure(position: Span) -> Seq<Diagnostic> {
    failure("failed to parse expression"@, position)
}

/// The message for a method that queries do not have.
pub open spec fn no_such_method_message(name: Seq<char>) -> Seq<char> {
    "no method named `"@ + name + "` found in tql"@
}

/// The error for a method that queries do not have.
pub open spec fn no_such_method(name: Seq<char>, position: Span) -> Seq<Diagnostic> {
    failure(no_such_method_message(name), position)
}

fn fail(message: String, position: Span) -> (errors: Vec<Error>)
    ensures
        errors.deep_view() == failure(message@, position),
{
    let mut errors: Vec<Error> = Vec::new();
    errors.push(Error::new(message, position));
    errors
}

fn fail_to_parse(position: Span) -> (errors: Vec<Error>)
    ensures
        errors.deep_view() == parse_failure(position),
{
    fail("failed to parse expression".to_owned(), position)
}

fn fail_on_method(name: &str, position: Span) -> (errors: Vec<Error>)
    ensures
        errors.deep_view() == no_such_method(name@, position),
{
    let mut message = "no method named `".to_owned();
    message.append(name);
    message.append("` found in tql");
    fail(message, position)
}

/// The two results together, or the errors of both.
pub open spec fn both<A, B>(
    l: Result<A, Seq<Diagnostic>>,
    r: Result<B, Seq<Diagnostic>>,
) -> Result<(A, B), Seq<Diagnostic>> {
    match l {
        Ok(a) => match r {
            Ok(b) => Ok((a, b)),
            Err(d) => Err(d),
        },
        Err(d) => match r {
            Ok(_) => Err(d),
            Err(e) => Err(d + e),
        },
    }
}

/// The condition that a comparison stands for: the column's side is the
/// left one if it can be, and else the right one, with the comparison
/// exchanged.
pub open spec fn parsed_comparison(op: CompareOp, lhs: NodeView, rhs: NodeView, span: Span) -> Result<
    FilterView,
    Seq<Diagnostic>,
> {
    match subject_of(lhs) {
        Some(s) => Ok(FilterView::Leaf(comparison_condition(s, op, operand_of(rhs)))),
        None => match subject_of(rhs) {
            Some(s) => Ok(FilterView::Leaf(comparison_condition(s, flipped(op), operand_of(lhs)))),
            None => Err(parse_failure(span)),
        },
    }
}

/// The condition that a method call stands for: a method on a text
/// column with its operand, or a test of an optional column.
pub open spec fn parsed_predicate(receiver: NodeView, name: Seq<char>, args: Seq<NodeView>, span: Span) -> Result<
    FilterView,
    Seq<Diagnostic>,
> {
    match path_of(receiver) {
        None => Err(parse_failure(span)),
        Some(p) => match method_of(name) {
            Some(m) => if args.len() == 1 {
                Ok(FilterView::Leaf(ConditionView::MethodPredicate(p, m, operand_of(args[0]))))
            } else {
                Err(parse_failure(span))
            },
            None => match null_of(name) {
                Some(n) => if args.len() == 0 {
                    Ok(FilterView::Leaf(ConditionView::NullPredicate(p, n)))
                } else {
                    Err(parse_failure(span))
                },
                None => Err(no_such_method(name, span)),
            },
        },
    }
}

/// The filter that an expression stands for, or the errors for the parts
/// of it that are no conditions. Parentheses only group.
pub open spec fn parsed_filter(node: NodeView) -> Result<FilterView, Seq<Diagnostic>>
    decreases node,
{
    match node {
        NodeView::Paren(inner) => parsed_filter(*inner),
        NodeView::BinOp(op, lhs, rhs, span) => match op {
            BinaryOp::And => match both(parsed_filter(*lhs), parsed_filter(*rhs)) {
                Ok((l, r)) => Ok(FilterView::And(Box::new(l), Box::new(r))),
                Err(d) => Err(d),
            },
            BinaryOp::Or => match both(parsed_filter(*lhs), parsed_filter(*rhs)) {
                Ok((l, r)) => Ok(FilterView::Or(Box::new(l), Box::new(r))),
                Err(d) => Err(d),
            },
            _ => match comparison_of(op) {
                Some(c) => parsed_comparison(c, *lhs, *rhs, span),
                None => Err(parse_failure(span)),
            },
        },
        NodeView::UnaryOp(UnaryOp::Not, inner, _) => match parsed_filter(*inner) {
            Ok(f) => Ok(FilterView::Not(Box::new(f))),
            Err(d) => Err(d),
        },
        NodeView::MethodCall(receiver, name, args, span) => parsed_predicate(
            *receiver,
            name,
            args,
            span,
        ),
        NodeView::BoolLit(b, _) => Ok(FilterView::Leaf(ConditionView::Constant(b))),
        _ => Err(parse_failure(span_of(node))),
    }
}

/// The content of the result of parsing a filter.
pub open spec fn filter_result(r: Result<Filter, Vec<Error>>) -> Result<FilterView, Seq<Diagnostic>> {
    match r {
        Ok(f) => Ok(f@),
        Err(e) => Err(e.deep_view()),
    }
}

fn parse_comparison(op: CompareOp, lhs: &Node, rhs: &Node, span: Span) -> (r: Result<
    Filter,
    Vec<Error>,
>)
    ensures
        filter_result(r) == parsed_comparison(op, lhs@, rhs@, span),
{
    match subject(lhs) {
        Some(s) => Ok(Filter::Leaf(compare_with(s, op, operand(rhs)))),
        None => match subject(rhs) {
            Some(s) => Ok(Filter::Leaf(compare_with(s, flip(op), operand(lhs)))),
            None => Err(fail_to_parse(span)),
        },
    }
}

fn parse_predicate(receiver: &Node, name: &str, args: &Vec<Node>, span: Span) -> (r: Result<
    Filter,
    Vec<Error>,
>)
    ensures
        filter_result(r) == parsed_predicate(receiver@, name@, args.deep_view(), span),
{
    match path(receiver) {
        None => Err(fail_to_parse(span)),
        Some(p) => match method(name) {
            Some(m) => {
                if args.len() == 1 {
                    Ok(Filter::Leaf(Condition::MethodPredicate(p, m, operand(&args[0]))))
                } else {
                    Err(fail_to_parse(span))
                }
            },
            None => match null_test(name) {
                Some(n) => {
                    if args.len() == 0 {
                        Ok(Filter::Leaf(Condition::NullPredicate(p, n)))
                    } else {
                        Err(fail_to_parse(span))
                    }
                },
                None => Err(fail_on_method(name, span)),
            },
        },
    }
}

/// The two results together, or the errors of both.
fn join_results(l: Result<Filter, Vec<Error>>, r: Result<Filter, Vec<Error>>) -> (j: Result<
    (Filter, Filter),
    Vec<Error>,
>)
    ensures
        match both(filter_result(l), filter_result(r)) {
            Ok((a, b)) => j matches Ok((x, y)) && x@ == a && y@ == b,
            Err(d) => j matches Err(e) && e.deep_view() == d,
        },
{
    match l {
        Ok(a) => match r {
            Ok(b) => Ok((a, b)),
            Err(d) => Err(d),
        },
        Err(d) => match r {
            Ok(_) => Err(d),
            Err(e) => {
                let mut all = d;
                let mut more = e;
                all.append(&mut more);
                Err(all)
            },
        },
    }
}

/// Reads an expression as a filter.
pub fn parse_filter(node: &Node) -> (r: Result<Filter, Vec<Error>>)
    ensures
        filter_result(r) == parsed_filter(node@),
    decreases node,
{
    match node {
        Node::Paren(inner) => parse_filter(inner),
        Node::BinOp(op, lhs, rhs, span) => match op {
            BinaryOp::And => match join_results(parse_filter(lhs), parse_filter(rhs)) {
                Ok((l, r)) => Ok(Filter::And(Box::new(l), Box::new(r))),
                Err(d) => Err(d),
            },
            BinaryOp::Or => match join_results(parse_filter(lhs), parse_filter(rhs)) {
                Ok((l, r)) => Ok(Filter::Or(Box::new(l), Box::new(r))),
                Err(d) => Err(d),
            },
            _ => match comparison(*op) {
                Some(c) => parse_comparison(c, lhs, rhs, *span),
                None => Err(fail_to_parse(*span)),
            },
        },
        Node::UnaryOp(UnaryOp::Not, inner, _) => match parse_filter(inner) {
            Ok(f) => Ok(Filter::Not(Box::new(f))),
            Err(d) => Err(d),
        },
        Node::MethodCall(receiver, name, args, span) => {
            proof {
                lemma_argument_views(*node);
            }
            parse_predicate(receiver, name.as_str(), args, *span)
        },
        Node::BoolLit(b, _) => Ok(Filter::Leaf(Condition::Constant(*b))),
        _ => Err(fail_to_parse(node.span())),
    }
}

/// The paths that the expressions stand for, or the errors for those that
/// are no paths.
pub open spec fn parsed_paths(args: Seq<NodeView>) -> Result<Seq<FieldPathView>, Seq<Diagnostic>>
    decreases args.len(),
{
    if args.len() == 0 {
        Ok(Seq::empty())
    } else {
        let last: Result<FieldPathView, Seq<Diagnostic>> = match path_of(args.last()) {
            Some(p) => Ok(p),
            None => Err(parse_failure(span_of(args.last()))),
        };
        match both(parsed_paths(args.drop_last()), last) {
            Ok((all, p)) => Ok(all.push(p)),
            Err(d) => Err(d),
        }
    }
}

/// Reads the expressions as paths.
pub fn parse_paths(args: &Vec<Node>) -> (r: Result<Vec<FieldPath>, Vec<Error>>)
    ensures
        match parsed_paths(args.deep_view()) {
            Ok(all) => r matches Ok(v) && v.deep_view() == all,
            Err(d) => r matches Err(e) && e.deep_view() == d,
        },
{
    let mut items: Vec<FieldPath> = Vec::new();
    let mut errors: Vec<Error> = Vec::new();
    let ghost views = args.deep_view();
    let mut i: usize = 0;
    while i < args.len()
        invariant
            i <= args@.len(),
            views == args.deep_view(),
            views.len() == args@.len(),
            match parsed_paths(views.take(i as int)) {
                Ok(all) => errors@.len() == 0 && items.deep_view() == all,
                Err(d) => errors@.len() > 0 && errors.deep_view() == d,
            },
        decreases args@.len() - i,
    {
        assert(views.take(i + 1).drop_last() =~= views.take(i as int));
        match path(&args[i]) {
            Some(p) => {
                if errors.len() == 0 {
                    items.push(p);
                }
            },
            None => {
                let mut more = fail_to_parse(args[i].span());
                errors.append(&mut more);
            },
        }
        i += 1;
    }
    assert(views.take(i as int) =~= views);
    if errors.len() == 0 {
        Ok(items)
    } else {
        Err(errors)
    }
}

/// The column to sort by that an expression stands for: a path, or a path
/// with a minus sign for the descending direction.
pub open spec fn order_of(node: NodeView) -> Option<OrderView> {
    match node {
        NodeView::UnaryOp(UnaryOp::Neg, inner, _) => match path_of(*inner) {
            Some(p) => Some(OrderView { field: p, direction: Direction::Desc }),
            None => None,
        },
        _ => match path_of(node) {
            Some(p) => Some(OrderView { field: p, direction: Direction::Asc }),
            None => None,
        },
    }
}

fn order(node: &Node) -> (r: Option<Order>)
    ensures
        r.deep_view() == order_of(node@),
{
    match node {
        Node::UnaryOp(UnaryOp::Neg, inner, _) => match path(inner) {
            Some(p) => Some(Order { field: p, direction: Direction::Desc }),
            None => None,
        },
        _ => match path(node) {
            Some(p) => Some(Order { field: p, direction: Direction::Asc }),
            None => None,
        },
    }
}

/// The columns to sort by that the expressions stand for.
pub open spec fn parsed_orders(args: Seq<NodeView>) -> Result<Seq<OrderView>, Seq<Diagnostic>>
    decreases args.len(),
{
    if args.len() == 0 {
        Ok(Seq::empty())
    } else {
        let last: Result<OrderView, Seq<Diagnostic>> = match order_of(args.last()) {
            Some(o) => Ok(o),
            None => Err(parse_failure(span_of(args.last()))),
        };
        match both(parsed_orders(args.drop_last()), last) {
            Ok((all, o)) => Ok(all.push(o)),
            Err(d) => Err(d),
        }
    }
}

/// Reads the expressions as columns to sort by.
pub fn parse_orders(args: &Vec<Node>) -> (r: Result<Vec<Order>, Vec<Error>>)
    ensures
        match parsed_orders(args.deep_view()) {
            Ok(all) => r matches Ok(v) && v.deep_view() == all,
            Err(d) => r matches Err(e) && e.deep_view() == d,
        },
{
    let mut items: Vec<Order> = Vec::new();
    let mut errors: Vec<Error> = Vec::new();
    let ghost views = args.deep_view();
    let mut i: usize = 0;
    while i < args.len()
        invariant
            i <= args@.len(),
            views == args.deep_view(),
            views.len() == args@.len(),
            match parsed_orders(views.take(i as int)) {
                Ok(all) => errors@.len() == 0 && items.deep_view() == all,
                Err(d) => errors@.len() > 0 && errors.deep_view() == d,
            },
        decreases args@.len() - i,
    {
        assert(views.take(i + 1).drop_last() =~= views.take(i as int));
        match order(&args[i]) {
            Some(o) => {
                if errors.len() == 0 {
                    items.push(o);
                }
            },
            None => {
                let mut more = fail_to_parse(args[i].span());
                errors.append(&mut more);
            },
        }
        i += 1;
    }
    assert(views.take(i as int) =~= views);
    if errors.len() == 0 {
        Ok(items)
    } else {
        Err(errors)
    }
}

/// The assignment that an expression stands for: `name = value`.
pub open spec fn assignment_of(node: NodeView) -> Option<AssignmentView> {
    match node {
        NodeView::BinOp(BinaryOp::Assign, lhs, rhs, span) => match *lhs {
            NodeView::Ident(name, _) => Some(
                AssignmentView { field: name, value: operand_of(*rhs), span },
            ),
            _ => None,
        },
        _ => None,
    }
}

fn assignment(node: &Node) -> (r: Option<Assignment>)
    ensures
        r.deep_view() == assignment_of(node@),
{
    proof {
        reveal_with_fuel(node_view, 2);
    }
    match node {
        Node::BinOp(BinaryOp::Assign, lhs, rhs, span) => match &**lhs {
            Node::Ident(name, _) => Some(
                Assignment { field: name.clone(), value: operand(rhs), span: *span },
            ),
            _ => None,
        },
        _ => None,
    }
}

/// The assignments that the expressions stand for.
pub open spec fn parsed_assignments(args: Seq<NodeView>) -> Result<
    Seq<AssignmentView>,
    Seq<Diagnostic>,
>
    decreases args.len(),
{
    if args.len() == 0 {
        Ok(Seq::empty())
    } else {
        let last: Result<AssignmentView, Seq<Diagnostic>> = match assignment_of(args.last()) {
            Some(a) => Ok(a),
            None => Err(parse_failure(span_of(args.last()))),
        };
        match both(parsed_assignments(args.drop_last()), last) {
            Ok((all, a)) => Ok(all.push(a)),
            Err(d) => Err(d),
        }
    }
}

/// Reads the expressions as assignments.
pub fn parse_assignments(args: &Vec<Node>) -> (r: Result<Vec<Assignment>, Vec<Error>>)
    ensures
        match parsed_assignments(args.deep_view()) {
            Ok(all) => r matches Ok(v) && v.deep_view() == all,
            Err(d) => r matches Err(e) && e.deep_view() == d,
        },
{
    let mut items: Vec<Assignment> = Vec::new();
    let mut errors: Vec<Error> = Vec::new();
    let ghost views = args.deep_view();
    let mut i: usize = 0;
    while i < args.len()
        invariant
            i <= args@.len(),
            views == args.deep_view(),
            views.len() == args@.len(),
            match parsed_assignments(views.take(i as int)) {
                Ok(all) => errors@.len() == 0 && items.deep_view() == all,
                Err(d) => errors@.len() > 0 && errors.deep_view() == d,
            },
        decreases args@.len() - i,
    {
        assert(views.take(i + 1).drop_last() =~= views.take(i as int));
        match assignment(&args[i]) {
            Some(a) => {
                if errors.len() == 0 {
                    items.push(a);
                }
            },
            None => {
                let mut more = fail_to_parse(args[i].span());
                errors.append(&mut more);
            },
        }
        i += 1;
    }
    assert(views.take(i as int) =~= views);
    if errors.len() == 0 {
        Ok(items)
    } else {
        Err(errors)
    }
}

/// The aggregate function of that name.
pub open spec fn function_of(name: Seq<char>) -> Option<AggregateFn> {
    if name == "avg"@ {
        Some(AggregateFn::Avg)
    } else if name == "count"@ {
        Some(AggregateFn::Count)
    } else if name == "max"@ {
        Some(AggregateFn::Max)
    } else if name == "min"@ {
        Some(AggregateFn::Min)
    } else if name == "sum"@ {
        Some(AggregateFn::Sum)
    } else {
        None
    }
}

fn function(name: &str) -> (r: Option<AggregateFn>)
    ensures
        r == function_of(name@),
{
    if text_eq(name, "avg") {
        Some(AggregateFn::Avg)
    } else if text_eq(name, "count") {
        Some(AggregateFn::Count)
    } else if text_eq(name, "max") {
        Some(AggregateFn::Max)
    } else if text_eq(name, "min") {
        Some(AggregateFn::Min)
    } else if text_eq(name, "sum") {
        Some(AggregateFn::Sum)
    } else {
        None
    }
}

/// The aggregate that a call stands for: `function(field)`, under the
/// name `alias` if one is given.
pub open spec fn call_aggregate(node: NodeView, alias: Option<Seq<char>>, span: Span) -> Option<
    AggregateView,
> {
    match node {
        NodeView::Call(name, args, _) => match function_of(name) {
            Some(function) => if args.len() == 1 {
                match args[0] {
                    NodeView::Ident(field, _) => Some(
                        AggregateView { function, field: field, alias, span },
                    ),
                    _ => None,
                }
            } else {
                None
            },
            None => None,
        },
        _ => None,
    }
}

/// The aggregate that an expression stands for: `function(field)` or
/// `alias = function(field)`.
pub open spec fn aggregate_of(node: NodeView) -> Option<AggregateView> {
    match node {
        NodeView::BinOp(BinaryOp::Assign, lhs, rhs, span) => match *lhs {
            NodeView::Ident(alias, _) => call_aggregate(*rhs, Some(alias), span),
            _ => None,
        },
        _ => call_aggregate(node, None, span_of(node)),
    }
}

fn aggregate_call(node: &Node, alias: Option<String>, span: Span) -> (r: Option<Aggregate>)
    ensures
        r.deep_view() == call_aggregate(node@, crate::query::name_view(alias), span),
{
    proof {
        reveal_with_fuel(node_view, 2);
    }
    match node {
        Node::Call(name, args, _) => match function(name.as_str()) {
            Some(function) => {
                if args.len() == 1 {
                    match &args[0] {
                        Node::Ident(field, _) => Some(
                            Aggregate { function, field: field.clone(), alias, span },
                        ),
                        _ => None,
                    }
                } else {
                    None
                }
            },
            None => None,
        },
        _ => None,
    }
}

fn aggregate(node: &Node) -> (r: Option<Aggregate>)
    ensures
        r.deep_view() == aggregate_of(node@),
{
    proof {
        reveal_with_fuel(node_view, 2);
    }
    match node {
        Node::BinOp(BinaryOp::Assign, lhs, rhs, span) => match &**lhs {
            Node::Ident(alias, _) => aggregate_call(rhs, Some(alias.clone()), *span),
            _ => None,
        },
        _ => aggregate_call(node, None, node.span()),
    }
}

/// The aggregates that the expressions stand for.
pub open spec fn parsed_aggregates(args: Seq<NodeView>) -> Result<Seq<AggregateView>, Seq<Diagnostic>>
    decreases args.len(),
{
    if args.len() == 0 {
        Ok(Seq::empty())
    } else {
        let last: Result<AggregateView, Seq<Diagnostic>> = match aggregate_of(args.last()) {
            Some(a) => Ok(a),
            None => Err(parse_failure(span_of(args.last()))),
        };
        match both(parsed_aggregates(args.drop_last()), last) {
            Ok((all, a)) => Ok(all.push(a)),
            Err(d) => Err(d),
        }
    }
}

/// Reads the expressions as aggregates.
pub fn parse_aggregates(args: &Vec<Node>) -> (r: Result<Vec<Aggregate>, Vec<Error>>)
    ensures
        match parsed_aggregates(args.deep_view()) {
            Ok(all) => r matches Ok(v) && v.deep_view() == all,
            Err(d) => r matches Err(e) && e.deep_view() == d,
        },
{
    let mut items: Vec<Aggregate> = Vec::new();
    let mut errors: Vec<Error> = Vec::new();
    let ghost views = args.deep_view();
    let mut i: usize = 0;
    while i < args.len()
        invariant
            i <= args@.len(),
            views == args.deep_view(),
            views.len() == args@.len(),
            match parsed_aggregates(views.take(i as int)) {
                Ok(all) => errors@.len() == 0 && items.deep_view() == all,
                Err(d) => errors@.len() > 0 && errors.deep_view() == d,
            },
        decreases args@.len() - i,
    {
        assert(views.take(i + 1).drop_last() =~= views.take(i as int));
        match aggregate(&args[i]) {
            Some(a) => {
                if errors.len() == 0 {
                    items.push(a);
                }
            },
            None => {
                let mut more = fail_to_parse(args[i].span());
                errors.append(&mut more);
            },
        }
        i += 1;
    }
    assert(views.take(i as int) =~= views);
    if errors.len() == 0 {
        Ok(items)
    } else {
        Err(errors)
    }
}

/// The filter that holds where both the filter so far, if there is one,
/// and another filter hold.
pub open spec fn conjunction(so_far: Option<FilterView>, f: FilterView) -> FilterView {
    match so_far {
        Some(e) => FilterView::And(Box::new(e), Box::new(f)),
        None => f,
    }
}

fn conjoin(so_far: Option<Filter>, f: Filter) -> (r: Filter)
    ensures
        r@ == conjunction(crate::query::option_filter_view(so_far), f@),
{
    match so_far {
        Some(e) => Filter::And(Box::new(e), Box::new(f)),
        None => f,
    }
}

/// The selection of all the rows of a table.
pub open spec fn select_all(name: Seq<char>, span: Span) -> SelectView {
    SelectView {
        table: TableRefView { name, span },
        filter: None,
        joins: Seq::empty(),
        order: Seq::empty(),
        limit: None,
        get_mode: GetMode::All,
    }
}

/// Whether a selection has neither joins nor a sort nor a range.
pub open spec fn is_plain(s: SelectView) -> bool {
    s.joins.len() == 0 && s.order.len() == 0 && s.limit is None
}

/// Whether a selection is that of all the rows of its table.
pub open spec fn is_bare(s: SelectView) -> bool {
    is_plain(s) && s.filter is None && s.get_mode == GetMode::All
}

fn plain(s: &Select) -> (r: bool)
    ensures
        r == is_plain(s@),
{
    s.joins.len() == 0 && s.order.len() == 0 && s.limit.is_none()
}

fn bare(s: &Select) -> (r: bool)
    ensures
        r == is_bare(s@),
{
    plain(s) && s.filter.is_none() && match s.get_mode {
        GetMode::All => true,
        GetMode::One => false,
    }
}

/// Whether the argument of `get` is a condition, and not the value of the
/// primary key.
pub open spec fn is_condition(node: NodeView) -> bool
    decreases node,
{
    match node {
        NodeView::BinOp(op, _, _, _) => op == BinaryOp::And || op == BinaryOp::Or || comparison_of(op)
            is Some,
        NodeView::UnaryOp(UnaryOp::Not, _, _) => true,
        NodeView::Paren(inner) => is_condition(*inner),
        NodeView::MethodCall(_, name, _, _) => method_of(name) is Some || null_of(name) is Some,
        NodeView::BoolLit(_, _) => true,
        _ => false,
    }
}

fn condition_shaped(node: &Node) -> (r: bool)
    ensures
        r == is_condition(node@),
    decreases node,
{
    match node {
        Node::BinOp(op, _, _, _) => match op {
            BinaryOp::And => true,
            BinaryOp::Or => true,
            _ => comparison(*op).is_some(),
        },
        Node::UnaryOp(UnaryOp::Not, _, _) => true,
        Node::Paren(inner) => condition_shaped(inner),
        Node::MethodCall(_, name, _, _) => method(name.as_str()).is_some() || null_test(
            name.as_str(),
        ).is_some(),
        Node::BoolLit(_, _) => true,
        _ => false,
    }
}

/// The filter that the argument of `get` stands for: the condition itself,
/// or the comparison of `id` with the value.
pub open spec fn parsed_key(node: NodeView) -> Result<FilterView, Seq<Diagnostic>> {
    if is_condition(node) {
        parsed_filter(node)
    } else {
        Ok(
            FilterView::Leaf(
                ConditionView::Compare(
                    FieldPathView { field: "id"@, related: None, span: span_of(node) },
                    CompareOp::Eq,
                    operand_of(node),
                ),
            ),
        )
    }
}

fn parse_key(node: &Node) -> (r: Result<Filter, Vec<Error>>)
    ensures
        filter_result(r) == parsed_key(node@),
{
    if condition_shaped(node) {
        parse_filter(node)
    } else {
        Ok(
            Filter::Leaf(
                Condition::Compare(
                    FieldPath { field: "id".to_owned(), related: None, span: node.span() },
                    CompareOp::Eq,
                    operand(node),
                ),
            ),
        )
    }
}

/// The range that an index expression stands for, if it limits the rows,
/// and whether a single row is asked for.
pub open spec fn limit_of(index: NodeView) -> (Option<LimitView>, GetMode) {
    match index {
        NodeView::Range(start, end, _) => match start {
            Some(a) => match end {
                Some(b) => (Some(LimitView::Range(operand_of(*a), operand_of(*b))), GetMode::All),
                None => (Some(LimitView::StartRange(operand_of(*a))), GetMode::All),
            },
            None => match end {
                Some(b) => (Some(LimitView::EndRange(operand_of(*b))), GetMode::All),
                None => (None, GetMode::All),
            },
        },
        _ => (Some(LimitView::Index(operand_of(index))), GetMode::One),
    }
}

fn limit(index: &Node) -> (r: (Option<Limit>, GetMode))
    ensures
        crate::query::option_limit_view(r.0) == limit_of(index@).0,
        r.1 == limit_of(index@).1,
{
    match index {
        Node::Range(start, end, _) => match start {
            Some(a) => match end {
                Some(b) => (Some(Limit::Range(operand(a), operand(b))), GetMode::All),
                None => (Some(Limit::StartRange(operand(a))), GetMode::All),
            },
            None => match end {
                Some(b) => (Some(Limit::EndRange(operand(b))), GetMode::All),
                None => (None, GetMode::All),
            },
        },
        _ => (Some(Limit::Index(operand(index))), GetMode::One),
    }
}

/// The selection with an index or a range applied to it. One cannot be
/// applied after another.
pub open spec fn indexed(q: QueryView, index: NodeView, span: Span) -> Result<
    QueryView,
    Seq<Diagnostic>,
> {
    match q {
        QueryView::Select(s) => if s.limit is None {
            Ok(
                QueryView::Select(
                    SelectView {
                        limit: limit_of(index).0,
                        get_mode: if limit_of(index).1 == GetMode::One {
                            GetMode::One
                        } else {
                            s.get_mode
                        },
                        ..s
                    },
                ),
            )
        } else {
            Err(parse_failure(span))
        },
        _ => Err(parse_failure(span)),
    }
}

/// The content of the result of parsing a query.
pub open spec fn query_result(r: SqlResult<Query>) -> Result<QueryView, Seq<Diagnostic>> {
    match r {
        Ok(q) => Ok(q@),
        Err(e) => Err(e.deep_view()),
    }
}

fn apply_index(q: Query, index: &Node, span: Span) -> (r: SqlResult<Query>)
    ensures
        query_result(r) == indexed(q@, index@, span),
{
    match q {
        Query::Select(s) => {
            if s.limit.is_none() {
                let (limit, mode) = limit(index);
                let get_mode = match mode {
                    GetMode::One => GetMode::One,
                    GetMode::All => s.get_mode,
                };
                Ok(
                    Query::Select(
                        Select {
                            table: s.table,
                            filter: s.filter,
                            joins: s.joins,
                            order: s.order,
                            limit,
                            get_mode,
                        },
                    ),
                )
            } else {
                Err(fail_to_parse(span))
            }
        },
        _ => Err(fail_to_parse(span)),
    }
}

/// The query with a filter applied to it: a condition on the rows of a
/// selection that has no range yet, or on the groups of an aggregation.
pub open spec fn filtered(q: QueryView, f: FilterView, one: bool, span: Span) -> Result<
    QueryView,
    Seq<Diagnostic>,
> {
    match q {
        QueryView::Select(s) => if s.limit is None {
            Ok(
                QueryView::Select(
                    SelectView {
                        filter: Some(conjunction(s.filter, f)),
                        get_mode: if one {
                            GetMode::One
                        } else {
                            s.get_mode
                        },
                        ..s
                    },
                ),
            )
        } else {
            Err(parse_failure(span))
        },
        QueryView::Aggregate { table, aggregates, groups, filter, having } => if one {
            Err(parse_failure(span))
        } else {
            Ok(
                QueryView::Aggregate {
                    table,
                    aggregates,
                    groups,
                    filter,
                    having: Some(conjunction(having, f)),
                },
            )
        },
        _ => Err(parse_failure(span)),
    }
}

fn apply_filter(q: Query, f: Filter, one: bool, span: Span) -> (r: SqlResult<Query>)
    ensures
        query_result(r) == filtered(q@, f@, one, span),
{
    match q {
        Query::Select(s) => {
            if s.limit.is_none() {
                let get_mode = if one {
                    GetMode::One
                } else {
                    s.get_mode
                };
                Ok(
                    Query::Select(
                        Select {
                            table: s.table,
                            filter: Some(conjoin(s.filter, f)),
                            joins: s.joins,
                            order: s.order,
                            limit: s.limit,
                            get_mode,
                        },
                    ),
                )
            } else {
                Err(fail_to_parse(span))
            }
        },
        Query::Aggregate { table, aggregates, groups, filter, having } => {
            if one {
                Err(fail_to_parse(span))
            } else {
                Ok(
                    Query::Aggregate {
                        table,
                        aggregates,
                        groups,
                        filter,
                        having: Some(conjoin(having, f)),
                    },
                )
            }
        },
        _ => Err(fail_to_parse(span)),
    }
}

/// The selection of a single row of those of a selection without a range.
pub open spec fn single(q: QueryView, span: Span) -> Result<QueryView, Seq<Diagnostic>> {
    match q {
        QueryView::Select(s) => if s.limit is None {
            Ok(QueryView::Select(SelectView { get_mode: GetMode::One, ..s }))
        } else {
            Err(parse_failure(span))
        },
        _ => Err(parse_failure(span)),
    }
}

fn apply_single(q: Query, span: Span) -> (r: SqlResult<Query>)
    ensures
        query_result(r) == single(q@, span),
{
    match q {
        Query::Select(s) => {
            if s.limit.is_none() {
                Ok(
                    Query::Select(
                        Select {
                            table: s.table,
                            filter: s.filter,
                            joins: s.joins,
                            order: s.order,
                            limit: s.limit,
                            get_mode: GetMode::One,
                        },
                    ),
                )
            } else {
                Err(fail_to_parse(span))
            }
        },
        _ => Err(fail_to_parse(span)),
    }
}

/// The selection with more columns to sort by.
pub open spec fn sorted(q: QueryView, order: Seq<OrderView>, span: Span) -> Result<
    QueryView,
    Seq<Diagnostic>,
> {
    match q {
        QueryView::Select(s) => if s.limit is None {
            Ok(QueryView::Select(SelectView { order: s.order + order, ..s }))
        } else {
            Err(parse_failure(span))
        },
        _ => Err(parse_failure(span)),
    }
}

fn apply_sort(q: Query, order: Vec<Order>, span: Span) -> (r: SqlResult<Query>)
    ensures
        query_result(r) == sorted(q@, order.deep_view(), span),
{
    match q {
        Query::Select(s) => {
            if s.limit.is_none() {
                let mut all = s.order;
                let mut more = order;
                let ghost first = all.deep_view();
                let ghost second = more.deep_view();
                all.append(&mut more);
                assert(all.deep_view() =~= first + second);
                Ok(
                    Query::Select(
                        Select {
                            table: s.table,
                            filter: s.filter,
                            joins: s.joins,
                            order: all,
                            limit: s.limit,
                            get_mode: s.get_mode,
                        },
                    ),
                )
            } else {
                Err(fail_to_parse(span))
            }
        },
        _ => Err(fail_to_parse(span)),
    }
}

/// The selection with more joins.
pub open spec fn joined_with(q: QueryView, joins: Seq<FieldPathView>, span: Span) -> Result<
    QueryView,
    Seq<Diagnostic>,
> {
    match q {
        QueryView::Select(s) => Ok(QueryView::Select(SelectView { joins: s.joins + joins, ..s })),
        _ => Err(parse_failure(span)),
    }
}

fn apply_join(q: Query, joins: Vec<FieldPath>, span: Span) -> (r: SqlResult<Query>)
    ensures
        query_result(r) == joined_with(q@, joins.deep_view(), span),
{
    match q {
        Query::Select(s) => {
            let mut all = s.joins;
            let mut more = joins;
            let ghost first = all.deep_view();
            let ghost second = more.deep_view();
            all.append(&mut more);
            assert(all.deep_view() =~= first + second);
            Ok(
                Query::Select(
                    Select {
                        table: s.table,
                        filter: s.filter,
                        joins: all,
                        order: s.order,
                        limit: s.limit,
                        get_mode: s.get_mode,
                    },
                ),
            )
        },
        _ => Err(fail_to_parse(span)),
    }
}

/// The insertion into the table of a selection of all its rows.
pub open spec fn inserted(q: QueryView, assignments: Seq<AssignmentView>, span: Span) -> Result<
    QueryView,
    Seq<Diagnostic>,
> {
    match q {
        QueryView::Select(s) => if is_bare(s) {
            Ok(QueryView::Insert { table: s.table, assignments })
        } else {
            Err(parse_failure(span))
        },
        _ => Err(parse_failure(span)),
    }
}

fn apply_insert(q: Query, assignments: Vec<Assignment>, span: Span) -> (r: SqlResult<Query>)
    ensures
        query_result(r) == inserted(q@, assignments.deep_view(), span),
{
    match q {
        Query::Select(s) => {
            if bare(&s) {
                Ok(Query::Insert { table: s.table, assignments })
            } else {
                Err(fail_to_parse(span))
            }
        },
        _ => Err(fail_to_parse(span)),
    }
}

/// The update of the rows of a selection without joins, sort or range.
pub open spec fn updated(q: QueryView, assignments: Seq<AssignmentView>, span: Span) -> Result<
    QueryView,
    Seq<Diagnostic>,
> {
    match q {
        QueryView::Select(s) => if is_plain(s) {
            Ok(QueryView::Update { table: s.table, assignments, filter: s.filter })
        } else {
            Err(parse_failure(span))
        },
        _ => Err(parse_failure(span)),
    }
}

fn apply_update(q: Query, assignments: Vec<Assignment>, span: Span) -> (r: SqlResult<Query>)
    ensures
        query_result(r) == updated(q@, assignments.deep_view(), span),
{
    match q {
        Query::Select(s) => {
            if plain(&s) {
                Ok(Query::Update { table: s.table, assignments, filter: s.filter })
            } else {
                Err(fail_to_parse(span))
            }
        },
        _ => Err(fail_to_parse(span)),
    }
}

/// What a method without arguments makes of a selection: `all` leaves it
/// as it is, `delete` deletes its rows, `create` and `drop` create and
/// remove its table.
pub open spec fn without_arguments(q: QueryView, name: Seq<char>, span: Span) -> Result<
    QueryView,
    Seq<Diagnostic>,
> {
    match q {
        QueryView::Select(s) => if name == "all"@ {
            Ok(q)
        } else if name == "delete"@ {
            if is_plain(s) {
                Ok(QueryView::Delete { table: s.table, filter: s.filter })
            } else {
                Err(parse_failure(span))
            }
        } else if name == "create"@ {
            if is_bare(s) {
                Ok(QueryView::CreateTable { table: s.table })
            } else {
                Err(parse_failure(span))
            }
        } else if name == "drop"@ {
            if is_bare(s) {
                Ok(QueryView::DropTable { table: s.table })
            } else {
                Err(parse_failure(span))
            }
        } else {
            Err(no_such_method(name, span))
        },
        _ => Err(parse_failure(span)),
    }
}

fn apply_without_arguments(q: Query, name: &str, span: Span) -> (r: SqlResult<Query>)
    ensures
        query_result(r) == without_arguments(q@, name@, span),
{
    match q {
        Query::Select(s) => {
            if text_eq(name, "all") {
                Ok(Query::Select(s))
            } else if text_eq(name, "delete") {
                if plain(&s) {
                    Ok(Query::Delete { table: s.table, filter: s.filter })
                } else {
                    Err(fail_to_parse(span))
                }
            } else if text_eq(name, "create") {
                if bare(&s) {
                    Ok(Query::CreateTable { table: s.table })
                } else {
                    Err(fail_to_parse(span))
                }
            } else if text_eq(name, "drop") {
                if bare(&s) {
                    Ok(Query::DropTable { table: s.table })
                } else {
                    Err(fail_to_parse(span))
                }
            } else {
                Err(fail_on_method(name, span))
            }
        },
        _ => Err(fail_to_parse(span)),
    }
}

/// The aggregation of the rows of a selection without joins, sort or
/// range, grouped by the columns given.
pub open spec fn grouped(q: QueryView, groups: Seq<FieldPathView>, span: Span) -> Result<
    QueryView,
    Seq<Diagnostic>,
> {
    match q {
        QueryView::Select(s) => if is_plain(s) {
            Ok(
                QueryView::Aggregate {
                    table: s.table,
                    aggregates: Seq::empty(),
                    groups,
                    filter: s.filter,
                    having: None,
                },
            )
        } else {
            Err(parse_failure(span))
        },
        _ => Err(parse_failure(span)),
    }
}

fn apply_values(q: Query, groups: Vec<FieldPath>, span: Span) -> (r: SqlResult<Query>)
    ensures
        query_result(r) == grouped(q@, groups.deep_view(), span),
{
    match q {
        Query::Select(s) => {
            if plain(&s) {
                let aggregates: Vec<Aggregate> = Vec::new();
                assert(aggregates.deep_view() =~= Seq::empty());
                Ok(
                    Query::Aggregate {
                        table: s.table,
                        aggregates,
                        groups,
                        filter: s.filter,
                        having: None,
                    },
                )
            } else {
                Err(fail_to_parse(span))
            }
        },
        _ => Err(fail_to_parse(span)),
    }
}

/// The aggregation with its aggregates: of the rows of a selection
/// without joins, sort or range, or of a grouping that has none yet.
pub open spec fn aggregated(q: QueryView, aggregates: Seq<AggregateView>, span: Span) -> Result<
    QueryView,
    Seq<Diagnostic>,
> {
    match q {
        QueryView::Select(s) => if is_plain(s) {
            Ok(
                QueryView::Aggregate {
                    table: s.table,
                    aggregates,
                    groups: Seq::empty(),
                    filter: s.filter,
                    having: None,
                },
            )
        } else {
            Err(parse_failure(span))
        },
        QueryView::Aggregate { table, aggregates: none, groups, filter, having } => if none.len()
            == 0 && having is None {
            Ok(QueryView::Aggregate { table, aggregates, groups, filter, having })
        } else {
            Err(parse_failure(span))
        },
        _ => Err(parse_failure(span)),
    }
}

fn apply_aggregate(q: Query, aggregates: Vec<Aggregate>, span: Span) -> (r: SqlResult<Query>)
    ensures
        query_result(r) == aggregated(q@, aggregates.deep_view(), span),
{
    match q {
        Query::Select(s) => {
            if plain(&s) {
                let groups: Vec<FieldPath> = Vec::new();
                assert(groups.deep_view() =~= Seq::empty());
                Ok(
                    Query::Aggregate {
                        table: s.table,
                        aggregates,
                        groups,
                        filter: s.filter,
                        having: None,
                    },
                )
            } else {
                Err(fail_to_parse(span))
            }
        },
        Query::Aggregate { table, aggregates: none, groups, filter, having } => {
            if none.len() == 0 && having.is_none() {
                Ok(Query::Aggregate { table, aggregates, groups, filter, having })
            } else {
                Err(fail_to_parse(span))
            }
        },
        _ => Err(fail_to_parse(span)),
    }
}

/// What a method makes of the query that it is called on.
pub open spec fn applied(q: QueryView, name: Seq<char>, args: Seq<NodeView>, span: Span) -> Result<
    QueryView,
    Seq<Diagnostic>,
> {
    if name == "filter"@ {
        if args.len() == 1 {
            match parsed_filter(args[0]) {
                Ok(f) => filtered(q, f, false, span),
                Err(d) => Err(d),
            }
        } else {
            Err(parse_failure(span))
        }
    } else if name == "get"@ {
        if args.len() == 1 {
            match parsed_key(args[0]) {
                Ok(f) => filtered(q, f, true, span),
                Err(d) => Err(d),
            }
        } else if args.len() == 0 {
            single(q, span)
        } else {
            Err(parse_failure(span))
        }
    } else if name == "sort"@ {
        match parsed_orders(args) {
            Ok(order) => sorted(q, order, span),
            Err(d) => Err(d),
        }
    } else if name == "join"@ {
        match parsed_paths(args) {
            Ok(joins) => joined_with(q, joins, span),
            Err(d) => Err(d),
        }
    } else if name == "insert"@ {
        match parsed_assignments(args) {
            Ok(assignments) => inserted(q, assignments, span),
            Err(d) => Err(d),
        }
    } else if name == "update"@ {
        match parsed_assignments(args) {
            Ok(assignments) => updated(q, assignments, span),
            Err(d) => Err(d),
        }
    } else if name == "values"@ {
        match parsed_paths(args) {
            Ok(groups) => grouped(q, groups, span),
            Err(d) => Err(d),
        }
    } else if name == "aggregate"@ {
        match parsed_aggregates(args) {
            Ok(aggregates) => aggregated(q, aggregates, span),
            Err(d) => Err(d),
        }
    } else if args.len() == 0 {
        without_arguments(q, name, span)
    } else {
        Err(no_such_method(name, span))
    }
}

fn apply(q: Query, name: &str, args: &Vec<Node>, span: Span) -> (r: SqlResult<Query>)
    ensures
        query_result(r) == applied(q@, name@, args.deep_view(), span),
{
    if text_eq(name, "filter") {
        if args.len() == 1 {
            match parse_filter(&args[0]) {
                Ok(f) => apply_filter(q, f, false, span),
                Err(d) => Err(d),
            }
        } else {
            Err(fail_to_parse(span))
        }
    } else if text_eq(name, "get") {
        if args.len() == 1 {
            match parse_key(&args[0]) {
                Ok(f) => apply_filter(q, f, true, span),
                Err(d) => Err(d),
            }
        } else if args.len() == 0 {
            apply_single(q, span)
        } else {
            Err(fail_to_parse(span))
        }
    } else if text_eq(name, "sort") {
        match parse_orders(args) {
            Ok(order) => apply_sort(q, order, span),
            Err(d) => Err(d),
        }
    } else if text_eq(name, "join") {
        match parse_paths(args) {
            Ok(joins) => apply_join(q, joins, span),
            Err(d) => Err(d),
        }
    } else if text_eq(name, "insert") {
        match parse_assignments(args) {
            Ok(assignments) => apply_insert(q, assignments, span),
            Err(d) => Err(d),
        }
    } else if text_eq(name, "update") {
        match parse_assignments(args) {
            Ok(assignments) => apply_update(q, assignments, span),
            Err(d) => Err(d),
        }
    } else if text_eq(name, "values") {
        match parse_paths(args) {
            Ok(groups) => apply_values(q, groups, span),
            Err(d) => Err(d),
        }
    } else if text_eq(name, "aggregate") {
        match parse_aggregates(args) {
            Ok(aggregates) => apply_aggregate(q, aggregates, span),
            Err(d) => Err(d),
        }
    } else if args.len() == 0 {
        apply_without_arguments(q, name, span)
    } else {
        Err(fail_on_method(name, span))
    }
}

/// The query that an expression stands for: a table's name is the
/// selection of all its rows, a method call applies the method to the
/// query that its receiver stands for, and an index or a range limits the
/// rows of the selection before it. Parentheses only group.
pub open spec fn parsed_query(node: NodeView) -> Result<QueryView, Seq<Diagnostic>>
    decreases node,
{
    match node {
        NodeView::Ident(name, span) => Ok(QueryView::Select(select_all(name, span))),
        NodeView::MethodCall(receiver, name, args, span) => match parsed_query(*receiver) {
            Ok(q) => applied(q, name, args, span),
            Err(d) => Err(d),
        },
        NodeView::Index(receiver, index, span) => match parsed_query(*receiver) {
            Ok(q) => indexed(q, *index, span),
            Err(d) => Err(d),
        },
        NodeView::Paren(inner) => parsed_query(*inner),
        _ => Err(parse_failure(span_of(node))),
    }
}

/// Reads a host expression as a query.
pub fn parse(node: &Node) -> (r: SqlResult<Query>)
    ensures
        query_result(r) == parsed_query(node@),
    decreases node,
{
    match node {
        Node::Ident(name, span) => {
            let joins: Vec<FieldPath> = Vec::new();
            let order: Vec<Order> = Vec::new();
            assert(joins.deep_view() =~= Seq::empty());
            assert(order.deep_view() =~= Seq::empty());
            Ok(
                Query::Select(
                    Select {
                        table: TableRef { name: name.clone(), span: *span },
                        filter: None,
                        joins,
                        order,
                        limit: None,
                        get_mode: GetMode::All,
                    },
                ),
            )
        },
        Node::MethodCall(receiver, name, args, span) => {
            proof {
                lemma_argument_views(*node);
            }
            match parse(receiver) {
                Ok(q) => apply(q, name.as_str(), args, *span),
                Err(d) => Err(d),
            }
        },
        Node::Index(receiver, index, span) => match parse(receiver) {
            Ok(q) => apply_index(q, index, *span),
            Err(d) => Err(d),
        },
        Node::Paren(inner) => parse(inner),
        _ => Err(fail_to_parse(node.span())),
    }
}

/// Parentheses in a filter only group: the filter of an expression in
/// parentheses is the filter of the expression, so that `A || B && C` and
/// `A || (B && C)` stand for the same filter.
pub proof fn lemma_parentheses_only_group(a: NodeView, b: NodeView, c: NodeView, s1: Span, s2: Span)
    ensures
        forall|n: NodeView| parsed_filter(NodeView::Paren(Box::new(n))) == parsed_filter(n),
        parsed_filter(
            NodeView::BinOp(
                BinaryOp::Or,
                Box::new(a),
                Box::new(NodeView::BinOp(BinaryOp::And, Box::new(b), Box::new(c), s2)),
                s1,
            ),
        ) == parsed_filter(
            NodeView::BinOp(
                BinaryOp::Or,
                Box::new(a),
                Box::new(
                    NodeView::Paren(
                        Box::new(NodeView::BinOp(BinaryOp::And, Box::new(b), Box::new(c), s2)),
                    ),
                ),
                s1,
            ),
        ),
{
    reveal_with_fuel(parsed_filter, 3);
}

} // verus!
