use tql_core::ast::{BinaryOp, Node, UnaryOp};
use tql_core::error::{Error, Span};
use tql_core::parser::{operand, parse, parse_filter, path, subject, Subject};
use tql_core::query::{
    Aggregate, AggregateFn, Assignment, CompareOp, Condition, DatePart, Direction, FieldPath,
    Filter, GetMode, Limit, Literal, MethodOp, NullOp, Operand, Order, Query, Select, TableRef,
};

fn at(lo: u32, hi: u32) -> Span {
    Span { lo, hi }
}

fn id(name: &str, lo: u32) -> Node {
    Node::Ident(name.to_string(), at(lo, lo + 1))
}

fn num(i: i64, lo: u32) -> Node {
    Node::IntLit(i, at(lo, lo + 1))
}

fn txt(s: &str, lo: u32) -> Node {
    Node::StrLit(s.to_string(), at(lo, lo + 1))
}

fn call(receiver: Node, name: &str, args: Vec<Node>, lo: u32) -> Node {
    Node::MethodCall(Box::new(receiver), name.to_string(), args, at(lo, lo + 1))
}

fn bin(op: BinaryOp, l: Node, r: Node, lo: u32) -> Node {
    Node::BinOp(op, Box::new(l), Box::new(r), at(lo, lo + 1))
}

fn paren(inner: Node) -> Node {
    Node::Paren(Box::new(inner))
}

fn p(name: &str, lo: u32) -> FieldPath {
    FieldPath { field: name.to_string(), related: None, span: at(lo, lo + 1) }
}

fn whole(i: i64, lo: u32) -> Operand {
    Operand::Literal(Literal::Int(i), at(lo, lo + 1))
}

fn string(s: &str, lo: u32) -> Operand {
    Operand::Literal(Literal::Str(s.to_string()), at(lo, lo + 1))
}

fn compare(name: &str, a: u32, op: CompareOp, x: Operand) -> Filter {
    Filter::Leaf(Condition::Compare(p(name, a), op, x))
}

fn all(table: &str, lo: u32) -> Select {
    Select {
        table: TableRef { name: table.to_string(), span: at(lo, lo + 1) },
        filter: None,
        joins: vec![],
        order: vec![],
        limit: None,
        get_mode: GetMode::All,
    }
}

fn failed(lo: u32) -> Vec<Error> {
    vec![Error::new("failed to parse expression".to_string(), at(lo, lo + 1))]
}

fn no_method(name: &str, lo: u32) -> Vec<Error> {
    vec![Error::new(format!("no method named `{}` found in tql", name), at(lo, lo + 1))]
}

#[test]
fn operands_are_literals_or_host_expressions() {
    assert_eq!(operand(&num(5, 1)), whole(5, 1));
    assert_eq!(operand(&txt("a", 1)), string("a", 1));
    assert_eq!(
        operand(&Node::BoolLit(true, at(1, 2))),
        Operand::Literal(Literal::Bool(true), at(1, 2))
    );
    let minus = |inner: Node| Node::UnaryOp(UnaryOp::Neg, Box::new(inner), at(7, 9));
    assert_eq!(operand(&minus(num(5, 8))), Operand::Literal(Literal::Int(-5), at(7, 9)));
    assert_eq!(operand(&minus(num(i64::MIN, 8))), Operand::HostExpr(at(7, 9)));
    assert_eq!(operand(&minus(id("x", 8))), Operand::HostExpr(at(7, 9)));
    assert_eq!(operand(&paren(num(5, 1))), whole(5, 1));
    assert_eq!(operand(&id("value", 3)), Operand::HostExpr(at(3, 4)));
    assert_eq!(operand(&Node::Other(at(3, 9))), Operand::HostExpr(at(3, 9)));
    assert_eq!(
        operand(&Node::Tuple(vec![num(1, 2), id("b", 6)])),
        Operand::HostExpr(at(2, 7))
    );
    assert_eq!(operand(&Node::Tuple(vec![])), Operand::HostExpr(at(0, 0)));
}

#[test]
fn paths_are_names_and_fields_of_names() {
    assert_eq!(path(&id("field1", 1)), Some(p("field1", 1)));
    assert_eq!(path(&paren(id("field1", 1))), Some(p("field1", 1)));
    assert_eq!(
        path(&Node::Field(Box::new(id("related", 1)), "field1".to_string(), at(1, 9))),
        Some(FieldPath {
            field: "related".to_string(),
            related: Some("field1".to_string()),
            span: at(1, 9)
        })
    );
    let deep = Node::Field(
        Box::new(Node::Field(Box::new(id("a", 1)), "b".to_string(), at(1, 3))),
        "c".to_string(),
        at(1, 5),
    );
    assert_eq!(path(&deep), None);
    assert_eq!(path(&num(1, 1)), None);
}

#[test]
fn subjects_are_columns_lengths_and_parts() {
    assert_eq!(subject(&id("f", 1)), Some(Subject::Column(p("f", 1))));
    assert_eq!(subject(&call(id("f", 1), "len", vec![], 2)), Some(Subject::Length(p("f", 1))));
    for (name, part) in [
        ("year", DatePart::Year),
        ("month", DatePart::Month),
        ("day", DatePart::Day),
        ("hour", DatePart::Hour),
        ("minute", DatePart::Minute),
        ("second", DatePart::Second),
    ] {
        assert_eq!(subject(&call(id("f", 1), name, vec![], 2)), Some(Subject::Part(p("f", 1), part)));
    }
    assert_eq!(subject(&call(id("f", 1), "len", vec![num(1, 3)], 2)), None);
    assert_eq!(subject(&call(id("f", 1), "week", vec![], 2)), None);
    assert_eq!(subject(&call(num(3, 1), "len", vec![], 2)), None);
    assert_eq!(subject(&num(3, 1)), None);
}

#[test]
fn comparisons_have_the_column_on_either_side() {
    let ops = [
        (BinaryOp::Eq, CompareOp::Eq, CompareOp::Eq),
        (BinaryOp::Ne, CompareOp::Ne, CompareOp::Ne),
        (BinaryOp::Lt, CompareOp::Lt, CompareOp::Gt),
        (BinaryOp::Le, CompareOp::Le, CompareOp::Ge),
        (BinaryOp::Gt, CompareOp::Gt, CompareOp::Lt),
        (BinaryOp::Ge, CompareOp::Ge, CompareOp::Le),
    ];
    for (op, same, flipped) in ops {
        assert_eq!(
            parse_filter(&bin(op, id("field2", 1), num(42, 2), 3)),
            Ok(compare("field2", 1, same, whole(42, 2)))
        );
        assert_eq!(
            parse_filter(&bin(op, num(42, 1), id("field2", 2), 3)),
            Ok(compare("field2", 2, flipped, whole(42, 1)))
        );
    }
    assert_eq!(
        parse_filter(&bin(BinaryOp::Eq, id("field2", 1), id("value", 2), 3)),
        Ok(compare("field2", 1, CompareOp::Eq, Operand::HostExpr(at(2, 3))))
    );
    assert_eq!(parse_filter(&bin(BinaryOp::Eq, num(1, 1), num(2, 2), 3)), Err(failed(3)));
    assert_eq!(parse_filter(&bin(BinaryOp::Other, id("a", 1), num(2, 2), 3)), Err(failed(3)));
    assert_eq!(parse_filter(&bin(BinaryOp::Assign, id("a", 1), num(2, 2), 3)), Err(failed(3)));
}

#[test]
fn lengths_and_parts_are_compared() {
    assert_eq!(
        parse_filter(&bin(BinaryOp::Eq, call(id("field1", 1), "len", vec![], 2), num(6, 3), 4)),
        Ok(Filter::Leaf(Condition::Length(p("field1", 1), CompareOp::Eq, whole(6, 3))))
    );
    assert_eq!(
        parse_filter(&bin(BinaryOp::Lt, num(2015, 3), call(id("datetime", 1), "year", vec![], 2), 4)),
        Ok(Filter::Leaf(Condition::DatetimePart(
            p("datetime", 1),
            DatePart::Year,
            CompareOp::Gt,
            whole(2015, 3)
        )))
    );
}

#[test]
fn methods_are_predicates() {
    for (name, m) in [
        ("contains", MethodOp::Contains),
        ("starts_with", MethodOp::StartsWith),
        ("ends_with", MethodOp::EndsWith),
        ("regex", MethodOp::Regex),
        ("iregex", MethodOp::IRegex),
    ] {
        assert_eq!(
            parse_filter(&call(id("field1", 1), name, vec![txt("a", 2)], 3)),
            Ok(Filter::Leaf(Condition::MethodPredicate(p("field1", 1), m, string("a", 2))))
        );
        assert_eq!(parse_filter(&call(id("field1", 1), name, vec![], 3)), Err(failed(3)));
    }
    assert_eq!(
        parse_filter(&call(id("o", 1), "is_none", vec![], 3)),
        Ok(Filter::Leaf(Condition::NullPredicate(p("o", 1), NullOp::IsNone)))
    );
    assert_eq!(
        parse_filter(&call(id("o", 1), "is_some", vec![], 3)),
        Ok(Filter::Leaf(Condition::NullPredicate(p("o", 1), NullOp::IsSome)))
    );
    assert_eq!(parse_filter(&call(id("o", 1), "is_some", vec![num(1, 2)], 3)), Err(failed(3)));
    assert_eq!(parse_filter(&call(id("o", 1), "in", vec![txt("a", 2)], 3)), Err(no_method("in", 3)));
    assert_eq!(parse_filter(&call(num(1, 1), "contains", vec![txt("a", 2)], 3)), Err(failed(3)));
}

#[test]
fn boolean_operators_build_the_tree() {
    let a = || bin(BinaryOp::Eq, id("a", 1), num(1, 2), 3);
    let b = || bin(BinaryOp::Eq, id("b", 4), num(2, 5), 6);
    let c = || bin(BinaryOp::Eq, id("c", 7), num(3, 8), 9);
    let fa = || compare("a", 1, CompareOp::Eq, whole(1, 2));
    let fb = || compare("b", 4, CompareOp::Eq, whole(2, 5));
    let fc = || compare("c", 7, CompareOp::Eq, whole(3, 8));
    let expected = Filter::Or(Box::new(fa()), Box::new(Filter::And(Box::new(fb()), Box::new(fc()))));
    let bare = bin(BinaryOp::Or, a(), bin(BinaryOp::And, b(), c(), 10), 11);
    let grouped = bin(BinaryOp::Or, a(), paren(bin(BinaryOp::And, b(), c(), 10)), 11);
    assert_eq!(parse_filter(&bare), Ok(Filter::Or(Box::new(fa()), Box::new(Filter::And(Box::new(fb()), Box::new(fc()))))));
    assert_eq!(parse_filter(&grouped), Ok(expected));
    let other = bin(BinaryOp::And, paren(bin(BinaryOp::Or, a(), b(), 10)), c(), 11);
    assert_eq!(
        parse_filter(&other),
        Ok(Filter::And(Box::new(Filter::Or(Box::new(fa()), Box::new(fb()))), Box::new(fc())))
    );
    let not = |inner: Node| Node::UnaryOp(UnaryOp::Not, Box::new(inner), at(12, 13));
    assert_eq!(
        parse_filter(&not(not(paren(a())))),
        Ok(Filter::Not(Box::new(Filter::Not(Box::new(fa())))))
    );
    assert_eq!(
        parse_filter(&Node::BoolLit(false, at(1, 2))),
        Ok(Filter::Leaf(Condition::Constant(false)))
    );
}

#[test]
fn what_is_no_condition_is_refused_with_its_position() {
    assert_eq!(parse_filter(&num(3, 7)), Err(failed(7)));
    assert_eq!(parse_filter(&id("field1", 7)), Err(failed(7)));
    assert_eq!(
        parse_filter(&Node::UnaryOp(UnaryOp::Neg, Box::new(id("a", 1)), at(7, 8))),
        Err(failed(7))
    );
    let good = bin(BinaryOp::Eq, id("a", 1), num(1, 2), 3);
    let both = bin(BinaryOp::And, bin(BinaryOp::Or, num(1, 20), good, 4), txt("x", 30), 5);
    let mut expected = failed(20);
    expected.extend(failed(30));
    assert_eq!(parse_filter(&both), Err(expected));
}

#[test]
fn a_name_selects_all_the_rows() {
    assert_eq!(parse(&id("Table", 1)), Ok(Query::Select(all("Table", 1))));
    assert_eq!(parse(&paren(id("Table", 1))), Ok(Query::Select(all("Table", 1))));
    assert_eq!(parse(&call(id("Table", 1), "all", vec![], 2)), Ok(Query::Select(all("Table", 1))));
    assert_eq!(parse(&num(1, 5)), Err(failed(5)));
    assert_eq!(parse(&call(num(1, 5), "all", vec![], 2)), Err(failed(5)));
    assert_eq!(parse(&call(id("Table", 1), "fetch", vec![], 2)), Err(no_method("fetch", 2)));
    assert_eq!(parse(&call(id("Table", 1), "fetch", vec![num(1, 3)], 2)), Err(no_method("fetch", 2)));
}

#[test]
fn filters_are_joined_by_and() {
    let a = bin(BinaryOp::Eq, id("a", 1), num(1, 2), 3);
    let b = bin(BinaryOp::Eq, id("b", 4), num(2, 5), 6);
    let q = call(call(id("Table", 0), "filter", vec![a], 7), "filter", vec![b], 8);
    let mut expected = all("Table", 0);
    expected.filter = Some(Filter::And(
        Box::new(compare("a", 1, CompareOp::Eq, whole(1, 2))),
        Box::new(compare("b", 4, CompareOp::Eq, whole(2, 5))),
    ));
    assert_eq!(parse(&q), Ok(Query::Select(expected)));
    assert_eq!(parse(&call(id("Table", 0), "filter", vec![], 7)), Err(failed(7)));
}

#[test]
fn get_takes_a_key_or_a_condition() {
    let mut expected = all("Table", 0);
    expected.get_mode = GetMode::One;
    expected.filter = Some(Filter::Leaf(Condition::Compare(
        FieldPath { field: "id".to_string(), related: None, span: at(5, 6) },
        CompareOp::Eq,
        whole(1, 5),
    )));
    assert_eq!(parse(&call(id("Table", 0), "get", vec![num(1, 5)], 7)), Ok(Query::Select(expected)));

    let mut expected = all("Table", 0);
    expected.get_mode = GetMode::One;
    expected.filter = Some(Filter::Leaf(Condition::Compare(
        FieldPath { field: "id".to_string(), related: None, span: at(5, 6) },
        CompareOp::Eq,
        Operand::HostExpr(at(5, 6)),
    )));
    assert_eq!(parse(&call(id("Table", 0), "get", vec![id("key", 5)], 7)), Ok(Query::Select(expected)));

    let mut expected = all("Table", 0);
    expected.get_mode = GetMode::One;
    expected.filter = Some(compare("a", 1, CompareOp::Eq, whole(1, 2)));
    let condition = bin(BinaryOp::Eq, id("a", 1), num(1, 2), 3);
    assert_eq!(parse(&call(id("Table", 0), "get", vec![condition], 7)), Ok(Query::Select(expected)));

    let mut expected = all("Table", 0);
    expected.get_mode = GetMode::One;
    assert_eq!(parse(&call(id("Table", 0), "get", vec![], 7)), Ok(Query::Select(expected)));
    assert_eq!(parse(&call(id("Table", 0), "get", vec![num(1, 1), num(2, 2)], 7)), Err(failed(7)));
}

#[test]
fn sort_and_join_take_paths() {
    let minus = |inner: Node| Node::UnaryOp(UnaryOp::Neg, Box::new(inner), at(7, 9));
    let q = call(
        call(id("Table", 0), "sort", vec![minus(id("a", 1)), id("b", 2)], 3),
        "join",
        vec![id("c", 4), id("d", 5)],
        6,
    );
    let mut expected = all("Table", 0);
    expected.order = vec![
        Order { field: p("a", 1), direction: Direction::Desc },
        Order { field: p("b", 2), direction: Direction::Asc },
    ];
    expected.joins = vec![p("c", 4), p("d", 5)];
    assert_eq!(parse(&q), Ok(Query::Select(expected)));
    assert_eq!(parse(&call(id("Table", 0), "sort", vec![num(1, 4)], 3)), Err(failed(4)));
    let mut both = failed(4);
    both.extend(failed(6));
    assert_eq!(
        parse(&call(id("Table", 0), "join", vec![num(1, 4), id("ok", 5), txt("x", 6)], 3)),
        Err(both)
    );
}

#[test]
fn indexes_and_ranges_limit_the_rows() {
    let index = |i: Node| Node::Index(Box::new(id("Table", 0)), Box::new(i), at(9, 10));
    let range = |a: Option<Node>, b: Option<Node>| Node::Range(a.map(Box::new), b.map(Box::new), at(8, 9));
    let with = |limit: Option<Limit>, mode: GetMode| {
        let mut s = all("Table", 0);
        s.limit = limit;
        s.get_mode = mode;
        Ok(Query::Select(s))
    };
    assert_eq!(parse(&index(num(2, 1))), with(Some(Limit::Index(whole(2, 1))), GetMode::One));
    assert_eq!(
        parse(&index(range(Some(num(1, 1)), Some(num(3, 2))))),
        with(Some(Limit::Range(whole(1, 1), whole(3, 2))), GetMode::All)
    );
    assert_eq!(
        parse(&index(range(Some(id("a", 1)), None))),
        with(Some(Limit::StartRange(Operand::HostExpr(at(1, 2)))), GetMode::All)
    );
    assert_eq!(
        parse(&index(range(None, Some(num(3, 2))))),
        with(Some(Limit::EndRange(whole(3, 2))), GetMode::All)
    );
    assert_eq!(parse(&index(range(None, None))), with(None, GetMode::All));
    let twice = Node::Index(Box::new(index(num(2, 1))), Box::new(num(3, 2)), at(11, 12));
    assert_eq!(parse(&twice), Err(failed(11)));
    assert_eq!(
        parse(&call(index(num(2, 1)), "filter", vec![Node::BoolLit(true, at(1, 2))], 12)),
        Err(failed(12))
    );
}

#[test]
fn insert_update_delete_create_and_drop() {
    let set = |name: &str, value: Node, lo: u32| bin(BinaryOp::Assign, id(name, lo + 1), value, lo);
    let table = || TableRef { name: "Table".to_string(), span: at(0, 1) };
    let assignment = |name: &str, value: Operand, lo: u32| Assignment {
        field: name.to_string(),
        value,
        span: at(lo, lo + 1),
    };
    assert_eq!(
        parse(&call(id("Table", 0), "insert", vec![set("a", num(1, 3), 10), set("b", id("x", 4), 20)], 5)),
        Ok(Query::Insert {
            table: table(),
            assignments: vec![
                assignment("a", whole(1, 3), 10),
                assignment("b", Operand::HostExpr(at(4, 5)), 20)
            ],
        })
    );
    assert_eq!(parse(&call(id("Table", 0), "insert", vec![id("a", 3)], 5)), Err(failed(3)));
    let condition = || bin(BinaryOp::Eq, id("a", 1), num(1, 2), 3);
    let filtered = || call(id("Table", 0), "filter", vec![condition()], 7);
    assert_eq!(
        parse(&call(filtered(), "insert", vec![set("a", num(1, 3), 10)], 5)),
        Err(failed(5))
    );
    assert_eq!(
        parse(&call(filtered(), "update", vec![set("a", num(1, 3), 10)], 5)),
        Ok(Query::Update {
            table: table(),
            assignments: vec![assignment("a", whole(1, 3), 10)],
            filter: Some(compare("a", 1, CompareOp::Eq, whole(1, 2))),
        })
    );
    assert_eq!(
        parse(&call(filtered(), "delete", vec![], 5)),
        Ok(Query::Delete { table: table(), filter: Some(compare("a", 1, CompareOp::Eq, whole(1, 2))) })
    );
    assert_eq!(
        parse(&call(id("Table", 0), "delete", vec![], 5)),
        Ok(Query::Delete { table: table(), filter: None })
    );
    assert_eq!(
        parse(&call(id("Table", 0), "create", vec![], 5)),
        Ok(Query::CreateTable { table: table() })
    );
    assert_eq!(
        parse(&call(id("Table", 0), "drop", vec![], 5)),
        Ok(Query::DropTable { table: table() })
    );
    assert_eq!(parse(&call(filtered(), "drop", vec![], 5)), Err(failed(5)));
    assert_eq!(parse(&call(filtered(), "create", vec![], 5)), Err(failed(5)));
    assert_eq!(
        parse(&call(call(id("Table", 0), "drop", vec![], 5), "all", vec![], 6)),
        Err(failed(6))
    );
}

#[test]
fn values_and_aggregates() {
    let avg = |field: Node, lo: u32| Node::Call("avg".to_string(), vec![field], at(lo, lo + 1));
    let table = || TableRef { name: "Table".to_string(), span: at(0, 1) };
    let q = call(
        call(
            call(id("Table", 0), "values", vec![id("g", 1)], 2),
            "aggregate",
            vec![bin(BinaryOp::Assign, id("average", 3), avg(id("f", 4), 5), 6)],
            7,
        ),
        "filter",
        vec![bin(BinaryOp::Lt, id("average", 8), num(20, 9), 10)],
        11,
    );
    assert_eq!(
        parse(&q),
        Ok(Query::Aggregate {
            table: table(),
            aggregates: vec![Aggregate {
                function: AggregateFn::Avg,
                field: "f".to_string(),
                alias: Some("average".to_string()),
                span: at(6, 7),
            }],
            groups: vec![p("g", 1)],
            filter: None,
            having: Some(compare("average", 8, CompareOp::Lt, whole(20, 9))),
        })
    );
    let q = call(
        call(
            id("Table", 0),
            "filter",
            vec![bin(BinaryOp::Gt, id("f", 1), num(1, 2), 3)],
            4,
        ),
        "aggregate",
        vec![avg(id("f", 5), 6), Node::Call("max".to_string(), vec![id("h", 7)], at(8, 9))],
        10,
    );
    assert_eq!(
        parse(&q),
        Ok(Query::Aggregate {
            table: table(),
            aggregates: vec![
                Aggregate { function: AggregateFn::Avg, field: "f".to_string(), alias: None, span: at(6, 7) },
                Aggregate { function: AggregateFn::Max, field: "h".to_string(), alias: None, span: at(8, 9) },
            ],
            groups: vec![],
            filter: Some(compare("f", 1, CompareOp::Gt, whole(1, 2))),
            having: None,
        })
    );
    let unknown = Node::Call("median".to_string(), vec![id("f", 1)], at(2, 3));
    assert_eq!(parse(&call(id("Table", 0), "aggregate", vec![unknown], 4)), Err(failed(2)));
    assert_eq!(parse(&call(id("Table", 0), "aggregate", vec![avg(num(1, 1), 2)], 4)), Err(failed(2)));
    for (name, function) in [
        ("count", AggregateFn::Count),
        ("min", AggregateFn::Min),
        ("sum", AggregateFn::Sum),
    ] {
        let one = Node::Call(name.to_string(), vec![id("f", 1)], at(2, 3));
        assert_eq!(
            parse(&call(id("Table", 0), "aggregate", vec![one], 4)),
            Ok(Query::Aggregate {
                table: table(),
                aggregates: vec![Aggregate { function, field: "f".to_string(), alias: None, span: at(2, 3) }],
                groups: vec![],
                filter: None,
                having: None,
            })
        );
    }
}
