use tql_core::analyzer::{
    analyze, check_query, propose_similar_name, unknown_field_error, unknown_table_error,
};
use tql_core::error::{Error, Span};
use tql_core::query::{
    Aggregate, AggregateFn, Assignment, CompareOp, Condition, DatePart, Direction, FieldPath,
    Filter, GetMode, Limit, Literal, MethodOp, NullOp, Operand, Order, Query, Select, TableRef,
};
use tql_core::state::{Field, Placeholder, QueryRecord, Registry, Table, Type};

fn at(lo: u32, hi: u32) -> Span {
    Span { lo, hi }
}

fn field(name: &str, typ: Type) -> Field {
    Field { name: name.to_string(), typ, span: at(0, 0) }
}

fn registry() -> Registry {
    let mut related = Table::new("RTSE".to_string(), at(0, 0));
    related.insert(field("id", Type::Serial));
    related.insert(field("field1", Type::I32));
    let mut table = Table::new("TableSelectExpr".to_string(), at(0, 0));
    table.insert(field("id", Type::Serial));
    table.insert(field("field1", Type::String));
    table.insert(field("field2", Type::I32));
    table.insert(field("related_field", Type::ForeignKey("RTSE".to_string())));
    table.insert(field("optional_field", Type::Optional(Box::new(Type::I32))));
    table.insert(field("datetime", Type::DateTime));
    table.insert(field("dangling", Type::ForeignKey("Nowhere".to_string())));
    let mut registry = Registry::new();
    assert_eq!(registry.register(related), Ok(()));
    assert_eq!(registry.register(table), Ok(()));
    registry
}

fn path(name: &str, lo: u32) -> FieldPath {
    FieldPath { field: name.to_string(), related: None, span: at(lo, lo + 1) }
}

fn through(name: &str, column: &str, lo: u32) -> FieldPath {
    FieldPath { field: name.to_string(), related: Some(column.to_string()), span: at(lo, lo + 1) }
}

fn num(i: i64, lo: u32) -> Operand {
    Operand::Literal(Literal::Int(i), at(lo, lo + 1))
}

fn text(s: &str, lo: u32) -> Operand {
    Operand::Literal(Literal::Str(s.to_string()), at(lo, lo + 1))
}

fn truth(b: bool, lo: u32) -> Operand {
    Operand::Literal(Literal::Bool(b), at(lo, lo + 1))
}

fn host(lo: u32) -> Operand {
    Operand::HostExpr(at(lo, lo + 1))
}

fn table_ref(name: &str) -> TableRef {
    TableRef { name: name.to_string(), span: at(90, 99) }
}

fn select(filter: Option<Filter>) -> Select {
    Select {
        table: table_ref("TableSelectExpr"),
        filter,
        joins: vec![],
        order: vec![],
        limit: None,
        get_mode: GetMode::All,
    }
}

fn leaf(c: Condition) -> Query {
    Query::Select(select(Some(Filter::Leaf(c))))
}

fn unknown(name: &str, table: &str, lo: u32) -> Error {
    Error::new(
        format!(
            "attempted access of field `{}` on type `{}`, but no field with that name was found",
            name, table
        ),
        at(lo, lo + 1),
    )
}

fn mismatch(expected: &str, found: &str, lo: u32) -> Error {
    Error::new_with_code(
        format!("mismatched types:\n expected `{}`,    found `{}`", expected, found),
        at(lo, lo + 1),
        "E0308",
    )
}

fn no_method(name: &str, typ: &str, lo: u32) -> Error {
    Error::new_with_code(
        format!("no method named `{}` found for type `{}`", name, typ),
        at(lo, lo + 1),
        "E0599",
    )
}

fn diagnostics(q: &Query) -> Vec<Error> {
    check_query(q, &registry())
}

#[test]
fn a_help_proposes_the_nearest_name() {
    let candidates = vec!["field1".to_string(), "field2".to_string()];
    let mut errors = vec![];
    propose_similar_name("fild2", &candidates, at(1, 2), &mut errors);
    assert_eq!(errors, vec![Error::new_help("did you mean `field2`?".to_string(), at(1, 2))]);
    propose_similar_name("something_else", &candidates, at(1, 2), &mut errors);
    assert_eq!(errors.len(), 1);
}

#[test]
fn an_unknown_table_is_an_error_with_a_proposal() {
    let mut errors = vec![];
    unknown_table_error("TableSelectExp", at(1, 2), &registry(), &mut errors);
    assert_eq!(
        errors,
        vec![
            Error::new("`TableSelectExp` does not name an SQL table".to_string(), at(1, 2)),
            Error::new_help("did you mean `TableSelectExpr`?".to_string(), at(1, 2)),
        ]
    );
    let mut errors = vec![];
    unknown_table_error("Connection", at(3, 4), &registry(), &mut errors);
    assert_eq!(
        errors,
        vec![Error::new("`Connection` does not name an SQL table".to_string(), at(3, 4))]
    );
}

#[test]
fn an_unknown_field_is_an_error_with_a_proposal() {
    let mut errors = vec![];
    let candidates = vec!["id".to_string(), "field1".to_string()];
    unknown_field_error("feld1", "Table", &candidates, at(1, 2), &mut errors);
    assert_eq!(
        errors,
        vec![unknown("feld1", "Table", 1), Error::new_help("did you mean `field1`?".to_string(), at(1, 2))]
    );
}

#[test]
fn a_query_on_an_unknown_table_is_refused() {
    let mut s = select(None);
    s.table = table_ref("RTS");
    let expected = vec![
        Error::new("`RTS` does not name an SQL table".to_string(), at(90, 99)),
        Error::new_help("did you mean `RTSE`?".to_string(), at(90, 99)),
    ];
    assert_eq!(diagnostics(&Query::Select(select(None))), vec![]);
    assert_eq!(analyze(&Query::Select(s), &registry(), at(0, 1)), Err(expected));
}

#[test]
fn values_of_an_unknown_field_are_refused() {
    let q = Query::Aggregate {
        table: table_ref("TableSelectExpr"),
        aggregates: vec![Aggregate {
            function: AggregateFn::Avg,
            field: "field2".to_string(),
            alias: None,
            span: at(20, 30),
        }],
        groups: vec![path("nonexistent", 10)],
        filter: None,
        having: None,
    };
    assert_eq!(
        analyze(&q, &registry(), at(0, 1)),
        Err(vec![unknown("nonexistent", "TableSelectExpr", 10)])
    );
}

#[test]
fn literals_have_to_fit_their_columns() {
    let compare = |name: &str, x: Operand| leaf(Condition::Compare(path(name, 1), CompareOp::Eq, x));
    assert_eq!(diagnostics(&compare("field2", num(1, 5))), vec![]);
    assert_eq!(diagnostics(&compare("id", num(1, 5))), vec![]);
    assert_eq!(diagnostics(&compare("field1", text("a", 5))), vec![]);
    assert_eq!(diagnostics(&compare("optional_field", num(1, 5))), vec![]);
    assert_eq!(diagnostics(&compare("field2", host(5))), vec![]);
    assert_eq!(diagnostics(&compare("related_field", host(5))), vec![]);
    assert_eq!(
        diagnostics(&compare("field2", text("a", 5))),
        vec![mismatch("i32", "&'static str", 5)]
    );
    assert_eq!(
        diagnostics(&compare("field1", num(3, 5))),
        vec![mismatch("String", "integral variable", 5)]
    );
    assert_eq!(
        diagnostics(&compare("optional_field", truth(true, 5))),
        vec![mismatch("Option<i32>", "bool", 5)]
    );
    assert_eq!(
        diagnostics(&compare("related_field", num(3, 5))),
        vec![mismatch("ForeignKey<RTSE>", "integral variable", 5)]
    );
    assert_eq!(
        diagnostics(&compare("datetime", text("2015", 5))),
        vec![mismatch("DateTime", "&'static str", 5)]
    );
}

#[test]
fn methods_need_the_right_receiver() {
    let contains = |name: &str, x: Operand| {
        leaf(Condition::MethodPredicate(path(name, 1), MethodOp::Contains, x))
    };
    assert_eq!(diagnostics(&contains("field1", text("a", 5))), vec![]);
    assert_eq!(diagnostics(&contains("field1", host(5))), vec![]);
    assert_eq!(
        diagnostics(&contains("field1", num(2, 5))),
        vec![mismatch("String", "integral variable", 5)]
    );
    assert_eq!(diagnostics(&contains("field2", text("a", 5))), vec![no_method("contains", "i32", 1)]);
    let iregex = leaf(Condition::MethodPredicate(path("id", 1), MethodOp::IRegex, host(5)));
    assert_eq!(diagnostics(&iregex), vec![no_method("iregex", "i32", 1)]);

    let is_none = |name: &str| leaf(Condition::NullPredicate(path(name, 1), NullOp::IsNone));
    assert_eq!(diagnostics(&is_none("optional_field")), vec![]);
    assert_eq!(diagnostics(&is_none("field1")), vec![no_method("is_none", "String", 1)]);
    let is_some = leaf(Condition::NullPredicate(path("field2", 1), NullOp::IsSome));
    assert_eq!(diagnostics(&is_some), vec![no_method("is_some", "i32", 1)]);

    let len = |name: &str, x: Operand| leaf(Condition::Length(path(name, 1), CompareOp::Eq, x));
    assert_eq!(diagnostics(&len("field1", num(6, 5))), vec![]);
    assert_eq!(diagnostics(&len("field1", text("6", 5))), vec![mismatch("i64", "&'static str", 5)]);
    assert_eq!(diagnostics(&len("field2", num(6, 5))), vec![no_method("len", "i32", 1)]);

    let year = |name: &str, x: Operand| {
        leaf(Condition::DatetimePart(path(name, 1), DatePart::Year, CompareOp::Eq, x))
    };
    assert_eq!(diagnostics(&year("datetime", num(2015, 5))), vec![]);
    assert_eq!(diagnostics(&year("datetime", truth(false, 5))), vec![mismatch("i64", "bool", 5)]);
    assert_eq!(diagnostics(&year("field1", num(2015, 5))), vec![no_method("year", "String", 1)]);
}

#[test]
fn paths_through_foreign_keys_are_resolved() {
    let compare = |p: FieldPath, x: Operand| leaf(Condition::Compare(p, CompareOp::Eq, x));
    assert_eq!(diagnostics(&compare(through("related_field", "field1", 1), num(1, 5))), vec![]);
    assert_eq!(
        diagnostics(&compare(through("related_field", "field1", 1), text("a", 5))),
        vec![mismatch("i32", "&'static str", 5)]
    );
    assert_eq!(
        diagnostics(&compare(through("related_field", "fild1", 1), num(1, 5))),
        vec![unknown("fild1", "RTSE", 1), Error::new_help("did you mean `field1`?".to_string(), at(1, 2))]
    );
    assert_eq!(
        diagnostics(&compare(through("field2", "field1", 1), num(1, 5))),
        vec![mismatch("ForeignKey<_>", "i32", 1)]
    );
    assert_eq!(
        diagnostics(&compare(through("dangling", "field1", 1), num(1, 5))),
        vec![Error::new("`Nowhere` does not name an SQL table".to_string(), at(1, 2))]
    );
    assert_eq!(
        diagnostics(&compare(through("relate_field", "field1", 1), num(1, 5))),
        vec![
            unknown("relate_field", "TableSelectExpr", 1),
            Error::new_help("did you mean `related_field`?".to_string(), at(1, 2)),
        ]
    );
}

#[test]
fn all_the_diagnostics_of_a_query_are_gathered_in_order() {
    let mut s = select(Some(Filter::And(
        Box::new(Filter::Not(Box::new(Filter::Leaf(Condition::Compare(
            path("missing_one", 1),
            CompareOp::Eq,
            num(1, 2),
        ))))),
        Box::new(Filter::Or(
            Box::new(Filter::Leaf(Condition::Compare(path("field2", 3), CompareOp::Lt, text("x", 4)))),
            Box::new(Filter::Leaf(Condition::Constant(true))),
        )),
    )));
    s.joins = vec![path("related_field", 10), path("field1", 11), path("dangling", 12), path("nope", 13)];
    s.order = vec![
        Order { field: path("field1", 20), direction: Direction::Asc },
        Order { field: path("fiel", 21), direction: Direction::Desc },
    ];
    s.limit = Some(Limit::Range(text("a", 30), truth(true, 31)));
    let expected = vec![
        mismatch("ForeignKey<_>", "String", 11),
        Error::new("`Nowhere` does not name an SQL table".to_string(), at(12, 13)),
        unknown("nope", "TableSelectExpr", 13),
        unknown("missing_one", "TableSelectExpr", 1),
        mismatch("i32", "&'static str", 4),
        unknown("fiel", "TableSelectExpr", 21),
        Error::new_help("did you mean `field1`?".to_string(), at(21, 22)),
        mismatch("i64", "&'static str", 30),
        mismatch("i64", "bool", 31),
    ];
    assert_eq!(analyze(&Query::Select(s), &registry(), at(0, 1)), Err(expected));
}

#[test]
fn assignments_are_checked() {
    let assign = |name: &str, value: Operand, lo: u32| Assignment {
        field: name.to_string(),
        value,
        span: at(lo, lo + 1),
    };
    let q = Query::Insert {
        table: table_ref("TableSelectExpr"),
        assignments: vec![
            assign("field1", text("value1", 1), 10),
            assign("field2", text("55", 2), 11),
            assign("related_field", host(3), 12),
            assign("field3", num(1, 4), 13),
        ],
    };
    assert_eq!(
        diagnostics(&q),
        vec![
            mismatch("i32", "&'static str", 2),
            unknown("field3", "TableSelectExpr", 13),
            Error::new_help("did you mean `field1`?".to_string(), at(13, 14)),
        ]
    );
    let q = Query::Update {
        table: table_ref("TableSelectExpr"),
        assignments: vec![assign("field2", num(1, 1), 10)],
        filter: Some(Filter::Leaf(Condition::Compare(path("id", 2), CompareOp::Eq, truth(true, 3)))),
    };
    assert_eq!(diagnostics(&q), vec![mismatch("i32", "bool", 3)]);
}

#[test]
fn conditions_on_groups_are_about_aggregates() {
    let aggregate = |having: Filter| Query::Aggregate {
        table: table_ref("TableSelectExpr"),
        aggregates: vec![
            Aggregate {
                function: AggregateFn::Avg,
                field: "field2".to_string(),
                alias: Some("average".to_string()),
                span: at(20, 21),
            },
            Aggregate {
                function: AggregateFn::Max,
                field: "field9".to_string(),
                alias: None,
                span: at(22, 23),
            },
        ],
        groups: vec![path("field1", 10)],
        filter: Some(Filter::Leaf(Condition::Compare(path("field2", 1), CompareOp::Gt, num(1, 2)))),
        having: Some(having),
    };
    let field9 = vec![unknown("field9", "TableSelectExpr", 22), Error::new_help("did you mean `field1`?".to_string(), at(22, 23))];
    let on = |name: &str, x: Operand| Filter::Leaf(Condition::Compare(path(name, 30), CompareOp::Lt, x));
    assert_eq!(diagnostics(&aggregate(on("average", num(20, 31)))), field9);
    assert_eq!(diagnostics(&aggregate(on("average", host(31)))), field9);
    let mut expected = field9.clone();
    expected.push(mismatch("i64", "&'static str", 31));
    assert_eq!(diagnostics(&aggregate(on("average", text("x", 31)))), expected);
    let mut expected = field9.clone();
    expected.push(Error::new("no aggregate field named `field2` was found".to_string(), at(30, 31)));
    assert_eq!(diagnostics(&aggregate(on("field2", num(20, 31)))), expected);
    let mut expected = field9.clone();
    expected.push(Error::new("no aggregate field named `average` was found".to_string(), at(30, 31)));
    assert_eq!(
        diagnostics(&aggregate(Filter::Leaf(Condition::NullPredicate(path("average", 30), NullOp::IsNone)))),
        expected
    );
}

#[test]
fn host_expressions_are_recorded_with_their_positions() {
    let mut s = select(Some(Filter::And(
        Box::new(Filter::Leaf(Condition::Compare(path("field2", 1), CompareOp::Gt, host(2)))),
        Box::new(Filter::Or(
            Box::new(Filter::Leaf(Condition::Compare(path("field1", 3), CompareOp::Eq, text("x", 4)))),
            Box::new(Filter::Not(Box::new(Filter::Leaf(Condition::Compare(
                through("related_field", "field1", 5),
                CompareOp::Ne,
                host(6),
            ))))),
        )),
    )));
    s.limit = Some(Limit::Range(num(1, 7), Operand::HostExpr(at(8, 12))));
    let record = |name: &str, via: Option<&str>, span: Span, ordinal: usize| Placeholder {
        name: name.to_string(),
        via: via.map(|v| v.to_string()),
        span,
        call_site: at(50, 60),
        ordinal,
    };
    assert_eq!(
        analyze(&Query::Select(s), &registry(), at(50, 60)),
        Ok(QueryRecord {
            table_name: "TableSelectExpr".to_string(),
            placeholders: vec![
                record("field2", None, at(2, 3), 0),
                record("field1", Some("related_field"), at(6, 7), 2),
                record("i64", None, at(7, 12), 3),
            ],
        })
    );
}

#[test]
fn tests_of_optional_columns_record_nothing() {
    let q = Query::Select(select(Some(Filter::Or(
        Box::new(Filter::Leaf(Condition::NullPredicate(path("optional_field", 1), NullOp::IsNone))),
        Box::new(Filter::Leaf(Condition::NullPredicate(path("optional_field", 2), NullOp::IsSome))),
    ))));
    assert_eq!(
        analyze(&q, &registry(), at(50, 60)),
        Ok(QueryRecord { table_name: "TableSelectExpr".to_string(), placeholders: vec![] })
    );
}

#[test]
fn operands_compared_with_aggregates_are_recorded_as_integers() {
    let q = Query::Aggregate {
        table: table_ref("TableSelectExpr"),
        aggregates: vec![Aggregate {
            function: AggregateFn::Avg,
            field: "field2".to_string(),
            alias: Some("average".to_string()),
            span: at(20, 21),
        }],
        groups: vec![],
        filter: Some(Filter::Leaf(Condition::Compare(path("field2", 1), CompareOp::Gt, host(2)))),
        having: Some(Filter::Leaf(Condition::Compare(path("average", 3), CompareOp::Lt, host(4)))),
    };
    let record = |name: &str, span: Span, ordinal: usize| Placeholder {
        name: name.to_string(),
        via: None,
        span,
        call_site: at(50, 60),
        ordinal,
    };
    assert_eq!(
        analyze(&q, &registry(), at(50, 60)),
        Ok(QueryRecord {
            table_name: "TableSelectExpr".to_string(),
            placeholders: vec![record("field2", at(2, 3), 0), record("i64", at(4, 5), 1)],
        })
    );
}
