use tql_core::error::Span;
use tql_core::query::{
    Aggregate, AggregateFn, Assignment, CompareOp, Condition, DatePart, Direction, FieldPath,
    Filter, GetMode, Limit, Literal, MethodOp, NullOp, Operand, Order, Query, Select, TableRef,
};
use tql_core::sql::{generate, Arg, Dialect, GenerateError};
use tql_core::state::{Field, Registry, Table, Type};

fn sp(lo: u32, hi: u32) -> Span {
    Span { lo, hi }
}

fn field(name: &str, typ: Type) -> Field {
    Field { name: name.to_string(), typ, span: sp(0, 0) }
}

fn registry() -> Registry {
    let mut related = Table::new("RTSE".to_string(), sp(0, 0));
    related.insert(field("id", Type::Serial));
    related.insert(field("field1", Type::I32));
    let mut table = Table::new("TableSelectExpr".to_string(), sp(0, 0));
    table.insert(field("id", Type::Serial));
    table.insert(field("field1", Type::String));
    table.insert(field("field2", Type::I32));
    table.insert(field("related_field", Type::ForeignKey("RTSE".to_string())));
    table.insert(field("optional_field", Type::Optional(Box::new(Type::I32))));
    table.insert(field("datetime", Type::DateTime));
    let mut registry = Registry::new();
    assert_eq!(registry.register(related), Ok(()));
    assert_eq!(registry.register(table), Ok(()));
    registry
}

fn path(name: &str) -> FieldPath {
    FieldPath { field: name.to_string(), related: None, span: sp(0, 0) }
}

fn num(i: i64) -> Operand {
    Operand::Literal(Literal::Int(i), sp(0, 0))
}

fn text(s: &str) -> Operand {
    Operand::Literal(Literal::Str(s.to_string()), sp(0, 0))
}

fn compare(name: &str, op: CompareOp, x: Operand) -> Filter {
    Filter::Leaf(Condition::Compare(path(name), op, x))
}

fn select(filter: Option<Filter>) -> Select {
    Select {
        table: TableRef { name: "TableSelectExpr".to_string(), span: sp(0, 0) },
        filter,
        joins: vec![],
        order: vec![],
        limit: None,
        get_mode: GetMode::All,
    }
}

const COLUMNS: &str =
    "SELECT id, field1, field2, related_field, optional_field, datetime FROM TableSelectExpr";

fn values(args: &[tql_core::sql::Binding]) -> Vec<Arg> {
    args.iter().map(|b| b.arg.clone()).collect()
}

#[test]
fn select_all_lists_columns_in_registration_order() {
    let g = generate(&Query::Select(select(None)), &registry(), Dialect::Postgres).unwrap();
    assert_eq!(g.sql, COLUMNS);
    assert!(g.args.is_empty());
}

#[test]
fn filter_on_one_field() {
    let q = Query::Select(select(Some(compare("field1", CompareOp::Eq, text("value1")))));
    let g = generate(&q, &registry(), Dialect::Postgres).unwrap();
    assert_eq!(g.sql, format!("{} WHERE field1 = $1", COLUMNS));
    assert_eq!(values(&g.args), vec![Arg::Value(text("value1"))]);
    assert_eq!(g.args[0].name, "field1");
}

#[test]
fn filter_or_passes_text_through() {
    let f = Filter::Or(
        Box::new(compare("field2", CompareOp::Ge, num(42))),
        Box::new(compare("field1", CompareOp::Eq, text("te'\"\\st"))),
    );
    let g = generate(&Query::Select(select(Some(f))), &registry(), Dialect::Postgres).unwrap();
    assert_eq!(g.sql, format!("{} WHERE field2 >= $1 OR field1 = $2", COLUMNS));
    assert_eq!(values(&g.args), vec![Arg::Value(num(42)), Arg::Value(text("te'\"\\st"))]);
}

#[test]
fn filter_or_under_and_is_wrapped() {
    let f = Filter::And(
        Box::new(Filter::Or(
            Box::new(compare("field1", CompareOp::Eq, text("value2"))),
            Box::new(compare("field2", CompareOp::Lt, num(100))),
        )),
        Box::new(compare("field1", CompareOp::Eq, text("value1"))),
    );
    let g = generate(&Query::Select(select(Some(f))), &registry(), Dialect::Postgres).unwrap();
    assert_eq!(
        g.sql,
        format!("{} WHERE (field1 = $1 OR field2 < $2) AND field1 = $3", COLUMNS)
    );
    assert_eq!(g.args.len(), 3);
}

#[test]
fn is_none_binds_nothing() {
    let f = Filter::Leaf(Condition::NullPredicate(path("optional_field"), NullOp::IsNone));
    let g = generate(&Query::Select(select(Some(f))), &registry(), Dialect::Postgres).unwrap();
    assert_eq!(g.sql, format!("{} WHERE optional_field IS NULL", COLUMNS));
    assert!(g.args.is_empty());
}

#[test]
fn datetime_parts_on_postgres() {
    let part = |p: DatePart, v: i64| {
        Filter::Leaf(Condition::DatetimePart(path("datetime"), p, CompareOp::Eq, num(v)))
    };
    let f = Filter::And(
        Box::new(Filter::And(
            Box::new(part(DatePart::Year, 2015)),
            Box::new(part(DatePart::Month, 11)),
        )),
        Box::new(part(DatePart::Day, 16)),
    );
    let g = generate(&Query::Select(select(Some(f))), &registry(), Dialect::Postgres).unwrap();
    assert_eq!(
        g.sql,
        format!(
            "{} WHERE EXTRACT(YEAR FROM datetime) = $1 AND EXTRACT(MONTH FROM datetime) = $2 AND EXTRACT(DAY FROM datetime) = $3",
            COLUMNS
        )
    );
    assert_eq!(values(&g.args), vec![Arg::Value(num(2015)), Arg::Value(num(11)), Arg::Value(num(16))]);
}

#[test]
fn filter_sort_and_range() {
    let mut s = select(Some(compare("field2", CompareOp::Gt, num(10))));
    s.order = vec![Order { field: path("field1"), direction: Direction::Desc }];
    s.limit = Some(Limit::Range(num(1), num(3)));
    let g = generate(&Query::Select(s), &registry(), Dialect::Postgres).unwrap();
    assert_eq!(
        g.sql,
        format!("{} WHERE field2 > $1 ORDER BY field1 DESC LIMIT 2 OFFSET 1", COLUMNS)
    );
    assert_eq!(values(&g.args), vec![Arg::Value(num(10))]);
}

#[test]
fn unknown_table_is_refused() {
    let mut s = select(None);
    s.table.name = "Missing".to_string();
    assert_eq!(
        generate(&Query::Select(s), &registry(), Dialect::Postgres),
        Err(GenerateError::UnknownTable)
    );
}

fn host(lo: u32) -> Operand {
    Operand::HostExpr(sp(lo, lo + 1))
}

fn sql_of(q: Query, dialect: Dialect) -> String {
    generate(&q, &registry(), dialect).unwrap().sql
}

#[test]
fn sqlite_is_the_default_dialect() {
    assert_eq!(Dialect::default(), Dialect::Sqlite);
}

#[test]
fn sqlite_placeholders_are_question_marks() {
    let f = Filter::Or(
        Box::new(compare("field2", CompareOp::Ge, num(42))),
        Box::new(compare("field1", CompareOp::Ne, text("x"))),
    );
    let g = generate(&Query::Select(select(Some(f))), &registry(), Dialect::Sqlite).unwrap();
    assert_eq!(g.sql, format!("{} WHERE field2 >= ? OR field1 <> ?", COLUMNS));
    assert_eq!(values(&g.args), vec![Arg::Value(num(42)), Arg::Value(text("x"))]);
}

#[test]
fn placeholders_are_numbered_past_nine() {
    let mut f = compare("field2", CompareOp::Eq, num(0));
    for i in 1..12 {
        f = Filter::Or(Box::new(f), Box::new(compare("field2", CompareOp::Eq, num(i))));
    }
    let g = generate(&Query::Select(select(Some(f))), &registry(), Dialect::Postgres).unwrap();
    let conditions: Vec<String> = (1..13).map(|i| format!("field2 = ${}", i)).collect();
    assert_eq!(g.sql, format!("{} WHERE {}", COLUMNS, conditions.join(" OR ")));
    let expected: Vec<Arg> = (0..12).map(|i| Arg::Value(num(i))).collect();
    assert_eq!(values(&g.args), expected);
}

#[test]
fn datetime_parts_on_sqlite() {
    let parts = [
        (DatePart::Year, "%Y"),
        (DatePart::Month, "%m"),
        (DatePart::Day, "%d"),
        (DatePart::Hour, "%H"),
        (DatePart::Minute, "%M"),
        (DatePart::Second, "%S"),
    ];
    for (part, format) in parts {
        let f = Filter::Leaf(Condition::DatetimePart(path("datetime"), part, CompareOp::Lt, num(7)));
        assert_eq!(
            sql_of(Query::Select(select(Some(f))), Dialect::Sqlite),
            format!("{} WHERE strftime('{}', datetime) < ?", COLUMNS, format)
        );
    }
}

#[test]
fn text_methods() {
    let on = |m: MethodOp| {
        Query::Select(select(Some(Filter::Leaf(Condition::MethodPredicate(path("field1"), m, host(1))))))
    };
    let expect = |m: MethodOp, d: Dialect, rest: &str| {
        assert_eq!(sql_of(on(m), d), format!("{} WHERE field1{}", COLUMNS, rest));
    };
    expect(MethodOp::Contains, Dialect::Postgres, " LIKE '%'||$1||'%'");
    expect(MethodOp::Contains, Dialect::Sqlite, " LIKE '%'||?||'%'");
    expect(MethodOp::StartsWith, Dialect::Postgres, " LIKE $1||'%'");
    expect(MethodOp::EndsWith, Dialect::Postgres, " LIKE '%'||$1");
    expect(MethodOp::Regex, Dialect::Postgres, " ~ $1");
    expect(MethodOp::IRegex, Dialect::Postgres, " ~* $1");
    expect(MethodOp::IRegex, Dialect::Sqlite, " LIKE ? COLLATE NOCASE");
    assert_eq!(
        generate(&on(MethodOp::Regex), &registry(), Dialect::Sqlite),
        Err(GenerateError::UnsupportedRegex)
    );
    let nested = Filter::Not(Box::new(Filter::And(
        Box::new(compare("field2", CompareOp::Eq, num(1))),
        Box::new(Filter::Leaf(Condition::MethodPredicate(path("field1"), MethodOp::Regex, host(1)))),
    )));
    assert_eq!(
        generate(&Query::Select(select(Some(nested))), &registry(), Dialect::Sqlite),
        Err(GenerateError::UnsupportedRegex)
    );
}

#[test]
fn lengths_and_null_tests_and_constants() {
    let f = Filter::Leaf(Condition::Length(path("field1"), CompareOp::Le, num(6)));
    assert_eq!(
        sql_of(Query::Select(select(Some(f))), Dialect::Postgres),
        format!("{} WHERE CHAR_LENGTH(field1) <= $1", COLUMNS)
    );
    let f = Filter::Leaf(Condition::NullPredicate(path("optional_field"), NullOp::IsSome));
    assert_eq!(
        sql_of(Query::Select(select(Some(f))), Dialect::Postgres),
        format!("{} WHERE optional_field IS NOT NULL", COLUMNS)
    );
    let f = Filter::Or(
        Box::new(Filter::Leaf(Condition::Constant(true))),
        Box::new(Filter::Leaf(Condition::Constant(false))),
    );
    assert_eq!(
        sql_of(Query::Select(select(Some(f))), Dialect::Postgres),
        format!("{} WHERE 1 = 1 OR 1 = 0", COLUMNS)
    );
}

#[test]
fn negations_nest() {
    let inner = compare("field2", CompareOp::Lt, num(24));
    let f = Filter::Not(Box::new(Filter::Not(Box::new(inner))));
    let g = generate(&Query::Select(select(Some(f))), &registry(), Dialect::Postgres).unwrap();
    assert_eq!(g.sql, format!("{} WHERE NOT (NOT (field2 < $1))", COLUMNS));
    assert_eq!(g.args.len(), 1);
}

#[test]
fn mixed_operators_are_wrapped_both_ways() {
    let a = || compare("field1", CompareOp::Eq, text("a"));
    let b = || compare("field2", CompareOp::Lt, num(1));
    let c = || compare("field2", CompareOp::Gt, num(2));
    let or_of_and = Filter::Or(Box::new(a()), Box::new(Filter::And(Box::new(b()), Box::new(c()))));
    assert_eq!(
        sql_of(Query::Select(select(Some(or_of_and))), Dialect::Postgres),
        format!("{} WHERE field1 = $1 OR (field2 < $2 AND field2 > $3)", COLUMNS)
    );
    let and_of_or = Filter::And(Box::new(Filter::Or(Box::new(a()), Box::new(b()))), Box::new(c()));
    assert_eq!(
        sql_of(Query::Select(select(Some(and_of_or))), Dialect::Postgres),
        format!("{} WHERE (field1 = $1 OR field2 < $2) AND field2 > $3", COLUMNS)
    );
    let same = Filter::And(Box::new(a()), Box::new(Filter::And(Box::new(b()), Box::new(c()))));
    assert_eq!(
        sql_of(Query::Select(select(Some(same))), Dialect::Postgres),
        format!("{} WHERE field1 = $1 AND field2 < $2 AND field2 > $3", COLUMNS)
    );
}

#[test]
fn indexes_and_ranges() {
    let with = |limit: Limit| {
        let mut s = select(None);
        s.limit = Some(limit);
        generate(&Query::Select(s), &registry(), Dialect::Postgres).unwrap()
    };
    let limited = |limit: Limit, rest: &str, args: Vec<Arg>| {
        let g = with(limit);
        assert_eq!(g.sql, format!("{}{}", COLUMNS, rest));
        assert_eq!(values(&g.args), args);
        for b in g.args {
            assert_eq!(b.name, "i64");
            assert_eq!(b.via, None);
        }
    };
    limited(Limit::Index(num(2)), " LIMIT 1 OFFSET 2", vec![]);
    limited(Limit::Index(host(5)), " LIMIT 1 OFFSET $1", vec![Arg::Value(host(5))]);
    limited(Limit::Range(num(1), num(3)), " LIMIT 2 OFFSET 1", vec![]);
    limited(Limit::Range(num(3), num(1)), " LIMIT -2 OFFSET 3", vec![]);
    limited(
        Limit::Range(num(i64::MIN), num(i64::MAX)),
        " LIMIT 18446744073709551615 OFFSET -9223372036854775808",
        vec![],
    );
    limited(
        Limit::Range(host(5), host(7)),
        " LIMIT $1 OFFSET $2",
        vec![Arg::Difference(host(7), host(5)), Arg::Value(host(5))],
    );
    limited(
        Limit::Range(num(1), host(7)),
        " LIMIT $1 OFFSET 1",
        vec![Arg::Difference(host(7), num(1))],
    );
    limited(Limit::EndRange(num(2)), " LIMIT 2", vec![]);
    limited(Limit::EndRange(host(7)), " LIMIT $1", vec![Arg::Value(host(7))]);
    limited(Limit::StartRange(num(4)), " OFFSET 4", vec![]);
    limited(Limit::StartRange(host(7)), " OFFSET $1", vec![Arg::Value(host(7))]);
    limited(Limit::Index(text("x")), " LIMIT 1 OFFSET $1", vec![Arg::Value(text("x"))]);
}

#[test]
fn sort_lists_its_columns() {
    let mut s = select(None);
    s.order = vec![
        Order { field: path("field1"), direction: Direction::Asc },
        Order { field: path("field2"), direction: Direction::Desc },
        Order {
            field: FieldPath {
                field: "related_field".to_string(),
                related: Some("field1".to_string()),
                span: sp(0, 0),
            },
            direction: Direction::Asc,
        },
    ];
    assert_eq!(
        sql_of(Query::Select(s), Dialect::Postgres),
        format!("{} ORDER BY field1 ASC, field2 DESC, RTSE.field1 ASC", COLUMNS)
    );
}

#[test]
fn joins_add_the_columns_of_the_joined_table() {
    let mut s = select(Some(Filter::And(
        Box::new(compare("field2", CompareOp::Eq, num(1))),
        Box::new(Filter::Leaf(Condition::Compare(
            FieldPath {
                field: "related_field".to_string(),
                related: Some("field1".to_string()),
                span: sp(0, 0),
            },
            CompareOp::Gt,
            host(3),
        ))),
    )));
    s.joins = vec![path("related_field")];
    s.order = vec![Order { field: path("id"), direction: Direction::Asc }];
    let g = generate(&Query::Select(s), &registry(), Dialect::Postgres).unwrap();
    assert_eq!(
        g.sql,
        "SELECT TableSelectExpr.id, TableSelectExpr.field1, TableSelectExpr.field2, \
         TableSelectExpr.related_field, TableSelectExpr.optional_field, TableSelectExpr.datetime, \
         RTSE.id, RTSE.field1 FROM TableSelectExpr \
         JOIN RTSE ON TableSelectExpr.related_field = RTSE.id \
         WHERE TableSelectExpr.field2 = $1 AND RTSE.field1 > $2 ORDER BY TableSelectExpr.id ASC"
    );
    assert_eq!(g.args[0].name, "field2");
    assert_eq!(g.args[0].via, None);
    assert_eq!(g.args[1].name, "field1");
    assert_eq!(g.args[1].via, Some("related_field".to_string()));
}

#[test]
fn joins_that_do_not_resolve_are_refused() {
    for name in ["field1", "missing"] {
        let mut s = select(None);
        s.joins = vec![path("related_field"), path(name)];
        assert_eq!(
            generate(&Query::Select(s), &registry(), Dialect::Postgres),
            Err(GenerateError::UnresolvedJoin)
        );
    }
}

#[test]
fn insert_update_delete_and_drop() {
    let table = || TableRef { name: "TableSelectExpr".to_string(), span: sp(0, 0) };
    let assign = |name: &str, value: Operand| Assignment {
        field: name.to_string(),
        value,
        span: sp(0, 0),
    };
    let g = generate(
        &Query::Insert {
            table: table(),
            assignments: vec![assign("field1", text("a")), assign("field2", host(1))],
        },
        &registry(),
        Dialect::Postgres,
    )
    .unwrap();
    assert_eq!(g.sql, "INSERT INTO TableSelectExpr(field1, field2) VALUES($1, $2)");
    assert_eq!(values(&g.args), vec![Arg::Value(text("a")), Arg::Value(host(1))]);
    assert_eq!(g.args[1].name, "field2");
    assert_eq!(
        sql_of(Query::Insert { table: table(), assignments: vec![] }, Dialect::Postgres),
        "INSERT INTO TableSelectExpr() VALUES()"
    );
    let g = generate(
        &Query::Update {
            table: table(),
            assignments: vec![assign("field1", text("a")), assign("field2", num(2))],
            filter: Some(compare("id", CompareOp::Eq, host(3))),
        },
        &registry(),
        Dialect::Sqlite,
    )
    .unwrap();
    assert_eq!(g.sql, "UPDATE TableSelectExpr SET field1 = ?, field2 = ? WHERE id = ?");
    assert_eq!(
        values(&g.args),
        vec![Arg::Value(text("a")), Arg::Value(num(2)), Arg::Value(host(3))]
    );
    assert_eq!(
        sql_of(
            Query::Delete { table: table(), filter: Some(compare("id", CompareOp::Eq, num(3))) },
            Dialect::Postgres
        ),
        "DELETE FROM TableSelectExpr WHERE id = $1"
    );
    assert_eq!(
        sql_of(Query::Delete { table: table(), filter: None }, Dialect::Postgres),
        "DELETE FROM TableSelectExpr"
    );
    assert_eq!(
        sql_of(Query::DropTable { table: table() }, Dialect::Sqlite),
        "DROP TABLE TableSelectExpr"
    );
}

#[test]
fn create_table_names_the_types_of_the_dialect() {
    let mut every = Table::new("Every".to_string(), sp(0, 0));
    for (name, typ) in [
        ("id", Type::Serial),
        ("a", Type::I32),
        ("b", Type::I64),
        ("c", Type::F32),
        ("d", Type::F64),
        ("e", Type::Bool),
        ("f", Type::String),
        ("g", Type::ByteString),
        ("h", Type::DateTime),
        ("i", Type::Date),
        ("j", Type::Time),
        ("k", Type::Optional(Box::new(Type::String))),
        ("l", Type::Custom("RTSE".to_string())),
        ("m", Type::Optional(Box::new(Type::ForeignKey("RTSE".to_string())))),
    ] {
        every.insert(field(name, typ));
    }
    let mut r = registry();
    assert_eq!(r.register(every), Ok(()));
    let q = Query::CreateTable { table: TableRef { name: "Every".to_string(), span: sp(0, 0) } };
    assert_eq!(
        generate(&q, &r, Dialect::Postgres).unwrap().sql,
        "CREATE TABLE Every (id SERIAL PRIMARY KEY NOT NULL, a INTEGER NOT NULL, \
         b BIGINT NOT NULL, c REAL NOT NULL, d DOUBLE PRECISION NOT NULL, e BOOLEAN NOT NULL, \
         f CHARACTER VARYING NOT NULL, g BYTEA NOT NULL, h TIMESTAMP WITH TIME ZONE NOT NULL, \
         i DATE NOT NULL, j TIME NOT NULL, k CHARACTER VARYING, \
         l INTEGER REFERENCES RTSE(id) NOT NULL, m INTEGER REFERENCES RTSE(id))"
    );
    assert_eq!(
        generate(&q, &r, Dialect::Sqlite).unwrap().sql,
        "CREATE TABLE Every (id INTEGER PRIMARY KEY AUTOINCREMENT NOT NULL, a INTEGER NOT NULL, \
         b INTEGER NOT NULL, c REAL NOT NULL, d REAL NOT NULL, e INTEGER NOT NULL, \
         f TEXT NOT NULL, g BLOB NOT NULL, h TEXT NOT NULL, i TEXT NOT NULL, j TEXT NOT NULL, \
         k TEXT, l INTEGER REFERENCES RTSE(id) NOT NULL, m INTEGER REFERENCES RTSE(id))"
    );
    let mut odd = Table::new("Odd".to_string(), sp(0, 0));
    odd.insert(field("x", Type::UnsupportedType("Foo".to_string())));
    assert_eq!(r.register(odd), Ok(()));
    let q = Query::CreateTable { table: TableRef { name: "Odd".to_string(), span: sp(0, 0) } };
    assert_eq!(generate(&q, &r, Dialect::Postgres), Err(GenerateError::UnsupportedType));
}

#[test]
fn aggregates_group_and_filter_groups() {
    let q = Query::Aggregate {
        table: TableRef { name: "TableSelectExpr".to_string(), span: sp(0, 0) },
        aggregates: vec![
            Aggregate {
                function: AggregateFn::Avg,
                field: "field2".to_string(),
                alias: Some("average".to_string()),
                span: sp(0, 0),
            },
            Aggregate {
                function: AggregateFn::Count,
                field: "id".to_string(),
                alias: None,
                span: sp(0, 0),
            },
        ],
        groups: vec![path("field1"), path("related_field")],
        filter: Some(compare("field2", CompareOp::Gt, num(1))),
        having: Some(Filter::And(
            Box::new(compare("average", CompareOp::Lt, num(20))),
            Box::new(compare("field1", CompareOp::Ne, text("x"))),
        )),
    };
    let g = generate(&q, &registry(), Dialect::Postgres).unwrap();
    assert_eq!(
        g.sql,
        "SELECT field1, related_field, AVG(field2) AS average, COUNT(id) FROM TableSelectExpr \
         WHERE field2 > $1 GROUP BY field1, related_field \
         HAVING AVG(field2) < $2 AND field1 <> $3"
    );
    assert_eq!(values(&g.args), vec![Arg::Value(num(1)), Arg::Value(num(20)), Arg::Value(text("x"))]);
    let names: Vec<&str> = g.args.iter().map(|b| b.name.as_str()).collect();
    assert_eq!(names, vec!["field2", "i64", "field1"]);
    for (function, name) in [
        (AggregateFn::Max, "MAX"),
        (AggregateFn::Min, "MIN"),
        (AggregateFn::Sum, "SUM"),
    ] {
        let q = Query::Aggregate {
            table: TableRef { name: "TableSelectExpr".to_string(), span: sp(0, 0) },
            aggregates: vec![Aggregate { function, field: "field2".to_string(), alias: None, span: sp(0, 0) }],
            groups: vec![],
            filter: None,
            having: None,
        };
        assert_eq!(
            sql_of(q, Dialect::Postgres),
            format!("SELECT {}(field2) FROM TableSelectExpr", name)
        );
    }
}
