use tql_core::error::{Error, ErrorType, Span};
use tql_core::state::{
    Field, Placeholder, PlaceholderTable, QueryRecord, Registry, Table, Type,
};
use tql_core::type_analyzer::{
    analyze_table_types, argument_types, check_arguments, check_table, check_tables, check_type,
    same_type, span_errors, Emission, HostExpr, HostExprKind, HostType, MethodCall, SqlAttrError,
    SqlError,
};

fn at(lo: u32, hi: u32) -> Span {
    Span { lo, hi }
}

fn field(name: &str, typ: Type, span: Span) -> Field {
    Field { name: name.to_string(), typ, span }
}

fn table(name: &str, fields: Vec<Field>) -> Table {
    let mut table = Table::new(name.to_string(), at(100, 110));
    for f in fields {
        table.insert(f);
    }
    table
}

fn registry() -> Registry {
    let mut registry = Registry::new();
    let related = table("RTSE", vec![field("id", Type::Serial, at(0, 0)), field("field1", Type::I32, at(0, 0))]);
    let main = table(
        "TableSelectExpr",
        vec![
            field("id", Type::Serial, at(0, 0)),
            field("field1", Type::String, at(0, 0)),
            field("field2", Type::I32, at(0, 0)),
            field("related_field", Type::ForeignKey("RTSE".to_string()), at(0, 0)),
            field("optional_field", Type::Optional(Box::new(Type::I32)), at(0, 0)),
            field("datetime", Type::DateTime, at(0, 0)),
        ],
    );
    assert_eq!(registry.register(related), Ok(()));
    assert_eq!(registry.register(main), Ok(()));
    registry
}

fn str_ref() -> HostType {
    HostType::Ref(Box::new(HostType::Str))
}

fn placeholder(name: &str, via: Option<&str>, ordinal: usize) -> Placeholder {
    Placeholder {
        name: name.to_string(),
        via: via.map(|v| v.to_string()),
        span: at(10 + ordinal as u32, 11 + ordinal as u32),
        call_site: at(1, 50),
        ordinal,
    }
}

fn address(ty: HostType) -> HostExpr {
    HostExpr {
        kind: HostExprKind::AddrOf(Box::new(HostExpr { kind: HostExprKind::Other, ty: ty.clone() })),
        ty: HostType::Ref(Box::new(ty)),
    }
}

fn arguments(types: Vec<HostType>) -> HostExpr {
    let elements: Vec<HostExpr> = types.into_iter().map(address).collect();
    let unknown = HostType::Other("[&ToSql]".to_string());
    HostExpr {
        kind: HostExprKind::AddrOf(Box::new(HostExpr {
            kind: HostExprKind::Array(elements),
            ty: unknown.clone(),
        })),
        ty: HostType::Ref(Box::new(unknown)),
    }
}

fn mismatch(expected: &str, found: &str, position: Span, note: Span) -> Vec<Error> {
    vec![
        Error {
            code: Some("E0308".to_string()),
            kind: ErrorType::Error,
            message: format!("mismatched types:\n expected `{}`,    found `{}`", expected, found),
            position,
        },
        Error {
            code: None,
            kind: ErrorType::Note,
            message: "in this expansion of sql!".to_string(),
            position: note,
        },
    ]
}

#[test]
fn columns_accept_the_types_of_the_table() {
    assert!(same_type(&Type::Serial, &HostType::Int32));
    assert!(same_type(&Type::I32, &HostType::Int32));
    assert!(!same_type(&Type::I32, &HostType::Int64));
    assert!(same_type(&Type::I64, &HostType::Int64));
    assert!(!same_type(&Type::I64, &HostType::Int32));
    assert!(same_type(&Type::String, &str_ref()));
    assert!(!same_type(&Type::String, &HostType::Str));
    assert!(!same_type(&Type::String, &HostType::Ref(Box::new(str_ref()))));
    assert!(!same_type(&Type::String, &HostType::Ref(Box::new(HostType::Int32))));
    assert!(same_type(&Type::ForeignKey("T".to_string()), &HostType::Record("T".to_string())));
    assert!(!same_type(&Type::ForeignKey("T".to_string()), &HostType::Record("U".to_string())));
    assert!(!same_type(&Type::ForeignKey("T".to_string()), &HostType::Int32));
}

#[test]
fn optional_columns_accept_the_inner_type_bare_or_wrapped() {
    let optional = Type::Optional(Box::new(Type::I32));
    assert!(same_type(&optional, &HostType::Int32));
    assert!(same_type(&optional, &HostType::Nullable(Box::new(HostType::Int32))));
    assert!(!same_type(&optional, &HostType::Int64));
    assert!(!same_type(&optional, &HostType::Nullable(Box::new(HostType::Int64))));
    assert!(!same_type(&Type::I32, &HostType::Nullable(Box::new(HostType::Int32))));
}

#[test]
fn other_columns_accept_nothing() {
    for column in [Type::Bool, Type::F32, Type::F64, Type::ByteString, Type::DateTime, Type::Date,
        Type::Time, Type::Custom("T".to_string()), Type::UnsupportedType("T".to_string())]
    {
        assert!(!same_type(&column, &HostType::Int32));
        assert!(!same_type(&column, &str_ref()));
        assert!(!same_type(&column, &HostType::Other("bool".to_string())));
        assert!(!same_type(&column, &HostType::Record("T".to_string())));
    }
}

#[test]
fn check_type_says_nothing_of_an_accepted_type() {
    let mut errors = vec![Error::new("before".to_string(), at(0, 0))];
    check_type(&Type::I32, &HostType::Int32, at(1, 2), at(3, 4), &mut errors);
    assert_eq!(errors, vec![Error::new("before".to_string(), at(0, 0))]);
}

#[test]
fn check_type_adds_the_error_and_the_note() {
    let mut errors = vec![];
    check_type(&Type::I32, &HostType::Int64, at(1, 2), at(3, 4), &mut errors);
    assert_eq!(errors, mismatch("i32", "i64", at(1, 2), at(3, 4)));
    let mut errors = vec![];
    check_type(
        &Type::Optional(Box::new(Type::String)),
        &HostType::Nullable(Box::new(HostType::Record("Row".to_string()))),
        at(5, 6),
        at(7, 8),
        &mut errors,
    );
    assert_eq!(errors, mismatch("Option<String>", "Option<Row>", at(5, 6), at(7, 8)));
    let mut errors = vec![];
    check_type(&Type::String, &HostType::Ref(Box::new(HostType::Other("u8".to_string()))), at(5, 6), at(7, 8), &mut errors);
    assert_eq!(errors, mismatch("String", "&u8", at(5, 6), at(7, 8)));
}

#[test]
fn argument_types_are_those_of_the_referenced_elements() {
    assert_eq!(
        argument_types(&arguments(vec![HostType::Int32, str_ref(), HostType::Int64])),
        vec![HostType::Int32, str_ref(), HostType::Int64]
    );
    assert_eq!(argument_types(&arguments(vec![])), vec![]);
}

#[test]
fn argument_types_skip_what_is_no_reference() {
    let bare = HostExpr { kind: HostExprKind::Other, ty: HostType::Int32 };
    let list = HostExpr {
        kind: HostExprKind::AddrOf(Box::new(HostExpr {
            kind: HostExprKind::Array(vec![address(HostType::Int64), bare, address(str_ref())]),
            ty: HostType::Other("array".to_string()),
        })),
        ty: HostType::Other("ref".to_string()),
    };
    assert_eq!(argument_types(&list), vec![HostType::Int64, str_ref()]);
    let not_a_reference = HostExpr {
        kind: HostExprKind::Array(vec![address(HostType::Int64)]),
        ty: HostType::Other("array".to_string()),
    };
    assert_eq!(argument_types(&not_a_reference), vec![]);
    assert_eq!(argument_types(&address(HostType::Int64)), vec![]);
}

#[test]
fn arguments_are_checked_against_their_columns() {
    let registry = registry();
    let table = registry.lookup("TableSelectExpr").unwrap();
    let record = QueryRecord {
        table_name: "TableSelectExpr".to_string(),
        placeholders: vec![
            placeholder("field2", None, 0),
            placeholder("field1", None, 1),
            placeholder("i64", None, 3),
            placeholder("field1", Some("related_field"), 4),
        ],
    };
    let good = vec![HostType::Int32, str_ref(), HostType::Other("skipped".to_string()),
        HostType::Int64, HostType::Int32];
    assert_eq!(check_arguments(table, &registry, &record, &good), vec![]);
    let bad = vec![HostType::Int64, HostType::Int32, HostType::Int32, HostType::Int32, str_ref()];
    let mut expected = mismatch("i32", "i64", at(10, 11), at(1, 50));
    expected.extend(mismatch("String", "i32", at(11, 12), at(1, 50)));
    expected.extend(mismatch("i64", "i32", at(13, 14), at(1, 50)));
    expected.extend(mismatch("i32", "&str", at(14, 15), at(1, 50)));
    assert_eq!(check_arguments(table, &registry, &record, &bad), expected);
}

#[test]
fn arguments_without_a_type_are_not_checked() {
    let registry = registry();
    let table = registry.lookup("TableSelectExpr").unwrap();
    let record = QueryRecord {
        table_name: "TableSelectExpr".to_string(),
        placeholders: vec![placeholder("field2", None, 0), placeholder("field1", None, 1)],
    };
    assert_eq!(
        check_arguments(table, &registry, &record, &vec![HostType::Int64]),
        mismatch("i32", "i64", at(10, 11), at(1, 50))
    );
}

#[test]
fn an_unknown_column_is_reported_with_the_nearest_name() {
    let registry = registry();
    let table = registry.lookup("TableSelectExpr").unwrap();
    let record = QueryRecord {
        table_name: "TableSelectExpr".to_string(),
        placeholders: vec![placeholder("fild1", None, 0), placeholder("nonexistent", None, 1)],
    };
    let types = vec![str_ref(), HostType::Int32];
    assert_eq!(
        check_arguments(table, &registry, &record, &types),
        vec![
            Error::new(
                "attempted access of field `fild1` on type `TableSelectExpr`, but no field with that name was found".to_string(),
                at(10, 11)
            ),
            Error::new_help("did you mean `field1`?".to_string(), at(10, 11)),
            Error::new(
                "attempted access of field `nonexistent` on type `TableSelectExpr`, but no field with that name was found".to_string(),
                at(11, 12)
            ),
        ]
    );
}

#[test]
fn check_expr_checks_calls_of_query_and_execute() {
    let registry = registry();
    let mut calls = PlaceholderTable::new();
    calls.record(
        40,
        QueryRecord {
            table_name: "TableSelectExpr".to_string(),
            placeholders: vec![placeholder("field2", None, 0)],
        },
    );
    let receiver = HostExpr { kind: HostExprKind::Other, ty: HostType::Other("&str".to_string()) };
    let call = |name: &str, lo: u32, types: Vec<HostType>| MethodCall {
        name: name.to_string(),
        arguments: vec![receiver_copy(&receiver), arguments(types)],
        span: at(lo, 90),
    };
    let mut lint = SqlError;
    let expected = mismatch("i32", "i64", at(10, 11), at(1, 50));
    assert_eq!(lint.check_expr(&registry, &calls, &call("query", 40, vec![HostType::Int64])), expected);
    assert_eq!(lint.check_expr(&registry, &calls, &call("execute", 40, vec![HostType::Int64])), expected);
    assert_eq!(lint.check_expr(&registry, &calls, &call("query", 40, vec![HostType::Int32])), vec![]);
    assert_eq!(lint.check_expr(&registry, &calls, &call("prepare", 40, vec![HostType::Int64])), vec![]);
    assert_eq!(lint.check_expr(&registry, &calls, &call("query", 41, vec![HostType::Int64])), vec![]);
}

fn receiver_copy(e: &HostExpr) -> HostExpr {
    HostExpr { kind: HostExprKind::Other, ty: e.ty.clone() }
}

#[test]
fn check_expr_needs_the_second_argument_and_the_table() {
    let registry = registry();
    let mut calls = PlaceholderTable::new();
    calls.record(
        40,
        QueryRecord { table_name: "Gone".to_string(), placeholders: vec![placeholder("x", None, 0)] },
    );
    calls.record(
        50,
        QueryRecord {
            table_name: "TableSelectExpr".to_string(),
            placeholders: vec![placeholder("field2", None, 0)],
        },
    );
    let mut lint = SqlError;
    let unknown_table = MethodCall {
        name: "query".to_string(),
        arguments: vec![address(HostType::Str), arguments(vec![HostType::Int64])],
        span: at(40, 90),
    };
    assert_eq!(lint.check_expr(&registry, &calls, &unknown_table), vec![]);
    let one_argument = MethodCall {
        name: "query".to_string(),
        arguments: vec![arguments(vec![HostType::Int64])],
        span: at(50, 90),
    };
    assert_eq!(lint.check_expr(&registry, &calls, &one_argument), vec![]);
}

#[test]
fn a_table_without_primary_key_gets_a_warning() {
    let registry = Registry::new();
    let t = table("Table", vec![field("field1", Type::String, at(1, 2))]);
    assert_eq!(
        check_table(&t, &registry),
        vec![Error::new_warning("No primary key found".to_string(), at(100, 110))]
    );
    assert_eq!(analyze_table_types(&t, &registry), Ok(()));
}

#[test]
fn a_table_with_a_primary_key_gets_none() {
    let registry = Registry::new();
    let t = table(
        "Table",
        vec![field("field1", Type::String, at(1, 2)), field("id", Type::Serial, at(3, 4))],
    );
    assert_eq!(check_table(&t, &registry), vec![]);
    assert_eq!(analyze_table_types(&t, &registry), Ok(()));
}

#[test]
fn unsupported_and_unknown_types_are_errors() {
    let registry = registry();
    let t = table(
        "Table",
        vec![
            field("id", Type::Serial, at(1, 2)),
            field("a", Type::UnsupportedType("Foo".to_string()), at(3, 4)),
            field("b", Type::Custom("Connection".to_string()), at(5, 6)),
            field("c", Type::ForeignKey("RTSE".to_string()), at(7, 8)),
            field("d", Type::Optional(Box::new(Type::Custom("RTS".to_string()))), at(9, 10)),
        ],
    );
    let expected = vec![
        Error::new_with_code("Use of unsupported type name `Foo`".to_string(), at(3, 4), "E0412"),
        Error::new("`Connection` does not name an SQL table".to_string(), at(5, 6)),
        Error::new("`RTS` does not name an SQL table".to_string(), at(9, 10)),
        Error::new_help("did you mean `RTSE`?".to_string(), at(9, 10)),
    ];
    assert_eq!(check_table(&t, &registry), expected);
    assert_eq!(analyze_table_types(&t, &registry), Err(expected));
}

#[test]
fn diagnostics_are_shown_by_kind() {
    let shown = span_errors(vec![
        Error::new("e".to_string(), at(1, 2)),
        Error::new_with_code("c".to_string(), at(3, 4), "E0308"),
        Error::new_help("h".to_string(), at(5, 6)),
        Error::new_note("n".to_string(), at(7, 8)),
        Error::new_warning("w".to_string(), at(9, 10)),
    ]);
    assert_eq!(
        shown,
        vec![
            Emission::SpanErr { position: at(1, 2), message: "e".to_string() },
            Emission::SpanErrWithCode {
                position: at(3, 4),
                message: "c".to_string(),
                code: "E0308".to_string()
            },
            Emission::FilelineHelp { position: at(5, 6), message: "h".to_string() },
            Emission::FilelineNote { position: at(7, 8), message: "n".to_string() },
            Emission::SpanWarn { position: at(9, 10), message: "w".to_string() },
        ]
    );
    assert_eq!(span_errors(vec![]), vec![]);
}

#[test]
fn the_tables_are_checked_once() {
    let mut registry = Registry::new();
    assert_eq!(registry.register(table("A", vec![field("x", Type::I32, at(1, 2))])), Ok(()));
    assert_eq!(
        registry.register(table("B", vec![
            field("id", Type::Serial, at(3, 4)),
            field("y", Type::UnsupportedType("Foo".to_string()), at(5, 6)),
        ])),
        Ok(())
    );
    assert_eq!(
        check_tables(&registry),
        vec![
            Error::new_warning("No primary key found".to_string(), at(100, 110)),
            Error::new_with_code("Use of unsupported type name `Foo`".to_string(), at(5, 6), "E0412"),
        ]
    );
    let mut lint = SqlAttrError::new();
    assert!(!lint.analyze_done);
    assert_eq!(
        lint.exit_lint_attrs(&registry),
        vec![
            Emission::SpanWarn {
                position: at(100, 110),
                message: "No primary key found".to_string()
            },
            Emission::SpanErrWithCode {
                position: at(5, 6),
                message: "Use of unsupported type name `Foo`".to_string(),
                code: "E0412".to_string()
            },
        ]
    );
    assert!(lint.analyze_done);
    assert_eq!(lint.exit_lint_attrs(&registry), vec![]);
    assert!(lint.analyze_done);
}
