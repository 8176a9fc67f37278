use tql_core::error::Span;
use tql_core::state::{
    fields_agree, Field, Placeholder, PlaceholderTable, QueryRecord, Registry, RegistryError,
    Table, Type,
};

fn at(lo: u32, hi: u32) -> Span {
    Span { lo, hi }
}

fn field(name: &str, typ: Type) -> Field {
    Field { name: name.to_string(), typ, span: at(0, 0) }
}

fn table(name: &str, fields: Vec<Field>) -> Table {
    let mut table = Table::new(name.to_string(), at(10, 20));
    for f in fields {
        table.insert(f);
    }
    table
}

fn text(t: &Type) -> String {
    let mut s = String::new();
    t.push_text(&mut s);
    s
}

#[test]
fn fields_keep_the_order_of_insertion() {
    let t = table(
        "T",
        vec![field("id", Type::Serial), field("b", Type::I32), field("a", Type::String)],
    );
    assert_eq!(t.name(), "T");
    assert_eq!(t.span(), at(10, 20));
    assert_eq!(t.field_names(), vec!["id".to_string(), "b".to_string(), "a".to_string()]);
    assert_eq!(t.fields().len(), 3);
}

#[test]
fn a_field_of_the_same_name_takes_the_place_of_the_old_one() {
    let mut t = table("T", vec![field("a", Type::I32), field("b", Type::I32)]);
    t.insert(field("a", Type::String));
    assert_eq!(t.field_names(), vec!["a".to_string(), "b".to_string()]);
    assert_eq!(t.get("a"), Some(&field("a", Type::String)));
    assert_eq!(t.get("b"), Some(&field("b", Type::I32)));
    assert_eq!(t.get("c"), None);
}

#[test]
fn types_are_compared_by_shape() {
    assert!(Type::I32.same(&Type::I32));
    assert!(!Type::I32.same(&Type::I64));
    assert!(!Type::I32.same(&Type::Serial));
    assert!(Type::ForeignKey("T".to_string()).same(&Type::ForeignKey("T".to_string())));
    assert!(!Type::ForeignKey("T".to_string()).same(&Type::ForeignKey("U".to_string())));
    assert!(!Type::ForeignKey("T".to_string()).same(&Type::Custom("T".to_string())));
    let optional = Type::Optional(Box::new(Type::Optional(Box::new(Type::Date))));
    assert!(optional.same(&optional.clone()));
    assert!(!optional.same(&Type::Optional(Box::new(Type::Date))));
}

#[test]
fn types_are_shown_by_name() {
    assert_eq!(text(&Type::Serial), "i32");
    assert_eq!(text(&Type::I32), "i32");
    assert_eq!(text(&Type::I64), "i64");
    assert_eq!(text(&Type::Bool), "bool");
    assert_eq!(text(&Type::String), "String");
    assert_eq!(text(&Type::ByteString), "Vec<u8>");
    assert_eq!(text(&Type::Optional(Box::new(Type::I32))), "Option<i32>");
    assert_eq!(text(&Type::ForeignKey("Other".to_string())), "ForeignKey<Other>");
    assert_eq!(text(&Type::Custom("Other".to_string())), "Other");
    assert_eq!(text(&Type::UnsupportedType("Foo".to_string())), "Foo");
}

#[test]
fn foreign_targets() {
    let name = "Other".to_string();
    assert_eq!(Type::ForeignKey(name.clone()).foreign_target(), Some(&name));
    assert_eq!(Type::Custom(name.clone()).foreign_target(), Some(&name));
    assert_eq!(
        Type::Optional(Box::new(Type::ForeignKey(name.clone()))).foreign_target(),
        Some(&name)
    );
    assert_eq!(Type::I32.foreign_target(), None);
    assert_eq!(Type::UnsupportedType(name.clone()).foreign_target(), None);
}

#[test]
fn field_lists_agree_on_names_and_types() {
    let a = vec![field("x", Type::I32), field("y", Type::String)];
    let mut b = vec![field("x", Type::I32), field("y", Type::String)];
    b[1].span = at(5, 6);
    assert!(fields_agree(&a, &b));
    assert!(!fields_agree(&a, &vec![field("x", Type::I32)]));
    assert!(!fields_agree(&a, &vec![field("x", Type::I32), field("y", Type::I32)]));
    assert!(!fields_agree(&a, &vec![field("y", Type::String), field("x", Type::I32)]));
}

#[test]
fn tables_are_found_by_name() {
    let mut registry = Registry::new();
    assert_eq!(registry.lookup("A"), None);
    assert_eq!(registry.register(table("A", vec![field("id", Type::Serial)])), Ok(()));
    assert_eq!(registry.register(table("B", vec![field("a", Type::ForeignKey("A".into()))])), Ok(()));
    assert_eq!(registry.lookup("A").map(|t| t.name().clone()), Some("A".to_string()));
    assert_eq!(registry.resolve_foreign("B").map(|t| t.field_names()), Some(vec!["a".to_string()]));
    assert_eq!(registry.lookup("C"), None);
    assert_eq!(registry.table_names(), vec!["A".to_string(), "B".to_string()]);
    assert_eq!(registry.iterate().len(), 2);
    let b = registry.lookup("B").unwrap();
    assert_eq!(registry.related_table(b, "a").map(|t| t.name().clone()), Some("A".to_string()));
    assert_eq!(registry.related_table(b, "missing"), None);
    let a = registry.lookup("A").unwrap();
    assert_eq!(registry.related_table(a, "id"), None);
}

#[test]
fn registering_again_with_the_same_fields_changes_nothing() {
    let mut registry = Registry::new();
    assert_eq!(registry.register(table("A", vec![field("id", Type::Serial)])), Ok(()));
    assert_eq!(registry.register(table("A", vec![field("id", Type::Serial)])), Ok(()));
    assert_eq!(registry.table_names(), vec!["A".to_string()]);
}

#[test]
fn registering_again_with_other_fields_is_refused() {
    let mut registry = Registry::new();
    assert_eq!(registry.register(table("A", vec![field("id", Type::Serial)])), Ok(()));
    assert_eq!(
        registry.register(table("A", vec![field("id", Type::I32)])),
        Err(RegistryError::DuplicateTable("A".to_string()))
    );
    assert_eq!(
        registry.register(table("A", vec![])),
        Err(RegistryError::DuplicateTable("A".to_string()))
    );
    assert_eq!(registry.lookup("A").unwrap().get("id").unwrap().typ, Type::Serial);
    assert_eq!(registry.iterate().len(), 1);
}

#[test]
fn records_are_kept_by_position() {
    let record = |name: &str| QueryRecord {
        table_name: name.to_string(),
        placeholders: vec![Placeholder {
            name: "field1".to_string(),
            via: None,
            span: at(1, 2),
            call_site: at(0, 9),
            ordinal: 0,
        }],
    };
    let mut calls = PlaceholderTable::new();
    assert_eq!(calls.get(7), None);
    calls.record(7, record("A"));
    calls.record(9, record("B"));
    assert_eq!(calls.get(7), Some(&record("A")));
    assert_eq!(calls.get(9), Some(&record("B")));
    calls.record(7, record("C"));
    assert_eq!(calls.get(7), Some(&record("C")));
    assert_eq!(calls.get(8), None);
}
