use tql_core::string::{
    bounded_distance, chars_of, find_near, lex_le_chars, push_decimal, push_signed_decimal,
    text_eq, MAX_DISTANCE,
};

fn decimal(n: u128) -> String {
    let mut s = String::new();
    push_decimal(&mut s, n);
    s
}

fn signed(n: i128) -> String {
    let mut s = String::from("x");
    push_signed_decimal(&mut s, n);
    s
}

fn distance(a: &str, b: &str, limit: usize) -> usize {
    bounded_distance(&chars_of(a), &chars_of(b), limit)
}

fn names(all: &[&str]) -> Vec<String> {
    all.iter().map(|s| s.to_string()).collect()
}

#[test]
fn decimal_numerals() {
    assert_eq!(decimal(0), "0");
    assert_eq!(decimal(7), "7");
    assert_eq!(decimal(10), "10");
    assert_eq!(decimal(12345), "12345");
    assert_eq!(decimal(1000000007), "1000000007");
    assert_eq!(decimal(u128::MAX), "340282366920938463463374607431768211455");
}

#[test]
fn signed_numerals_are_appended() {
    assert_eq!(signed(0), "x0");
    assert_eq!(signed(42), "x42");
    assert_eq!(signed(-1), "x-1");
    assert_eq!(signed(-120), "x-120");
    assert_eq!(signed(i128::MAX), "x170141183460469231731687303715884105727");
    assert_eq!(signed(i128::MIN), "x-170141183460469231731687303715884105728");
}

#[test]
fn characters_of_a_text() {
    assert_eq!(chars_of(""), Vec::<char>::new());
    assert_eq!(chars_of("héllo"), vec!['h', 'é', 'l', 'l', 'o']);
}

#[test]
fn texts_are_compared_by_content() {
    assert!(text_eq("", ""));
    assert!(text_eq("query", "query"));
    assert!(!text_eq("query", "querY"));
    assert!(!text_eq("query", "quer"));
    assert!(text_eq("é", "é"));
}

#[test]
fn edit_distance_of_known_pairs() {
    assert_eq!(distance("", "", 10), 0);
    assert_eq!(distance("", "abc", 10), 3);
    assert_eq!(distance("abc", "", 10), 3);
    assert_eq!(distance("field1", "field1", 10), 0);
    assert_eq!(distance("kitten", "sitting", 10), 3);
    assert_eq!(distance("flaw", "lawn", 10), 2);
    assert_eq!(distance("fild1", "field1", 10), 1);
    assert_eq!(distance("été", "ete", 10), 2);
}

#[test]
fn edit_distance_stops_at_the_limit() {
    assert_eq!(distance("kitten", "sitting", 2), 2);
    assert_eq!(distance("kitten", "sitting", 3), 3);
    assert_eq!(distance("abc", "xyzuvw", 4), 4);
    assert_eq!(distance("abc", "abc", 0), 0);
    assert_eq!(distance("abc", "abd", 0), 0);
}

#[test]
fn dictionary_order() {
    let le = |a: &str, b: &str| lex_le_chars(&chars_of(a), &chars_of(b));
    assert!(le("", ""));
    assert!(le("", "a"));
    assert!(!le("a", ""));
    assert!(le("abc", "abd"));
    assert!(!le("abd", "abc"));
    assert!(le("ab", "abc"));
    assert!(!le("abc", "ab"));
    assert!(le("Z", "a"));
    assert!(le("same", "same"));
}

#[test]
fn find_near_takes_the_nearest() {
    assert_eq!(MAX_DISTANCE, 3);
    let candidates = names(&["other", "field2", "field1"]);
    assert_eq!(find_near("fild1", &candidates), Some(&"field1".to_string()));
    assert_eq!(find_near("field2", &candidates), Some(&"field2".to_string()));
}

#[test]
fn find_near_breaks_ties_by_dictionary_order() {
    let candidates = names(&["field2", "field3", "field1"]);
    assert_eq!(find_near("fieldx", &candidates), Some(&"field1".to_string()));
    let reversed = names(&["field1", "field3", "field2"]);
    assert_eq!(find_near("fieldx", &reversed), Some(&"field1".to_string()));
}

#[test]
fn find_near_keeps_to_the_largest_distance() {
    assert_eq!(find_near("abc", &names(&["abcdef"])), Some(&"abcdef".to_string()));
    assert_eq!(find_near("abc", &names(&["abcdefg"])), None);
    assert_eq!(find_near("abc", &names(&[])), None);
    assert_eq!(find_near("zzzzzzzz", &names(&["field1", "field2"])), None);
}
