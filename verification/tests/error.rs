use tql_core::error::{contains_error, res, Error, ErrorType, Span};

fn at(lo: u32, hi: u32) -> Span {
    Span { lo, hi }
}

#[test]
fn new_is_an_error_without_code() {
    let e = Error::new("bad".to_string(), at(1, 2));
    assert_eq!(
        e,
        Error { code: None, kind: ErrorType::Error, message: "bad".to_string(), position: at(1, 2) }
    );
}

#[test]
fn new_help_is_a_help() {
    let e = Error::new_help("try this".to_string(), at(3, 4));
    assert_eq!(e.code, None);
    assert_eq!(e.kind, ErrorType::Help);
    assert_eq!(e.message, "try this");
    assert_eq!(e.position, at(3, 4));
}

#[test]
fn new_note_is_a_note() {
    let e = Error::new_note("see here".to_string(), at(5, 6));
    assert_eq!(e.code, None);
    assert_eq!(e.kind, ErrorType::Note);
    assert_eq!(e.message, "see here");
    assert_eq!(e.position, at(5, 6));
}

#[test]
fn new_warning_is_a_warning() {
    let e = Error::new_warning("careful".to_string(), at(7, 8));
    assert_eq!(e.code, None);
    assert_eq!(e.kind, ErrorType::Warning);
    assert_eq!(e.message, "careful");
    assert_eq!(e.position, at(7, 8));
}

#[test]
fn new_with_code_keeps_the_code() {
    let e = Error::new_with_code("mismatch".to_string(), at(9, 10), "E0308");
    assert_eq!(e.code, Some("E0308".to_string()));
    assert_eq!(e.kind, ErrorType::Error);
    assert_eq!(e.message, "mismatch");
    assert_eq!(e.position, at(9, 10));
}

#[test]
fn res_is_ok_without_diagnostics() {
    let r = res(7, vec![]);
    assert_eq!(r, Ok(7));
}

#[test]
fn res_is_err_with_an_error() {
    let e = Error::new("bad".to_string(), at(1, 2));
    let r = res(7, vec![e.clone()]);
    assert_eq!(r, Err(vec![e]));
}

#[test]
fn res_is_ok_with_warnings_notes_and_helps_only() {
    let diagnostics = vec![
        Error::new_warning("w".to_string(), at(0, 1)),
        Error::new_note("n".to_string(), at(0, 1)),
        Error::new_help("h".to_string(), at(0, 1)),
    ];
    assert!(!contains_error(&diagnostics));
    assert_eq!(res("value", diagnostics), Ok("value"));
}

#[test]
fn res_gives_all_the_diagnostics_back_with_the_error() {
    let diagnostics = vec![
        Error::new_warning("w".to_string(), at(0, 1)),
        Error::new_with_code("e".to_string(), at(2, 3), "E0412"),
        Error::new_help("h".to_string(), at(2, 3)),
    ];
    assert!(contains_error(&diagnostics));
    assert_eq!(res((), diagnostics.clone()), Err(diagnostics));
}
