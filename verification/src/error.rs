//! Diagnostics with their positions, and the result type that carries them.
//!
//! `SqlResult<T>` is a `Result<T, Vec<Error>>` and is used for returning and
//! propagating several diagnostics at once.

use vstd::prelude::*;

verus! {

/// A region of source text, as a pair of byte offsets.
#[derive(Clone, Copy, Debug, PartialEq, Eq, Structural)]
pub struct Span {
    pub lo: u32,
    pub hi: u32,
}

/// The severity of a diagnostic.
#[derive(Clone, Copy, Debug, PartialEq, Eq, Structural)]
pub enum ErrorType {
    Error,
    Help,
    Note,
    Warning,
}

/// A diagnostic with its position.
#[derive(Clone, Debug, PartialEq, Eq)]
pub struct Error {
    pub code: Option<String>,
    pub kind: ErrorType,
    pub message: String,
    pub position: Span,
}

/// The mathematical content of an `Error`.
pub struct Diagnostic {
    pub code: Option<Seq<char>>,
    pub kind: ErrorType,
    pub message: Seq<char>,
    pub position: Span,
}

impl View for Error {
    type V = Diagnostic;

    open spec fn view(&self) -> Diagnostic {
        Diagnostic {
            code: match self.code {
                Some(c) => Some(c@),
                None => None,
            },
            kind: self.kind,
            message: self.message@,
            position: self.position,
        }
    }
}

impl DeepView for Error {
    type V = Diagnostic;

    open spec fn deep_view(&self) -> Diagnostic {
        self@
    }
}

/// Either a success or the diagnostics that explain the failure.
pub type SqlResult<T> = Result<T, Vec<Error>>;

/// Whether some diagnostic of the list is an error proper.
pub open spec fn has_error(diagnostics: Seq<Diagnostic>) -> bool {
    exists|i: int| 0 <= i < diagnostics.len() && (#[trigger] diagnostics[i]).kind == ErrorType::Error
}

impl Error {
    /// Returns a new diagnostic of kind `Error`, without a code.
    pub fn new(message: String, position: Span) -> (e: Error)
        ensures
            e@ == (Diagnostic { code: None, kind: ErrorType::Error, message: message@, position }),
    {
        Error { code: None, kind: ErrorType::Error, message, position }
    }

    /// Returns a new diagnostic of kind `Help`.
    pub fn new_help(message: String, position: Span) -> (e: Error)
        ensures
            e@ == (Diagnostic { code: None, kind: ErrorType::Help, message: message@, position }),
    {
        Error { code: None, kind: ErrorType::Help, message, position }
    }

    /// Returns a new diagnostic of kind `Note`.
    pub fn new_note(message: String, position: Span) -> (e: Error)
        ensures
            e@ == (Diagnostic { code: None, kind: ErrorType::Note, message: message@, position }),
    {
        Error { code: None, kind: ErrorType::Note, message, position }
    }

    /// Returns a new diagnostic of kind `Warning`.
    pub fn new_warning(message: String, position: Span) -> (e: Error)
        ensures
            e@ == (Diagnostic { code: None, kind: ErrorType::Warning, message: message@, position }),
    {
        Error { code: None, kind: ErrorType::Warning, message, position }
    }

    /// Returns a new diagnostic of kind `Error` that carries a code.
    pub fn new_with_code(message: String, position: Span, code: &str) -> (e: Error)
        ensures
            e@ == (Diagnostic {
                code: Some(code@),
                kind: ErrorType::Error,
                message: message@,
                position,
            }),
    {
        Error { code: Some(code.to_owned()), kind: ErrorType::Error, message, position }
    }
}

/// Whether some diagnostic of the list is an error proper.
pub fn contains_error(errors: &Vec<Error>) -> (b: bool)
    ensures
        b == has_error(errors.deep_view()),
{
    let mut i: usize = 0;
    while i < errors.len()
        invariant
            i <= errors.len(),
            forall|j: int| 0 <= j < i ==> (#[trigger] errors.deep_view()[j]).kind != ErrorType::Error,
        decreases errors.len() - i,
    {
        if errors[i].kind == ErrorType::Error {
            assert(errors.deep_view()[i as int].kind == ErrorType::Error);
            return true;
        }
        i += 1;
    }
    false
}

/// Returns an `SqlResult<T>` from a potential result and the diagnostics
/// gathered while computing it: `Ok` iff none of them is an error proper.
pub fn res<T>(result: T, errors: Vec<Error>) -> (r: SqlResult<T>)
    ensures
        has_error(errors.deep_view()) ==> r == Err::<T, Vec<Error>>(errors),
        !has_error(errors.deep_view()) ==> r == Ok::<T, Vec<Error>>(result),
{
    if contains_error(&errors) {
        Err(errors)
    } else {
        Ok(result)
    }
}

/// Adds a diagnostic at the end of a list.
pub fn push_error(errors: &mut Vec<Error>, error: Error)
    ensures
        final(errors).deep_view() == old(errors).deep_view().push(error@),
{
    errors.push(error);
}

} // verus!
