//! Compile-time analysis of an embedded query language: table schemas, the
//! query representation, SQL generation and the diagnostics they produce.

pub mod analyzer;
pub mod ast;
pub mod error;
pub mod expand;
pub mod parser;
pub mod placeholders;
pub mod query;
pub mod sql;
pub mod sql_proofs;
pub mod state;
pub mod string;
pub mod type_analyzer;
