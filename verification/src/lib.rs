//! The leaves of a C compiler front end: where things are in the source, the names of a
//! translation unit, the tokens and scopes that diagnostics speak of, the diagnostics
//! themselves and the sink that collects them. Beside them stand two helpers: for the
//! code generator, questions about the block it is filling; for the test suite, the
//! directive on the first line of a test program.

pub mod ast;
pub mod codegen;
pub mod directive;
pub mod error;
pub mod handler;
pub mod hexfloat;
pub mod hir;
pub mod intern;
pub mod lex;
pub mod location;
pub mod report;
pub mod scope;
pub mod testgen;
pub mod text;
