pub mod list;
pub mod lex;
pub mod ops;
pub mod ast;
pub mod grammar;
pub mod parse;
pub mod eval;
