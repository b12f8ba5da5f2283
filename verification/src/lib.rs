//! Lexical front end: recognizers that turn lexeme text into typed tokens.

pub mod ast;
pub mod comment;
pub mod digits;
pub mod float_literal;
pub mod integer;
pub mod keyword;
pub mod math;
pub mod numeric;
pub mod parser_errors;
pub mod punctuation;
pub mod text;
pub mod unicode;
pub mod unicode_tables;
