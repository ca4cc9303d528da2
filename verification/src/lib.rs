//! Lexical analysis for a small record-filtering query language.
//!
//! The crate classifies lexemes — already delimited by an external scanner —
//! into typed tokens: relational and pattern-match operators, boolean
//! connectives, parentheses, numeric literals, date-time literals, free-text
//! string literals, and an end-of-input sentinel. Classification is total:
//! anything unrecognized becomes either a string literal (for multi-character
//! lexemes) or an "unexpected" token (for single characters), never an error.

pub mod date;
pub mod numeric;
pub mod render;
pub mod tokens;
