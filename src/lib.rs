//! The lexical front end of a JavaScript/TypeScript compiler: a scanner that
//! turns source text into classified tokens, rescans tokens when the parser
//! learns more of their context, scans speculatively with guaranteed state
//! restoration, and offers two pure services, a binary search over Unicode
//! range tables and a line index of source offsets.

pub mod types;
pub mod unicode;
pub mod unicode_tables;
pub mod line_index;
pub mod chars;
pub mod comment_directives;
pub mod diagnostics;
pub mod escapes;
pub mod lexemes;
pub mod punctuation;
pub mod numbers;
pub mod flags;
pub mod tokens;
pub mod token_value;
pub mod scanner;
