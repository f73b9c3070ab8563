//! Lexical token model for a CAPL-style, C-like event-driven scripting
//! language: the closed set of token categories, the canonical spellings of
//! its reserved words, and the classification predicates a scanner and
//! parser rely on.

pub mod token;
