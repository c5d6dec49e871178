//! A small parsing-expression-grammar engine: composable matchers consume a
//! sequence of atomic units (one per character of a source text) and build a
//! labelled capture tree.  A hand-built meta-grammar describes a textual rule
//! notation, and a compiler turns rule-set text into new tables of matchers.

pub mod corpus;
pub mod laws;
pub mod matching;
pub mod meta;
pub mod rules;
pub mod sequence;
pub mod token;
