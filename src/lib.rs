//! A directory-tree filtering engine: entries found by a walk are tested
//! against a chain of type and name predicates, and the decisions about what
//! to print and what to report are made here, over plain values.
//!
//! Beside it stand the small text tools that share its command-line family:
//! counting lines, words, bytes and characters, numbering lines, and taking
//! the start of an input.
pub mod pattern;
pub mod filter;
pub mod walk;
pub mod count;
pub mod cat;
pub mod head;
