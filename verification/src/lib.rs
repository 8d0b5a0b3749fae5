//! Diagnostic reporting for a small tree-notation pipeline.
//!
//! The pipeline's stages (tokenizer, parser, semantic analysis) each produce
//! atomic errors carrying the source text, an error kind, and a span. This
//! crate unifies those failures into one aggregate error value and renders
//! each of them as a human-readable diagnostic block: a divider line, the
//! error message, a code frame with a caret underline, and a location footer.

pub mod error;
pub mod lines;
pub mod parser;
pub mod semantics;
pub mod span;
pub mod tokenizer;
pub mod utils;
