//! A lint rule that flags unstructured error types in library crates.
//!
//! The rule classifies a compilation unit by its output kinds, and in a
//! library unit reports every function whose failure type is one of a small
//! catalogue of generic shapes: `String`, `Box<dyn Error>`, `anyhow::Error`
//! and `eyre::Report`.

pub mod crate_kind;
pub mod lint;
pub mod ty_shape;
pub mod laws;
