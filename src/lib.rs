//! Synthesis of builders for records with named fields.
//!
//! A record definition (`schema`) is read field by field: `attr` parses the
//! optional `builder(each = "name")` annotation, `classify` recognises the
//! `Option<T>` and `Vec<T>` wrappers, and `synth` turns the classified fields
//! into a plan for the factory, the builder type and its operations, or into
//! the first located `diagnostic`. `runtime` runs what such a plan describes,
//! and `laws` states what holds of every builder.
pub mod schema;
pub mod diagnostic;
pub mod attr;
pub mod classify;
pub mod synth;
pub mod runtime;
pub mod laws;
