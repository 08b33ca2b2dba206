//! Markdown documentation for annotated HTTP handler methods found in a
//! source file: handler discovery, parameter rendering, return-type links
//! and document assembly.

pub mod matching;
pub mod handler;
pub mod params;
pub mod links;
pub mod document;
pub mod laws;
