//! Rendering of compile-time diagnostics: a severity-classified message tied
//! to a span of a source file, turned into terminal text with a highlighted
//! snippet of the offending line.
pub mod text;
pub mod styling;
pub mod location;
pub mod error;
pub mod warning;
pub mod note;
pub mod message;
