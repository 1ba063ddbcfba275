//! Versioned data-structure declarations.
//!
//! An annotated struct or enum declares a list of semantic versions; each
//! field or variant may carry version constraints. The engine here parses
//! those annotations, decides which fields and variants exist in each
//! version, builds one declaration per version, and describes the tagged
//! union over all of them together with the forward migration between them.

pub mod version;
pub mod tokens;
pub mod diagnostic;
pub mod oracle;
pub mod item;
pub mod attrs;
pub mod parse;
pub mod resolve;
pub mod expand;
pub mod synth;
pub mod runtime;
pub mod sample;
pub mod laws;

pub use runtime::{AnyVersion, VersionMismatch, VersionOf, VersionTagged, Versioned};
