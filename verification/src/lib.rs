//! Translates a multi-pass shader project fetched from a remote sharing
//! service into the render-stage / filter / input model of a real-time
//! rendering application, together with the file writes that materialize
//! the translated project on disk.
//!
//! The translation itself is pure: it maps a parsed source document to a
//! fully-built target description. Fetching the document and writing the
//! files are left to the surrounding program.

pub mod laws;
pub mod names;
pub mod source;
pub mod target;
pub mod translate;

pub use source::InputConfig;
pub use source::RenderPassConfig;
pub use source::ShaderConfig;
pub use source::ShaderInfo;
pub use source::ShadertoyConfig;
