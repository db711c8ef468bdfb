//! Core of an interactive vector-glyph editor: session-local identity for
//! embedded glyph components, conversion between components and their
//! persisted exchange records, and the tool-selection state machine with its
//! companion panel-visibility toggle.
//!
//! Rendering, window plumbing and file parsing are collaborators outside this
//! crate; they exchange plain values with the types defined here.

pub mod component;
pub mod entity;
pub mod messages;
pub mod panel;
pub mod toolbar;
pub mod tools;
pub mod transform;
