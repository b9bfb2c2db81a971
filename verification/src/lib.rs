//! Model of an interactive text template: literal content interleaved with
//! user-fillable fields (placeholders, choices), mirror references, and
//! dynamically computed fragments (variable lookup, shell command output).
//!
//! Parsing a template's source syntax is not done here: an embedding program
//! builds the node store and body directly, bottom-up, then assembles a
//! [`snippet::Snippet`]. Rendering walks the body and concatenates what each
//! segment displays.

pub mod cast;
pub mod laws;
pub mod node;
pub mod program;
pub mod render;
pub mod segment;
pub mod snippet;

pub use segment::Reference;
pub use segment::Segment;
pub use node::{Placeholder, Choice, Variable, Code, Node, InteractiveSegment, Field, Programic};
pub use cast::{cast_interactive_segment, cast_field, cast_mut_programic};
pub use program::RunError;
pub use render::{render_node, render_segments, render_segment, render_reference};
pub use snippet::{Snippet, Tab};
