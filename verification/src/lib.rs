//! Pretty diagnostics for JSON parse failures.
//!
//! The JSON parser itself is an external collaborator; this crate keeps the
//! source text that was fed to it and, when parsing fails, renders the
//! offending line with a caret under the failing column.

pub mod decode;
pub mod error;
pub mod lines;
pub mod render;
pub mod text;

pub use decode::{from_slice, from_str, from_str_with_filename};
pub use error::{ClassifiedError, Error, ErrorKind, SourceRecord};
pub use render::Styling;
