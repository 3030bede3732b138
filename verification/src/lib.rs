//! Diagnostics for parsers of binary formats.
//!
//! While a parser backtracks out of a failure, every layer it leaves can add
//! an entry to a trace: the position it was at and a note on what it was
//! trying. The finished trace is rendered against the input buffer as a
//! report: for each label the offset, the row of a hexdump that holds it, and
//! a caret under the byte.

pub mod annotate;
pub mod hexdump;
pub mod outside;
pub mod position;
pub mod render;
pub mod text;
pub mod trace;

pub use crate::annotate::annotate;
pub use crate::annotate::context;
pub use crate::annotate::ParseFailure;
pub use crate::position::offset;
pub use crate::position::Position;
pub use crate::render::convert_error;
pub use crate::trace::ContextError;
pub use crate::trace::VerboseError;
pub use crate::trace::VerboseErrorKind;
