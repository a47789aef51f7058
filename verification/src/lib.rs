//! APT repository definitions in the deb822 paragraph format.
//!
//! A `.sources` file is parsed into a [`Document`] of [`Paragraph`]s; the first
//! paragraph is mapped onto the fixed schema of a [`Deb822Repository`], which
//! can be rendered back to deb822 text.

pub mod document;
pub mod error;
pub mod field;
pub mod paragraph;
pub mod repository;
pub mod scan;

pub use document::Document;
pub use error::{line_number, locate, SourcesError, SyntaxError};
pub use field::Field;
pub use paragraph::Paragraph;
pub use repository::Deb822Repository;
pub use scan::{has_sources_extension, LoadOutcome, SourceFile, SOURCES_DIRECTORY};
