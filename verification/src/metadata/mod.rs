//! What the system's search index records about the use of a file.

pub mod spotlight;

pub use spotlight::{parse_mdls_output, FileMetadata};
