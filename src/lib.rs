//! Line-oriented text search: literal or regular-expression matching of the
//! lines of a byte stream, with 1-based line numbers.

pub mod error;
pub mod matcher;
pub mod pattern;
pub mod search;
pub mod text;

pub use error::SearchError;
pub use matcher::Matcher;
pub use search::{scan_line, search_lines, SearchMatch};
