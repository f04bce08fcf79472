//! Pattern-to-regex compiler: normalizes anchors and inline flags on a
//! regex-syntax pattern string and compiles it for whole-string or
//! substring-search matching.

pub mod compile;
pub mod error;
pub mod search;

pub use compile::build_case_insensitive_regex;
pub use compile::build_regex;
pub use compile::build_search_regex;
pub use error::FormatParseError;
pub use search::prepare_search_regex;
