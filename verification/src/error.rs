use vstd::prelude::*;

verus! {

/// The one error this library produces: the regex engine rejected a pattern.
/// The engine's diagnostic message is carried verbatim.
#[derive(Debug)]
pub enum FormatParseError {
    RegexError(String),
}

} // verus!
