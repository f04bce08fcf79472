//! The three compilation modes: exact match, case-insensitive exact match,
//! and unanchored search, each built by injecting inline directives in front
//! of the pattern and handing the result to the regex engine.

use vstd::prelude::*;
use vstd::string::StringExecFns;

use crate::error::FormatParseError;
use crate::search::case_directive;
use crate::search::dotall_directive;
use crate::search::prepare_search_regex;
use crate::search::search_form;

verus! {

#[verifier::external_type_specification]
#[verifier::external_body]
pub struct ExRegex(regex::Regex);

/// Whether the regex engine accepts `pattern` as a valid expression (under
/// its default settings); a function of the pattern text alone.
pub uninterp spec fn regex_accepts(pattern: Seq<char>) -> bool;

/// The engine's diagnostic message for a pattern it rejects; a function of
/// the pattern text alone.
pub uninterp spec fn regex_rejection(pattern: Seq<char>) -> Seq<char>;

/// The pattern text a compiled matcher was built from.
pub uninterp spec fn compiled_from(re: regex::Regex) -> Seq<char>;

/// The pattern text actually handed to the engine: the DOTALL directive
/// always, the case-insensitivity directive when case sensitivity is off,
/// then the pattern itself.
pub open spec fn flagged_pattern(p: Seq<char>, case_sensitive: bool) -> Seq<char> {
    if case_sensitive {
        dotall_directive() + p
    } else {
        dotall_directive() + case_directive() + p
    }
}

/// Relies on regex::Regex::new: it compiles exactly the pattern text it is
/// given, under default settings, or rejects it, deterministically from the
/// pattern text; the rejection carries a diagnostic whose Display text is
/// deterministic as well.
#[verifier::external_body]
fn compile_pattern(pattern: &String) -> (r: Result<regex::Regex, String>)
    ensures
        r is Ok <==> regex_accepts(pattern@),
        r matches Ok(re) ==> compiled_from(re) == pattern@,
        r matches Err(m) ==> m@ == regex_rejection(pattern@),
{
    regex::Regex::new(pattern).map_err(|e| e.to_string())
}

/// Prepend the inline directives: DOTALL always, case-insensitivity when
/// `case_sensitive` is false.
fn inject_flags(pattern: &str, case_sensitive: bool) -> (r: String)
    ensures
        r@ == flagged_pattern(pattern@, case_sensitive),
{
    let mut flagged = String::from_str("(?s)");
    proof {
        reveal_strlit("(?s)");
        assert(flagged@ =~= dotall_directive());
    }
    if !case_sensitive {
        flagged.append("(?i)");
        proof {
            reveal_strlit("(?i)");
            assert(flagged@ =~= dotall_directive() + case_directive());
        }
    }
    flagged.append(pattern);
    flagged
}

/// Compile `pattern` for exact (caller-anchored) matching across multi-line
/// text: the DOTALL directive is injected, then the engine compiles the
/// result. A rejection by the engine is surfaced as a structured error
/// carrying the engine's diagnostic.
pub fn build_regex(pattern: &str) -> (r: Result<regex::Regex, FormatParseError>)
    ensures
        r is Ok <==> regex_accepts(flagged_pattern(pattern@, true)),
        r matches Ok(re) ==> compiled_from(re) == flagged_pattern(pattern@, true),
        r matches Err(e) ==> (e matches FormatParseError::RegexError(m) && m@ == regex_rejection(
            flagged_pattern(pattern@, true),
        )),
{
    let flagged = inject_flags(pattern, true);
    match compile_pattern(&flagged) {
        Ok(re) => Ok(re),
        Err(msg) => Err(FormatParseError::RegexError(msg)),
    }
}

/// Compile `pattern` with both the DOTALL and the case-insensitivity
/// directives injected. A rejection by the engine is reported as an absent
/// result: this entry point deliberately discards the diagnostic.
pub fn build_case_insensitive_regex(pattern: &str) -> (r: Option<regex::Regex>)
    ensures
        r is Some <==> regex_accepts(flagged_pattern(pattern@, false)),
        r matches Some(re) ==> compiled_from(re) == flagged_pattern(pattern@, false),
{
    let flagged = inject_flags(pattern, false);
    match compile_pattern(&flagged) {
        Ok(re) => Some(re),
        Err(_) => None,
    }
}

/// Compile the unanchored search form of `regex_str`: the leading DOTALL
/// directive and the anchors are stripped, then the DOTALL directive (and the
/// case-insensitivity directive when `case_sensitive` is false) is
/// re-injected and the result compiled. A rejection by the engine is
/// surfaced as a structured error carrying the engine's diagnostic.
pub fn build_search_regex(regex_str: &str, case_sensitive: bool) -> (r: Result<
    regex::Regex,
    FormatParseError,
>)
    ensures
        r is Ok <==> regex_accepts(flagged_pattern(search_form(regex_str@), case_sensitive)),
        r matches Ok(re) ==> compiled_from(re) == flagged_pattern(
            search_form(regex_str@),
            case_sensitive,
        ),
        r matches Err(e) ==> (e matches FormatParseError::RegexError(m) && m@ == regex_rejection(
            flagged_pattern(search_form(regex_str@), case_sensitive),
        )),
{
    let search_regex_str = prepare_search_regex(regex_str);
    let flagged = inject_flags(search_regex_str.as_str(), case_sensitive);
    match compile_pattern(&flagged) {
        Ok(re) => Ok(re),
        Err(msg) => Err(FormatParseError::RegexError(msg)),
    }
}

} // verus!
