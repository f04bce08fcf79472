//! Anchor and flag normalization: turning an anchored, exact-match pattern
//! into its unanchored search form by a pure textual transform.

use vstd::prelude::*;
use vstd::string::StrSliceExecFns;

verus! {

/// The inline directive that makes `.` match line terminators too.
pub open spec fn dotall_directive() -> Seq<char> {
    seq!['(', '?', 's', ')']
}

/// The inline directive that turns case-insensitive matching on.
pub open spec fn case_directive() -> Seq<char> {
    seq!['(', '?', 'i', ')']
}

/// Whether the pattern begins with the DOTALL directive.
pub open spec fn has_dotall_prefix(p: Seq<char>) -> bool {
    p.len() >= 4 && p.subrange(0, 4) == dotall_directive()
}

/// Whether the pattern begins with the start anchor `^`.
pub open spec fn has_start_anchor(p: Seq<char>) -> bool {
    p.len() >= 1 && p[0] == '^'
}

/// Whether the pattern ends with the end anchor `$`.
pub open spec fn has_end_anchor(p: Seq<char>) -> bool {
    p.len() >= 1 && p[p.len() - 1] == '$'
}

pub open spec fn strip_dotall(p: Seq<char>) -> Seq<char> {
    if has_dotall_prefix(p) {
        p.subrange(4, p.len() as int)
    } else {
        p
    }
}

pub open spec fn strip_start_anchor(p: Seq<char>) -> Seq<char> {
    if has_start_anchor(p) {
        p.subrange(1, p.len() as int)
    } else {
        p
    }
}

pub open spec fn strip_end_anchor(p: Seq<char>) -> Seq<char> {
    if has_end_anchor(p) {
        p.subrange(0, p.len() - 1)
    } else {
        p
    }
}

/// The search form of a pattern: a leading DOTALL directive, then a single
/// leading start anchor, then a single trailing end anchor removed, each at
/// most once and only at the exact leading or trailing position.
pub open spec fn search_form(p: Seq<char>) -> Seq<char> {
    strip_end_anchor(strip_start_anchor(strip_dotall(p)))
}

/// Remove the inline DOTALL directive and the two anchors from a pattern, so
/// that the result can be recompiled as an unanchored search pattern.
///
/// The transform is purely textual and works on character boundaries, so it
/// is safe on patterns holding multi-byte content.
pub fn prepare_search_regex(regex_str: &str) -> (r: String)
    ensures
        r@ == search_form(regex_str@),
{
    let n: usize = regex_str.unicode_len();
    let has_flag: bool = n >= 4 && regex_str.get_char(0) == '(' && regex_str.get_char(1) == '?'
        && regex_str.get_char(2) == 's' && regex_str.get_char(3) == ')';
    proof {
        if has_flag {
            assert(regex_str@.subrange(0, 4) =~= dotall_directive());
        } else if has_dotall_prefix(regex_str@) {
            assert(regex_str@.subrange(0, 4)[0] == regex_str@[0]);
            assert(regex_str@.subrange(0, 4)[1] == regex_str@[1]);
            assert(regex_str@.subrange(0, 4)[2] == regex_str@[2]);
            assert(regex_str@.subrange(0, 4)[3] == regex_str@[3]);
            assert(false);
        }
    }
    let s1: &str = if has_flag {
        regex_str.substring_char(4, n)
    } else {
        regex_str
    };
    let n1: usize = if has_flag {
        n - 4
    } else {
        n
    };
    assert(s1@ == strip_dotall(regex_str@));

    let has_caret: bool = n1 >= 1 && s1.get_char(0) == '^';
    let s2: &str = if has_caret {
        s1.substring_char(1, n1)
    } else {
        s1
    };
    let n2: usize = if has_caret {
        n1 - 1
    } else {
        n1
    };
    assert(s2@ == strip_start_anchor(s1@));

    let has_dollar: bool = n2 >= 1 && s2.get_char(n2 - 1) == '$';
    let s3: &str = if has_dollar {
        s2.substring_char(0, n2 - 1)
    } else {
        s2
    };
    assert(s3@ == strip_end_anchor(s2@));
    s3.to_owned()
}

/// A pattern with no leading DOTALL directive, no leading start anchor and no
/// trailing end anchor is its own search form: nothing is stripped.
pub proof fn lemma_search_form_noop(p: Seq<char>)
    requires
        !has_dotall_prefix(p),
        !has_start_anchor(p),
        !has_end_anchor(p),
    ensures
        search_form(p) == p,
{
}

/// Normalization is idempotent: taking the search form of a search form
/// changes nothing, as long as the first pass did not expose a fresh leading
/// directive, leading start anchor or trailing end anchor.
pub proof fn lemma_search_form_idempotent(p: Seq<char>)
    requires
        !has_dotall_prefix(search_form(p)),
        !has_start_anchor(search_form(p)),
        !has_end_anchor(search_form(p)),
    ensures
        search_form(search_form(p)) == search_form(p),
{
    lemma_search_form_noop(search_form(p));
}

/// Anchor round trip: wrapping any pattern in the two anchors and taking the
/// search form gives the pattern back.
pub proof fn lemma_search_form_anchor_round_trip(p: Seq<char>)
    ensures
        search_form(seq!['^'] + p + seq!['$']) == p,
{
    let s = seq!['^'] + p + seq!['$'];
    assert(s.len() == p.len() + 2);
    assert(s[0] == '^');
    if has_dotall_prefix(s) {
        assert(s.subrange(0, 4)[0] == s[0]);
        assert(false);
    }
    let s1 = strip_start_anchor(s);
    assert(s1 =~= p + seq!['$']);
    assert(s1[s1.len() - 1] == '$');
    assert(strip_end_anchor(s1) =~= p);
}

} // verus!
