//! The agent script that is loaded into every new session.
//!
//! The bundle is built outside this crate. When it was not built, a marker
//! stands in its place, and loading must fail instead of injecting it.

use crate::error::{ServiceError, ServiceErrorView};
use crate::types::text_result_view;
use crate::validation::{contains_nul, has_nul};
use vstd::prelude::*;
use vstd::string::*;

verus! {

/// The name under which the agent is created in a session.
pub open spec fn agent_name() -> Seq<char> {
    "carf-agent"@
}

/// The marker that stands for a bundle that was never built.
pub open spec fn missing_marker() -> Seq<char> {
    "__CARF_AGENT_MISSING__"@
}

/// Whether `pattern` occurs in `text` as a run of adjacent characters.
pub open spec fn holds_run(text: Seq<char>, pattern: Seq<char>) -> bool {
    exists|at: int| occurs_at(text, pattern, at)
}

/// Whether `pattern` stands in `text` at position `at`.
pub open spec fn occurs_at(text: Seq<char>, pattern: Seq<char>, at: int) -> bool {
    0 <= at && at + pattern.len() <= text.len() && text.subrange(at, at + pattern.len())
        == pattern
}

/// The characters with the Unicode property White_Space.
pub open spec fn is_white_space(c: char) -> bool {
    let code = c as u32;
    ||| 0x09 <= code <= 0x0D
    ||| code == 0x20
    ||| code == 0x85
    ||| code == 0xA0
    ||| code == 0x1680
    ||| 0x2000 <= code <= 0x200A
    ||| code == 0x2028
    ||| code == 0x2029
    ||| code == 0x202F
    ||| code == 0x205F
    ||| code == 0x3000
}

/// Whether nothing is left of `text` once white space is trimmed away.
pub open spec fn is_blank(text: Seq<char>) -> bool {
    forall|i: int| 0 <= i < text.len() ==> is_white_space(#[trigger] text[i])
}

/// The source to inject, or the reason why the bundle cannot be used. The
/// bundle arrives decoded, or with the decoder's complaint.
pub open spec fn agent_verdict(bundle: Result<Seq<char>, Seq<char>>) -> Result<
    Seq<char>,
    ServiceErrorView,
> {
    match bundle {
        Err(detail) => Err(ServiceErrorView::AssetUnreadable { detail }),
        Ok(text) => if holds_run(text, missing_marker()) {
            Err(ServiceErrorView::AssetMissing)
        } else if is_blank(text) {
            Err(ServiceErrorView::AssetEmpty)
        } else if has_nul(text) {
            Err(ServiceErrorView::InputValidation { label: "default_script"@ })
        } else {
            Ok(text)
        },
    }
}

/// A checked bundle with both sides turned into their mathematical values.
pub open spec fn verdict_view(outcome: Result<String, ServiceError>) -> Result<
    Seq<char>,
    ServiceErrorView,
> {
    match outcome {
        Ok(text) => Ok(text@),
        Err(error) => Err(error@),
    }
}

/// Tells whether `c` has the Unicode property White_Space.
pub fn white_space(c: char) -> (blank: bool)
    ensures
        blank == is_white_space(c),
{
    let code = c as u32;
    (0x09 <= code && code <= 0x0D) || code == 0x20 || code == 0x85 || code == 0xA0 || code
        == 0x1680 || (0x2000 <= code && code <= 0x200A) || code == 0x2028 || code == 0x2029
        || code == 0x202F || code == 0x205F || code == 0x3000
}

/// The characters of `text`, one by one.
pub fn characters(text: &str) -> (chars: Vec<char>)
    ensures
        chars@ == text@,
{
    let mut chars: Vec<char> = Vec::new();
    for c in it: text.chars()
        invariant
            it.seq() == text@,
            chars@ == text@.take(it.index() as int),
    {
        assert(text@.take(it.index() + 1) =~= text@.take(it.index() as int).push(c));
        chars.push(c);
    }
    assert(text@.take(text@.len() as int) =~= text@);
    chars
}

/// Tells whether every character of `text` is white space.
pub fn blank(text: &Vec<char>) -> (all: bool)
    ensures
        all == is_blank(text@),
{
    let mut i: usize = 0;
    while i < text.len()
        invariant
            i <= text.len(),
            forall|j: int| 0 <= j < i ==> is_white_space(#[trigger] text@[j]),
        decreases text.len() - i,
    {
        if !white_space(text[i]) {
            return false;
        }
        i += 1;
    }
    true
}

/// Tells whether `pattern` stands in `text` at position `at`.
pub fn matches_at(text: &Vec<char>, pattern: &Vec<char>, at: usize) -> (found: bool)
    requires
        at + pattern.len() <= text.len(),
    ensures
        found == occurs_at(text@, pattern@, at as int),
{
    let mut k: usize = 0;
    while k < pattern.len()
        invariant
            k <= pattern.len(),
            at + pattern.len() <= text.len(),
            forall|j: int| 0 <= j < k ==> text@[at + j] == pattern@[j],
        decreases pattern.len() - k,
    {
        if text[at + k] != pattern[k] {
            assert(text@.subrange(at as int, at + pattern.len())[k as int] != pattern@[k as int]);
            return false;
        }
        k += 1;
    }
    assert(text@.subrange(at as int, at + pattern.len()) =~= pattern@);
    true
}

/// Tells whether `pattern` occurs anywhere in `text`.
pub fn find_run(text: &Vec<char>, pattern: &Vec<char>) -> (found: bool)
    ensures
        found == holds_run(text@, pattern@),
{
    if pattern.len() > text.len() {
        return false;
    }
    let last: usize = text.len() - pattern.len();
    let mut at: usize = 0;
    loop
        invariant
            at <= last,
            last == text.len() - pattern.len(),
            pattern.len() <= text.len(),
            forall|j: int| 0 <= j < at ==> !occurs_at(text@, pattern@, j),
        ensures
            at == last,
            forall|j: int| 0 <= j <= last ==> !occurs_at(text@, pattern@, j),
        decreases last - at,
    {
        if matches_at(text, pattern, at) {
            return true;
        }
        if at == last {
            break ;
        }
        at += 1;
    }
    false
}

/// Checks the decoded bundle: it must not be the stand-in marker, not
/// blank, and free of NUL characters.
pub fn check_agent(bundle: Result<String, String>) -> (verdict: Result<String, ServiceError>)
    ensures
        verdict_view(verdict) == agent_verdict(text_result_view(bundle)),
{
    match bundle {
        Err(detail) => Err(ServiceError::AssetUnreadable { detail }),
        Ok(text) => {
            let chars = characters(text.as_str());
            let marker = characters("__CARF_AGENT_MISSING__");
            if find_run(&chars, &marker) {
                Err(ServiceError::AssetMissing)
            } else if blank(&chars) {
                Err(ServiceError::AssetEmpty)
            } else if contains_nul(text.as_str()) {
                Err(ServiceError::InputValidation { label: String::from_str("default_script") })
            } else {
                Ok(text)
            }
        },
    }
}

} // verus!
