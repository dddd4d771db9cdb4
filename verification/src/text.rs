//! Searching in text, byte by byte.

use vstd::prelude::*;
use vstd::string::StringSliceAdditionalSpecFns;

verus! {

/// The lower-case form of a text, as `str::to_lowercase` of the standard
/// library gives it.
pub uninterp spec fn lowercase_text(text: Seq<char>) -> Seq<char>;

/// `str::to_lowercase` of the standard library: the text with each
/// character replaced by its lower-case form, by the rules of Unicode.
#[verifier::external_body]
fn lowercase(text: &str) -> (lower: String)
    ensures
        lower@ == lowercase_text(text@),
{
    text.to_lowercase()
}

/// The lower-case form of a text.
pub fn to_lowercase(text: &str) -> (lower: String)
    ensures
        lower@ == lowercase_text(text@),
{
    lowercase(text)
}

/// Whether `pattern` stands in `text` at offset `at`.
pub open spec fn occurs_at(pattern: Seq<u8>, text: Seq<u8>, at: int) -> bool {
    0 <= at && at + pattern.len() <= text.len() && text.subrange(at, at + pattern.len())
        == pattern
}

/// Whether `pattern` stands somewhere in `text`.
pub open spec fn occurs_in(pattern: Seq<u8>, text: Seq<u8>) -> bool {
    exists|at: int| occurs_at(pattern, text, at)
}

/// Whether `text` ends with `suffix`.
pub open spec fn ends_with(text: Seq<u8>, suffix: Seq<u8>) -> bool {
    occurs_at(suffix, text, text.len() - suffix.len())
}

/// Whether the first `count` bytes of `pattern` stand in `text` at `at`.
pub open spec fn agrees(pattern: Seq<u8>, text: Seq<u8>, at: int, count: int) -> bool {
    forall|k: int| 0 <= k < count ==> #[trigger] text[at + k] == pattern[k]
}

/// Compares `pattern` with the bytes of `text` from `at` on.
fn matches_at(text: &[u8], pattern: &[u8], at: usize) -> (found: bool)
    requires
        at + pattern@.len() <= text@.len(),
    ensures
        found == occurs_at(pattern@, text@, at as int),
{
    let length: usize = text.len();
    let mut k: usize = 0;
    while k < pattern.len()
        invariant
            k <= pattern@.len(),
            length == text@.len(),
            at + pattern@.len() <= length,
            agrees(pattern@, text@, at as int, k as int),
        decreases pattern@.len() - k,
    {
        if text[at + k] != pattern[k] {
            assert(text@.subrange(at as int, at + pattern@.len())[k as int] == text@[at + k]);
            return false;
        }
        k += 1;
    }
    assert forall|j: int| 0 <= j < pattern@.len() implies text@.subrange(
        at as int,
        at + pattern@.len(),
    )[j] == pattern@[j] by {
        assert(text@[at + j] == pattern@[j]);
    }
    assert(text@.subrange(at as int, at + pattern@.len()) =~= pattern@);
    true
}

/// Whether `pattern` stands somewhere in `text`.
pub fn contains_bytes(text: &[u8], pattern: &[u8]) -> (found: bool)
    ensures
        found == occurs_in(pattern@, text@),
{
    if pattern.len() > text.len() {
        return false;
    }
    let last: usize = text.len() - pattern.len();
    let mut at: usize = 0;
    loop
        invariant
            at <= last,
            last == text@.len() - pattern@.len(),
            forall|earlier: int| 0 <= earlier < at ==> !occurs_at(pattern@, text@, earlier),
        decreases last - at,
    {
        if matches_at(text, pattern, at) {
            return true;
        }
        if at == last {
            return false;
        }
        at += 1;
    }
}

/// Whether `text` ends with `suffix`.
pub fn has_suffix(text: &[u8], suffix: &[u8]) -> (found: bool)
    ensures
        found == ends_with(text@, suffix@),
{
    if suffix.len() > text.len() {
        return false;
    }
    matches_at(text, suffix, text.len() - suffix.len())
}

/// Whether the text `text` holds the text `pattern`.
pub open spec fn text_contains(text: Seq<char>, pattern: Seq<char>) -> bool {
    occurs_in(vstd::utf8::encode_utf8(pattern), vstd::utf8::encode_utf8(text))
}

/// Whether the text `text` ends with the text `suffix`.
pub open spec fn text_ends_with(text: Seq<char>, suffix: Seq<char>) -> bool {
    ends_with(vstd::utf8::encode_utf8(text), vstd::utf8::encode_utf8(suffix))
}

/// Whether `text` holds `pattern`, compared by their UTF-8 bytes.
pub fn contains(text: &str, pattern: &str) -> (found: bool)
    ensures
        found == text_contains(text@, pattern@),
{
    contains_bytes(text.as_bytes(), pattern.as_bytes())
}

/// Whether `text` ends with `suffix`, compared by their UTF-8 bytes.
pub fn ends_in(text: &str, suffix: &str) -> (found: bool)
    ensures
        found == text_ends_with(text@, suffix@),
{
    has_suffix(text.as_bytes(), suffix.as_bytes())
}

} // verus!
