use vstd::prelude::*;
use vstd::string::StrSliceExecFns;

verus! {

/// `text` begins with `prefix`.
pub open spec fn starts_with(text: Seq<char>, prefix: Seq<char>) -> bool {
    prefix.len() <= text.len() && text.subrange(0, prefix.len() as int) == prefix
}

/// `text` has the length of `lower` and agrees with it at every position,
/// where a position may also hold the character that `upper` has there, if
/// it has one.
pub open spec fn matches_either_case(text: Seq<char>, lower: Seq<char>, upper: Seq<char>) -> bool {
    &&& text.len() == lower.len()
    &&& forall|i: int|
        0 <= i < text.len() ==> text[i] == #[trigger] lower[i] || (i < upper.len() && text[i]
            == upper[i])
}

/// The view of an optional text.
pub open spec fn optional_text_view(text: Option<String>) -> Option<Seq<char>> {
    match text {
        Some(text) => Some(text@),
        None => None,
    }
}

/// Tells whether `text` begins with `prefix`.
pub fn has_prefix(text: &str, prefix: &str) -> (found: bool)
    ensures
        found == starts_with(text@, prefix@),
{
    let text_len = text.unicode_len();
    let prefix_len = prefix.unicode_len();
    if prefix_len > text_len {
        return false;
    }
    let mut i: usize = 0;
    while i < prefix_len
        invariant
            i <= prefix_len <= text_len,
            text_len == text@.len(),
            prefix_len == prefix@.len(),
            forall|j: int| 0 <= j < i ==> text@[j] == prefix@[j],
        decreases prefix_len - i,
    {
        if text.get_char(i) != prefix.get_char(i) {
            assert(text@.subrange(0, prefix@.len() as int)[i as int] != prefix@[i as int]);
            return false;
        }
        i += 1;
    }
    assert(text@.subrange(0, prefix@.len() as int) =~= prefix@);
    true
}

/// Tells whether `text` is `lower` up to the case that `upper` allows at each
/// position.
pub fn eq_either_case(text: &str, lower: &str, upper: &str) -> (same: bool)
    ensures
        same == matches_either_case(text@, lower@, upper@),
{
    let len = lower.unicode_len();
    let upper_len = upper.unicode_len();
    if text.unicode_len() != len {
        return false;
    }
    let mut i: usize = 0;
    while i < len
        invariant
            i <= len,
            len == lower@.len(),
            len == text@.len(),
            upper_len == upper@.len(),
            forall|j: int|
                0 <= j < i ==> text@[j] == #[trigger] lower@[j] || (j < upper@.len() && text@[j]
                    == upper@[j]),
        decreases len - i,
    {
        let c = text.get_char(i);
        if c != lower.get_char(i) && !(i < upper_len && c == upper.get_char(i)) {
            return false;
        }
        i += 1;
    }
    true
}

/// Tells whether two texts hold the same characters.
pub fn same_text(a: &str, b: &str) -> (same: bool)
    ensures
        same == (a@ == b@),
{
    if a.unicode_len() != b.unicode_len() {
        return false;
    }
    let same = has_prefix(a, b);
    assert(a@.subrange(0, a@.len() as int) =~= a@);
    same
}

} // verus!
