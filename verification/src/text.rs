//! Comparisons and searches on strings, character by character.

use vstd::prelude::*;
use vstd::string::*;

verus! {

/// Whether two strings hold the same characters.
pub fn same_text(a: &str, b: &str) -> (same: bool)
    ensures
        same == (a@ == b@),
{
    let n: usize = a.unicode_len();
    if b.unicode_len() != n {
        return false;
    }
    let mut i: usize = 0;
    while i < n
        invariant
            i <= n,
            n == a@.len(),
            n == b@.len(),
            forall|j: int| 0 <= j < i ==> a@[j] == b@[j],
        decreases n - i,
    {
        if a.get_char(i) != b.get_char(i) {
            return false;
        }
        i = i + 1;
    }
    assert(a@ =~= b@);
    true
}

/// Whether `text` begins with `prefix`.
pub fn starts_with(text: &str, prefix: &str) -> (found: bool)
    ensures
        found == prefix@.is_prefix_of(text@),
{
    let n: usize = prefix.unicode_len();
    if text.unicode_len() < n {
        return false;
    }
    let mut i: usize = 0;
    while i < n
        invariant
            i <= n,
            n == prefix@.len(),
            n <= text@.len(),
            forall|j: int| 0 <= j < i ==> text@[j] == prefix@[j],
        decreases n - i,
    {
        if text.get_char(i) != prefix.get_char(i) {
            assert(text@.subrange(0, n as int)[i as int] != prefix@[i as int]);
            return false;
        }
        i = i + 1;
    }
    assert(prefix@ =~= text@.subrange(0, n as int));
    true
}

/// Whether `text` ends with `suffix`.
pub fn ends_with(text: &str, suffix: &str) -> (found: bool)
    ensures
        found == suffix@.is_suffix_of(text@),
{
    let n: usize = suffix.unicode_len();
    let len: usize = text.unicode_len();
    if len < n {
        return false;
    }
    let start: usize = len - n;
    let mut i: usize = 0;
    while i < n
        invariant
            i <= n,
            n == suffix@.len(),
            len == text@.len(),
            start == len - n,
            forall|j: int| 0 <= j < i ==> text@[start + j] == suffix@[j],
        decreases n - i,
    {
        if text.get_char(start + i) != suffix.get_char(i) {
            assert(text@.subrange(start as int, len as int)[i as int] != suffix@[i as int]);
            return false;
        }
        i = i + 1;
    }
    assert(suffix@ =~= text@.subrange(start as int, len as int));
    true
}

/// Where `wanted` first stands in `text`, if it stands there at all.
pub open spec fn first_position(text: Seq<char>, wanted: char) -> Option<int> {
    if exists|i: int| 0 <= i < text.len() && text[i] == wanted {
        Some(
            choose|i: int|
                0 <= i < text.len() && text[i] == wanted && forall|j: int|
                    0 <= j < i ==> text[j] != wanted,
        )
    } else {
        None
    }
}

/// `first_position` gives an occurrence of `wanted` with none before it, and
/// nothing exactly when `wanted` does not occur.
pub proof fn first_position_is_first(text: Seq<char>, wanted: char)
    ensures
        match first_position(text, wanted) {
            Some(i) => 0 <= i < text.len() && text[i] == wanted && forall|j: int|
                0 <= j < i ==> text[j] != wanted,
            None => forall|j: int| 0 <= j < text.len() ==> text[j] != wanted,
        },
{
    if exists|i: int| 0 <= i < text.len() && text[i] == wanted {
        let k = choose|i: int| 0 <= i < text.len() && text[i] == wanted;
        least_occurrence(text, wanted, k);
    }
}

proof fn least_occurrence(text: Seq<char>, wanted: char, k: int)
    requires
        0 <= k < text.len(),
        text[k] == wanted,
    ensures
        exists|i: int|
            0 <= i < text.len() && text[i] == wanted && forall|j: int|
                0 <= j < i ==> text[j] != wanted,
    decreases k,
{
    if exists|j: int| 0 <= j < k && text[j] == wanted {
        let j = choose|j: int| 0 <= j < k && text[j] == wanted;
        least_occurrence(text, wanted, j);
    } else {
        assert(0 <= k < text.len() && text[k] == wanted && forall|j: int|
            0 <= j < k ==> text[j] != wanted);
    }
}

/// Finds the first occurrence of `wanted` in `text`.
pub fn find_first(text: &str, wanted: char) -> (at: Option<usize>)
    ensures
        match at {
            Some(i) => first_position(text@, wanted) == Some(i as int),
            None => first_position(text@, wanted) is None,
        },
{
    let n: usize = text.unicode_len();
    let mut i: usize = 0;
    while i < n
        invariant
            i <= n,
            n == text@.len(),
            forall|j: int| 0 <= j < i ==> text@[j] != wanted,
        decreases n - i,
    {
        if text.get_char(i) == wanted {
            proof {
                first_position_is_first(text@, wanted);
            }
            return Some(i);
        }
        i = i + 1;
    }
    None
}

/// The two strings, one after the other.
pub fn joined(head: &str, tail: &str) -> (whole: String)
    ensures
        whole@ == head@ + tail@,
{
    let mut whole = String::from_str(head);
    whole.append(tail);
    whole
}

} // verus!
