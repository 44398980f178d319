//! Which rows of the zone list the search text lets through.
use vstd::prelude::*;
use vstd::string::StrSliceExecFns;

use crate::tzdb::{lowercase, to_lowercase};

verus! {

/// `needle` occurs in `hay` starting at position `i`.
pub open spec fn occurs_at(hay: Seq<char>, needle: Seq<char>, i: int) -> bool {
    &&& 0 <= i
    &&& i + needle.len() <= hay.len()
    &&& hay.subrange(i, i + needle.len()) == needle
}

/// `needle` occurs somewhere in `hay` (the empty text occurs everywhere).
pub open spec fn contains_text(hay: Seq<char>, needle: Seq<char>) -> bool {
    exists|i: int| occurs_at(hay, needle, i)
}

/// A row of the zone list is shown: the search is empty, the row has no text, or
/// the row's text contains the search text, both lower-cased.
pub open spec fn row_shown(search: Seq<char>, row: Option<Seq<char>>) -> bool {
    ||| search.len() == 0
    ||| row is None
    ||| contains_text(lowercase(row->0), lowercase(search))
}

/// A text contains each of its own pieces: whatever stands before and after `b`,
/// `b` is found in `a + b + c` (at the very start and at the very end too).
pub proof fn lemma_text_contains_its_infixes(a: Seq<char>, b: Seq<char>, c: Seq<char>)
    ensures
        contains_text(a + b + c, b),
{
    let hay = a + b + c;
    assert(hay.subrange(a.len() as int, (a.len() + b.len()) as int) =~= b);
    assert(occurs_at(hay, b, a.len() as int));
}

/// A text that contains another splits around it: what comes before the match,
/// the match, and what comes after.
pub proof fn lemma_contained_text_splits(hay: Seq<char>, needle: Seq<char>)
    requires
        contains_text(hay, needle),
    ensures
        exists|a: Seq<char>, c: Seq<char>| hay == a + needle + c,
{
    let i = choose|i: int| occurs_at(hay, needle, i);
    let a = hay.subrange(0, i);
    let c = hay.subrange(i + needle.len(), hay.len() as int);
    assert(hay =~= a + needle + c);
}

/// A row whose lower-cased text ends with the lower-cased search text is shown
/// (a search for the last part of a zone name, or for the whole name, finds it).
pub proof fn lemma_row_shown_for_suffix(search: Seq<char>, row: Seq<char>, lead: Seq<char>)
    requires
        lowercase(row) == lead + lowercase(search),
    ensures
        row_shown(search, Some(row)),
{
    lemma_text_contains_its_infixes(lead, lowercase(search), Seq::<char>::empty());
    assert(lead + lowercase(search) + Seq::<char>::empty() =~= lowercase(row));
}

/// A row is hidden only when the search is not empty, the row has text, and the
/// lower-cased search text is found nowhere in the lower-cased row.
pub proof fn lemma_hidden_row_lacks_search(search: Seq<char>, row: Seq<char>)
    requires
        !row_shown(search, Some(row)),
    ensures
        search.len() > 0,
        forall|a: Seq<char>, c: Seq<char>| lowercase(row) != a + lowercase(search) + c,
{
    assert forall|a: Seq<char>, c: Seq<char>| lowercase(row) != a + lowercase(search) + c by {
        if lowercase(row) == a + lowercase(search) + c {
            lemma_text_contains_its_infixes(a, lowercase(search), c);
        }
    }
}

fn chars_of(text: &str) -> (chars: Vec<char>)
    ensures
        chars@ == text@,
{
    let n = text.unicode_len();
    let mut chars: Vec<char> = Vec::new();
    let mut i: usize = 0;
    while i < n
        invariant
            n == text@.len(),
            i <= n,
            chars@ == text@.subrange(0, i as int),
        decreases n - i,
    {
        chars.push(text.get_char(i));
        i = i + 1;
    }
    chars
}

fn text_contains(hay: &str, needle: &str) -> (found: bool)
    ensures
        found == contains_text(hay@, needle@),
{
    let h = chars_of(hay);
    let p = chars_of(needle);
    let n = h.len();
    let m = p.len();
    if m > n {
        assert forall|i: int| !occurs_at(hay@, needle@, i) by {}
        return false;
    }
    let mut i: usize = 0;
    while i <= n - m
        invariant
            h@ == hay@,
            p@ == needle@,
            n == h@.len(),
            m == p@.len(),
            m <= n,
            i <= n - m + 1,
            forall|k: int| 0 <= k < i ==> !occurs_at(hay@, needle@, k),
        decreases n - m + 1 - i,
    {
        let mut j: usize = 0;
        while j < m
            invariant
                h@ == hay@,
                p@ == needle@,
                n == h@.len(),
                m == p@.len(),
                i + m <= n,
                j <= m,
                forall|l: int| 0 <= l < j ==> h@[i + l] == p@[l],
            ensures
                j <= m,
                forall|l: int| 0 <= l < j ==> h@[i + l] == p@[l],
                j == m || h@[i + j] != p@[j as int],
            decreases m - j,
        {
            if h[i + j] != p[j] {
                break;
            }
            j = j + 1;
        }
        if j == m {
            assert(hay@.subrange(i as int, i + m) =~= needle@);
            assert(occurs_at(hay@, needle@, i as int));
            return true;
        }
        assert(!occurs_at(hay@, needle@, i as int)) by {
            if occurs_at(hay@, needle@, i as int) {
                assert(hay@.subrange(i as int, i + m)[j as int] == needle@[j as int]);
            }
        }
        i = i + 1;
    }
    assert forall|k: int| !occurs_at(hay@, needle@, k) by {
        if 0 <= k && k + m <= n {
            assert(k < i);
        }
    }
    false
}

/// Whether the zone list shows a row with the text `row` while the search entry
/// holds `search`.
pub fn zone_row_visible(search: &str, row: Option<&str>) -> (shown: bool)
    ensures
        shown == row_shown(
            search@,
            match row {
                Some(r) => Some(r@),
                None => None,
            },
        ),
{
    if search.unicode_len() == 0 {
        return true;
    }
    match row {
        None => true,
        Some(r) => {
            let lower_row = to_lowercase(r);
            let lower_search = to_lowercase(search);
            text_contains(lower_row.as_str(), lower_search.as_str())
        },
    }
}

} // verus!
