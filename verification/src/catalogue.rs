//! The list of zone names the selector offers: every name chrono-tz knows, once,
//! in the order of their characters.
use vstd::prelude::*;

use crate::tzdb::zone_name_known;

verus! {

/// `a` comes strictly before `b` when their characters are compared one by one by
/// code point (a proper prefix comes first).
pub open spec fn text_precedes(a: Seq<char>, b: Seq<char>) -> bool
    decreases a.len(),
{
    if a.len() == 0 {
        b.len() > 0
    } else if b.len() == 0 {
        false
    } else if a[0] != b[0] {
        (a[0] as u32) < (b[0] as u32)
    } else {
        text_precedes(a.drop_first(), b.drop_first())
    }
}

/// No text comes before itself.
pub proof fn lemma_text_precedes_irreflexive(a: Seq<char>)
    ensures
        !text_precedes(a, a),
    decreases a.len(),
{
    if a.len() > 0 {
        lemma_text_precedes_irreflexive(a.drop_first());
    }
}

/// Of two texts, at most one comes before the other.
pub proof fn lemma_text_precedes_asymmetric(a: Seq<char>, b: Seq<char>)
    ensures
        !(text_precedes(a, b) && text_precedes(b, a)),
    decreases a.len(),
{
    if a.len() > 0 && b.len() > 0 && a[0] == b[0] {
        lemma_text_precedes_asymmetric(a.drop_first(), b.drop_first());
    }
}

/// Each entry comes strictly before every later one.
pub open spec fn strictly_sorted(s: Seq<Seq<char>>) -> bool {
    forall|i: int, j: int| 0 <= i < j < s.len() ==> text_precedes(#[trigger] s[i], #[trigger] s[j])
}

/// `names` is the zone catalogue: each entry is a name chrono-tz knows, every such
/// name is an entry, and the entries are strictly sorted (so none repeats).
pub open spec fn is_zone_catalogue(names: Seq<Seq<char>>) -> bool {
    &&& forall|i: int| 0 <= i < names.len() ==> zone_name_known(#[trigger] names[i])
    &&& forall|name: Seq<char>| #[trigger] zone_name_known(name) ==> names.contains(name)
    &&& strictly_sorted(names)
}

/// The zone catalogue.
pub open spec fn zone_catalogue() -> Seq<Seq<char>> {
    choose|names: Seq<Seq<char>>| is_zone_catalogue(names)
}

proof fn lemma_sorted_lists_of_same_texts_are_equal(a: Seq<Seq<char>>, b: Seq<Seq<char>>)
    requires
        strictly_sorted(a),
        strictly_sorted(b),
        forall|x: Seq<char>| a.contains(x) <==> b.contains(x),
    ensures
        a == b,
    decreases a.len(),
{
    if a.len() == 0 {
        if b.len() > 0 {
            assert(b.contains(b[0]));
        }
        assert(a =~= b);
    } else if b.len() == 0 {
        assert(a.contains(a[0]));
    } else {
        let x = a[0];
        let y = b[0];
        assert(a.contains(x));
        assert(b.contains(y));
        let k = choose|k: int| 0 <= k < b.len() && b[k] == x;
        let j = choose|j: int| 0 <= j < a.len() && a[j] == y;
        if x != y {
            assert(k > 0 && j > 0);
            assert(text_precedes(b[0], b[k]));
            assert(text_precedes(a[0], a[j]));
            lemma_text_precedes_asymmetric(x, y);
        }
        let a2 = a.drop_first();
        let b2 = b.drop_first();
        assert forall|z: Seq<char>| a2.contains(z) implies b2.contains(z) by {
            let i = choose|i: int| 0 <= i < a2.len() && a2[i] == z;
            assert(a[i + 1] == z);
            assert(a.contains(z));
            let m = choose|m: int| 0 <= m < b.len() && b[m] == z;
            if m == 0 {
                assert(text_precedes(a[0], a[i + 1]));
                lemma_text_precedes_irreflexive(z);
            }
            assert(b2[m - 1] == z);
        }
        assert forall|z: Seq<char>| b2.contains(z) implies a2.contains(z) by {
            let i = choose|i: int| 0 <= i < b2.len() && b2[i] == z;
            assert(b[i + 1] == z);
            assert(b.contains(z));
            let m = choose|m: int| 0 <= m < a.len() && a[m] == z;
            if m == 0 {
                assert(text_precedes(b[0], b[i + 1]));
                lemma_text_precedes_irreflexive(z);
            }
            assert(a2[m - 1] == z);
        }
        assert(strictly_sorted(a2)) by {
            assert forall|i: int, j2: int| 0 <= i < j2 < a2.len() implies text_precedes(a2[i], a2[j2]) by {
                assert(a2[i] == a[i + 1] && a2[j2] == a[j2 + 1]);
            }
        }
        assert(strictly_sorted(b2)) by {
            assert forall|i: int, j2: int| 0 <= i < j2 < b2.len() implies text_precedes(b2[i], b2[j2]) by {
                assert(b2[i] == b[i + 1] && b2[j2] == b[j2 + 1]);
            }
        }
        lemma_sorted_lists_of_same_texts_are_equal(a2, b2);
        assert(a =~= seq![x] + a2);
        assert(b =~= seq![y] + b2);
    }
}

/// There is only one zone catalogue: a list that meets `is_zone_catalogue` is
/// `zone_catalogue()`.
pub proof fn lemma_zone_catalogue_is_unique(names: Seq<Seq<char>>)
    requires
        is_zone_catalogue(names),
    ensures
        names == zone_catalogue(),
{
    let c = zone_catalogue();
    assert(is_zone_catalogue(c));
    assert forall|x: Seq<char>| names.contains(x) <==> c.contains(x) by {
        if names.contains(x) {
            let i = choose|i: int| 0 <= i < names.len() && names[i] == x;
            assert(zone_name_known(names[i]));
        }
        if c.contains(x) {
            let i = choose|i: int| 0 <= i < c.len() && c[i] == x;
            assert(zone_name_known(c[i]));
        }
    }
    lemma_sorted_lists_of_same_texts_are_equal(names, c);
}

} // verus!
