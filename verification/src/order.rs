//! Lexicographic text order and sorting of string lists.
//!
//! Strings are compared character by character by code point, which for UTF-8
//! text is the same order as comparing their bytes (the order of `String`'s
//! `Ord`).
use vstd::prelude::*;

use crate::finding::views;
use crate::text;

verus! {

/// Strict lexicographic order on character sequences.
pub open spec fn lex_lt(a: Seq<char>, b: Seq<char>) -> bool
    decreases a.len(),
{
    if a.len() == 0 {
        b.len() > 0
    } else if b.len() == 0 {
        false
    } else if a[0] != b[0] {
        (a[0] as u32) < (b[0] as u32)
    } else {
        lex_lt(a.drop_first(), b.drop_first())
    }
}

/// Non-strict lexicographic order.
pub open spec fn lex_le(a: Seq<char>, b: Seq<char>) -> bool {
    a == b || lex_lt(a, b)
}

/// A list of texts in non-decreasing order.
pub open spec fn sorted_texts(s: Seq<Seq<char>>) -> bool {
    forall|i: int, j: int| 0 <= i < j < s.len() ==> lex_le(#[trigger] s[i], #[trigger] s[j])
}

/// A list of texts in strictly increasing order (so without repeats).
pub open spec fn strictly_sorted_texts(s: Seq<Seq<char>>) -> bool {
    forall|i: int, j: int| 0 <= i < j < s.len() ==> lex_lt(#[trigger] s[i], #[trigger] s[j])
}

/// Distinct characters have distinct code points.
pub proof fn lemma_char_code_injective(a: char, b: char)
    ensures
        a != b ==> (a as u32) != (b as u32),
{
    let ua = a as u32;
    let ub = b as u32;
    assert(ua as char == a);
    assert(ub as char == b);
}

/// `lex_lt` is irreflexive.
pub proof fn lemma_lex_irreflexive(a: Seq<char>)
    ensures
        !lex_lt(a, a),
    decreases a.len(),
{
    if a.len() > 0 {
        lemma_lex_irreflexive(a.drop_first());
    }
}

/// `lex_lt` is transitive.
pub proof fn lemma_lex_transitive(a: Seq<char>, b: Seq<char>, c: Seq<char>)
    requires
        lex_lt(a, b),
        lex_lt(b, c),
    ensures
        lex_lt(a, c),
    decreases a.len(),
{
    if a.len() > 0 && b.len() > 0 && c.len() > 0 {
        if a[0] == b[0] && b[0] == c[0] {
            lemma_lex_transitive(a.drop_first(), b.drop_first(), c.drop_first());
        }
    }
}

/// `lex_lt` is total on distinct sequences.
pub proof fn lemma_lex_total(a: Seq<char>, b: Seq<char>)
    ensures
        a == b || lex_lt(a, b) || lex_lt(b, a),
    decreases a.len(),
{
    if a.len() > 0 && b.len() > 0 {
        lemma_char_code_injective(a[0], b[0]);
    }
    if a.len() > 0 && b.len() > 0 && a[0] == b[0] {
        lemma_lex_total(a.drop_first(), b.drop_first());
        if a.drop_first() == b.drop_first() {
            assert(a =~= seq![a[0]] + a.drop_first());
            assert(b =~= seq![b[0]] + b.drop_first());
        }
    } else if a.len() == 0 && b.len() == 0 {
        assert(a =~= b);
    }
}

/// `lex_lt` is asymmetric.
pub proof fn lemma_lex_asymmetric(a: Seq<char>, b: Seq<char>)
    ensures
        !(lex_lt(a, b) && lex_lt(b, a)),
{
    if lex_lt(a, b) && lex_lt(b, a) {
        lemma_lex_transitive(a, b, a);
        lemma_lex_irreflexive(a);
    }
}

/// A strictly increasing list of texts holds no text twice.
pub proof fn lemma_strictly_sorted_no_duplicates(s: Seq<Seq<char>>)
    requires
        strictly_sorted_texts(s),
    ensures
        s.no_duplicates(),
{
    assert forall|i: int, j: int| 0 <= i < s.len() && 0 <= j < s.len() && i != j implies s[i] != s[j] by {
        if i < j {
            lemma_lex_irreflexive(s[i]);
        } else {
            lemma_lex_irreflexive(s[j]);
        }
    }
}

/// A sorted list whose items are those of a list without repeats, counted
/// alike, is strictly increasing.
pub proof fn lemma_sorted_permutation_strict(sorted: Seq<Seq<char>>, items: Seq<Seq<char>>)
    requires
        sorted_texts(sorted),
        sorted.to_multiset() == items.to_multiset(),
        items.no_duplicates(),
    ensures
        strictly_sorted_texts(sorted),
{
    items.lemma_multiset_has_no_duplicates();
    sorted.lemma_multiset_has_no_duplicates_conv();
    assert forall|i: int, j: int| 0 <= i < j < sorted.len() implies lex_lt(#[trigger] sorted[i], #[trigger] sorted[j]) by {
        assert(lex_le(sorted[i], sorted[j]));
    }
}

/// Three-way comparison of character vectors: -1, 0 or 1.
pub fn compare_chars(a: &Vec<char>, b: &Vec<char>) -> (r: i8)
    ensures
        r == 0 <==> a@ == b@,
        r < 0 <==> lex_lt(a@, b@),
        r > 0 <==> lex_lt(b@, a@),
{
    let mut i: usize = 0;
    assert(a@.skip(0) =~= a@);
    assert(b@.skip(0) =~= b@);
    while i < a.len() && i < b.len()
        invariant
            i <= a@.len(),
            i <= b@.len(),
            a@.take(i as int) == b@.take(i as int),
            lex_lt(a@, b@) == lex_lt(a@.skip(i as int), b@.skip(i as int)),
            lex_lt(b@, a@) == lex_lt(b@.skip(i as int), a@.skip(i as int)),
        decreases a@.len() - i,
    {
        if a[i] != b[i] {
            proof {
                lemma_char_code_injective(a@[i as int], b@[i as int]);
                lemma_lex_asymmetric(a@, b@);
                if a@ == b@ {
                    assert(a@[i as int] == b@[i as int]);
                }
            }
            if (a[i] as u32) < (b[i] as u32) {
                return -1;
            } else {
                return 1;
            }
        }
        proof {
            assert(a@.skip(i as int).drop_first() =~= a@.skip(i + 1));
            assert(b@.skip(i as int).drop_first() =~= b@.skip(i + 1));
            assert(a@.take(i + 1) =~= a@.take(i as int).push(a@[i as int]));
            assert(b@.take(i + 1) =~= b@.take(i as int).push(b@[i as int]));
        }
        i = i + 1;
    }
    if a.len() == b.len() {
        assert(a@ =~= a@.take(i as int));
        assert(b@ =~= b@.take(i as int));
        proof {
            lemma_lex_irreflexive(a@);
        }
        0
    } else if a.len() < b.len() {
        assert(a@ != b@);
        -1
    } else {
        assert(a@ != b@);
        1
    }
}

/// Whether `a` comes strictly before `b`.
pub fn str_less(a: &str, b: &str) -> (r: bool)
    ensures
        r == lex_lt(a@, b@),
{
    let x = text::chars_of(a);
    let y = text::chars_of(b);
    compare_chars(&x, &y) < 0
}

/// Three-way comparison of strings: -1, 0 or 1.
pub fn compare_strs(a: &str, b: &str) -> (r: i8)
    ensures
        r == 0 <==> a@ == b@,
        r < 0 <==> lex_lt(a@, b@),
        r > 0 <==> lex_lt(b@, a@),
{
    let x = text::chars_of(a);
    let y = text::chars_of(b);
    compare_chars(&x, &y)
}

/// Sorts strings in non-decreasing order.
pub fn sort_strings(v: &Vec<String>) -> (r: Vec<String>)
    ensures
        sorted_texts(views(r@)),
        views(r@).to_multiset() == views(v@).to_multiset(),
{
    let mut out: Vec<String> = Vec::new();
    let mut i: usize = 0;
    assert(views(v@).take(0) =~= Seq::<Seq<char>>::empty());
    assert(views(out@) =~= Seq::<Seq<char>>::empty());
    while i < v.len()
        invariant
            i <= v@.len(),
            sorted_texts(views(out@)),
            views(out@).to_multiset() == views(v@).take(i as int).to_multiset(),
        decreases v@.len() - i,
    {
        let x = v[i].clone();
        let ghost xv = x@;
        let mut p: usize = 0;
        while p < out.len() && !str_less(x.as_str(), out[p].as_str())
            invariant
                p <= out@.len(),
                forall|k: int| 0 <= k < p ==> lex_le(#[trigger] views(out@)[k], xv),
                xv == x@,
            decreases out@.len() - p,
        {
            proof {
                lemma_lex_total(xv, out@[p as int]@);
            }
            p = p + 1;
        }
        let ghost before = views(out@);
        out.insert(p, x);
        proof {
            assert(views(out@) =~= before.insert(p as int, xv));
            to_multiset_insert_lemma(before, p as int, xv);
            assert(views(v@).take(i + 1) =~= views(v@).take(i as int).push(xv));
            vstd::seq_lib::to_multiset_build(views(v@).take(i as int), xv);
            assert forall|a: int, b: int| 0 <= a < b < views(out@).len() implies lex_le(
                #[trigger] views(out@)[a],
                #[trigger] views(out@)[b],
            ) by {
                let s = views(out@);
                if b < p {
                    assert(s[a] == before[a] && s[b] == before[b]);
                } else if b == p {
                    assert(s[a] == before[a]);
                } else if a == p {
                    assert(s[b] == before[b - 1]);
                    assert(lex_lt(xv, before[p as int]));
                    if b - 1 > p {
                        assert(lex_le(before[p as int], before[b - 1]));
                        if lex_lt(before[p as int], before[b - 1]) {
                            lemma_lex_transitive(xv, before[p as int], before[b - 1]);
                        }
                    }
                } else if a < p {
                    assert(s[a] == before[a] && s[b] == before[b - 1]);
                } else {
                    assert(s[a] == before[a - 1] && s[b] == before[b - 1]);
                }
            }
        }
        i = i + 1;
    }
    proof {
        assert(views(v@).take(i as int) =~= views(v@));
    }
    out
}

/// The sort key of a path: its text with each `/` made the least character,
/// so that paths compare component by component (`src/a/x.rs` before
/// `src/a.rs`, as `a` comes before `a.rs`).
pub open spec fn path_key(p: Seq<char>) -> Seq<char> {
    text::replace_char(p, '/', '\0')
}

/// The sort keys of a list of paths.
pub open spec fn path_keys(v: Seq<String>) -> Seq<Seq<char>> {
    v.map_values(|x: String| path_key(x@))
}

/// Sorts paths in non-decreasing order, component by component.
pub fn sort_paths(v: &Vec<String>) -> (r: Vec<String>)
    ensures
        sorted_texts(path_keys(r@)),
        views(r@).to_multiset() == views(v@).to_multiset(),
{
    let mut out: Vec<String> = Vec::new();
    let mut out_keys: Vec<String> = Vec::new();
    let mut i: usize = 0;
    assert(views(v@).take(0) =~= Seq::<Seq<char>>::empty());
    assert(views(out@) =~= Seq::<Seq<char>>::empty());
    assert(path_keys(out@) =~= Seq::<Seq<char>>::empty());
    while i < v.len()
        invariant
            i <= v@.len(),
            out_keys@.len() == out@.len(),
            forall|k: int| 0 <= k < out@.len() ==> (#[trigger] out_keys@[k])@ == path_key(out@[k]@),
            sorted_texts(path_keys(out@)),
            views(out@).to_multiset() == views(v@).take(i as int).to_multiset(),
        decreases v@.len() - i,
    {
        let x = v[i].clone();
        let key = text::replace_char_exec(x.as_str(), '/', '\0');
        let ghost xv = x@;
        let ghost kv = key@;
        let mut p: usize = 0;
        while p < out.len() && !str_less(key.as_str(), out_keys[p].as_str())
            invariant
                p <= out@.len(),
                out_keys@.len() == out@.len(),
                forall|k: int| 0 <= k < out@.len() ==> (#[trigger] out_keys@[k])@ == path_key(out@[k]@),
                forall|k: int| 0 <= k < p ==> lex_le(#[trigger] path_keys(out@)[k], kv),
                kv == key@,
                kv == path_key(xv),
            decreases out@.len() - p,
        {
            proof {
                lemma_lex_total(kv, path_keys(out@)[p as int]);
            }
            p = p + 1;
        }
        let ghost before = views(out@);
        let ghost kbefore = path_keys(out@);
        let ghost okb = out_keys@;
        let ghost ob = out@;
        out.insert(p, x);
        out_keys.insert(p, key);
        proof {
            assert(views(out@) =~= before.insert(p as int, xv));
            assert(path_keys(out@) =~= kbefore.insert(p as int, kv));
            assert forall|k: int| 0 <= k < out@.len() implies (#[trigger] out_keys@[k])@ == path_key(out@[k]@) by {
                if k < p {
                    assert(out_keys@[k] == okb[k] && out@[k] == ob[k]);
                } else if k > p {
                    assert(out_keys@[k] == okb[k - 1] && out@[k] == ob[k - 1]);
                }
            }
            to_multiset_insert_lemma(before, p as int, xv);
            assert(views(v@).take(i + 1) =~= views(v@).take(i as int).push(xv));
            vstd::seq_lib::to_multiset_build(views(v@).take(i as int), xv);
            assert forall|a: int, b: int| 0 <= a < b < path_keys(out@).len() implies lex_le(
                #[trigger] path_keys(out@)[a],
                #[trigger] path_keys(out@)[b],
            ) by {
                let s = path_keys(out@);
                if b < p {
                    assert(s[a] == kbefore[a] && s[b] == kbefore[b]);
                } else if b == p {
                    assert(s[a] == kbefore[a]);
                } else if a == p {
                    assert(s[b] == kbefore[b - 1]);
                    assert(lex_lt(kv, kbefore[p as int]));
                    if b - 1 > p {
                        assert(lex_le(kbefore[p as int], kbefore[b - 1]));
                        if lex_lt(kbefore[p as int], kbefore[b - 1]) {
                            lemma_lex_transitive(kv, kbefore[p as int], kbefore[b - 1]);
                        }
                    }
                } else if a < p {
                    assert(s[a] == kbefore[a] && s[b] == kbefore[b - 1]);
                } else {
                    assert(s[a] == kbefore[a - 1] && s[b] == kbefore[b - 1]);
                }
            }
        }
        i = i + 1;
    }
    proof {
        assert(views(v@).take(i as int) =~= views(v@));
    }
    out
}

/// Sorts strings in increasing order, keeping one copy of each.
pub fn sort_unique_strings(v: &Vec<String>) -> (r: Vec<String>)
    ensures
        strictly_sorted_texts(views(r@)),
        forall|x: Seq<char>| views(r@).contains(x) <==> views(v@).contains(x),
{
    let mut out: Vec<String> = Vec::new();
    let mut i: usize = 0;
    while i < v.len()
        invariant
            i <= v@.len(),
            strictly_sorted_texts(views(out@)),
            forall|x: Seq<char>| views(out@).contains(x) <==> views(v@).take(i as int).contains(x),
        decreases v@.len() - i,
    {
        let x = v[i].clone();
        let ghost xv = x@;
        let mut p: usize = 0;
        while p < out.len() && str_less(out[p].as_str(), x.as_str())
            invariant
                p <= out@.len(),
                forall|k: int| 0 <= k < p ==> lex_lt(#[trigger] views(out@)[k], xv),
                xv == x@,
            decreases out@.len() - p,
        {
            p = p + 1;
        }
        let ghost before = views(out@);
        proof {
            assert(views(v@).take(i + 1) =~= views(v@).take(i as int).push(xv));
            if p < before.len() {
                lemma_lex_total(xv, before[p as int]);
            }
        }
        if p < out.len() && text::str_eq(out[p].as_str(), x.as_str()) {
            proof {
                assert forall|y: Seq<char>| views(out@).contains(y) <==> views(v@).take(
                    i + 1,
                ).contains(y) by {
                    if y == xv {
                        assert(views(out@)[p as int] == y);
                    }
                    if views(v@).take(i + 1).contains(y) && y != xv {
                        let k = choose|k: int| 0 <= k < i + 1 && #[trigger] views(v@).take(i + 1)[k] == y;
                        assert(views(v@).take(i as int)[k] == y);
                    }
                }
            }
        } else {
            out.insert(p, x);
            proof {
                assert(views(out@) =~= before.insert(p as int, xv));
                assert forall|a: int, b: int| 0 <= a < b < views(out@).len() implies lex_lt(
                    #[trigger] views(out@)[a],
                    #[trigger] views(out@)[b],
                ) by {
                    let s = views(out@);
                    if b < p {
                        assert(s[a] == before[a] && s[b] == before[b]);
                    } else if b == p {
                        assert(s[a] == before[a]);
                    } else if a == p {
                        assert(s[b] == before[b - 1]);
                        assert(lex_lt(xv, before[p as int]));
                        if b - 1 > p {
                            lemma_lex_transitive(xv, before[p as int], before[b - 1]);
                        }
                    } else if a < p {
                        assert(s[a] == before[a] && s[b] == before[b - 1]);
                    } else {
                        assert(s[a] == before[a - 1] && s[b] == before[b - 1]);
                    }
                }
                assert forall|y: Seq<char>| views(out@).contains(y) <==> views(v@).take(
                    i + 1,
                ).contains(y) by {
                    let s = views(out@);
                    if s.contains(y) {
                        let k = choose|k: int| 0 <= k < s.len() && #[trigger] s[k] == y;
                        if k < p {
                            assert(before[k] == y);
                            assert(before.contains(y));
                        } else if k > p {
                            assert(before[k - 1] == y);
                            assert(before.contains(y));
                        }
                        if k == p {
                            assert(views(v@).take(i + 1)[i as int] == y);
                        } else {
                            assert(views(v@).take(i as int).contains(y));
                            let j = choose|j: int|
                                0 <= j < i && #[trigger] views(v@).take(i as int)[j] == y;
                            assert(views(v@).take(i + 1)[j] == y);
                        }
                        assert(views(v@).take(i + 1).contains(y));
                    }
                    if views(v@).take(i + 1).contains(y) {
                        if y == xv {
                            assert(s[p as int] == y);
                        } else {
                            let k = choose|k: int|
                                0 <= k < i + 1 && #[trigger] views(v@).take(i + 1)[k] == y;
                            assert(views(v@).take(i as int)[k] == y);
                            assert(views(v@).take(i as int).contains(y));
                            assert(before.contains(y));
                            let m = choose|m: int| 0 <= m < before.len() && #[trigger] before[m] == y;
                            if m < p {
                                assert(s[m] == y);
                            } else {
                                assert(s[m + 1] == y);
                            }
                        }
                    }
                }
            }
        }
        i = i + 1;
    }
    proof {
        assert(views(v@).take(i as int) =~= views(v@));
    }
    out
}

/// Inserting into a sequence adds the element to its multiset.
proof fn to_multiset_insert_lemma(s: Seq<Seq<char>>, i: int, a: Seq<char>)
    requires
        0 <= i <= s.len(),
    ensures
        s.insert(i, a).to_multiset() == s.to_multiset().insert(a),
{
    vstd::seq_lib::to_multiset_insert(s, i, a);
}

} // verus!

verus! {

/// Whether a list of strings contains `s`.
pub fn list_contains(v: &Vec<String>, s: &str) -> (r: bool)
    ensures
        r == views(v@).contains(s@),
{
    let mut i: usize = 0;
    while i < v.len()
        invariant
            i <= v@.len(),
            forall|k: int| 0 <= k < i ==> views(v@)[k] != s@,
        decreases v@.len() - i,
    {
        if text::str_eq(v[i].as_str(), s) {
            assert(views(v@)[i as int] == s@);
            return true;
        }
        i = i + 1;
    }
    false
}

} // verus!
