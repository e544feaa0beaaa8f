//! Sorted, duplicate-free lists of names, ordered as Rust orders `String`s
//! (lexicographically by character code, which for UTF-8 is the byte order).

use vstd::prelude::*;
use crate::text::str_chars;

verus! {

/// Lexicographic "less than" on character sequences, by character code.
pub open spec fn lex_lt(a: Seq<char>, b: Seq<char>) -> bool
    decreases a.len(),
{
    if a.len() == 0 {
        b.len() > 0
    } else if b.len() == 0 {
        false
    } else if a[0] != b[0] {
        (a[0] as int) < (b[0] as int)
    } else {
        lex_lt(a.drop_first(), b.drop_first())
    }
}

/// No sequence is below itself.
pub proof fn lemma_lex_irreflexive(a: Seq<char>)
    ensures
        !lex_lt(a, a),
    decreases a.len(),
{
    if a.len() > 0 {
        lemma_lex_irreflexive(a.drop_first());
    }
}

/// The order is transitive.
pub proof fn lemma_lex_transitive(a: Seq<char>, b: Seq<char>, c: Seq<char>)
    requires
        lex_lt(a, b),
        lex_lt(b, c),
    ensures
        lex_lt(a, c),
    decreases a.len(),
{
    if a.len() > 0 && a[0] == b[0] && b[0] == c[0] {
        lemma_lex_transitive(a.drop_first(), b.drop_first(), c.drop_first());
    }
}

/// Two different sequences are ordered one way or the other.
pub proof fn lemma_lex_total(a: Seq<char>, b: Seq<char>)
    requires
        a != b,
    ensures
        lex_lt(a, b) || lex_lt(b, a),
    decreases a.len(),
{
    if a.len() == 0 && b.len() == 0 {
        assert(a =~= b);
    } else if a.len() == 0 || b.len() == 0 {
    } else if a[0] != b[0] {
    } else {
        if a.drop_first() == b.drop_first() {
            assert(a =~= seq![a[0]] + a.drop_first());
            assert(b =~= seq![b[0]] + b.drop_first());
        }
        lemma_lex_total(a.drop_first(), b.drop_first());
    }
}

/// Strictly increasing in the lexicographic order (hence free of duplicates).
pub open spec fn strictly_sorted(v: Seq<Seq<char>>) -> bool {
    forall|i: int, j: int| 0 <= i < j < v.len() ==> lex_lt(v[i], v[j])
}

/// Two strictly sorted lists with the same elements are the same list.
pub proof fn lemma_sorted_unique(a: Seq<Seq<char>>, b: Seq<Seq<char>>)
    requires
        strictly_sorted(a),
        strictly_sorted(b),
        a.to_set() == b.to_set(),
    ensures
        a == b,
    decreases a.len() + b.len(),
{
    if a.len() == 0 || b.len() == 0 {
        if a.len() > 0 {
            assert(a.to_set().contains(a[0]));
        }
        if b.len() > 0 {
            assert(b.to_set().contains(b[0]));
        }
        assert(a =~= b);
    } else {
        // The least elements agree.
        assert(a.to_set().contains(a[0]));
        assert(b.to_set().contains(b[0]));
        let ia = choose|i: int| 0 <= i < b.len() && b[i] == a[0];
        let ib = choose|i: int| 0 <= i < a.len() && a[i] == b[0];
        if ia > 0 {
            assert(lex_lt(b[0], b[ia]));
            if ib > 0 {
                assert(lex_lt(a[0], a[ib]));
                lemma_lex_transitive(a[0], b[0], a[0]);
                lemma_lex_irreflexive(a[0]);
            } else {
                lemma_lex_irreflexive(a[0]);
            }
        }
        assert(a[0] == b[0]) by {
            if ia != 0 {
                if ib == 0 {
                } else {
                    assert(lex_lt(a[0], a[ib]));
                    assert(lex_lt(b[0], b[ia]));
                    lemma_lex_transitive(a[0], b[0], a[0]);
                    lemma_lex_irreflexive(a[0]);
                }
            }
        }
        let ta = a.drop_first();
        let tb = b.drop_first();
        assert forall|x: Seq<char>| ta.to_set().contains(x) implies tb.to_set().contains(x) by {
            let i = choose|i: int| 0 <= i < ta.len() && ta[i] == x;
            assert(a[i + 1] == x);
            assert(lex_lt(a[0], x));
            lemma_lex_irreflexive(x);
            assert(b.to_set().contains(x));
            let j = choose|j: int| 0 <= j < b.len() && b[j] == x;
            assert(j != 0);
            assert(tb[j - 1] == x);
        }
        assert forall|x: Seq<char>| tb.to_set().contains(x) implies ta.to_set().contains(x) by {
            let i = choose|i: int| 0 <= i < tb.len() && tb[i] == x;
            assert(b[i + 1] == x);
            assert(lex_lt(b[0], x));
            lemma_lex_irreflexive(x);
            assert(a.to_set().contains(x));
            let j = choose|j: int| 0 <= j < a.len() && a[j] == x;
            assert(j != 0);
            assert(ta[j - 1] == x);
        }
        assert(ta.to_set() =~= tb.to_set());
        lemma_sorted_unique(ta, tb);
        assert(a =~= seq![a[0]] + ta);
        assert(b =~= seq![b[0]] + tb);
    }
}

/// The strictly sorted list of the elements of a finite set of names.
pub open spec fn sorted_list_of(s: Set<Seq<char>>) -> Seq<Seq<char>> {
    choose|v: Seq<Seq<char>>| strictly_sorted(v) && v.to_set() == s
}

/// A strictly sorted list is the sorted list of its elements.
pub proof fn lemma_sorted_list_of(v: Seq<Seq<char>>)
    requires
        strictly_sorted(v),
    ensures
        sorted_list_of(v.to_set()) == v,
{
    let w = sorted_list_of(v.to_set());
    assert(strictly_sorted(w) && w.to_set() == v.to_set());
    lemma_sorted_unique(w, v);
}

/// `lex_lt` on character vectors.
pub fn lex_less(a: &Vec<char>, b: &Vec<char>) -> (r: bool)
    ensures
        r == lex_lt(a@, b@),
{
    let mut i: usize = 0;
    proof {
        assert(a@.skip(0) =~= a@);
        assert(b@.skip(0) =~= b@);
    }
    while i < a.len() && i < b.len()
        invariant
            i <= a@.len(),
            i <= b@.len(),
            a@.subrange(0, i as int) == b@.subrange(0, i as int),
            lex_lt(a@, b@) == lex_lt(a@.skip(i as int), b@.skip(i as int)),
        decreases a@.len() - i,
    {
        if a[i] != b[i] {
            proof {
                assert(a@.skip(i as int)[0] == a@[i as int]);
                assert(b@.skip(i as int)[0] == b@[i as int]);
            }
            return a[i] < b[i];
        }
        proof {
            assert(a@.skip(i as int).drop_first() =~= a@.skip(i + 1));
            assert(b@.skip(i as int).drop_first() =~= b@.skip(i + 1));
            assert(a@.subrange(0, i + 1) =~= a@.subrange(0, i as int).push(a@[i as int]));
            assert(b@.subrange(0, i + 1) =~= b@.subrange(0, i as int).push(b@[i as int]));
        }
        i += 1;
    }
    i < b.len()
}

/// The views of a list of strings.
pub open spec fn views(v: Seq<String>) -> Seq<Seq<char>> {
    v.map_values(|s: String| s@)
}

/// Inserts `s` into a strictly sorted list, unless it is already there.
pub fn insert_sorted_unique(v: &mut Vec<String>, s: String)
    requires
        strictly_sorted(views(old(v)@)),
    ensures
        strictly_sorted(views(final(v)@)),
        views(final(v)@).to_set() == views(old(v)@).to_set().insert(s@),
{
    let ghost old_views = views(v@);
    let key = str_chars(s.as_str());
    let mut i: usize = 0;
    while i < v.len()
        invariant
            i <= v@.len(),
            views(v@) == old_views,
            key@ == s@,
            strictly_sorted(old_views),
            forall|j: int| 0 <= j < i ==> lex_lt(old_views[j], s@),
        ensures
            i <= v@.len(),
            views(v@) == old_views,
            forall|j: int| 0 <= j < i ==> lex_lt(old_views[j], s@),
            i < v@.len() ==> !lex_lt(old_views[i as int], s@),
        decreases v@.len() - i,
    {
        let item = str_chars(v[i].as_str());
        if !lex_less(&item, &key) {
            break;
        }
        i += 1;
    }
    if i < v.len() {
        let item = str_chars(v[i].as_str());
        if lex_less(&key, &item) == false {
            // Neither is below the other: the same name is already present.
            proof {
                if old_views[i as int] != s@ {
                    lemma_lex_total(old_views[i as int], s@);
                }
                assert(views(v@).to_set() =~= old_views.to_set().insert(s@)) by {
                    assert(old_views.to_set().contains(s@)) by {
                        assert(old_views[i as int] == s@);
                    }
                }
            }
            return;
        }
    }
    proof {
        assert forall|j: int| i <= j < old_views.len() implies lex_lt(s@, old_views[j]) by {
            if j > i {
                lemma_lex_transitive(s@, old_views[i as int], old_views[j]);
            }
        }
    }
    v.insert(i, s);
    proof {
        let nv = views(v@);
        assert(nv =~= old_views.insert(i as int, s@));
        assert forall|a: int, b: int| 0 <= a < b < nv.len() implies lex_lt(nv[a], nv[b]) by {
            if b < i {
            } else if a < i && b == i {
            } else if a < i && b > i {
                lemma_lex_transitive(nv[a], s@, nv[b]);
            } else if a == i {
            } else {
                assert(nv[a] == old_views[a - 1]);
                assert(nv[b] == old_views[b - 1]);
            }
        }
        assert forall|x: Seq<char>| nv.to_set().contains(x) <==> old_views.to_set().insert(s@).contains(x) by {
            if nv.to_set().contains(x) {
                let k = choose|k: int| 0 <= k < nv.len() && nv[k] == x;
                if k < i {
                    assert(old_views[k] == x);
                } else if k > i {
                    assert(old_views[k - 1] == x);
                }
            }
            if old_views.to_set().contains(x) {
                let k = choose|k: int| 0 <= k < old_views.len() && old_views[k] == x;
                if k < i {
                    assert(nv[k] == x);
                } else {
                    assert(nv[k + 1] == x);
                }
            }
            if x == s@ {
                assert(nv[i as int] == x);
            }
        }
        assert(nv.to_set() =~= old_views.to_set().insert(s@));
    }
}

/// The names in `candidates`, sorted and without duplicates (what
/// `sort` followed by `dedup` gives).
pub fn sorted_unique(candidates: Vec<String>) -> (r: Vec<String>)
    ensures
        strictly_sorted(views(r@)),
        views(r@).to_set() == views(candidates@).to_set(),
        views(r@) == sorted_list_of(views(candidates@).to_set()),
{
    let mut out: Vec<String> = Vec::new();
    let mut rest = candidates;
    let ghost all = views(rest@);
    proof {
        assert(views(out@).to_set() =~= Set::empty());
        assert(Set::<Seq<char>>::empty().union(all.to_set()) =~= all.to_set());
    }
    // Take the candidates from the back; the set is what matters.
    while rest.len() > 0
        invariant
            strictly_sorted(views(out@)),
            views(out@).to_set().union(views(rest@).to_set()) == all.to_set(),
        decreases rest@.len(),
    {
        let ghost before = views(rest@);
        let s = rest.pop().unwrap();
        proof {
            assert(before =~= views(rest@).push(s@));
            views(rest@).lemma_push_to_set_commute(s@);
        }
        insert_sorted_unique(&mut out, s);
        proof {
            assert(views(out@).to_set().union(views(rest@).to_set()) =~= all.to_set());
        }
    }
    proof {
        assert(views(rest@).to_set() =~= Set::empty());
        assert(views(out@).to_set().union(Set::empty()) =~= views(out@).to_set());
        lemma_sorted_list_of(views(out@));
    }
    out
}

} // verus!
