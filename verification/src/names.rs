//! Ordering model names as `String` orders them, and sorting model lists by name.

use vstd::prelude::*;

verus! {

broadcast use vstd::seq_lib::group_to_multiset_ensures;

/// `a` sorts strictly before `b` in the order of `String`: character by
/// character by code point, a proper prefix first.
pub open spec fn precedes(a: Seq<char>, b: Seq<char>) -> bool
    decreases a.len(),
{
    if a.len() == 0 {
        b.len() > 0
    } else if b.len() == 0 {
        false
    } else if a[0] != b[0] {
        (a[0] as int) < (b[0] as int)
    } else {
        precedes(a.drop_first(), b.drop_first())
    }
}

pub proof fn lemma_precedes_transitive(a: Seq<char>, b: Seq<char>, c: Seq<char>)
    requires
        precedes(a, b),
        precedes(b, c),
    ensures
        precedes(a, c),
    decreases a.len(),
{
    if a.len() > 0 && b.len() > 0 && c.len() > 0 && a[0] == b[0] && b[0] == c[0] {
        lemma_precedes_transitive(a.drop_first(), b.drop_first(), c.drop_first());
    }
}

pub proof fn lemma_precedes_total(a: Seq<char>, b: Seq<char>)
    requires
        a != b,
    ensures
        precedes(a, b) || precedes(b, a),
    decreases a.len(),
{
    if a.len() > 0 && b.len() > 0 {
        if a[0] == b[0] {
            if a.drop_first() =~= b.drop_first() {
                assert(a =~= seq![a[0]] + a.drop_first());
                assert(b =~= seq![b[0]] + b.drop_first());
                assert(false);
            }
            lemma_precedes_total(a.drop_first(), b.drop_first());
        } else {
            assert((a[0] as int) != (b[0] as int));
        }
    } else if a.len() == 0 {
        assert(b.len() > 0) by {
            if b.len() == 0 {
                assert(a =~= b);
            }
        }
    }
}

pub proof fn lemma_precedes_irreflexive(a: Seq<char>)
    ensures
        !precedes(a, a),
    decreases a.len(),
{
    if a.len() > 0 {
        lemma_precedes_irreflexive(a.drop_first());
    }
}

/// Whether `a` sorts strictly before `b`.
pub fn text_precedes(a: &str, b: &str) -> (r: bool)
    ensures
        r == precedes(a@, b@),
{
    let la = a.unicode_len();
    let lb = b.unicode_len();
    let mut i: usize = 0;
    assert(a@.skip(0) =~= a@);
    assert(b@.skip(0) =~= b@);
    while i < la && i < lb
        invariant
            la == a@.len(),
            lb == b@.len(),
            i <= la,
            i <= lb,
            a@.subrange(0, i as int) == b@.subrange(0, i as int),
            precedes(a@, b@) == precedes(a@.skip(i as int), b@.skip(i as int)),
        decreases la - i,
    {
        let ca = a.get_char(i);
        let cb = b.get_char(i);
        assert(a@.skip(i as int)[0] == ca);
        assert(b@.skip(i as int)[0] == cb);
        if ca != cb {
            return (ca as u32) < (cb as u32);
        }
        assert(a@.skip(i as int).drop_first() =~= a@.skip(i + 1));
        assert(b@.skip(i as int).drop_first() =~= b@.skip(i + 1));
        assert(a@.subrange(0, i + 1) =~= a@.subrange(0, i as int).push(ca));
        assert(b@.subrange(0, i + 1) =~= b@.subrange(0, i as int).push(cb));
        i = i + 1;
    }
    assert(a@.skip(i as int).len() == la - i);
    assert(b@.skip(i as int).len() == lb - i);
    i == la && i < lb
}

pub open spec fn entry_view(e: (String, usize)) -> (Seq<char>, usize) {
    (e.0@, e.1)
}

pub open spec fn entries_view(s: Seq<(String, usize)>) -> Seq<(Seq<char>, usize)> {
    s.map_values(|e: (String, usize)| entry_view(e))
}

/// No entry sorts before an earlier one.
pub open spec fn sorted_by_name(s: Seq<(Seq<char>, usize)>) -> bool {
    forall|i: int, j: int| 0 <= i < j < s.len() ==> !precedes(#[trigger] s[j].0, #[trigger] s[i].0)
}

/// The entries sorted by name, as `sort_by` on the names does (stable).
pub fn sort_models_by_name(models: Vec<(String, usize)>) -> (r: Vec<(String, usize)>)
    ensures
        sorted_by_name(entries_view(r@)),
        entries_view(r@).to_multiset() == entries_view(models@).to_multiset(),
{
    let mut r: Vec<(String, usize)> = Vec::new();
    let mut rest = models;
    let ghost original = entries_view(rest@);
    let ghost mut taken: Seq<(Seq<char>, usize)> = Seq::empty();
    assert(entries_view(rest@) =~= original);
    while rest.len() > 0
        invariant
            original =~= taken + entries_view(rest@),
            entries_view(r@).to_multiset() == taken.to_multiset(),
            sorted_by_name(entries_view(r@)),
        decreases rest.len(),
    {
        let ghost rest_before = entries_view(rest@);
        let x = rest.remove(0);
        let ghost xv = entry_view(x);
        assert(rest_before =~= seq![xv] + entries_view(rest@));
        let mut p: usize = 0;
        while p < r.len()
            invariant
                p <= r.len(),
                xv == entry_view(x),
                forall|i: int| 0 <= i < p ==> !precedes(xv.0, #[trigger] entries_view(r@)[i].0),
            ensures
                p <= r.len(),
                forall|i: int| 0 <= i < p ==> !precedes(xv.0, #[trigger] entries_view(r@)[i].0),
                p < r.len() ==> precedes(xv.0, entries_view(r@)[p as int].0),
            decreases r.len() - p,
        {
            assert(entries_view(r@)[p as int].0 == r@[p as int].0@);
            let before_x = text_precedes(x.0.as_str(), r[p].0.as_str());
            if before_x {
                break;
            }
            p = p + 1;
        }
        let ghost before = entries_view(r@);
        proof {
            if p < r.len() {
                assert(precedes(xv.0, before[p as int].0));
            }
        }
        r.insert(p, x);
        proof {
            assert(entries_view(r@) =~= before.insert(p as int, xv));
            assert forall|i: int, j: int| 0 <= i < j < entries_view(r@).len() implies !precedes(
                #[trigger] entries_view(r@)[j].0,
                #[trigger] entries_view(r@)[i].0,
            ) by {
                let s = entries_view(r@);
                if j < p {
                    assert(s[i] == before[i]);
                    assert(s[j] == before[j]);
                } else if j == p {
                    assert(s[i] == before[i]);
                    assert(s[j] == xv);
                } else if i < p {
                    assert(s[i] == before[i]);
                    assert(s[j] == before[j - 1]);
                } else if i == p {
                    assert(s[i] == xv);
                    assert(s[j] == before[j - 1]);
                    if precedes(before[j - 1].0, xv.0) {
                        lemma_precedes_transitive(before[j - 1].0, xv.0, before[p as int].0);
                        if j - 1 == p {
                            lemma_precedes_irreflexive(before[p as int].0);
                        }
                    }
                } else {
                    assert(s[i] == before[i - 1]);
                    assert(s[j] == before[j - 1]);
                }
            }
            taken = taken.push(xv);
        }
    }
    r
}

} // verus!
