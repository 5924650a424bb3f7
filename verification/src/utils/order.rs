//! The order of strings (lexicographic by code point, which is the order of
//! `String`'s `Ord`), sorting and removal of adjacent duplicates.
use vstd::prelude::*;
use vstd::relations::*;
use vstd::seq_lib::*;

use crate::utils::text::chars_of;

verus! {

/// `a` comes before or equals `b` in lexicographic order by code point.
pub open spec fn text_le(a: Seq<char>, b: Seq<char>) -> bool
    decreases a.len(),
{
    if a.len() == 0 {
        true
    } else if b.len() == 0 {
        false
    } else if a[0] != b[0] {
        a[0] < b[0]
    } else {
        text_le(a.drop_first(), b.drop_first())
    }
}

/// The order of strings, as a relation.
pub open spec fn text_order() -> spec_fn(Seq<char>, Seq<char>) -> bool {
    |a: Seq<char>, b: Seq<char>| text_le(a, b)
}

/// The views of a sequence of strings.
pub open spec fn string_views(v: Seq<String>) -> Seq<Seq<char>> {
    v.map_values(|s: String| s@)
}

pub proof fn lemma_text_le_reflexive(a: Seq<char>)
    ensures
        text_le(a, a),
    decreases a.len(),
{
    if a.len() > 0 {
        lemma_text_le_reflexive(a.drop_first());
    }
}

pub proof fn lemma_text_le_antisymmetric(a: Seq<char>, b: Seq<char>)
    requires
        text_le(a, b),
        text_le(b, a),
    ensures
        a == b,
    decreases a.len(),
{
    if a.len() > 0 && b.len() > 0 {
        lemma_text_le_antisymmetric(a.drop_first(), b.drop_first());
        assert(a =~= seq![a[0]] + a.drop_first());
        assert(b =~= seq![b[0]] + b.drop_first());
    } else {
        assert(a =~= b);
    }
}

pub proof fn lemma_text_le_transitive(a: Seq<char>, b: Seq<char>, c: Seq<char>)
    requires
        text_le(a, b),
        text_le(b, c),
    ensures
        text_le(a, c),
    decreases a.len(),
{
    if a.len() > 0 && b.len() > 0 && c.len() > 0 {
        if a[0] == b[0] && b[0] == c[0] {
            lemma_text_le_transitive(a.drop_first(), b.drop_first(), c.drop_first());
        }
    }
}

pub proof fn lemma_text_le_total(a: Seq<char>, b: Seq<char>)
    ensures
        text_le(a, b) || text_le(b, a),
    decreases a.len(),
{
    if a.len() > 0 && b.len() > 0 && a[0] == b[0] {
        lemma_text_le_total(a.drop_first(), b.drop_first());
    }
}

/// The order of strings is a total order.
pub proof fn lemma_text_order_total()
    ensures
        total_ordering(text_order()),
{
    assert forall|x: Seq<char>| #[trigger] text_order()(x, x) by {
        lemma_text_le_reflexive(x);
    }
    assert forall|x: Seq<char>, y: Seq<char>|
        #[trigger] text_order()(x, y) && #[trigger] text_order()(y, x) implies x == y by {
        lemma_text_le_antisymmetric(x, y);
    }
    assert forall|x: Seq<char>, y: Seq<char>, z: Seq<char>|
        #[trigger] text_order()(x, y) && #[trigger] text_order()(y, z) implies text_order()(
        x,
        z,
    ) by {
        lemma_text_le_transitive(x, y, z);
    }
    assert forall|x: Seq<char>, y: Seq<char>|
        #[trigger] text_order()(x, y) || #[trigger] text_order()(y, x) by {
        lemma_text_le_total(x, y);
    }
}

/// Whether `a` comes before or equals `b`.
pub fn string_le(a: &String, b: &String) -> (r: bool)
    ensures
        r == text_le(a@, b@),
{
    let va = chars_of(a.as_str());
    let vb = chars_of(b.as_str());
    let mut i: usize = 0;
    assert(va@.skip(0) =~= va@);
    assert(vb@.skip(0) =~= vb@);
    while i < va.len() && i < vb.len() && va[i] == vb[i]
        invariant
            i <= va@.len(),
            i <= vb@.len(),
            text_le(va@, vb@) == text_le(va@.skip(i as int), vb@.skip(i as int)),
        decreases va@.len() - i,
    {
        assert(va@.skip(i as int).drop_first() =~= va@.skip(i + 1));
        assert(vb@.skip(i as int).drop_first() =~= vb@.skip(i + 1));
        i += 1;
    }
    if i == va.len() {
        true
    } else if i == vb.len() {
        false
    } else {
        assert(va@.skip(i as int)[0] == va@[i as int]);
        assert(vb@.skip(i as int)[0] == vb@[i as int]);
        va[i] < vb[i]
    }
}

/// `s` with the second of each pair of equal neighbours removed, as `Vec::dedup` leaves it.
pub open spec fn dedup_adjacent(s: Seq<Seq<char>>) -> Seq<Seq<char>>
    decreases s.len(),
{
    if s.len() <= 1 {
        s
    } else if s.last() == s[s.len() - 2] {
        dedup_adjacent(s.drop_last())
    } else {
        dedup_adjacent(s.drop_last()).push(s.last())
    }
}

proof fn lemma_dedup_adjacent_last(s: Seq<Seq<char>>)
    requires
        s.len() > 0,
    ensures
        dedup_adjacent(s).len() > 0,
        dedup_adjacent(s).last() == s.last(),
    decreases s.len(),
{
    if s.len() > 1 {
        lemma_dedup_adjacent_last(s.drop_last());
    }
}

/// Sorts `v` in place by the order of strings, as `slice::sort` does.
pub fn sort_strings(v: &mut Vec<String>)
    ensures
        string_views(final(v)@) == string_views(old(v)@).sort_by(text_order()),
{
    let ghost input = string_views(v@);
    let mut sorted: Vec<String> = Vec::new();
    let n = v.len();
    let mut i: usize = 0;
    proof {
        broadcast use group_to_multiset_ensures;

        assert(string_views(sorted@) =~= Seq::<Seq<char>>::empty());
        assert(input.take(0) =~= Seq::<Seq<char>>::empty());
    }
    while i < n
        invariant
            n == v@.len(),
            input == string_views(v@),
            i <= n,
            sorted_by(string_views(sorted@), text_order()),
            string_views(sorted@).to_multiset() == input.take(i as int).to_multiset(),
        decreases n - i,
    {
        let x = v[i].clone();
        let mut p: usize = 0;
        while p < sorted.len() && string_le(&sorted[p], &x)
            invariant
                p <= sorted@.len(),
                forall|j: int| 0 <= j < p ==> text_le(#[trigger] sorted@[j]@, x@),
            decreases sorted@.len() - p,
        {
            p += 1;
        }
        let ghost before = string_views(sorted@);
        proof {
            lemma_text_order_total();
            if p < sorted@.len() {
                assert(!text_le(before[p as int], x@));
                assert forall|j: int| p <= j < before.len() implies text_le(
                    x@,
                    #[trigger] before[j],
                ) by {
                    if j > p {
                        assert(text_order()(before[p as int], before[j]));
                    }
                    if text_le(before[j], x@) {
                        lemma_text_le_transitive(before[p as int], before[j], x@);
                    }
                    lemma_text_le_total(before[j], x@);
                }
            }
        }
        sorted.insert(p, x);
        proof {
            let after = string_views(sorted@);
            assert(after =~= before.insert(p as int, x@));
            assert forall|a: int, b: int| 0 <= a < b < after.len() implies #[trigger] text_order()(
                after[a],
                after[b],
            ) by {
                if b < p {
                    assert(text_order()(before[a], before[b]));
                } else if b == p {
                    assert(text_le(sorted@[a]@, x@));
                } else if a == p {
                    assert(text_le(x@, before[b - 1]));
                } else if a < p {
                    assert(text_le(before[a], x@));
                    assert(text_le(x@, before[b - 1]));
                    lemma_text_le_transitive(before[a], x@, before[b - 1]);
                } else {
                    assert(text_order()(before[a - 1], before[b - 1]));
                }
            }
            to_multiset_insert(before, p as int, x@);
            assert(input.take(i + 1) =~= input.take(i as int).push(input[i as int]));
            to_multiset_build(input.take(i as int), input[i as int]);
        }
        i += 1;
    }
    proof {
        assert(input.take(n as int) =~= input);
        lemma_text_order_total();
        input.lemma_sort_by_ensures(text_order());
        lemma_sorted_unique(string_views(sorted@), input.sort_by(text_order()), text_order());
    }
    *v = sorted;
}

/// Removes the second of each pair of equal neighbours, as `Vec::dedup` does.
pub fn dedup_strings(v: Vec<String>) -> (r: Vec<String>)
    ensures
        string_views(r@) == dedup_adjacent(string_views(v@)),
{
    let ghost input = string_views(v@);
    let mut out: Vec<String> = Vec::new();
    let mut i: usize = 0;
    while i < v.len()
        invariant
            i <= v@.len(),
            input == string_views(v@),
            string_views(out@) == dedup_adjacent(input.take(i as int)),
            i > 0 ==> out@.len() > 0 && out@.last()@ == input[i - 1],
        decreases v@.len() - i,
    {
        let ghost prev = input.take(i as int);
        assert(input.take(i + 1).drop_last() =~= prev);
        if i > 0 && out[out.len() - 1] == v[i] {
            assert(input.take(i + 1)[i - 1] == input[i - 1]);
        } else {
            let ghost before = string_views(out@);
            out.push(v[i].clone());
            assert(string_views(out@) =~= before.push(input[i as int]));
            if i > 0 {
                assert(input.take(i + 1)[i - 1] == input[i - 1]);
            } else {
                assert(input.take(1) =~= seq![input[0]]);
                assert(before =~= Seq::<Seq<char>>::empty());
            }
        }
        i += 1;
    }
    assert(input.take(v@.len() as int) =~= input);
    out
}

} // verus!
