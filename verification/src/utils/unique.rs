//! Keeping the first occurrence of each element of a sequence.
use vstd::prelude::*;

use crate::utils::order::string_views;
use crate::utils::text::{chars_eq, chars_of, string_from_chars};

verus! {

/// The elements of `s` in order, each kept at its first occurrence only.
pub open spec fn first_occurrences<A>(s: Seq<A>) -> Seq<A>
    decreases s.len(),
{
    if s.len() == 0 {
        seq![]
    } else {
        let p = first_occurrences(s.drop_last());
        if p.contains(s.last()) {
            p
        } else {
            p.push(s.last())
        }
    }
}

/// `first_occurrences` keeps exactly the elements of `s`, each once.
pub proof fn lemma_first_occurrences<A>(s: Seq<A>)
    ensures
        forall|x: A| first_occurrences(s).contains(x) <==> s.contains(x),
        first_occurrences(s).no_duplicates(),
        first_occurrences(s).len() <= s.len(),
    decreases s.len(),
{
    if s.len() > 0 {
        let p = first_occurrences(s.drop_last());
        lemma_first_occurrences(s.drop_last());
        assert forall|x: A| first_occurrences(s).contains(x) <==> s.contains(x) by {
            if s.contains(x) {
                let i = choose|i: int| 0 <= i < s.len() && s[i] == x;
                if i < s.len() - 1 {
                    assert(s.drop_last()[i] == x);
                }
            }
            if s.drop_last().contains(x) {
                let i = choose|i: int| 0 <= i < s.drop_last().len() && s.drop_last()[i] == x;
                assert(s[i] == x);
            }
            if !p.contains(s.last()) {
                if p.push(s.last()).contains(x) {
                    let i = choose|i: int| 0 <= i < p.push(s.last()).len() && p.push(s.last())[i] == x;
                    if i < p.len() {
                        assert(p[i] == x);
                    }
                }
                if p.contains(x) {
                    let i = choose|i: int| 0 <= i < p.len() && p[i] == x;
                    assert(p.push(s.last())[i] == x);
                }
                assert(p.push(s.last())[p.len() as int] == s.last());
            }
        }
        if !p.contains(s.last()) {
            let q = p.push(s.last());
            assert forall|i: int, j: int| 0 <= i < q.len() && 0 <= j < q.len() && i != j implies q[i]
                != q[j] by {
                if i == p.len() as int && j < p.len() {
                    assert(q[j] == p[j]);
                }
                if j == p.len() as int && i < p.len() {
                    assert(q[i] == p[i]);
                }
            }
        }
    }
}

/// What `first_occurrences` gives for a sequence extended by one element.
pub proof fn lemma_first_occurrences_push<A>(s: Seq<A>, x: A)
    ensures
        first_occurrences(s.push(x)) == (if first_occurrences(s).contains(x) {
            first_occurrences(s)
        } else {
            first_occurrences(s).push(x)
        }),
{
    assert(s.push(x).drop_last() =~= s);
}

/// The index of the first element of `s` equal to `x`, or the length of `s` when there is none.
pub open spec fn first_index_of<A>(s: Seq<A>, x: A) -> int
    decreases s.len(),
{
    if s.len() == 0 {
        0
    } else if s[0] == x {
        0
    } else {
        1 + first_index_of(s.drop_first(), x)
    }
}

/// `first_index_of` is the index `i` before which no element equals `x`, and
/// at which `x` stands or the sequence ends.
pub proof fn lemma_first_index_of<A>(s: Seq<A>, x: A, i: int)
    requires
        0 <= i <= s.len(),
        forall|j: int| 0 <= j < i ==> s[j] != x,
        i == s.len() || s[i] == x,
    ensures
        first_index_of(s, x) == i,
    decreases i,
{
    if i > 0 {
        assert(s[0] != x);
        assert forall|j: int| 0 <= j < i - 1 implies s.drop_first()[j] != x by {
            assert(s.drop_first()[j] == s[j + 1]);
        }
        if i < s.len() {
            assert(s.drop_first()[i - 1] == s[i]);
        }
        lemma_first_index_of(s.drop_first(), x, i - 1);
    }
}

/// `first_index_of` lies between zero and the length, and names an element equal to `x` when below it.
pub proof fn lemma_first_index_of_bounds<A>(s: Seq<A>, x: A)
    ensures
        0 <= first_index_of(s, x) <= s.len(),
        first_index_of(s, x) < s.len() ==> s[first_index_of(s, x)] == x,
        forall|j: int| 0 <= j < first_index_of(s, x) ==> s[j] != x,
        first_index_of(s, x) == s.len() <==> !s.contains(x),
    decreases s.len(),
{
    if s.len() > 0 && s[0] != x {
        lemma_first_index_of_bounds(s.drop_first(), x);
        assert forall|j: int| 0 <= j < first_index_of(s, x) implies s[j] != x by {
            if j > 0 {
                assert(s[j] == s.drop_first()[j - 1]);
            }
        }
        if first_index_of(s, x) < s.len() {
            assert(s[first_index_of(s, x)] == s.drop_first()[first_index_of(s, x) - 1]);
        }
        if s.contains(x) {
            let k = choose|k: int| 0 <= k < s.len() && s[k] == x;
            assert(s.drop_first()[k - 1] == x);
        }
    }
}

/// Whether a list of strings holds one equal to `c`.
pub fn strings_contain(v: &Vec<String>, c: &[char]) -> (r: bool)
    ensures
        r == string_views(v@).contains(c@),
{
    let mut i: usize = 0;
    while i < v.len()
        invariant
            i <= v@.len(),
            forall|j: int| 0 <= j < i ==> string_views(v@)[j] != c@,
        decreases v@.len() - i,
    {
        let s = chars_of(v[i].as_str());
        if chars_eq(&s, c) {
            assert(string_views(v@)[i as int] == c@);
            return true;
        }
        i += 1;
    }
    false
}

/// Appends `c` to `v` unless `v` already holds it, keeping first occurrences.
pub fn push_unique(v: &mut Vec<String>, c: &[char])
    ensures
        string_views(final(v)@) == if string_views(old(v)@).contains(c@) {
            string_views(old(v)@)
        } else {
            string_views(old(v)@).push(c@)
        },
{
    if !strings_contain(v, c) {
        let ghost before = string_views(v@);
        v.push(string_from_chars(c));
        assert(string_views(v@) =~= before.push(c@));
    }
}

} // verus!
