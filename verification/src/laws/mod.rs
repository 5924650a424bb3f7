//! Properties that hold across the library's functions.
use vstd::prelude::*;
use vstd::seq_lib::*;

use crate::actions::package_installer::first_invalid;
use crate::user_state::store::dedup_spec;
use crate::utils::order::{dedup_adjacent, lemma_text_order_total, text_order};
use crate::utils::validate::valid_package_name;

pub mod app;
pub mod completeness;
pub mod favorites;
pub mod lists;

verus! {

/// Merging equal neighbours keeps exactly the elements of the sequence.
pub proof fn lemma_dedup_adjacent_elements(s: Seq<Seq<char>>)
    ensures
        forall|x: Seq<char>| dedup_adjacent(s).contains(x) <==> s.contains(x),
    decreases s.len(),
{
    if s.len() > 1 {
        let p = s.drop_last();
        lemma_dedup_adjacent_elements(p);
        assert forall|x: Seq<char>| dedup_adjacent(s).contains(x) <==> s.contains(x) by {
            if s.contains(x) {
                let i = choose|i: int| 0 <= i < s.len() && s[i] == x;
                if i < s.len() - 1 {
                    assert(p[i] == x);
                } else if s.last() == s[s.len() - 2] {
                    assert(p[s.len() - 2] == x);
                }
            }
            if p.contains(x) {
                let i = choose|i: int| 0 <= i < p.len() && p[i] == x;
                assert(s[i] == x);
            }
            if s.last() != s[s.len() - 2] {
                let q = dedup_adjacent(p);
                if q.push(s.last()).contains(x) {
                    let i = choose|i: int| 0 <= i < q.push(s.last()).len() && q.push(s.last())[i] == x;
                    if i < q.len() {
                        assert(q[i] == x);
                    } else {
                        assert(s[s.len() - 1] == x);
                    }
                }
                if q.contains(x) {
                    let i = choose|i: int| 0 <= i < q.len() && q[i] == x;
                    assert(q.push(s.last())[i] == x);
                }
                if x == s.last() {
                    assert(q.push(s.last())[q.len() as int] == x);
                }
            }
        }
    }
}

/// Sorting and merging equal neighbours keeps exactly the elements of the sequence.
pub proof fn lemma_dedup_spec_elements(s: Seq<Seq<char>>)
    ensures
        forall|x: Seq<char>| dedup_spec(s).contains(x) <==> s.contains(x),
{
    lemma_text_order_total();
    s.lemma_sort_by_ensures(text_order());
    let t = s.sort_by(text_order());
    lemma_dedup_adjacent_elements(t);
    assert forall|x: Seq<char>| t.contains(x) <==> s.contains(x) by {
        to_multiset_contains(t, x);
        to_multiset_contains(s, x);
    }
}

/// When no name is invalid, every name is valid.
pub proof fn lemma_all_valid_first_invalid(names: Seq<Seq<char>>)
    requires
        first_invalid(names) == names.len(),
    ensures
        forall|i: int| 0 <= i < names.len() ==> valid_package_name(#[trigger] names[i]),
    decreases names.len(),
{
    if names.len() > 0 {
        lemma_all_valid_first_invalid(names.drop_first());
        assert forall|i: int| 0 <= i < names.len() implies valid_package_name(
            #[trigger] names[i],
        ) by {
            if i > 0 {
                assert(names[i] == names.drop_first()[i - 1]);
            }
        }
    }
}

} // verus!
