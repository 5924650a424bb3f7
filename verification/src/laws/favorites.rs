//! What the favorites file holds: sorted, each name once, read back unchanged,
//! and restored by toggling a name twice.
use vstd::prelude::*;
use vstd::relations::*;
use vstd::seq_lib::*;

use crate::actions::package_installer::lemma_first_invalid;
use crate::error::AppErrorView;
use crate::laws::{lemma_all_valid_first_invalid, lemma_dedup_adjacent_elements, lemma_dedup_spec_elements};
use crate::user_state::store::{
    dedup_spec, first_invalid_name, load_favorites_spec, remove_favorite_spec, toggle_favorite_spec,
    toggled_favorites, without,
};
use crate::utils::order::{
    dedup_adjacent, lemma_text_le_antisymmetric, lemma_text_order_total, text_le, text_order,
};
use crate::utils::unique::{first_index_of, lemma_first_index_of_bounds};
use crate::utils::validate::valid_package_name;

verus! {

/// A sorted sequence is left as it is by sorting.
proof fn lemma_sorted_sort_fixed(s: Seq<Seq<char>>)
    requires
        sorted_by(s, text_order()),
    ensures
        s.sort_by(text_order()) == s,
{
    lemma_text_order_total();
    s.lemma_sort_by_ensures(text_order());
    lemma_sorted_unique(s.sort_by(text_order()), s, text_order());
}

/// A sequence without duplicates is left as it is by merging equal neighbours.
proof fn lemma_dedup_adjacent_fixed(s: Seq<Seq<char>>)
    requires
        s.no_duplicates(),
    ensures
        dedup_adjacent(s) == s,
    decreases s.len(),
{
    if s.len() > 1 {
        let p = s.drop_last();
        assert(p.no_duplicates()) by {
            assert forall|i: int, j: int| 0 <= i < p.len() && 0 <= j < p.len() && i != j implies p[i]
                != p[j] by {
                assert(p[i] == s[i] && p[j] == s[j]);
            }
        }
        lemma_dedup_adjacent_fixed(p);
        assert(s[s.len() - 1] != s[s.len() - 2]);
        assert(p.push(s.last()) =~= s);
    }
}

/// Removing an element keeps a sequence sorted.
proof fn lemma_sorted_remove(s: Seq<Seq<char>>, k: int)
    requires
        sorted_by(s, text_order()),
        0 <= k < s.len(),
    ensures
        sorted_by(s.remove(k), text_order()),
{
    let r = s.remove(k);
    assert forall|i: int, j: int| 0 <= i < j < r.len() implies #[trigger] text_order()(r[i], r[j]) by {
        let ii = if i < k {
            i
        } else {
            i + 1
        };
        let jj = if j < k {
            j
        } else {
            j + 1
        };
        assert(r[i] == s[ii] && r[j] == s[jj]);
        assert(text_order()(s[ii], s[jj]));
    }
}

/// Merging equal neighbours of a sorted sequence gives a sorted sequence without duplicates.
proof fn lemma_dedup_sorted(s: Seq<Seq<char>>)
    requires
        sorted_by(s, text_order()),
    ensures
        sorted_by(dedup_adjacent(s), text_order()),
        dedup_adjacent(s).no_duplicates(),
    decreases s.len(),
{
    lemma_text_order_total();
    if s.len() > 1 {
        let p = s.drop_last();
        let x = s.last();
        assert(sorted_by(p, text_order())) by {
            assert forall|i: int, j: int| 0 <= i < j < p.len() implies #[trigger] text_order()(
                p[i],
                p[j],
            ) by {
                assert(p[i] == s[i] && p[j] == s[j]);
                assert(text_order()(s[i], s[j]));
            }
        }
        lemma_dedup_sorted(p);
        if x != s[s.len() - 2] {
            let d = dedup_adjacent(p);
            lemma_dedup_adjacent_elements(p);
            assert forall|k: int| 0 <= k < d.len() implies text_le(d[k], x) && d[k] != x by {
                assert(d.contains(d[k]));
                assert(p.contains(d[k]));
                let i = choose|i: int| 0 <= i < p.len() && p[i] == d[k];
                assert(text_order()(s[i], s[s.len() - 1]));
                if d[k] == x && i < s.len() - 2 {
                    assert(text_order()(s[i], s[s.len() - 2]));
                    assert(text_order()(s[s.len() - 2], s[s.len() - 1]));
                    lemma_text_le_antisymmetric(s[s.len() - 2], x);
                }
            }
            let q = d.push(x);
            assert forall|i: int, j: int| 0 <= i < j < q.len() implies #[trigger] text_order()(
                q[i],
                q[j],
            ) by {
                if j == d.len() {
                    assert(q[i] == d[i]);
                } else {
                    assert(q[i] == d[i] && q[j] == d[j]);
                    assert(text_order()(d[i], d[j]));
                }
            }
            assert forall|i: int, j: int| 0 <= i < q.len() && 0 <= j < q.len() && i != j implies q[i]
                != q[j] by {
                if i == d.len() {
                    assert(q[j] == d[j]);
                } else if j == d.len() {
                    assert(q[i] == d[i]);
                } else {
                    assert(q[i] == d[i] && q[j] == d[j]);
                }
            }
        }
    }
}

/// The favorites that a file of valid names gives are sorted, hold each name
/// once, hold only valid names, and hold exactly the file's names.
pub proof fn law_loaded_favorites_sorted_unique(file: Seq<Seq<char>>)
    requires
        load_favorites_spec(file) is Ok,
    ensures
        load_favorites_spec(file) == Ok::<Seq<Seq<char>>, AppErrorView>(dedup_spec(file)),
        sorted_by(dedup_spec(file), text_order()),
        dedup_spec(file).no_duplicates(),
        forall|i: int| 0 <= i < dedup_spec(file).len() ==> valid_package_name(#[trigger] dedup_spec(file)[i]),
        forall|x: Seq<char>| dedup_spec(file).contains(x) <==> file.contains(x),
{
    lemma_text_order_total();
    file.lemma_sort_by_ensures(text_order());
    lemma_dedup_sorted(file.sort_by(text_order()));
    lemma_dedup_spec_elements(file);
    crate::actions::package_installer::lemma_first_invalid_bounds(file);
    lemma_all_valid_first_invalid(file);
    let d = dedup_spec(file);
    assert forall|i: int| 0 <= i < d.len() implies valid_package_name(#[trigger] d[i]) by {
        assert(d.contains(d[i]));
        assert(file.contains(d[i]));
        let j = choose|j: int| 0 <= j < file.len() && file[j] == d[i];
        assert(valid_package_name(file[j]));
    }
}

/// A sorted list of valid names, each once, loads as itself.
proof fn lemma_loaded_fixed(s: Seq<Seq<char>>)
    requires
        sorted_by(s, text_order()),
        s.no_duplicates(),
        forall|i: int| 0 <= i < s.len() ==> valid_package_name(#[trigger] s[i]),
    ensures
        load_favorites_spec(s) == Ok::<Seq<Seq<char>>, AppErrorView>(s),
{
    lemma_first_invalid(s, s.len() as int);
    lemma_sorted_sort_fixed(s);
    lemma_dedup_adjacent_fixed(s);
}

/// Saving favorites and loading them back gives them unchanged: what loading a
/// file gives loads as itself.
pub proof fn law_favorites_roundtrip(file: Seq<Seq<char>>)
    requires
        load_favorites_spec(file) is Ok,
    ensures
        load_favorites_spec(dedup_spec(file)) == load_favorites_spec(file),
{
    law_loaded_favorites_sorted_unique(file);
    lemma_loaded_fixed(dedup_spec(file));
}

/// Sorting keeps the elements, and a sequence without duplicates stays without.
proof fn lemma_sort_keeps(s: Seq<Seq<char>>)
    requires
        s.no_duplicates(),
    ensures
        s.sort_by(text_order()).no_duplicates(),
        sorted_by(s.sort_by(text_order()), text_order()),
        s.sort_by(text_order()).to_multiset() == s.to_multiset(),
{
    lemma_text_order_total();
    s.lemma_sort_by_ensures(text_order());
    let t = s.sort_by(text_order());
    s.lemma_multiset_has_no_duplicates();
    t.lemma_multiset_has_no_duplicates_conv();
}

/// Toggling a name twice in the favorites gives back the favorites that the
/// file held, and reports an addition once and a removal once.
pub proof fn law_favorite_toggle_twice(file: Seq<Seq<char>>, name: Seq<char>)
    requires
        toggle_favorite_spec(file, name) is Ok,
    ensures
        match toggle_favorite_spec(file, name) {
            Ok((added, after)) => toggle_favorite_spec(after, name) == Ok::<
                (bool, Seq<Seq<char>>),
                AppErrorView,
            >((!added, dedup_spec(file))),
            Err(_) => true,
        },
{
    broadcast use vstd::multiset::group_multiset_axioms;
    broadcast use group_to_multiset_ensures;

    law_loaded_favorites_sorted_unique(file);
    let favs = dedup_spec(file);
    lemma_text_order_total();
    if favs.contains(name) {
        let k = first_index_of(favs, name);
        lemma_first_index_of_bounds(favs, name);
        let r1 = favs.remove(k);
        lemma_sorted_remove(favs, k);
        assert(r1.no_duplicates()) by {
            assert forall|i: int, j: int| 0 <= i < r1.len() && 0 <= j < r1.len() && i != j implies r1[i]
                != r1[j] by {
                let ii = if i < k {
                    i
                } else {
                    i + 1
                };
                let jj = if j < k {
                    j
                } else {
                    j + 1
                };
                assert(r1[i] == favs[ii] && r1[j] == favs[jj]);
            }
        }
        assert(forall|i: int| 0 <= i < r1.len() ==> valid_package_name(#[trigger] r1[i])) by {
            assert forall|i: int| 0 <= i < r1.len() implies valid_package_name(#[trigger] r1[i]) by {
                if i < k {
                    assert(r1[i] == favs[i]);
                } else {
                    assert(r1[i] == favs[i + 1]);
                }
            }
        }
        lemma_loaded_fixed(r1);
        assert(toggled_favorites(favs, name) == r1);
        assert(dedup_spec(r1) == r1) by {
            lemma_sorted_sort_fixed(r1);
            lemma_dedup_adjacent_fixed(r1);
        }
        assert(!r1.contains(name)) by {
            if r1.contains(name) {
                let i = choose|i: int| 0 <= i < r1.len() && r1[i] == name;
                if i < k {
                    assert(favs[i] == name);
                } else {
                    assert(favs[i + 1] == name);
                }
            }
        }
        let t = r1.push(name);
        assert(t.no_duplicates()) by {
            assert forall|i: int, j: int| 0 <= i < t.len() && 0 <= j < t.len() && i != j implies t[i]
                != t[j] by {
                if i == r1.len() {
                    assert(t[j] == r1[j]);
                } else if j == r1.len() {
                    assert(t[i] == r1[i]);
                } else {
                    assert(t[i] == r1[i] && t[j] == r1[j]);
                }
            }
        }
        lemma_sort_keeps(t);
        let st = t.sort_by(text_order());
        to_multiset_remove(favs, k);
        assert(t.to_multiset() =~= favs.to_multiset());
        lemma_sorted_unique(st, favs, text_order());
        lemma_sorted_sort_fixed(st);
        lemma_dedup_adjacent_fixed(st);
        assert(toggled_favorites(r1, name) == st);
    } else {
        let t = favs.push(name);
        assert(t.no_duplicates()) by {
            assert forall|i: int, j: int| 0 <= i < t.len() && 0 <= j < t.len() && i != j implies t[i]
                != t[j] by {
                if i == favs.len() {
                    assert(t[j] == favs[j]);
                } else if j == favs.len() {
                    assert(t[i] == favs[i]);
                } else {
                    assert(t[i] == favs[i] && t[j] == favs[j]);
                }
            }
        }
        lemma_sort_keeps(t);
        let st = t.sort_by(text_order());
        lemma_sorted_sort_fixed(st);
        lemma_dedup_adjacent_fixed(st);
        assert(dedup_spec(st) == st);
        assert(forall|i: int| 0 <= i < st.len() ==> valid_package_name(#[trigger] st[i])) by {
            assert forall|i: int| 0 <= i < st.len() implies valid_package_name(#[trigger] st[i]) by {
                to_multiset_contains(st, st[i]);
                assert(st.contains(st[i]));
                to_multiset_contains(t, st[i]);
                let j = choose|j: int| 0 <= j < t.len() && t[j] == st[i];
                if j < favs.len() {
                    assert(t[j] == favs[j]);
                }
            }
        }
        lemma_loaded_fixed(st);
        assert(st.contains(name)) by {
            to_multiset_contains(t, name);
            assert(t[favs.len() as int] == name);
            to_multiset_contains(st, name);
        }
        let k = first_index_of(st, name);
        lemma_first_index_of_bounds(st, name);
        let r2 = st.remove(k);
        lemma_sorted_remove(st, k);
        to_multiset_remove(st, k);
        assert(r2.to_multiset() =~= favs.to_multiset());
        lemma_sorted_unique(r2, favs, text_order());
        assert(r2 == favs);
        assert(dedup_spec(r2) == favs) by {
            lemma_sorted_sort_fixed(favs);
            lemma_dedup_adjacent_fixed(favs);
        }
    }
}

/// Every entry of `without(s, name)` is an entry of `s` other than `name`.
proof fn lemma_without_elements(s: Seq<Seq<char>>, name: Seq<char>)
    ensures
        forall|x: Seq<char>| #[trigger] without(s, name).contains(x) ==> s.contains(x) && x != name,
    decreases s.len(),
{
    if s.len() > 0 {
        lemma_without_elements(s.drop_last(), name);
        assert forall|x: Seq<char>| #[trigger] without(s, name).contains(x) implies s.contains(x)
            && x != name by {
            let w = without(s.drop_last(), name);
            if without(s, name) != w {
                assert(without(s, name) == w.push(s.last()));
                let k = choose|k: int| 0 <= k < w.len() + 1 && #[trigger] w.push(s.last())[k] == x;
                if k < w.len() {
                    assert(w[k] == x);
                    assert(w.contains(x));
                } else {
                    assert(s[s.len() - 1] == x);
                }
            } else {
                assert(w.contains(x));
            }
            if s.drop_last().contains(x) {
                let j = choose|j: int| 0 <= j < s.drop_last().len() && s.drop_last()[j] == x;
                assert(s[j] == x);
            }
        }
    }
}

/// Removing a favorite: when the favorites file could be read, the name is no
/// longer among the favorites afterwards, and every favorite that remains was
/// one before.
pub proof fn law_removed_favorite_is_gone(file: Seq<Seq<char>>, name: Seq<char>)
    requires
        remove_favorite_spec(file, name) is Ok,
    ensures
        load_favorites_spec(file) is Ok,
        !remove_favorite_spec(file, name)->Ok_0.contains(name),
        forall|x: Seq<char>| #[trigger] remove_favorite_spec(file, name)->Ok_0.contains(x)
            ==> load_favorites_spec(file)->Ok_0.contains(x),
{
    let favs = load_favorites_spec(file)->Ok_0;
    let w = without(favs, name);
    lemma_without_elements(favs, name);
    lemma_dedup_spec_elements(w);
    let r = remove_favorite_spec(file, name)->Ok_0;
    assert(r == dedup_spec(w));
    assert(!w.contains(name));
    assert(!r.contains(name));
    assert forall|x: Seq<char>| #[trigger] r.contains(x) implies favs.contains(x) by {
        assert(w.contains(x));
    }
}

} // verus!
