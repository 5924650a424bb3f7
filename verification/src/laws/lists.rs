//! What holds of the lists the library builds: the install queue, the
//! installation arguments, the recent tools and the parsed groups.
use vstd::prelude::*;

use crate::actions::package_installer::{
    first_invalid, install_args_spec, install_prefix, lemma_first_invalid_bounds,
};
use crate::error::AppErrorView;
use crate::laws::lemma_all_valid_first_invalid;
use crate::models::RecentView;
use crate::pacman::parser::{categories_spec, category_words, group_members_spec};
use crate::user_state::store::{other_entries, recent_after};
use crate::utils::scan::{lines_spec, starts_with};
use crate::utils::unique::{
    first_index_of, first_occurrences, lemma_first_index_of, lemma_first_occurrences,
};
use crate::utils::validate::{blackarch_prefix, valid_package_name};

verus! {

/// Toggling a package that is not queued twice leaves the queue as it was:
/// the first toggle appends it, the second removes that entry.
pub proof fn law_queue_toggle_twice(queue: Seq<Seq<char>>, name: Seq<char>)
    requires
        !queue.contains(name),
    ensures
        queue.push(name).contains(name),
        queue.push(name).remove(first_index_of(queue.push(name), name)) == queue,
{
    let q = queue.push(name);
    assert(q[queue.len() as int] == name);
    assert forall|j: int| 0 <= j < queue.len() implies q[j] != name by {
        assert(q[j] == queue[j]);
    }
    lemma_first_index_of(q, name, queue.len() as int);
    assert(q.remove(queue.len() as int) =~= queue);
}

/// The installation arguments are `pacman -S --needed --noconfirm` followed by
/// the requested packages, each once, all valid, and no others.
pub proof fn law_install_args_unique(names: Seq<Seq<char>>)
    requires
        install_args_spec(names) is Ok,
    ensures
        ({
            let args = install_args_spec(names)->Ok_0;
            &&& args.take(4) == install_prefix()
            &&& args.skip(4).no_duplicates()
            &&& forall|x: Seq<char>| args.skip(4).contains(x) <==> names.contains(x)
            &&& forall|i: int| 4 <= i < args.len() ==> valid_package_name(#[trigger] args[i])
        }),
{
    lemma_first_invalid_bounds(names);
    lemma_all_valid_first_invalid(names);
    lemma_first_occurrences(names);
    let u = first_occurrences(names);
    let args = install_prefix() + u;
    assert(args.take(4) =~= install_prefix());
    assert(args.skip(4) =~= u);
    assert forall|i: int| 4 <= i < args.len() implies valid_package_name(#[trigger] args[i]) by {
        assert(args[i] == u[i - 4]);
        assert(u.contains(u[i - 4]));
        assert(names.contains(u[i - 4]));
        let j = choose|j: int| 0 <= j < names.len() && names[j] == u[i - 4];
        assert(valid_package_name(names[j]));
    }
}

/// The entries of `other_entries` are entries of `recent` for other packages.
proof fn lemma_other_entries(recent: Seq<RecentView>, name: Seq<char>)
    ensures
        forall|i: int|
            0 <= i < other_entries(recent, name).len() ==> recent.contains(
                #[trigger] other_entries(recent, name)[i],
            ) && other_entries(recent, name)[i].package_name != name,
    decreases recent.len(),
{
    if recent.len() > 0 {
        let p = recent.drop_last();
        lemma_other_entries(p, name);
        let o = other_entries(recent, name);
        let prev = other_entries(p, name);
        assert forall|i: int| 0 <= i < o.len() implies recent.contains(#[trigger] o[i])
            && o[i].package_name != name by {
            if i < prev.len() {
                assert(o[i] == prev[i]);
                let j = choose|j: int| 0 <= j < p.len() && p[j] == prev[i];
                assert(recent[j] == prev[i]);
            } else {
                assert(recent[recent.len() - 1] == recent.last());
            }
        }
    }
}

/// After a tool is run, the recent list starts with its entry, holds at most
/// fifty entries, holds no other entry for its package, and its other entries
/// were already there.
pub proof fn law_recent_after(recent: Seq<RecentView>, entry: RecentView)
    ensures
        ({
            let r = recent_after(recent, entry);
            &&& 1 <= r.len() <= 50
            &&& r[0] == entry
            &&& forall|i: int| 1 <= i < r.len() ==> (#[trigger] r[i]).package_name != entry.package_name
            &&& forall|i: int| 1 <= i < r.len() ==> recent.contains(#[trigger] r[i])
        }),
{
    lemma_other_entries(recent, entry.package_name);
    let all = seq![entry] + other_entries(recent, entry.package_name);
    let r = recent_after(recent, entry);
    assert forall|i: int| 1 <= i < r.len() implies (#[trigger] r[i]).package_name
        != entry.package_name && recent.contains(r[i]) by {
        assert(r[i] == all[i]);
        assert(all[i] == other_entries(recent, entry.package_name)[i - 1]);
    }
}

/// The first words kept by `category_words` start with `blackarch-`.
proof fn lemma_category_words(ls: Seq<Seq<char>>)
    ensures
        forall|i: int|
            0 <= i < category_words(ls).len() ==> starts_with(
                #[trigger] category_words(ls)[i],
                blackarch_prefix(),
            ),
    decreases ls.len(),
{
    if ls.len() > 0 {
        lemma_category_words(ls.drop_last());
        let prev = category_words(ls.drop_last());
        let c = category_words(ls);
        assert forall|i: int| 0 <= i < c.len() implies starts_with(#[trigger] c[i], blackarch_prefix()) by {
            if i < prev.len() {
                assert(c[i] == prev[i]);
            }
        }
    }
}

/// The parsed BlackArch groups are listed once each, and each starts with `blackarch-`.
pub proof fn law_categories_unique(output: Seq<char>)
    ensures
        categories_spec(output).no_duplicates(),
        forall|i: int|
            0 <= i < categories_spec(output).len() ==> starts_with(
                #[trigger] categories_spec(output)[i],
                blackarch_prefix(),
            ),
{
    let w = category_words(lines_spec(output));
    lemma_first_occurrences(w);
    lemma_category_words(lines_spec(output));
    let c = categories_spec(output);
    assert forall|i: int| 0 <= i < c.len() implies starts_with(#[trigger] c[i], blackarch_prefix()) by {
        assert(c.contains(c[i]));
        assert(w.contains(c[i]));
        let j = choose|j: int| 0 <= j < w.len() && w[j] == c[i];
    }
}

/// The parsed members of a group are listed once each.
pub proof fn law_group_members_unique(output: Seq<char>, category: Seq<char>)
    ensures
        group_members_spec(output, category).no_duplicates(),
{
    lemma_first_occurrences(crate::pacman::parser::group_member_words(lines_spec(output), category));
}

} // verus!
