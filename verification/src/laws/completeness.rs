//! Nothing that should be listed or parsed is left out: the listed tools
//! include every tool of the chosen group and every tool whose description
//! holds the search; the parsed groups and executables are exactly those the
//! lines name; and moving the selection back and forth steps by one.
use vstd::prelude::*;

use crate::app::filters::{
    apply_filters_spec, matches_category_spec, matches_search_spec, matching_tools, or_empty,
    selected_category_spec,
};
use crate::app::selection::{next_tool_step, pending_spec, previous_tool_step, tool_move};
use crate::app::AppView;
use crate::models::{RecentView, ToolView};
use crate::pacman::parser::{categories_spec, category_words, executable_words, executables_spec};
use crate::utils::scan::{contains_seq, lines_spec, starts_with, words_spec};
use crate::utils::text::lowercase;
use crate::utils::unique::lemma_first_occurrences;

verus! {

/// A tool of `ts` that fits the category and the search is among the matching tools.
proof fn lemma_matching_keeps(
    ts: Seq<ToolView>,
    selected: Seq<char>,
    q: Seq<char>,
    recent: Seq<RecentView>,
    t: ToolView,
)
    requires
        ts.contains(t),
        matches_category_spec(t, selected, recent),
        matches_search_spec(t, q),
    ensures
        matching_tools(ts, selected, q, recent).contains(t),
    decreases ts.len(),
{
    let prev = matching_tools(ts.drop_last(), selected, q, recent);
    if ts.last() == t {
        assert(matching_tools(ts, selected, q, recent) == prev.push(t));
        assert(prev.push(t)[prev.len() as int] == t);
    } else {
        let k = choose|k: int| 0 <= k < ts.len() && ts[k] == t;
        assert(k < ts.len() - 1);
        assert(ts.drop_last()[k] == t);
        lemma_matching_keeps(ts.drop_last(), selected, q, recent, t);
        let j = choose|j: int| 0 <= j < prev.len() && prev[j] == t;
        if matches_category_spec(ts.last(), selected, recent) && matches_search_spec(ts.last(), q) {
            assert(prev.push(ts.last())[j] == t);
        }
    }
}

/// A group name (one that starts with `blackarch-`) is none of the virtual categories.
proof fn lemma_group_not_virtual(g: Seq<char>)
    requires
        starts_with(g, "blackarch-"@),
    ensures
        g != "All Tools"@,
        g != "Installed"@,
        g != "Favorites"@,
        g != "Recent"@,
{
    reveal_strlit("blackarch-");
    reveal_strlit("All Tools");
    reveal_strlit("Installed");
    reveal_strlit("Favorites");
    reveal_strlit("Recent");
    assert(g.take(10)[0] == 'b');
    assert(g[0] == 'b');
}

/// Choosing a BlackArch group lists every tool that belongs to it (as its
/// category or as any one of its categories) and whose lowercase name holds
/// the lowercase search (as every name does for an empty search).
pub proof fn law_group_members_listed(v: AppView, t: ToolView)
    requires
        v.selected_category_index < v.categories.len(),
        starts_with(v.categories[v.selected_category_index as int], "blackarch-"@),
        v.tools.contains(t),
        t.category == Some(v.categories[v.selected_category_index as int]) || t.categories.contains(
            v.categories[v.selected_category_index as int],
        ),
        contains_seq(lowercase(t.name), lowercase(v.search_query)),
    ensures
        apply_filters_spec(v).filtered_tools.contains(t),
{
    let g = v.categories[v.selected_category_index as int];
    assert(selected_category_spec(v) == g);
    lemma_group_not_virtual(g);
    assert(matches_category_spec(t, g, v.user_state.recent));
    assert(matches_search_spec(t, lowercase(v.search_query)));
    lemma_matching_keeps(v.tools, g, lowercase(v.search_query), v.user_state.recent, t);
}

/// The search looks in descriptions: outside the "Recent" view, a tool of the
/// chosen category whose lowercase description holds the lowercase search is
/// listed.
pub proof fn law_description_search_listed(v: AppView, t: ToolView, d: Seq<char>)
    requires
        selected_category_spec(v) != "Recent"@,
        v.tools.contains(t),
        matches_category_spec(t, selected_category_spec(v), v.user_state.recent),
        t.description == Some(d),
        contains_seq(lowercase(d), lowercase(v.search_query)),
    ensures
        apply_filters_spec(v).filtered_tools.contains(t),
{
    let q = lowercase(v.search_query);
    assert(or_empty(t.description) == d);
    assert(matches_search_spec(t, q));
    lemma_matching_keeps(v.tools, selected_category_spec(v), q, v.user_state.recent, t);
}

/// The first words kept from `ls` are exactly the first words of its lines
/// that start with `blackarch-`.
proof fn lemma_category_words(ls: Seq<Seq<char>>)
    ensures
        forall|k: int|
            0 <= k < ls.len() && #[trigger] words_spec(ls[k]).len() > 0 && starts_with(
                words_spec(ls[k])[0],
                "blackarch-"@,
            ) ==> category_words(ls).contains(words_spec(ls[k])[0]),
        forall|x: Seq<char>|
            #[trigger] category_words(ls).contains(x) ==> exists|k: int|
                0 <= k < ls.len() && words_spec(ls[k]).len() > 0 && words_spec(ls[k])[0] == x
                    && starts_with(x, "blackarch-"@),
    decreases ls.len(),
{
    if ls.len() > 0 {
        let init = ls.drop_last();
        lemma_category_words(init);
        let prev = category_words(init);
        let w = words_spec(ls.last());
        assert forall|k: int|
            0 <= k < ls.len() && #[trigger] words_spec(ls[k]).len() > 0 && starts_with(
                words_spec(ls[k])[0],
                "blackarch-"@,
            ) implies category_words(ls).contains(words_spec(ls[k])[0]) by {
            if k == ls.len() - 1 {
                assert(category_words(ls) == prev.push(w[0]));
                assert(prev.push(w[0])[prev.len() as int] == w[0]);
            } else {
                assert(init[k] == ls[k]);
                assert(prev.contains(words_spec(init[k])[0]));
                let j = choose|j: int| 0 <= j < prev.len() && prev[j] == words_spec(ls[k])[0];
                if w.len() > 0 && starts_with(w[0], "blackarch-"@) {
                    assert(prev.push(w[0])[j] == prev[j]);
                }
            }
        }
        assert forall|x: Seq<char>| #[trigger] category_words(ls).contains(x) implies exists|k: int|
            0 <= k < ls.len() && words_spec(ls[k]).len() > 0 && words_spec(ls[k])[0] == x
                && starts_with(x, "blackarch-"@) by {
            let j = choose|j: int|
                0 <= j < category_words(ls).len() && category_words(ls)[j] == x;
            if j < prev.len() {
                assert(category_words(ls)[j] == prev[j]);
                assert(prev.contains(x));
                let k = choose|k: int|
                    0 <= k < init.len() && words_spec(init[k]).len() > 0 && words_spec(init[k])[0]
                        == x && starts_with(x, "blackarch-"@);
                assert(init[k] == ls[k]);
            } else {
                assert(words_spec(ls[ls.len() - 1]) == w);
            }
        }
    }
}

/// `pacman -Sg` parsing keeps exactly the groups: every line whose first word
/// starts with `blackarch-` has that word among the parsed groups, and every
/// parsed group is such a first word.
pub proof fn law_categories_complete(output: Seq<char>)
    ensures
        forall|k: int|
            0 <= k < lines_spec(output).len() && #[trigger] words_spec(lines_spec(output)[k]).len()
                > 0 && starts_with(words_spec(lines_spec(output)[k])[0], "blackarch-"@)
                ==> categories_spec(output).contains(words_spec(lines_spec(output)[k])[0]),
        forall|x: Seq<char>|
            #[trigger] categories_spec(output).contains(x) ==> exists|k: int|
                0 <= k < lines_spec(output).len() && words_spec(lines_spec(output)[k]).len() > 0
                    && words_spec(lines_spec(output)[k])[0] == x && starts_with(x, "blackarch-"@),
{
    let ls = lines_spec(output);
    lemma_category_words(ls);
    lemma_first_occurrences(category_words(ls));
    assert forall|x: Seq<char>| #[trigger] categories_spec(output).contains(x) implies exists|k: int|
        0 <= k < ls.len() && words_spec(ls[k]).len() > 0 && words_spec(ls[k])[0] == x
            && starts_with(x, "blackarch-"@) by {
        assert(category_words(ls).contains(x));
    }
}

/// Whether `line`'s second word is `/usr/bin/` followed by `e`, a non-empty
/// name without `/`.
pub open spec fn names_executable(line: Seq<char>, e: Seq<char>) -> bool {
    &&& words_spec(line).len() >= 2
    &&& words_spec(line)[1] == "/usr/bin/"@ + e
    &&& e.len() > 0
    &&& !e.contains('/')
}

/// The executables kept from `ls` are exactly the names that its lines give
/// under `/usr/bin/`.
proof fn lemma_executable_words(ls: Seq<Seq<char>>)
    ensures
        forall|k: int, e: Seq<char>|
            0 <= k < ls.len() && #[trigger] names_executable(ls[k], e) ==> executable_words(
                ls,
            ).contains(e),
        forall|x: Seq<char>|
            #[trigger] executable_words(ls).contains(x) ==> exists|k: int|
                0 <= k < ls.len() && names_executable(ls[k], x),
    decreases ls.len(),
{
    reveal_strlit("/usr/bin/");
    if ls.len() > 0 {
        let init = ls.drop_last();
        lemma_executable_words(init);
        let prev = executable_words(init);
        let last = ls.last();
        let w = words_spec(last);
        // the last line's executable, seen both ways
        assert forall|e: Seq<char>| #[trigger] names_executable(last, e) implies
            crate::pacman::parser::executable_of_line(last) == Some(e) by {
            let bin = "/usr/bin/"@;
            assert((bin + e).take(bin.len() as int) =~= bin);
            assert((bin + e).skip(bin.len() as int) =~= e);
        }
        match crate::pacman::parser::executable_of_line(last) {
            Some(e) => {
                let bin = "/usr/bin/"@;
                assert(w[1] =~= bin + w[1].skip(bin.len() as int));
                assert(names_executable(last, e));
            },
            None => {},
        }
        assert forall|k: int, e: Seq<char>|
            0 <= k < ls.len() && #[trigger] names_executable(ls[k], e) implies executable_words(
                ls,
            ).contains(e) by {
            if k == ls.len() - 1 {
                assert(names_executable(last, e));
                assert(executable_words(ls) == prev.push(e));
                assert(prev.push(e)[prev.len() as int] == e);
            } else {
                assert(init[k] == ls[k]);
                assert(names_executable(init[k], e));
                assert(prev.contains(e));
                let j = choose|j: int| 0 <= j < prev.len() && prev[j] == e;
                match crate::pacman::parser::executable_of_line(last) {
                    Some(f) => {
                        assert(prev.push(f)[j] == prev[j]);
                    },
                    None => {},
                }
            }
        }
        assert forall|x: Seq<char>| #[trigger] executable_words(ls).contains(x) implies exists|k: int|
            0 <= k < ls.len() && names_executable(ls[k], x) by {
            let j = choose|j: int|
                0 <= j < executable_words(ls).len() && executable_words(ls)[j] == x;
            if j < prev.len() {
                assert(executable_words(ls)[j] == prev[j]);
                assert(prev.contains(x));
                let k = choose|k: int| 0 <= k < init.len() && names_executable(init[k], x);
                assert(init[k] == ls[k]);
            } else {
                assert(names_executable(ls[ls.len() - 1], x));
            }
        }
    }
}

/// `pacman -Ql` parsing keeps exactly the executables: every line whose
/// second word is `/usr/bin/` followed by a non-empty name without `/` has
/// that name among the parsed executables, and every parsed executable is
/// named so by some line.
pub proof fn law_executables_complete(output: Seq<char>)
    ensures
        forall|k: int, e: Seq<char>|
            0 <= k < lines_spec(output).len() && #[trigger] names_executable(
                lines_spec(output)[k],
                e,
            ) ==> executables_spec(output).contains(e),
        forall|x: Seq<char>|
            #[trigger] executables_spec(output).contains(x) ==> exists|k: int|
                0 <= k < lines_spec(output).len() && names_executable(lines_spec(output)[k], x),
{
    let ls = lines_spec(output);
    lemma_executable_words(ls);
    lemma_first_occurrences(executable_words(ls));
    assert forall|x: Seq<char>| #[trigger] executables_spec(output).contains(x) implies exists|k: int|
        0 <= k < ls.len() && names_executable(ls[k], x) by {
        assert(executable_words(ls).contains(x));
    }
}

/// Moving through a non-empty tool list steps by one and wraps around: the
/// previous tool is the one before (the last from the first), the next tool
/// is the one after (the first from the last), and moving back then forth
/// returns to the tool that was selected.
pub proof fn law_tool_moves_step_by_one(v: AppView)
    requires
        0 < v.filtered_tools.len() <= usize::MAX,
        v.selected_tool_index < v.filtered_tools.len(),
    ensures
        tool_move(v, previous_tool_step(v)).selected_tool_index == (if v.selected_tool_index > 0 {
            v.selected_tool_index - 1
        } else {
            v.filtered_tools.len() - 1
        }),
        tool_move(v, next_tool_step(v)).selected_tool_index == (if v.selected_tool_index + 1
            < v.filtered_tools.len() {
            v.selected_tool_index + 1
        } else {
            0
        }),
        ({
            let w = tool_move(v, previous_tool_step(v));
            tool_move(w, next_tool_step(w)).selected_tool_index == v.selected_tool_index
        }),
{
    let n = v.filtered_tools.len() as int;
    let i = v.selected_tool_index as int;
    let p = previous_tool_step(v);
    assert(p.filtered_tools == v.filtered_tools);
    assert(p.selected_tool_index == (if i > 0 { i - 1 } else { n - 1 }));
    assert(tool_move(v, p) == pending_spec(p));
    assert(pending_spec(p).selected_tool_index == p.selected_tool_index);
    let x = next_tool_step(v);
    if i + 1 < n {
        vstd::arithmetic::div_mod::lemma_small_mod((i + 1) as nat, n as nat);
    } else {
        vstd::arithmetic::div_mod::lemma_mod_self_0(n);
    }
    assert(x.selected_tool_index == (if i + 1 < n { i + 1 } else { 0 }));
    assert(pending_spec(x).selected_tool_index == x.selected_tool_index);
    let w = pending_spec(p);
    assert(w.filtered_tools == v.filtered_tools);
    let j = w.selected_tool_index as int;
    let y = next_tool_step(w);
    if j + 1 < n {
        vstd::arithmetic::div_mod::lemma_small_mod((j + 1) as nat, n as nat);
    } else {
        vstd::arithmetic::div_mod::lemma_mod_self_0(n);
    }
    assert(y.selected_tool_index == i);
    assert(pending_spec(y).selected_tool_index == y.selected_tool_index);
}

} // verus!
