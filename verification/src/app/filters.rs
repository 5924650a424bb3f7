//! Which tools the interface lists: those of the chosen category that match
//! the search, the recent ones in order of use, the selection kept in place.
use vstd::prelude::*;

use crate::app::categories::{normalize_category_filter, normalize_spec};
use crate::app::{App, AppView};
use crate::models::{recent_views, tool_views, BlackArchTool, RecentTool, RecentView, ToolStatus, ToolView};
use crate::utils::order::string_views;
use crate::utils::scan::{contains_seq, has_infix, vviews};
use crate::utils::text::{chars_of, lowercase, owned, str_eq, to_lower};
use crate::utils::unique::{first_index_of, lemma_first_index_of, lemma_first_index_of_bounds};

verus! {

/// The text of an optional value, empty when there is none.
pub open spec fn or_empty(o: Option<Seq<char>>) -> Seq<char> {
    match o {
        Some(s) => s,
        None => seq![],
    }
}

/// The package names of the recent entries, most recent first.
pub open spec fn recent_names(recent: Seq<RecentView>) -> Seq<Seq<char>> {
    recent.map_values(|r: RecentView| r.package_name)
}

/// The package names of a list of tools.
pub open spec fn tool_names(ts: Seq<ToolView>) -> Seq<Seq<char>> {
    ts.map_values(|t: ToolView| t.package_name)
}

/// Whether tool `t` belongs to the chosen category: every tool to "All Tools",
/// installed ones to "Installed", favorites to "Favorites", recently run ones to
/// "Recent", and otherwise the tools whose category or categories name the group
/// that the choice stands for.
pub open spec fn matches_category_spec(t: ToolView, selected: Seq<char>, recent: Seq<RecentView>) -> bool {
    if selected == "All Tools"@ {
        true
    } else if selected == "Installed"@ {
        t.status == ToolStatus::Installed
    } else if selected == "Favorites"@ {
        t.favorite
    } else if selected == "Recent"@ {
        recent_names(recent).contains(t.package_name)
    } else {
        t.category == Some(normalize_spec(selected)) || t.categories.contains(
            normalize_spec(selected),
        )
    }
}

/// Whether the lowercase form of one of `texts` contains `q`.
pub open spec fn any_contains(texts: Seq<Seq<char>>, q: Seq<char>) -> bool {
    exists|i: int| 0 <= i < texts.len() && contains_seq(#[trigger] lowercase(texts[i]), q)
}

/// Whether tool `t` matches the lowercase query `q`: an empty query matches
/// every tool, else the lowercase form of its name, package name, category,
/// one of its categories or its description must contain the query.
pub open spec fn matches_search_spec(t: ToolView, q: Seq<char>) -> bool {
    ||| q.len() == 0
    ||| contains_seq(lowercase(t.name), q)
    ||| contains_seq(lowercase(t.package_name), q)
    ||| contains_seq(lowercase(or_empty(t.category)), q)
    ||| any_contains(t.categories, q)
    ||| contains_seq(lowercase(or_empty(t.description)), q)
}

/// The tools of `ts` in the chosen category that match the query, in order.
pub open spec fn matching_tools(
    ts: Seq<ToolView>,
    selected: Seq<char>,
    q: Seq<char>,
    recent: Seq<RecentView>,
) -> Seq<ToolView>
    decreases ts.len(),
{
    if ts.len() == 0 {
        seq![]
    } else {
        let prev = matching_tools(ts.drop_last(), selected, q, recent);
        if matches_category_spec(ts.last(), selected, recent) && matches_search_spec(ts.last(), q) {
            prev.push(ts.last())
        } else {
            prev
        }
    }
}

/// The tools of `ts` in the chosen category, in order.
pub open spec fn category_tools(ts: Seq<ToolView>, selected: Seq<char>, recent: Seq<RecentView>) -> Seq<
    ToolView,
>
    decreases ts.len(),
{
    if ts.len() == 0 {
        seq![]
    } else {
        let prev = category_tools(ts.drop_last(), selected, recent);
        if matches_category_spec(ts.last(), selected, recent) {
            prev.push(ts.last())
        } else {
            prev
        }
    }
}

/// An empty query keeps exactly the tools of the chosen category.
pub proof fn lemma_empty_query_matching(
    ts: Seq<ToolView>,
    selected: Seq<char>,
    q: Seq<char>,
    recent: Seq<RecentView>,
)
    requires
        q.len() == 0,
    ensures
        matching_tools(ts, selected, q, recent) == category_tools(ts, selected, recent),
    decreases ts.len(),
{
    if ts.len() > 0 {
        lemma_empty_query_matching(ts.drop_last(), selected, q, recent);
    }
}

/// The tools of `ts` whose package stands at position `k` of `names` (its first occurrence), in order.
pub open spec fn with_rank(ts: Seq<ToolView>, names: Seq<Seq<char>>, k: int) -> Seq<ToolView>
    decreases ts.len(),
{
    if ts.len() == 0 {
        seq![]
    } else {
        let prev = with_rank(ts.drop_last(), names, k);
        if first_index_of(names, ts.last().package_name) == k {
            prev.push(ts.last())
        } else {
            prev
        }
    }
}

/// The tools of `ts` ordered by the position of their package in `names`
/// (positions below `n`), keeping the order of `ts` among equals: a stable
/// sort by that position.
pub open spec fn by_rank(ts: Seq<ToolView>, names: Seq<Seq<char>>, n: nat) -> Seq<ToolView>
    decreases n,
{
    if n == 0 {
        seq![]
    } else {
        by_rank(ts, names, (n - 1) as nat) + with_rank(ts, names, n - 1)
    }
}

/// The chosen category, "All Tools" when the choice is out of range.
pub open spec fn selected_category_spec(v: AppView) -> Seq<char> {
    if v.selected_category_index < v.categories.len() {
        v.categories[v.selected_category_index as int]
    } else {
        "All Tools"@
    }
}

/// The selected tool, if the selection is in range.
pub open spec fn selected_tool_spec(v: AppView) -> Option<ToolView> {
    if v.selected_tool_index < v.filtered_tools.len() {
        Some(v.filtered_tools[v.selected_tool_index as int])
    } else {
        None
    }
}

/// The tools listed for `v`'s category, search and recent list.
pub open spec fn filtered_spec(v: AppView) -> Seq<ToolView> {
    let selected = selected_category_spec(v);
    let found = matching_tools(v.tools, selected, lowercase(v.search_query), v.user_state.recent);
    if selected == "Recent"@ {
        by_rank(found, recent_names(v.user_state.recent), v.user_state.recent.len())
    } else {
        found
    }
}

/// What is listed for `v` while its search is empty: every tool of the chosen
/// category, in order (under "Recent", the most recently run first).
pub open spec fn category_listing(v: AppView) -> Seq<ToolView> {
    let selected = selected_category_spec(v);
    let found = category_tools(v.tools, selected, v.user_state.recent);
    if selected == "Recent"@ {
        by_rank(found, recent_names(v.user_state.recent), v.user_state.recent.len())
    } else {
        found
    }
}

/// The selection after listing `f`: the selected package where it is still
/// listed (its first occurrence), else the old position clamped to the list,
/// or zero for an empty list.
pub open spec fn kept_selection(v: AppView, f: Seq<ToolView>) -> int {
    let kept = match selected_tool_spec(v) {
        Some(t) => first_index_of(tool_names(f), t.package_name),
        None => f.len() as int,
    };
    if kept < f.len() {
        kept
    } else if f.len() == 0 {
        0
    } else if v.selected_tool_index < f.len() - 1 {
        v.selected_tool_index as int
    } else {
        f.len() - 1
    }
}

/// `v` with its list of tools rebuilt and its selection kept.
pub open spec fn apply_filters_spec(v: AppView) -> AppView {
    let f = filtered_spec(v);
    AppView { filtered_tools: f, selected_tool_index: kept_selection(v, f) as usize, ..v }
}

/// The view of an optional tool reference.
pub open spec fn opt_ref_view(t: Option<&BlackArchTool>) -> Option<ToolView> {
    match t {
        Some(t) => Some(t@),
        None => None,
    }
}

/// Whether one of `texts` contains `q`.
pub open spec fn some_text_contains(texts: Seq<Seq<char>>, q: Seq<char>) -> bool {
    exists|i: int| 0 <= i < texts.len() && contains_seq(#[trigger] texts[i], q)
}

/// The texts of `t` that a search looks in, in lowercase: its name, package
/// name, category (empty when none), each of its categories, and description
/// (empty when none).
pub open spec fn lowered_fields(t: ToolView) -> Seq<Seq<char>> {
    seq![lowercase(t.name), lowercase(t.package_name), lowercase(or_empty(t.category))]
        + t.categories.map_values(|c: Seq<char>| lowercase(c))
        + seq![lowercase(or_empty(t.description))]
}

/// A search for `q` matches `t` exactly when `q` is empty or one of the
/// lowercase texts of `t` contains it.
proof fn lemma_lowered_fields(t: ToolView, q: Seq<char>)
    ensures
        matches_search_spec(t, q) == (q.len() == 0 || some_text_contains(lowered_fields(t), q)),
{
    let f = lowered_fields(t);
    let n: int = t.categories.len() as int;
    assert(f.len() == n + 4);
    assert(f[0] == lowercase(t.name));
    assert(f[1] == lowercase(t.package_name));
    assert(f[2] == lowercase(or_empty(t.category)));
    assert(f[n + 3] == lowercase(or_empty(t.description)));
    assert forall|k: int| 0 <= k < n implies #[trigger] f[k + 3] == lowercase(t.categories[k]) by {}
    if matches_search_spec(t, q) && q.len() != 0 {
        if contains_seq(lowercase(t.name), q) {
            assert(contains_seq(f[0], q));
        } else if contains_seq(lowercase(t.package_name), q) {
            assert(contains_seq(f[1], q));
        } else if contains_seq(lowercase(or_empty(t.category)), q) {
            assert(contains_seq(f[2], q));
        } else if any_contains(t.categories, q) {
            let k = choose|k: int| 0 <= k < n && contains_seq(#[trigger] lowercase(t.categories[k]), q);
            assert(f[k + 3] == lowercase(t.categories[k]));
            assert(contains_seq(f[k + 3], q));
        } else {
            assert(contains_seq(f[n + 3], q));
        }
    }
    if some_text_contains(f, q) {
        let i = choose|i: int| 0 <= i < f.len() && contains_seq(#[trigger] f[i], q);
        if 3 <= i < n + 3 {
            assert(f[(i - 3) + 3] == lowercase(t.categories[i - 3]));
            assert(contains_seq(lowercase(t.categories[i - 3]), q));
        }
    }
}

/// Whether a search for the lowercase query `query` finds a tool whose
/// searched texts, in lowercase, are `lowered`: an empty query finds every
/// tool, else one of the texts must contain it.
pub fn matches_lowered(lowered: &Vec<Vec<char>>, query: &[char]) -> (r: bool)
    ensures
        r == (query@.len() == 0 || some_text_contains(vviews(lowered@), query@)),
{
    if query.len() == 0 {
        return true;
    }
    let ghost texts = vviews(lowered@);
    let mut i: usize = 0;
    while i < lowered.len()
        invariant
            i <= lowered@.len(),
            texts == vviews(lowered@),
            forall|j: int| 0 <= j < i ==> !contains_seq(#[trigger] texts[j], query@),
        decreases lowered@.len() - i,
    {
        if has_infix(lowered[i].as_slice(), query) {
            assert(contains_seq(texts[i as int], query@));
            return true;
        }
        i += 1;
    }
    false
}

/// The lowercase form of `text`, as characters.
fn lowered_chars(text: &str) -> (r: Vec<char>)
    ensures
        r@ == lowercase(text@),
{
    chars_of(to_lower(text).as_str())
}

/// Whether `tool` matches the lowercase query `query`.
fn matches_search(tool: &BlackArchTool, query: &Vec<char>) -> (r: bool)
    ensures
        r == matches_search_spec(tool@, query@),
{
    let empty = String::new();
    let mut lowered: Vec<Vec<char>> = Vec::new();
    lowered.push(lowered_chars(tool.name.as_str()));
    lowered.push(lowered_chars(tool.package_name.as_str()));
    lowered.push(
        match &tool.category {
            Some(c) => lowered_chars(c.as_str()),
            None => lowered_chars(empty.as_str()),
        },
    );
    let ghost cats = tool@.categories;
    let ghost head = seq![
        lowercase(tool@.name),
        lowercase(tool@.package_name),
        lowercase(or_empty(tool@.category)),
    ];
    assert(vviews(lowered@) =~= head);
    let mut i: usize = 0;
    while i < tool.categories.len()
        invariant
            i <= tool.categories@.len(),
            cats == tool@.categories,
            vviews(lowered@) == head + cats.take(i as int).map_values(|c: Seq<char>| lowercase(c)),
        decreases tool.categories@.len() - i,
    {
        let ghost before = vviews(lowered@);
        lowered.push(lowered_chars(tool.categories[i].as_str()));
        assert(cats.take(i + 1).map_values(|c: Seq<char>| lowercase(c)) =~= cats.take(
            i as int,
        ).map_values(|c: Seq<char>| lowercase(c)).push(lowercase(cats[i as int])));
        assert(vviews(lowered@) =~= before.push(lowercase(cats[i as int])));
        i += 1;
    }
    assert(cats.take(cats.len() as int) =~= cats);
    lowered.push(
        match &tool.description {
            Some(d) => lowered_chars(d.as_str()),
            None => lowered_chars(empty.as_str()),
        },
    );
    assert(vviews(lowered@) =~= lowered_fields(tool@));
    proof {
        lemma_lowered_fields(tool@, query@);
    }
    matches_lowered(&lowered, query.as_slice())
}

/// The position of the first recent entry for `name`, or the number of entries.
pub fn recent_rank(recent: &Vec<RecentTool>, name: &str) -> (r: usize)
    ensures
        r as int == first_index_of(recent_names(recent_views(recent@)), name@),
{
    let ghost names = recent_names(recent_views(recent@));
    let mut k: usize = 0;
    while k < recent.len()
        invariant
            k <= recent@.len(),
            names == recent_names(recent_views(recent@)),
            forall|j: int| 0 <= j < k ==> names[j] != name@,
        decreases recent@.len() - k,
    {
        if str_eq(recent[k].package_name.as_str(), name) {
            proof {
                lemma_first_index_of(names, name@, k as int);
            }
            return k;
        }
        k += 1;
    }
    proof {
        lemma_first_index_of(names, name@, k as int);
    }
    k
}

/// `found` ordered by when each package was last run, most recent first.
fn order_by_recent(found: Vec<BlackArchTool>, recent: &Vec<RecentTool>) -> (r: Vec<BlackArchTool>)
    ensures
        tool_views(r@) == by_rank(
            tool_views(found@),
            recent_names(recent_views(recent@)),
            recent@.len() as nat,
        ),
{
    let ghost fv = tool_views(found@);
    let ghost names = recent_names(recent_views(recent@));
    let mut ranks: Vec<usize> = Vec::new();
    let mut j: usize = 0;
    while j < found.len()
        invariant
            j <= found@.len(),
            fv == tool_views(found@),
            names == recent_names(recent_views(recent@)),
            ranks@.len() == j,
            forall|i: int| 0 <= i < j ==> #[trigger] ranks@[i] as int == first_index_of(
                names,
                fv[i].package_name,
            ),
        decreases found@.len() - j,
    {
        ranks.push(recent_rank(recent, found[j].package_name.as_str()));
        j += 1;
    }
    let mut out: Vec<BlackArchTool> = Vec::new();
    let mut k: usize = 0;
    assert(tool_views(out@) =~= seq![]);
    while k < recent.len()
        invariant
            k <= recent@.len(),
            fv == tool_views(found@),
            names == recent_names(recent_views(recent@)),
            ranks@.len() == found@.len(),
            forall|i: int| 0 <= i < found@.len() ==> #[trigger] ranks@[i] as int == first_index_of(
                names,
                fv[i].package_name,
            ),
            tool_views(out@) == by_rank(fv, names, k as nat),
        decreases recent@.len() - k,
    {
        let ghost base = tool_views(out@);
        let mut j: usize = 0;
        assert(fv.take(0) =~= seq![]);
        assert(base + with_rank(fv.take(0), names, k as int) =~= base);
        while j < found.len()
            invariant
                j <= found@.len(),
                fv == tool_views(found@),
                ranks@.len() == found@.len(),
                forall|i: int| 0 <= i < found@.len() ==> #[trigger] ranks@[i] as int == first_index_of(
                    names,
                    fv[i].package_name,
                ),
                tool_views(out@) == base + with_rank(fv.take(j as int), names, k as int),
            decreases found@.len() - j,
        {
            assert(fv.take(j + 1).drop_last() =~= fv.take(j as int));
            assert(fv.take(j + 1).last() == fv[j as int]);
            assert(ranks@[j as int] as int == first_index_of(names, fv[j as int].package_name));
            if ranks[j] == k {
                let ghost before = tool_views(out@);
                out.push(found[j].duplicate());
                assert(tool_views(out@) =~= before.push(fv[j as int]));
                assert(base + with_rank(fv.take(j + 1), names, k as int) =~= (base + with_rank(
                    fv.take(j as int),
                    names,
                    k as int,
                )).push(fv[j as int]));
            }
            j += 1;
        }
        assert(fv.take(found@.len() as int) =~= fv);
        k += 1;
    }
    out
}

/// The position of the first tool of `ts` for package `name`, or the number of tools.
pub fn tool_position(ts: &Vec<BlackArchTool>, name: &str) -> (r: usize)
    ensures
        r as int == first_index_of(tool_names(tool_views(ts@)), name@),
{
    let ghost names = tool_names(tool_views(ts@));
    let mut k: usize = 0;
    while k < ts.len()
        invariant
            k <= ts@.len(),
            names == tool_names(tool_views(ts@)),
            forall|j: int| 0 <= j < k ==> names[j] != name@,
        decreases ts@.len() - k,
    {
        if str_eq(ts[k].package_name.as_str(), name) {
            proof {
                lemma_first_index_of(names, name@, k as int);
            }
            return k;
        }
        k += 1;
    }
    proof {
        lemma_first_index_of(names, name@, k as int);
    }
    k
}

impl App {
    /// The selected tool, if the selection is in range.
    pub fn selected_tool(&self) -> (r: Option<&BlackArchTool>)
        ensures
            opt_ref_view(r) == selected_tool_spec(self@),
    {
        if self.selected_tool_index < self.filtered_tools.len() {
            Some(&self.filtered_tools[self.selected_tool_index])
        } else {
            None
        }
    }

    /// Whether `tool` belongs to the chosen category `selected`.
    fn matches_selected_category(&self, tool: &BlackArchTool, selected: &str) -> (r: bool)
        ensures
            r == matches_category_spec(tool@, selected@, self.user_state@.recent),
    {
        if str_eq(selected, "All Tools") {
            return true;
        }
        if str_eq(selected, "Installed") {
            return tool.status == ToolStatus::Installed;
        }
        if str_eq(selected, "Favorites") {
            return tool.favorite;
        }
        if str_eq(selected, "Recent") {
            let k = recent_rank(&self.user_state.recent, tool.package_name.as_str());
            proof {
                lemma_first_index_of_bounds(
                    recent_names(recent_views(self.user_state.recent@)),
                    tool@.package_name,
                );
            }
            return k < self.user_state.recent.len();
        }
        let normalized = normalize_category_filter(selected);
        let in_category = match &tool.category {
            Some(c) => str_eq(c.as_str(), normalized.as_str()),
            None => false,
        };
        if in_category {
            return true;
        }
        crate::utils::unique::strings_contain(&tool.categories, &chars_of(normalized.as_str()))
    }

    /// Rebuilds the list of tools for the chosen category and the search, and
    /// keeps the selected package selected where it is still listed.
    pub fn apply_filters(&mut self)
        ensures
            final(self)@ == apply_filters_spec(old(self)@),
            old(self)@.search_query.len() == 0 ==> final(self)@.filtered_tools == category_listing(
                old(self)@,
            ),
            final(self).last_selection_change == old(self).last_selection_change,
            final(self).install_queue == old(self).install_queue,
    {
        let ghost v = self@;
        let selected_package: Option<String> = match self.selected_tool() {
            Some(tool) => Some(tool.package_name.clone()),
            None => None,
        };
        let selected_category = if self.selected_category_index < self.categories.len() {
            self.categories[self.selected_category_index].clone()
        } else {
            owned("All Tools")
        };
        assert(selected_category@ == selected_category_spec(v));
        let query = chars_of(to_lower(self.search_query.as_str()).as_str());
        let ghost recent = v.user_state.recent;
        proof {
            if v.search_query.len() == 0 {
                lemma_empty_query_matching(v.tools, selected_category@, query@, recent);
            }
        }
        let mut found: Vec<BlackArchTool> = Vec::new();
        let mut i: usize = 0;
        assert(v.tools.take(0) =~= seq![]);
        assert(tool_views(found@) =~= seq![]);
        while i < self.tools.len()
            invariant
                i <= self.tools@.len(),
                v == self@,
                recent == v.user_state.recent,
                query@ == lowercase(v.search_query),
                tool_views(found@) == matching_tools(
                    v.tools.take(i as int),
                    selected_category@,
                    query@,
                    recent,
                ),
            decreases self.tools@.len() - i,
        {
            assert(v.tools.take(i + 1).drop_last() =~= v.tools.take(i as int));
            assert(v.tools.take(i + 1).last() == self.tools@[i as int]@);
            if self.matches_selected_category(&self.tools[i], selected_category.as_str())
                && matches_search(&self.tools[i], &query) {
                let ghost before = tool_views(found@);
                found.push(self.tools[i].duplicate());
                assert(tool_views(found@) =~= before.push(self.tools@[i as int]@));
            }
            i += 1;
        }
        assert(v.tools.take(self.tools@.len() as int) =~= v.tools);
        let filtered = if str_eq(selected_category.as_str(), "Recent") {
            order_by_recent(found, &self.user_state.recent)
        } else {
            found
        };
        let ghost f = tool_views(filtered@);
        assert(f == filtered_spec(v));
        let kept = match &selected_package {
            Some(name) => tool_position(&filtered, name.as_str()),
            None => filtered.len(),
        };
        let index = if kept < filtered.len() {
            kept
        } else if filtered.len() == 0 {
            0
        } else if self.selected_tool_index < filtered.len() - 1 {
            self.selected_tool_index
        } else {
            filtered.len() - 1
        };
        assert(index as int == kept_selection(v, f));
        self.filtered_tools = filtered;
        self.selected_tool_index = index;
    }
}

} // verus!
