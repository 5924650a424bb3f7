//! Changes to the tool records: details and statuses that arrive, favorites,
//! recently run tools, and the data loaded at start.
use vstd::prelude::*;

use crate::app::filters::{
    apply_filters_spec, category_listing, selected_tool_spec, tool_names, tool_position,
};
use crate::app::{virtual_categories, virtual_category_list, App, AppView};
use crate::error::{AppError, AppErrorView};
use crate::models::{
    recent_views, tool_views, BlackArchTool, RecentTool, RecentView, ToolStatus, ToolView,
    UserState, UserStateView,
};
use crate::user_state::store::{
    add_recent_tool_to_vec, check_recent_spec, dedup_spec, load_favorites_spec, opt_str_view,
    recent_after, recent_entry,
};
use crate::utils::clock::decimal;
use crate::utils::order::{string_views, text_order};
use crate::utils::text::{concat3, owned, str_eq};
use crate::utils::unique::{first_index_of, lemma_first_index_of_bounds};

verus! {

/// `ts` with the first record of package `name` replaced by `t`, its favorite flag kept.
pub open spec fn replace_record(ts: Seq<ToolView>, name: Seq<char>, t: ToolView) -> Seq<ToolView> {
    let k = first_index_of(tool_names(ts), name);
    if 0 <= k < ts.len() {
        ts.update(k, ToolView { favorite: ts[k].favorite, ..t })
    } else {
        ts
    }
}

/// `v` with the record of package `name` replaced by `t` in both lists.
pub open spec fn update_record_spec(v: AppView, name: Seq<char>, t: ToolView) -> AppView {
    AppView {
        tools: replace_record(v.tools, name, t),
        filtered_tools: replace_record(v.filtered_tools, name, t),
        ..v
    }
}

/// `ts` with the description of the first record of package `name` set to `d`.
pub open spec fn describe_record(ts: Seq<ToolView>, name: Seq<char>, d: Seq<char>) -> Seq<ToolView> {
    let k = first_index_of(tool_names(ts), name);
    if 0 <= k < ts.len() {
        ts.update(k, ToolView { description: Some(d), ..ts[k] })
    } else {
        ts
    }
}

/// `v` with the description of the record of package `name` set to `d` in both lists.
pub open spec fn describe_spec(v: AppView, name: Seq<char>, d: Seq<char>) -> AppView {
    AppView {
        tools: describe_record(v.tools, name, d),
        filtered_tools: describe_record(v.filtered_tools, name, d),
        ..v
    }
}

/// `t` with status `s` when it is a record of package `name`.
pub open spec fn status_of(t: ToolView, name: Seq<char>, s: ToolStatus) -> ToolView {
    if t.package_name == name {
        ToolView { status: s, ..t }
    } else {
        t
    }
}

/// `v` with every record of package `name` given status `s`.
pub open spec fn status_spec(v: AppView, name: Seq<char>, s: ToolStatus) -> AppView {
    AppView {
        tools: v.tools.map_values(|t: ToolView| status_of(t, name, s)),
        filtered_tools: v.filtered_tools.map_values(|t: ToolView| status_of(t, name, s)),
        ..v
    }
}

/// `t` without executables when it is a record of package `name`.
pub open spec fn cleared_of(t: ToolView, name: Seq<char>) -> ToolView {
    if t.package_name == name {
        ToolView { executable: None, executables: seq![], ..t }
    } else {
        t
    }
}

/// `v` with every record of package `name` without executables.
pub open spec fn clear_executables_spec(v: AppView, name: Seq<char>) -> AppView {
    AppView {
        tools: v.tools.map_values(|t: ToolView| cleared_of(t, name)),
        filtered_tools: v.filtered_tools.map_values(|t: ToolView| cleared_of(t, name)),
        ..v
    }
}

/// `t` with favorite flag `f` when it is a record of package `name`.
pub open spec fn favorite_of(t: ToolView, name: Seq<char>, f: bool) -> ToolView {
    if t.package_name == name {
        ToolView { favorite: f, ..t }
    } else {
        t
    }
}

/// `v` with every record of package `name` given favorite flag `f`.
pub open spec fn set_favorite_spec(v: AppView, name: Seq<char>, f: bool) -> AppView {
    AppView {
        tools: v.tools.map_values(|t: ToolView| favorite_of(t, name, f)),
        filtered_tools: v.filtered_tools.map_values(|t: ToolView| favorite_of(t, name, f)),
        ..v
    }
}

/// `t` marked as a favorite exactly when `favorites` holds its package.
pub open spec fn marked_by(t: ToolView, favorites: Seq<Seq<char>>) -> ToolView {
    ToolView { favorite: favorites.contains(t.package_name), ..t }
}

/// `v` with every record marked as a favorite exactly when the user's favorites hold it.
pub open spec fn mark_favorites_spec(v: AppView) -> AppView {
    AppView {
        tools: v.tools.map_values(|t: ToolView| marked_by(t, v.user_state.favorites)),
        filtered_tools: v.filtered_tools.map_values(
            |t: ToolView| marked_by(t, v.user_state.favorites),
        ),
        ..v
    }
}

/// `v` with the loaded data: the virtual categories then `categories`, the
/// tools `tools`, the category choice clamped, and the tools listed again.
pub open spec fn backend_data_spec(v: AppView, categories: Seq<Seq<char>>, tools: Seq<ToolView>) -> AppView {
    let all = virtual_categories() + categories;
    apply_filters_spec(
        AppView {
            categories: all,
            tools,
            selected_category_index: if v.selected_category_index < all.len() - 1 {
                v.selected_category_index
            } else {
                (all.len() - 1) as usize
            },
            ..v
        },
    )
}

/// `v` with user state `s`, the records marked by its favorites.
pub open spec fn with_user_state(v: AppView, s: UserStateView) -> AppView {
    mark_favorites_spec(AppView { user_state: s, ..v })
}

/// The message shown after toggling the favorite flag of `name`.
pub open spec fn favorite_message(name: Seq<char>, added: bool) -> Seq<char> {
    if added {
        "Added "@ + name + " to favorites"@
    } else {
        "Removed "@ + name + " from favorites"@
    }
}

/// `v` after toggling the favorite flag of `name` (set to `added`), with the
/// favorites now being `favorites`, and the tools listed again.
pub open spec fn favorite_toggled_spec(
    v: AppView,
    name: Seq<char>,
    added: bool,
    favorites: Seq<Seq<char>>,
) -> AppView {
    apply_filters_spec(
        set_favorite_spec(
            AppView {
                user_state: UserStateView { favorites, ..v.user_state },
                status_message: favorite_message(name, added),
                ..v
            },
            name,
            added,
        ),
    )
}

/// `v` with `entry` first among the recent tools (see `recent_after`).
pub open spec fn recent_added_spec(v: AppView, entry: RecentView) -> AppView {
    AppView {
        user_state: UserStateView { recent: recent_after(v.user_state.recent, entry), ..v.user_state },
        ..v
    }
}

/// The view of a result that carries nothing.
pub open spec fn unit_result(r: Result<(), AppError>) -> Result<(), AppErrorView> {
    match r {
        Ok(()) => Ok(()),
        Err(e) => Err(e@),
    }
}

/// What toggling the favorite flag of `name` does, given what the favorites
/// file holds before and after, the state before and after, and the outcome:
/// on an error nothing changes; else the file holds the toggled favorites and
/// the state shows them.
pub open spec fn favorite_toggle_holds(
    v: AppView,
    name: Seq<char>,
    file_before: Seq<Seq<char>>,
    file_after: Seq<Seq<char>>,
    after: AppView,
    r: Result<(), AppErrorView>,
) -> bool {
    match crate::user_state::store::toggle_favorite_spec(file_before, name) {
        Err(ev) => r == Err::<(), AppErrorView>(ev) && after == v && file_after == file_before,
        Ok((added, favs)) => r == Ok::<(), AppErrorView>(()) && file_after == favs && after
            == favorite_toggled_spec(v, name, added, favs),
    }
}

/// `v` with `status` shown.
pub open spec fn with_status(v: AppView, status: Seq<char>) -> AppView {
    AppView { status_message: status, ..v }
}

/// Replaces, in `ts`, the first record of package `name` by `tool`, keeping its favorite flag.
fn replace_in(ts: &mut Vec<BlackArchTool>, name: &str, tool: &BlackArchTool)
    ensures
        tool_views(final(ts)@) == replace_record(tool_views(old(ts)@), name@, tool@),
{
    let k = tool_position(ts, name);
    proof {
        lemma_first_index_of_bounds(tool_names(tool_views(ts@)), name@);
    }
    if k < ts.len() {
        let ghost before = tool_views(ts@);
        let mut record = tool.duplicate();
        record.favorite = ts[k].favorite;
        ts.set(k, record);
        assert(tool_views(ts@) =~= before.update(
            k as int,
            ToolView { favorite: before[k as int].favorite, ..tool@ },
        ));
    }
}

/// Sets, in `ts`, the description of the first record of package `name`.
fn describe_in(ts: &mut Vec<BlackArchTool>, name: &str, description: &String)
    ensures
        tool_views(final(ts)@) == describe_record(tool_views(old(ts)@), name@, description@),
{
    let k = tool_position(ts, name);
    proof {
        lemma_first_index_of_bounds(tool_names(tool_views(ts@)), name@);
    }
    if k < ts.len() {
        let ghost before = tool_views(ts@);
        let mut record = ts[k].duplicate();
        record.description = Some(description.clone());
        ts.set(k, record);
        assert(tool_views(ts@) =~= before.update(
            k as int,
            ToolView { description: Some(description@), ..before[k as int] },
        ));
    }
}

/// Sets the status of every record of package `name` in `ts`.
fn set_status_in(ts: &mut Vec<BlackArchTool>, name: &str, status: ToolStatus)
    ensures
        tool_views(final(ts)@) == tool_views(old(ts)@).map_values(
            |t: ToolView| status_of(t, name@, status),
        ),
{
    let ghost before = tool_views(ts@);
    let mut i: usize = 0;
    while i < ts.len()
        invariant
            i <= ts@.len(),
            ts@.len() == before.len(),
            forall|j: int| 0 <= j < i ==> #[trigger] ts@[j]@ == status_of(before[j], name@, status),
            forall|j: int| i <= j < ts@.len() ==> #[trigger] ts@[j]@ == before[j],
        decreases ts@.len() - i,
    {
        if str_eq(ts[i].package_name.as_str(), name) {
            let mut record = ts[i].duplicate();
            record.status = status;
            ts.set(i, record);
        }
        i += 1;
    }
    assert(tool_views(ts@) =~= before.map_values(|t: ToolView| status_of(t, name@, status)));
}

/// Removes the executables of every record of package `name` in `ts`.
fn clear_executables_in(ts: &mut Vec<BlackArchTool>, name: &str)
    ensures
        tool_views(final(ts)@) == tool_views(old(ts)@).map_values(|t: ToolView| cleared_of(t, name@)),
{
    let ghost before = tool_views(ts@);
    let mut i: usize = 0;
    while i < ts.len()
        invariant
            i <= ts@.len(),
            ts@.len() == before.len(),
            forall|j: int| 0 <= j < i ==> #[trigger] ts@[j]@ == cleared_of(before[j], name@),
            forall|j: int| i <= j < ts@.len() ==> #[trigger] ts@[j]@ == before[j],
        decreases ts@.len() - i,
    {
        if str_eq(ts[i].package_name.as_str(), name) {
            let mut record = ts[i].duplicate();
            record.executable = None;
            record.executables = Vec::new();
            assert(record@.executables =~= seq![]);
            ts.set(i, record);
        }
        i += 1;
    }
    assert(tool_views(ts@) =~= before.map_values(|t: ToolView| cleared_of(t, name@)));
}

/// Sets the favorite flag of every record of package `name` in `ts`.
fn set_favorite_in(ts: &mut Vec<BlackArchTool>, name: &str, favorite: bool)
    ensures
        tool_views(final(ts)@) == tool_views(old(ts)@).map_values(
            |t: ToolView| favorite_of(t, name@, favorite),
        ),
{
    let ghost before = tool_views(ts@);
    let mut i: usize = 0;
    while i < ts.len()
        invariant
            i <= ts@.len(),
            ts@.len() == before.len(),
            forall|j: int| 0 <= j < i ==> #[trigger] ts@[j]@ == favorite_of(before[j], name@, favorite),
            forall|j: int| i <= j < ts@.len() ==> #[trigger] ts@[j]@ == before[j],
        decreases ts@.len() - i,
    {
        if str_eq(ts[i].package_name.as_str(), name) {
            let mut record = ts[i].duplicate();
            record.favorite = favorite;
            ts.set(i, record);
        }
        i += 1;
    }
    assert(tool_views(ts@) =~= before.map_values(|t: ToolView| favorite_of(t, name@, favorite)));
}

/// Marks each record of `ts` as a favorite exactly when `favorites` holds its package.
fn mark_in(ts: &mut Vec<BlackArchTool>, favorites: &Vec<String>)
    ensures
        tool_views(final(ts)@) == tool_views(old(ts)@).map_values(
            |t: ToolView| marked_by(t, string_views(favorites@)),
        ),
{
    let ghost before = tool_views(ts@);
    let ghost favs = string_views(favorites@);
    let mut i: usize = 0;
    while i < ts.len()
        invariant
            i <= ts@.len(),
            ts@.len() == before.len(),
            favs == string_views(favorites@),
            forall|j: int| 0 <= j < i ==> #[trigger] ts@[j]@ == marked_by(before[j], favs),
            forall|j: int| i <= j < ts@.len() ==> #[trigger] ts@[j]@ == before[j],
        decreases ts@.len() - i,
    {
        let mut record = ts[i].duplicate();
        record.favorite = crate::utils::unique::strings_contain(
            favorites,
            &crate::utils::text::chars_of(ts[i].package_name.as_str()),
        );
        ts.set(i, record);
        i += 1;
    }
    assert(tool_views(ts@) =~= before.map_values(|t: ToolView| marked_by(t, favs)));
}

impl App {
    /// Replaces the record of package `package_name` by `tool` in both lists, keeping its favorite flag.
    pub fn update_tool_record(&mut self, package_name: &str, tool: BlackArchTool)
        ensures
            final(self)@ == update_record_spec(old(self)@, package_name@, tool@),
            final(self).last_selection_change == old(self).last_selection_change,
    {
        replace_in(&mut self.tools, package_name, &tool);
        replace_in(&mut self.filtered_tools, package_name, &tool);
    }

    /// Sets the description of the record of package `package_name` in both lists.
    pub fn update_selected_description(&mut self, package_name: &str, description: String)
        ensures
            final(self)@ == describe_spec(old(self)@, package_name@, description@),
            final(self).last_selection_change == old(self).last_selection_change,
    {
        describe_in(&mut self.tools, package_name, &description);
        describe_in(&mut self.filtered_tools, package_name, &description);
    }

    /// Gives every record of package `package_name` status `status`.
    pub fn update_tool_status(&mut self, package_name: &str, status: ToolStatus)
        ensures
            final(self)@ == status_spec(old(self)@, package_name@, status),
            final(self).last_selection_change == old(self).last_selection_change,
    {
        set_status_in(&mut self.tools, package_name, status);
        set_status_in(&mut self.filtered_tools, package_name, status);
    }

    /// Removes the executables of every record of package `package_name`.
    pub fn clear_tool_executables(&mut self, package_name: &str)
        ensures
            final(self)@ == clear_executables_spec(old(self)@, package_name@),
            final(self).last_selection_change == old(self).last_selection_change,
    {
        clear_executables_in(&mut self.tools, package_name);
        clear_executables_in(&mut self.filtered_tools, package_name);
    }

    /// Marks every record as a favorite exactly when the user's favorites hold it.
    pub fn apply_user_state_to_tools(&mut self)
        ensures
            final(self)@ == mark_favorites_spec(old(self)@),
            final(self).last_selection_change == old(self).last_selection_change,
    {
        mark_in(&mut self.tools, &self.user_state.favorites);
        mark_in(&mut self.filtered_tools, &self.user_state.favorites);
    }

    /// Gives every record of package `package_name` favorite flag `favorite`.
    pub fn set_tool_favorite(&mut self, package_name: &str, favorite: bool)
        ensures
            final(self)@ == set_favorite_spec(old(self)@, package_name@, favorite),
            final(self).last_selection_change == old(self).last_selection_change,
    {
        set_favorite_in(&mut self.tools, package_name, favorite);
        set_favorite_in(&mut self.filtered_tools, package_name, favorite);
    }

    /// Whether the selected tool is a favorite.
    pub fn is_selected_tool_favorite(&self) -> (r: bool)
        ensures
            r == (selected_tool_spec(self@) matches Some(t) && t.favorite),
    {
        match self.selected_tool() {
            Some(tool) => tool.favorite,
            None => false,
        }
    }

    /// Puts `package_name` first among the recent tools, stamped now.
    pub fn add_recent_in_memory(&mut self, package_name: String, executable: Option<String>)
        ensures
            exists|secs: nat|
                final(self)@ == recent_added_spec(
                    old(self)@,
                    #[trigger] recent_entry(package_name@, crate::models::opt_view(executable), decimal(secs)),
                ),
            final(self).last_selection_change == old(self).last_selection_change,
    {
        let stamp = crate::utils::clock::now_timestamp();
        let ghost secs = choose|secs: nat| stamp@ == decimal(secs);
        let ghost s = decimal(secs);
        let exe: Option<&str> = match &executable {
            Some(e) => Some(e.as_str()),
            None => None,
        };
        assert(opt_str_view(exe) == crate::models::opt_view(executable));
        add_recent_tool_to_vec(&mut self.user_state.recent, package_name.as_str(), exe, stamp);
        assert(self@ =~= recent_added_spec(
            old(self)@,
            recent_entry(package_name@, crate::models::opt_view(executable), s),
        ));
    }

    /// Takes in loaded data: the BlackArch categories after the virtual ones,
    /// the tools, the category choice clamped, and the tools listed again.
    pub fn set_backend_data(&mut self, backend_categories: Vec<String>, tools: Vec<BlackArchTool>)
        ensures
            final(self)@ == backend_data_spec(
                old(self)@,
                string_views(backend_categories@),
                tool_views(tools@),
            ),
            old(self)@.search_query.len() == 0 ==> final(self)@.filtered_tools == category_listing(
                final(self)@,
            ),
            final(self).last_selection_change == old(self).last_selection_change,
    {
        let mut categories = virtual_category_list();
        let ghost head = string_views(categories@);
        let mut i: usize = 0;
        while i < backend_categories.len()
            invariant
                i <= backend_categories@.len(),
                head == virtual_categories(),
                string_views(categories@) == head + string_views(backend_categories@).take(i as int),
            decreases backend_categories@.len() - i,
        {
            let ghost before = string_views(categories@);
            categories.push(backend_categories[i].clone());
            assert(string_views(categories@) =~= before.push(backend_categories@[i as int]@));
            assert(string_views(backend_categories@).take(i + 1) =~= string_views(
                backend_categories@,
            ).take(i as int).push(backend_categories@[i as int]@));
            i += 1;
        }
        assert(string_views(backend_categories@).take(backend_categories@.len() as int)
            =~= string_views(backend_categories@));
        self.categories = categories;
        self.tools = tools;
        if self.selected_category_index >= self.categories.len() - 1 {
            self.selected_category_index = self.categories.len() - 1;
        }
        self.apply_filters();
    }

    /// Takes in the user state that the favorites file and the recent file
    /// hold, and marks the favorite records; an error, and nothing changed,
    /// when either file holds an invalid entry.
    pub fn load_user_state(&mut self, favorites_file: Vec<String>, recent_file: Vec<RecentTool>) -> (r:
        Result<(), AppError>)
        ensures
            match load_favorites_spec(string_views(favorites_file@)) {
                Err(ev) => r matches Err(e) && e@ == ev && final(self)@ == old(self)@,
                Ok(favs) => match check_recent_spec(recent_views(recent_file@)) {
                    Err(ev) => r matches Err(e) && e@ == ev && final(self)@ == old(self)@,
                    Ok(rec) => r is Ok && final(self)@ == with_user_state(
                        old(self)@,
                        UserStateView { favorites: favs, recent: rec },
                    ),
                },
            },
            final(self).last_selection_change == old(self).last_selection_change,
    {
        let state = crate::user_state::store::load_user_state(favorites_file, recent_file)?;
        self.user_state = state;
        self.apply_user_state_to_tools();
        Ok(())
    }

    /// What the favorites file and the recent file must hold to store the user state.
    pub fn save_user_state(&self) -> (r: Result<(Vec<String>, Vec<RecentTool>), AppError>)
        ensures
            match load_favorites_spec(self@.user_state.favorites) {
                Err(ev) => r matches Err(e) && e@ == ev,
                Ok(favs) => match check_recent_spec(self@.user_state.recent) {
                    Err(ev) => r matches Err(e) && e@ == ev,
                    Ok(rec) => r matches Ok((f, l)) && string_views(f@) == favs && recent_views(l@)
                        == rec,
                },
            },
    {
        crate::user_state::store::save_user_state(&self.user_state)
    }

    /// Toggles the selected tool among the favorites that `favorites_file`
    /// holds, rewrites the file, and shows the change; an error, and nothing
    /// changed, for an invalid name or an invalid file.
    pub fn toggle_selected_favorite(&mut self, favorites_file: &mut Vec<String>) -> (r: Result<
        (),
        AppError,
    >)
        ensures
            selected_tool_spec(old(self)@) is None ==> r is Ok && final(self)@ == with_status(
                old(self)@,
                "No tool selected"@,
            ),
            selected_tool_spec(old(self)@) is None ==> final(favorites_file)@ == old(favorites_file)@,
            selected_tool_spec(old(self)@) matches Some(t) ==> favorite_toggle_holds(
                old(self)@,
                t.package_name,
                string_views(old(favorites_file)@),
                string_views(final(favorites_file)@),
                final(self)@,
                unit_result(r),
            ),
            final(self).last_selection_change == old(self).last_selection_change,
    {
        let package_name = match self.selected_tool() {
            Some(tool) => tool.package_name.clone(),
            None => {
                self.status_message = owned("No tool selected");
                return Ok(());
            },
        };
        let added = crate::user_state::store::toggle_favorite(favorites_file, package_name.as_str())?;
        self.user_state.favorites = crate::models::copy_strings(favorites_file);
        self.set_tool_favorite(package_name.as_str(), added);
        self.status_message = if added {
            concat3("Added ", package_name.as_str(), " to favorites")
        } else {
            concat3("Removed ", package_name.as_str(), " from favorites")
        };
        self.apply_filters();
        Ok(())
    }
}

} // verus!
