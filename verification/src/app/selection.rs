//! Moving the selection, choosing a category, typing a search, and noting
//! which tool's details should be loaded once the selection settles.
use vstd::prelude::*;

use crate::app::filters::{apply_filters_spec, opt_ref_view, selected_tool_spec};
use crate::app::{App, AppView, FocusPane};
use crate::models::ToolView;
use crate::utils::clock::instant_now;
use crate::utils::scan::{has_prefix, starts_with};
use crate::utils::text::{chars_of, owned, push_char, str_eq, string_from_chars};

verus! {

/// The description prefix of a tool whose details could not be read.
pub open spec fn unavailable_prefix() -> Seq<char> {
    "Package info unavailable"@
}

/// Whether the details of `t` are still to be loaded: it has no version, and
/// no description saying that they could not be read.
pub open spec fn needs_detail(t: ToolView) -> bool {
    t.version is None && match t.description {
        None => true,
        Some(d) => !starts_with(d, unavailable_prefix()),
    }
}

/// Whether the details of the selected tool are to be loaded.
pub open spec fn marks_pending(v: AppView) -> bool {
    selected_tool_spec(v) matches Some(t) && needs_detail(t)
}

/// `v` after noting the selected tool as awaiting its details, or noting that
/// none awaits them.
pub open spec fn pending_spec(v: AppView) -> AppView {
    match selected_tool_spec(v) {
        Some(t) => if needs_detail(t) {
            AppView { pending_detail_package: Some(t.package_name), detail_loading: true, ..v }
        } else {
            AppView { pending_detail_package: None, detail_loading: false, ..v }
        },
        None => AppView { pending_detail_package: None, detail_loading: false, ..v },
    }
}

/// How the time of the last selection change moves when `v` is noted: it is
/// read anew when details become pending, else it stays.
pub open spec fn pending_clock(
    v: AppView,
    before: Option<std::time::Instant>,
    after: Option<std::time::Instant>,
) -> bool {
    if marks_pending(v) {
        after is Some
    } else {
        after == before
    }
}

/// Whether the details of `tool` are still to be loaded.
pub fn tool_needs_detail(tool: &crate::models::BlackArchTool) -> (r: bool)
    ensures
        r == needs_detail(tool@),
{
    if tool.version.is_some() {
        return false;
    }
    match &tool.description {
        None => true,
        Some(d) => !has_prefix(&chars_of(d.as_str()), &chars_of("Package info unavailable")),
    }
}

/// The position after `i` in a list of `len` entries, wrapping around.
pub open spec fn next_index(i: usize, len: usize) -> usize {
    ((i + 1) % (len as int)) as usize
}

/// The position before `i` in a list of `len` entries, wrapping around.
pub open spec fn previous_index(i: usize, len: usize) -> usize {
    if i == 0 {
        (len - 1) as usize
    } else {
        (i - 1) as usize
    }
}

/// The position after `i` in a list of `len` entries, wrapping around.
pub fn wrap_next(i: usize, len: usize) -> (r: usize)
    requires
        len > 0,
    ensures
        r == next_index(i, len),
{
    let r = (i % len + 1) % len;
    proof {
        vstd::arithmetic::div_mod::lemma_add_mod_noop_right(1, i as int, len as int);
    }
    r
}

/// The position before `i` in a list of `len` entries, wrapping around.
pub fn wrap_previous(i: usize, len: usize) -> (r: usize)
    requires
        len > 0,
    ensures
        r == previous_index(i, len),
{
    if i == 0 {
        len - 1
    } else {
        i - 1
    }
}

/// `v` with the tool after the selected one selected.
pub open spec fn next_tool_step(v: AppView) -> AppView {
    AppView {
        selected_tool_index: next_index(v.selected_tool_index, v.filtered_tools.len() as usize),
        ..v
    }
}

/// `v` with the tool before the selected one selected.
pub open spec fn previous_tool_step(v: AppView) -> AppView {
    AppView {
        selected_tool_index: previous_index(v.selected_tool_index, v.filtered_tools.len() as usize),
        ..v
    }
}

/// `v` with the category after the chosen one chosen and its tools listed.
pub open spec fn next_category_step(v: AppView) -> AppView {
    apply_filters_spec(
        AppView {
            selected_category_index: next_index(
                v.selected_category_index,
                v.categories.len() as usize,
            ),
            ..v
        },
    )
}

/// `v` with the category before the chosen one chosen and its tools listed.
pub open spec fn previous_category_step(v: AppView) -> AppView {
    apply_filters_spec(
        AppView {
            selected_category_index: previous_index(
                v.selected_category_index,
                v.categories.len() as usize,
            ),
            ..v
        },
    )
}

/// A move through a list of tools: back to the start for an empty list, else
/// the move followed by noting the selected tool's details as pending.
pub open spec fn tool_move(v: AppView, step: AppView) -> AppView {
    if v.filtered_tools.len() == 0 {
        AppView { selected_tool_index: 0, ..v }
    } else {
        pending_spec(step)
    }
}

/// A move through the categories: back to the start when there are none, else
/// the move followed by noting the selected tool's details as pending.
pub open spec fn category_move(v: AppView, step: AppView) -> AppView {
    if v.categories.len() == 0 {
        AppView { selected_category_index: 0, ..v }
    } else {
        pending_spec(step)
    }
}

/// `v` with search text `q` and the matching tools listed.
pub open spec fn search_step(v: AppView, q: Seq<char>) -> AppView {
    apply_filters_spec(AppView { search_query: q, ..v })
}

/// `v` without an error shown.
pub open spec fn clear_error_spec(v: AppView) -> AppView {
    AppView { error_message: None, ..v }
}

/// The pane after `f` when the focus moves on.
pub open spec fn next_focus(f: FocusPane) -> FocusPane {
    match f {
        FocusPane::Categories => FocusPane::Tools,
        FocusPane::Tools => FocusPane::Details,
        _ => FocusPane::Categories,
    }
}

/// `v` in search mode.
pub open spec fn enter_search_spec(v: AppView) -> AppView {
    AppView { focus: FocusPane::Search, status_message: "Search mode • Esc/Enter/Tab to exit"@, ..v }
}

/// `v` out of search mode.
pub open spec fn exit_search_spec(v: AppView) -> AppView {
    if v.focus == FocusPane::Search {
        AppView { focus: FocusPane::Tools, status_message: "Ready"@, ..v }
    } else {
        v
    }
}

/// A search text without its last character, if any.
pub open spec fn without_last(q: Seq<char>) -> Seq<char> {
    if q.len() == 0 {
        q
    } else {
        q.drop_last()
    }
}

impl App {
    /// Notes the selected tool as awaiting its details (and when), or notes that none does.
    pub fn mark_selected_tool_pending_detail(&mut self)
        ensures
            final(self)@ == pending_spec(old(self)@),
            pending_clock(old(self)@, old(self).last_selection_change, final(self).last_selection_change),
    {
        let pending = match self.selected_tool() {
            Some(tool) => if tool_needs_detail(tool) {
                Some(tool.package_name.clone())
            } else {
                None
            },
            None => None,
        };
        match pending {
            Some(name) => {
                self.pending_detail_package = Some(name);
                self.last_selection_change = Some(instant_now());
                self.detail_loading = true;
            },
            None => {
                self.pending_detail_package = None;
                self.detail_loading = false;
            },
        }
    }

    /// Selects the next tool, wrapping around.
    pub fn select_next_tool(&mut self)
        ensures
            final(self)@ == tool_move(old(self)@, next_tool_step(old(self)@)),
            old(self)@.filtered_tools.len() == 0 ==> final(self).last_selection_change == old(
                self,
            ).last_selection_change,
            old(self)@.filtered_tools.len() > 0 ==> pending_clock(
                next_tool_step(old(self)@),
                old(self).last_selection_change,
                final(self).last_selection_change,
            ),
    {
        if self.filtered_tools.len() == 0 {
            self.selected_tool_index = 0;
            return;
        }
        self.selected_tool_index = wrap_next(self.selected_tool_index, self.filtered_tools.len());
        self.mark_selected_tool_pending_detail();
    }

    /// Selects the previous tool, wrapping around.
    pub fn select_previous_tool(&mut self)
        ensures
            final(self)@ == tool_move(old(self)@, previous_tool_step(old(self)@)),
            old(self)@.filtered_tools.len() == 0 ==> final(self).last_selection_change == old(
                self,
            ).last_selection_change,
            old(self)@.filtered_tools.len() > 0 ==> pending_clock(
                previous_tool_step(old(self)@),
                old(self).last_selection_change,
                final(self).last_selection_change,
            ),
    {
        if self.filtered_tools.len() == 0 {
            self.selected_tool_index = 0;
            return;
        }
        self.selected_tool_index = wrap_previous(
            self.selected_tool_index,
            self.filtered_tools.len(),
        );
        self.mark_selected_tool_pending_detail();
    }

    /// Chooses the next category, wrapping around, and lists its tools.
    pub fn select_next_category(&mut self)
        ensures
            final(self)@ == category_move(old(self)@, next_category_step(old(self)@)),
            old(self)@.categories.len() == 0 ==> final(self).last_selection_change == old(
                self,
            ).last_selection_change,
            old(self)@.categories.len() > 0 ==> pending_clock(
                next_category_step(old(self)@),
                old(self).last_selection_change,
                final(self).last_selection_change,
            ),
    {
        if self.categories.len() == 0 {
            self.selected_category_index = 0;
            return;
        }
        self.selected_category_index = wrap_next(
            self.selected_category_index,
            self.categories.len(),
        );
        self.apply_filters();
        self.mark_selected_tool_pending_detail();
    }

    /// Chooses the previous category, wrapping around, and lists its tools.
    pub fn select_previous_category(&mut self)
        ensures
            final(self)@ == category_move(old(self)@, previous_category_step(old(self)@)),
            old(self)@.categories.len() == 0 ==> final(self).last_selection_change == old(
                self,
            ).last_selection_change,
            old(self)@.categories.len() > 0 ==> pending_clock(
                previous_category_step(old(self)@),
                old(self).last_selection_change,
                final(self).last_selection_change,
            ),
    {
        if self.categories.len() == 0 {
            self.selected_category_index = 0;
            return;
        }
        self.selected_category_index = wrap_previous(
            self.selected_category_index,
            self.categories.len(),
        );
        self.apply_filters();
        self.mark_selected_tool_pending_detail();
    }

    /// Sets the search text and lists the matching tools.
    pub fn set_search_query(&mut self, query: String)
        ensures
            final(self)@ == pending_spec(search_step(old(self)@, query@)),
            pending_clock(
                search_step(old(self)@, query@),
                old(self).last_selection_change,
                final(self).last_selection_change,
            ),
    {
        self.search_query = query;
        self.apply_filters();
        self.mark_selected_tool_pending_detail();
    }

    /// Clears the error shown.
    pub fn clear_error(&mut self)
        ensures
            final(self)@ == clear_error_spec(old(self)@),
            final(self).last_selection_change == old(self).last_selection_change,
    {
        self.error_message = None;
    }

    /// Moves the focus to the next pane: categories, tools, details, and back;
    /// from the search to the categories.
    pub fn focus_next(&mut self)
        ensures
            final(self)@ == (AppView { focus: next_focus(old(self).focus), ..old(self)@ }),
            final(self).last_selection_change == old(self).last_selection_change,
    {
        self.focus = match self.focus {
            FocusPane::Categories => FocusPane::Tools,
            FocusPane::Tools => FocusPane::Details,
            FocusPane::Details | FocusPane::Search => FocusPane::Categories,
        };
    }

    /// Enters search mode.
    pub fn enter_search(&mut self)
        ensures
            final(self)@ == enter_search_spec(old(self)@),
            final(self).last_selection_change == old(self).last_selection_change,
    {
        self.focus = FocusPane::Search;
        self.status_message = owned("Search mode • Esc/Enter/Tab to exit");
    }

    /// Leaves search mode, if it is on.
    pub fn exit_search(&mut self)
        ensures
            final(self)@ == exit_search_spec(old(self)@),
            final(self).last_selection_change == old(self).last_selection_change,
    {
        if self.focus == FocusPane::Search {
            self.focus = FocusPane::Tools;
            self.status_message = owned("Ready");
        }
    }

    /// Adds a character to the search text.
    pub fn push_search_char(&mut self, ch: char)
        ensures
            final(self)@ == pending_spec(search_step(old(self)@, old(self)@.search_query.push(ch))),
            pending_clock(
                search_step(old(self)@, old(self)@.search_query.push(ch)),
                old(self).last_selection_change,
                final(self).last_selection_change,
            ),
    {
        let mut query = self.search_query.clone();
        push_char(&mut query, ch);
        self.set_search_query(query);
    }

    /// Removes the last character of the search text, if any.
    pub fn pop_search_char(&mut self)
        ensures
            final(self)@ == pending_spec(
                search_step(old(self)@, without_last(old(self)@.search_query)),
            ),
            pending_clock(
                search_step(old(self)@, without_last(old(self)@.search_query)),
                old(self).last_selection_change,
                final(self).last_selection_change,
            ),
    {
        let chars = chars_of(self.search_query.as_str());
        let query = if chars.len() == 0 {
            string_from_chars(&chars)
        } else {
            string_from_chars(&crate::utils::scan::slice_to_vec(&chars, 0, chars.len() - 1))
        };
        assert(chars@.len() > 0 ==> chars@.subrange(0, chars@.len() - 1) =~= chars@.drop_last());
        self.set_search_query(query);
    }

    /// Whether `package_name` is the selected tool's package.
    pub fn is_selected_package(&self, package_name: &str) -> (r: bool)
        ensures
            r == (selected_tool_spec(self@) matches Some(t) && t.package_name == package_name@),
    {
        match self.selected_tool() {
            Some(tool) => str_eq(tool.package_name.as_str(), package_name),
            None => false,
        }
    }
}

} // verus!
