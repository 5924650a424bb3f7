//! The texts that the interface shows for a tool.
use vstd::prelude::*;

use crate::app::categories::{display_category_name, display_name_spec};
use crate::app::{App, AppView, FocusPane};
use crate::models::{BlackArchTool, ToolStatus, ToolView};
use crate::utils::order::string_views;
use crate::utils::text::{
    chars_of, copy_string, join, join_spec, owned, push_char, string_from_chars,
};

verus! {

/// The label of a status.
pub open spec fn status_label_spec(status: ToolStatus) -> Seq<char> {
    match status {
        ToolStatus::Installed => "installed"@,
        ToolStatus::NotInstalled => "not installed"@,
        ToolStatus::UpdateAvailable => "update"@,
    }
}

/// The label of a status.
pub fn status_label(status: &ToolStatus) -> (r: &'static str)
    ensures
        r@ == status_label_spec(*status),
{
    match status {
        ToolStatus::Installed => "installed",
        ToolStatus::NotInstalled => "not installed",
        ToolStatus::UpdateAvailable => "update",
    }
}

/// `value` cut to `max_chars` characters, with `…` after a cut.
pub open spec fn truncate_spec(value: Seq<char>, max_chars: nat) -> Seq<char> {
    if value.len() > max_chars {
        value.take(max_chars as int).push('…')
    } else {
        value
    }
}

/// `value` cut to `max_chars` characters, with `…` after a cut.
pub fn truncate(value: &str, max_chars: usize) -> (r: String)
    ensures
        r@ == truncate_spec(value@, max_chars as nat),
{
    let chars = chars_of(value);
    if chars.len() > max_chars {
        let mut out = string_from_chars(&crate::utils::scan::slice_to_vec(&chars, 0, max_chars));
        push_char(&mut out, '…');
        assert(chars@.subrange(0, max_chars as int) =~= chars@.take(max_chars as int));
        out
    } else {
        string_from_chars(&chars)
    }
}

/// How the category of `t` is shown: its category, else its first category,
/// shown as a name; `-` when it has none.
pub open spec fn tool_category_spec(t: ToolView) -> Seq<char> {
    match t.category {
        Some(c) => display_name_spec(c),
        None => if t.categories.len() > 0 {
            display_name_spec(t.categories[0])
        } else {
            "-"@
        },
    }
}

/// How the category of `tool` is shown.
pub fn display_tool_category(tool: &BlackArchTool) -> (r: String)
    ensures
        r@ == tool_category_spec(tool@),
{
    match &tool.category {
        Some(c) => display_category_name(c.as_str()),
        None => if tool.categories.len() > 0 {
            display_category_name(tool.categories[0].as_str())
        } else {
            owned("-")
        },
    }
}

/// A text that may be missing, shown as `-` when it is.
pub open spec fn or_dash_spec(o: Option<Seq<char>>) -> Seq<char> {
    match o {
        Some(s) => s,
        None => "-"@,
    }
}

fn or_dash(o: &Option<String>) -> (r: String)
    ensures
        r@ == or_dash_spec(crate::models::opt_view(*o)),
{
    match o {
        Some(s) => copy_string(s),
        None => owned("-"),
    }
}

/// The description shown for `t`: its own, else a note that its details are
/// still loading (no version known yet) or that it has none.
pub open spec fn description_text_spec(t: ToolView) -> Seq<char> {
    match t.description {
        Some(d) => d,
        None => if t.version is None {
            "Loading package details..."@
        } else {
            "No description available."@
        },
    }
}

/// The executables of `t`, separated by `, `; `-` when it has none.
pub open spec fn executables_text_spec(t: ToolView) -> Seq<char> {
    if t.executables.len() == 0 {
        "-"@
    } else {
        join_spec(t.executables, ", "@)
    }
}

/// The texts of the details pane for one tool.
pub struct ToolDetails {
    pub name: String,
    pub package: String,
    pub category: String,
    pub version: String,
    pub executable: String,
    pub status: String,
    pub description: String,
    pub executables: String,
}

/// The mathematical model of [`ToolDetails`].
pub struct ToolDetailsView {
    pub name: Seq<char>,
    pub package: Seq<char>,
    pub category: Seq<char>,
    pub version: Seq<char>,
    pub executable: Seq<char>,
    pub status: Seq<char>,
    pub description: Seq<char>,
    pub executables: Seq<char>,
}

impl View for ToolDetails {
    type V = ToolDetailsView;

    open spec fn view(&self) -> ToolDetailsView {
        ToolDetailsView {
            name: self.name@,
            package: self.package@,
            category: self.category@,
            version: self.version@,
            executable: self.executable@,
            status: self.status@,
            description: self.description@,
            executables: self.executables@,
        }
    }
}

/// What the details pane shows of `t`.
pub open spec fn details_spec(t: ToolView) -> ToolDetailsView {
    ToolDetailsView {
        name: t.name,
        package: t.package_name,
        category: tool_category_spec(t),
        version: or_dash_spec(t.version),
        executable: or_dash_spec(t.executable),
        status: status_label_spec(t.status),
        description: description_text_spec(t),
        executables: executables_text_spec(t),
    }
}

/// The texts of the details pane for `tool`.
pub fn tool_details(tool: &BlackArchTool) -> (r: ToolDetails)
    ensures
        r@ == details_spec(tool@),
{
    let description = match &tool.description {
        Some(d) => copy_string(d),
        None => if tool.version.is_none() {
            owned("Loading package details...")
        } else {
            owned("No description available.")
        },
    };
    let executables = if tool.executables.len() == 0 {
        owned("-")
    } else {
        join(&tool.executables, ", ")
    };
    ToolDetails {
        name: copy_string(&tool.name),
        package: copy_string(&tool.package_name),
        category: display_tool_category(tool),
        version: or_dash(&tool.version),
        executable: or_dash(&tool.executable),
        status: owned(status_label(&tool.status)),
        description,
        executables,
    }
}

/// The cells of the row of `t` in the tools table: a marker on the selected
/// row, then name, category, version and status.
pub open spec fn row_cells_spec(t: ToolView, selected: bool) -> Seq<Seq<char>> {
    seq![
        if selected { ">"@ } else { " "@ },
        t.name,
        tool_category_spec(t),
        or_dash_spec(t.version),
        status_label_spec(t.status),
    ]
}

/// The cells of the row of `tool` in the tools table.
pub fn tool_row_cells(tool: &BlackArchTool, selected: bool) -> (r: Vec<String>)
    ensures
        string_views(r@) == row_cells_spec(tool@, selected),
{
    let marker = if selected { owned(">") } else { owned(" ") };
    let r = vec![
        marker,
        copy_string(&tool.name),
        display_tool_category(tool),
        or_dash(&tool.version),
        owned(status_label(&tool.status)),
    ];
    assert(string_views(r@) =~= row_cells_spec(tool@, selected));
    r
}

/// The state of the repository shown in the header.
pub open spec fn repo_status_spec(a: AppView) -> Seq<char> {
    if a.error_message is Some {
        "error"@
    } else if a.loading {
        "loading"@
    } else {
        "synced"@
    }
}

/// The state of the repository shown in the header.
pub fn repo_status(app: &App) -> (r: &'static str)
    ensures
        r@ == repo_status_spec(app@),
{
    if app.error_message.is_some() {
        "error"
    } else if app.loading {
        "loading"
    } else {
        "synced"
    }
}

/// The message of the status bar: the error when there is one, else the
/// status, cut to 41 characters.
pub open spec fn activity_spec(a: AppView) -> Seq<char> {
    truncate_spec(
        match a.error_message {
            Some(e) => e,
            None => a.status_message,
        },
        41,
    )
}

/// The message of the status bar.
pub fn activity_text(app: &App) -> (r: String)
    ensures
        r@ == activity_spec(app@),
{
    match &app.error_message {
        Some(e) => truncate(e.as_str(), 41),
        None => truncate(app.status_message.as_str(), 41),
    }
}

/// The titles of the categories, tools and details panes; the focused one
/// is marked with `*` (the tools pane also while searching).
pub open spec fn pane_titles_spec(focus: FocusPane) -> (Seq<char>, Seq<char>, Seq<char>) {
    (
        if focus == FocusPane::Categories { "Categories *"@ } else { "Categories"@ },
        if focus == FocusPane::Tools || focus == FocusPane::Search { "Tools *"@ } else { "Tools"@ },
        if focus == FocusPane::Details { "Details *"@ } else { "Details"@ },
    )
}

/// The titles of the categories, tools and details panes.
pub fn pane_titles(focus: FocusPane) -> (r: (&'static str, &'static str, &'static str))
    ensures
        (r.0@, r.1@, r.2@) == pane_titles_spec(focus),
{
    let categories = match focus {
        FocusPane::Categories => "Categories *",
        _ => "Categories",
    };
    let tools = match focus {
        FocusPane::Tools | FocusPane::Search => "Tools *",
        _ => "Tools",
    };
    let details = match focus {
        FocusPane::Details => "Details *",
        _ => "Details",
    };
    (categories, tools, details)
}

} // verus!
