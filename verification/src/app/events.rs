//! What the interface does with the outcomes of background work: installed
//! and removed packages, loaded details, and the reports of the worker; and
//! when it asks for the selected tool's details.
use vstd::prelude::*;

use crate::actions::privilege::PrivilegeStatus;
use crate::app::filters::{apply_filters_spec, selected_tool_spec, tool_names, tool_position};
use crate::app::operations::following_id;
use crate::app::queue::{clamp, clamp_index};
use crate::app::records::{
    backend_data_spec, clear_executables_spec, describe_spec, mark_favorites_spec,
    recent_added_spec, status_spec, update_record_spec, with_status,
};
use crate::app::selection::{pending_clock, pending_spec};
use crate::app::{App, AppView};
use crate::models::{opt_view, tool_views, BlackArchTool, ToolStatus, ToolView};
use crate::user_state::store::recent_entry;
use crate::utils::clock::{decimal, millis_since, to_decimal};
use crate::utils::order::string_views;
use crate::utils::text::{concat2, concat3, owned};
use crate::utils::unique::{first_index_of, lemma_first_index_of_bounds};
use crate::worker::message::{opt_command_view, CommandView, WorkerCommand, WorkerEvent};

verus! {

/// `v` with each tool of `ts` recorded in turn.
pub open spec fn records_updated(v: AppView, ts: Seq<ToolView>) -> AppView
    decreases ts.len(),
{
    if ts.len() == 0 {
        v
    } else {
        let w = records_updated(v, ts.drop_last());
        update_record_spec(w, ts.last().package_name, ts.last())
    }
}

/// `q` without its first occurrence of `n`, if any.
pub open spec fn queue_without(q: Seq<Seq<char>>, n: Seq<char>) -> Seq<Seq<char>> {
    if q.contains(n) {
        q.remove(first_index_of(q, n))
    } else {
        q
    }
}

/// `v` with package `n` installed and out of the queue.
pub open spec fn installed_step(v: AppView, n: Seq<char>) -> AppView {
    let w = status_spec(v, n, ToolStatus::Installed);
    AppView { install_queue: queue_without(w.install_queue, n), ..w }
}

/// `v` with each package of `pkgs` installed and out of the queue, in turn.
pub open spec fn installed_all(v: AppView, pkgs: Seq<Seq<char>>) -> AppView
    decreases pkgs.len(),
{
    if pkgs.len() == 0 {
        v
    } else {
        installed_step(installed_all(v, pkgs.drop_last()), pkgs.last())
    }
}

/// The message after installing `pkgs` of which `refreshed` details could be read again.
pub open spec fn install_success_message(pkgs: nat, refreshed: nat) -> Seq<char> {
    if refreshed < pkgs {
        "Installed packages, but some details could not be refreshed"@
    } else {
        "Installed "@ + decimal(pkgs) + " package(s) successfully"@
    }
}

/// `v` after installing `pkgs` successfully, with the details `refreshed` read
/// again: the operation over, the records updated and installed, the packages
/// out of the queue (the queue hidden when empty), the tools listed again.
pub open spec fn batch_success_spec(v: AppView, pkgs: Seq<Seq<char>>, refreshed: Seq<ToolView>) -> AppView {
    let w0 = AppView {
        install_in_progress: false,
        current_install_request_id: None,
        error_message: None,
        ..v
    };
    let w2 = installed_all(records_updated(w0, refreshed), pkgs);
    let w3 = AppView {
        install_queue_selected_index: clamp_index(
            w2.install_queue_selected_index,
            w2.install_queue.len() as int,
        ),
        install_queue_modal_visible: if w2.install_queue.len() == 0 {
            false
        } else {
            w2.install_queue_modal_visible
        },
        ..w2
    };
    with_status(apply_filters_spec(w3), install_success_message(pkgs.len(), refreshed.len()))
}

/// `v` after an installation of `pkgs` failed with `error`.
pub open spec fn batch_failure_spec(v: AppView, pkgs: Seq<Seq<char>>, error: Seq<char>) -> AppView {
    AppView {
        install_in_progress: false,
        current_install_request_id: None,
        error_message: Some(error),
        status_message: if pkgs.len() == 1 {
            "Failed to install "@ + pkgs[0]
        } else {
            "Install failed"@
        },
        ..v
    }
}

/// The record kept after removing `n`: `t`, with the groups of the former
/// record where `t` names none.
pub open spec fn removed_record(v: AppView, n: Seq<char>, t: ToolView) -> ToolView {
    let k = first_index_of(tool_names(v.tools), n);
    if 0 <= k < v.tools.len() {
        ToolView {
            category: if t.category is None {
                v.tools[k].category
            } else {
                t.category
            },
            categories: if t.categories.len() == 0 {
                v.tools[k].categories
            } else {
                t.categories
            },
            ..t
        }
    } else {
        t
    }
}

/// `v` after removing `n` successfully, its details `t` read again (or not,
/// as `refreshed` says): the operation over, the record replaced, not
/// installed, without executables, and the tools listed again.
pub open spec fn remove_success_spec(v: AppView, n: Seq<char>, t: ToolView, refreshed: bool) -> AppView {
    let w0 = AppView {
        install_in_progress: false,
        current_remove_request_id: None,
        error_message: None,
        ..v
    };
    let w1 = update_record_spec(w0, n, removed_record(v, n, t));
    let w3 = clear_executables_spec(status_spec(w1, n, ToolStatus::NotInstalled), n);
    with_status(
        apply_filters_spec(w3),
        if refreshed {
            "Removed "@ + n + " successfully"@
        } else {
            "Removed package, but details could not be refreshed"@
        },
    )
}

/// `v` after a removal of `n` failed with `error`.
pub open spec fn remove_failure_spec(v: AppView, n: Seq<char>, error: Seq<char>) -> AppView {
    AppView {
        install_in_progress: false,
        current_remove_request_id: None,
        error_message: Some(error),
        status_message: "Failed to remove "@ + n,
        ..v
    }
}

/// `v` waiting for the details of `n` under request `id`.
pub open spec fn detail_loading_spec(v: AppView, n: Seq<char>, id: u64) -> AppView {
    AppView {
        current_detail_request_id: id,
        pending_detail_package: None,
        detail_loading: true,
        status_message: "Loading details for "@ + n + "..."@,
        ..v
    }
}

/// Whether a detail answer for `n` under request `id` is current: the latest
/// request, for the selected package.
pub open spec fn detail_is_current(v: AppView, n: Seq<char>, id: u64) -> bool {
    id == v.current_detail_request_id && (selected_tool_spec(v) matches Some(t) && t.package_name
        == n)
}

/// `v` after the details `t` of `n` arrived under request `id`; a stale answer changes nothing.
pub open spec fn detail_result_spec(v: AppView, n: Seq<char>, id: u64, t: ToolView) -> AppView {
    if detail_is_current(v, n, id) {
        update_record_spec(
            AppView { detail_loading: false, status_message: "Loaded details for "@ + n, ..v },
            n,
            t,
        )
    } else {
        v
    }
}

/// `v` after reading the details of `n` under request `id` failed with
/// `error`; a stale answer changes nothing.
pub open spec fn detail_error_spec(v: AppView, n: Seq<char>, id: u64, error: Seq<char>) -> AppView {
    if detail_is_current(v, n, id) {
        describe_spec(
            AppView {
                detail_loading: false,
                status_message: "Package info unavailable for "@ + n,
                ..v
            },
            n,
            "Package info unavailable\n"@ + error,
        )
    } else {
        v
    }
}

/// The optional tool as a list of zero or one tools.
pub open spec fn opt_list(t: Option<BlackArchTool>) -> Seq<ToolView> {
    match t {
        Some(t) => seq![t@],
        None => seq![],
    }
}

/// `v` after the loaded data `tools` and `categories` arrived: taken in,
/// marked by the favorites, listed, the loading over with `status` shown.
pub open spec fn data_loaded_spec(
    v: AppView,
    categories: Seq<Seq<char>>,
    tools: Seq<ToolView>,
    status: Seq<char>,
) -> AppView {
    let w = apply_filters_spec(mark_favorites_spec(backend_data_spec(v, categories, tools)));
    AppView { loading: false, error_message: None, status_message: status, ..w }
}

/// Whether `expected` is the request identifier `id`.
pub open spec fn is_request(expected: Option<u64>, id: u64) -> bool {
    expected == Some(id)
}

/// What a report of the worker does to `v`, before noting pending details
/// where the report loads data; `stamp` is when a launched tool was recorded.
pub open spec fn event_spec(v: AppView, e: WorkerEvent, stamp: Seq<char>) -> AppView {
    match e {
        WorkerEvent::InitialDataLoaded { tools, categories } => data_loaded_spec(
            v,
            string_views(categories@),
            tool_views(tools@),
            "Ready • "@ + decimal(tools@.len()) + " tools loaded"@,
        ),
        WorkerEvent::BasicCacheSynced { tools, categories } => data_loaded_spec(
            v,
            string_views(categories@),
            tool_views(tools@),
            "Cache synced successfully"@,
        ),
        WorkerEvent::ToolDetailLoaded { package_name, request_id, tool } => detail_result_spec(
            v,
            package_name@,
            request_id,
            tool@,
        ),
        WorkerEvent::ToolDetailFailed { package_name, request_id, error } => detail_error_spec(
            v,
            package_name@,
            request_id,
            error@,
        ),
        WorkerEvent::SearchCompleted { query, request_id, results } => with_status(
            v,
            "Search "@ + query@ + " ("@ + decimal(request_id as nat) + "): "@ + decimal(
                results@.len(),
            ) + " result(s)"@,
        ),
        WorkerEvent::CacheCleared { package_name, request_id } => with_status(
            v,
            "Cleared detail cache for "@ + package_name@ + " ("@ + decimal(request_id as nat)
                + ")"@,
        ),
        WorkerEvent::ToolRunStarted { package_name, executable, request_id } => apply_filters_spec(
            recent_added_spec(
                AppView { status_message: "Launched "@ + executable@, error_message: None, ..v },
                recent_entry(package_name@, Some(executable@), stamp),
            ),
        ),
        WorkerEvent::ToolRunFailed { package_name, error, request_id } => AppView {
            status_message: "Failed to launch "@ + package_name@,
            error_message: Some(error@),
            ..v
        },
        WorkerEvent::PackageInstallStarted { package_name, request_id } => if is_request(
            v.current_install_request_id,
            request_id,
        ) {
            with_status(v, "Installing "@ + package_name@ + "..."@)
        } else {
            v
        },
        WorkerEvent::PackagesInstallStarted { package_names, request_id } => if is_request(
            v.current_install_request_id,
            request_id,
        ) {
            with_status(v, "Installing "@ + decimal(package_names@.len()) + " package(s)..."@)
        } else {
            v
        },
        WorkerEvent::PackageInstallFinished { package_name, request_id, refreshed_tool } => if is_request(
            v.current_install_request_id,
            request_id,
        ) {
            batch_success_spec(v, seq![package_name@], opt_list(refreshed_tool))
        } else {
            v
        },
        WorkerEvent::PackagesInstallFinished { package_names, request_id, refreshed_tools } =>
            if is_request(v.current_install_request_id, request_id) {
            batch_success_spec(v, string_views(package_names@), tool_views(refreshed_tools@))
        } else {
            v
        },
        WorkerEvent::PackageInstallFailed { package_name, request_id, error } => if is_request(
            v.current_install_request_id,
            request_id,
        ) {
            batch_failure_spec(v, seq![package_name@], error@)
        } else {
            v
        },
        WorkerEvent::PackagesInstallFailed { package_names, request_id, error } => if is_request(
            v.current_install_request_id,
            request_id,
        ) {
            batch_failure_spec(v, string_views(package_names@), error@)
        } else {
            v
        },
        WorkerEvent::PackageRemoveStarted { package_name, request_id } => if is_request(
            v.current_remove_request_id,
            request_id,
        ) {
            with_status(v, "Removing "@ + package_name@ + "..."@)
        } else {
            v
        },
        WorkerEvent::PackageRemoveFinished { package_name, request_id, refreshed_tool, refreshed } =>
            if is_request(v.current_remove_request_id, request_id) {
            remove_success_spec(v, package_name@, refreshed_tool@, refreshed)
        } else {
            v
        },
        WorkerEvent::PackageRemoveFailed { package_name, request_id, error } => if is_request(
            v.current_remove_request_id,
            request_id,
        ) {
            remove_failure_spec(v, package_name@, error@)
        } else {
            v
        },
        WorkerEvent::TaskFailed { label, error } => AppView {
            loading: false,
            detail_loading: false,
            error_message: Some(error@),
            status_message: label@ + " failed"@,
            ..v
        },
    }
}

/// Whether report `e` loads data, after which the selected tool's details are noted as pending.
pub open spec fn loads_data(e: WorkerEvent) -> bool {
    e is InitialDataLoaded || e is BasicCacheSynced
}

/// What a report of the worker does to `v`, with pending details noted where it loads data.
pub open spec fn event_outcome(v: AppView, e: WorkerEvent, stamp: Seq<char>) -> AppView {
    if loads_data(e) {
        pending_spec(event_spec(v, e, stamp))
    } else {
        event_spec(v, e, stamp)
    }
}

/// What reloading the selected tool's details does: without a selection it
/// only says so; else it starts loading them under a new request and asks the
/// worker for them.
pub open spec fn refresh_holds(v: AppView, after: AppView, r: Option<CommandView>) -> bool {
    match selected_tool_spec(v) {
        None => r is None && after == with_status(v, "No tool selected"@),
        Some(t) => {
            let id = v.next_request_id;
            r == Some(CommandView::RefreshToolDetail { package_name: t.package_name, request_id: id })
                && after == detail_loading_spec(
                AppView { next_request_id: following_id(id), ..v },
                t.package_name,
                id,
            )
        },
    }
}

/// What a check for settled selection does, `waited` milliseconds after the
/// last selection change `last`: when a package's details are pending and the
/// selection has not moved for the debounce time, it starts loading them under
/// a new request, forgets the change, and asks the worker for them; else it
/// changes nothing.
pub open spec fn debounce_holds(
    v: AppView,
    last: Option<std::time::Instant>,
    waited: u64,
    after: AppView,
    after_last: Option<std::time::Instant>,
    r: Option<CommandView>,
) -> bool {
    match (v.pending_detail_package, last) {
        (Some(n), Some(_)) => if waited < v.detail_debounce_ms {
            r is None && after == v && after_last == last
        } else {
            let id = v.next_request_id;
            r == Some(CommandView::LoadToolDetail { package_name: n, request_id: id })
                && after == detail_loading_spec(
                AppView { next_request_id: following_id(id), ..v },
                n,
                id,
            ) && after_last is None
        },
        _ => r is None && after == v && after_last == last,
    }
}

impl App {
    /// Records each tool of `refreshed_tools` in turn.
    fn record_refreshed(&mut self, refreshed_tools: &Vec<BlackArchTool>)
        ensures
            final(self)@ == records_updated(old(self)@, tool_views(refreshed_tools@)),
            final(self)@.install_queue == old(self)@.install_queue,
            final(self).last_selection_change == old(self).last_selection_change,
    {
        let ghost w0 = self@;
        let ghost tv = tool_views(refreshed_tools@);
        let mut i: usize = 0;
        assert(tv.take(0) =~= seq![]);
        while i < refreshed_tools.len()
            invariant
                i <= refreshed_tools@.len(),
                tv == tool_views(refreshed_tools@),
                w0 == old(self)@,
                self@ == records_updated(w0, tv.take(i as int)),
                self@.install_queue == old(self)@.install_queue,
                self.last_selection_change == old(self).last_selection_change,
            decreases refreshed_tools@.len() - i,
        {
            assert(tv.take(i + 1).drop_last() =~= tv.take(i as int));
            assert(tv.take(i + 1).last() == refreshed_tools@[i as int]@);
            let tool = refreshed_tools[i].duplicate();
            let name = tool.package_name.clone();
            self.update_tool_record(name.as_str(), tool);
            i += 1;
        }
        assert(tv.take(refreshed_tools@.len() as int) =~= tv);
    }

    /// Marks each package of `packages` installed and takes it out of the queue, in turn.
    fn mark_installed(&mut self, packages: &[String])
        ensures
            final(self)@ == installed_all(old(self)@, string_views(packages@)),
            final(self).last_selection_change == old(self).last_selection_change,
            old(self).install_queue.wf() ==> final(self).install_queue.wf(),
    {
        let ghost w1 = self@;
        let ghost pkgs = string_views(packages@);
        let mut j: usize = 0;
        assert(pkgs.take(0) =~= seq![]);
        while j < packages.len()
            invariant
                j <= packages@.len(),
                pkgs == string_views(packages@),
                w1 == old(self)@,
                self@ == installed_all(w1, pkgs.take(j as int)),
                self.last_selection_change == old(self).last_selection_change,
                old(self).install_queue.wf() ==> self.install_queue.wf(),
            decreases packages@.len() - j,
        {
            assert(pkgs.take(j + 1).drop_last() =~= pkgs.take(j as int));
            assert(pkgs.take(j + 1).last() == packages@[j as int]@);
            self.update_tool_status(packages[j].as_str(), ToolStatus::Installed);
            self.install_queue.remove(packages[j].as_str());
            j += 1;
        }
        assert(pkgs.take(packages@.len() as int) =~= pkgs);
    }

    /// Records a successful installation of `packages`, with the details
    /// `refreshed_tools` read again.
    pub fn apply_batch_install_success(&mut self, packages: &[String], refreshed_tools: Vec<BlackArchTool>)
        ensures
            final(self)@ == batch_success_spec(
                old(self)@,
                string_views(packages@),
                tool_views(refreshed_tools@),
            ),
            final(self).last_selection_change == old(self).last_selection_change,
            old(self).install_queue.wf() ==> final(self).install_queue.wf(),
    {
        self.install_in_progress = false;
        self.current_install_request_id = None;
        self.error_message = None;
        self.record_refreshed(&refreshed_tools);
        self.mark_installed(packages);
        self.install_queue_selected_index = clamp(
            self.install_queue_selected_index,
            self.install_queue.len(),
        );
        if self.install_queue.is_empty() {
            self.install_queue_modal_visible = false;
        }
        self.apply_filters();
        self.status_message = if refreshed_tools.len() < packages.len() {
            owned("Installed packages, but some details could not be refreshed")
        } else {
            let count = to_decimal(packages.len() as u64);
            concat3("Installed ", count.as_str(), " package(s) successfully")
        };
    }

    /// Records a successful installation of `package_name`, with its details
    /// read again if they could be.
    pub fn apply_install_success(&mut self, package_name: &str, refreshed_tool: Option<BlackArchTool>)
        ensures
            final(self)@ == batch_success_spec(old(self)@, seq![package_name@], opt_list(refreshed_tool)),
            final(self).last_selection_change == old(self).last_selection_change,
            old(self).install_queue.wf() ==> final(self).install_queue.wf(),
    {
        let packages = vec![owned(package_name)];
        assert(string_views(packages@) =~= seq![package_name@]);
        let refreshed: Vec<BlackArchTool> = match refreshed_tool {
            Some(tool) => vec![tool],
            None => Vec::new(),
        };
        assert(tool_views(refreshed@) =~= opt_list(refreshed_tool));
        self.apply_batch_install_success(packages.as_slice(), refreshed);
    }

    /// Records a failed installation of `packages`.
    pub fn apply_batch_install_failure(&mut self, packages: &[String], error: String)
        ensures
            final(self)@ == batch_failure_spec(old(self)@, string_views(packages@), error@),
            final(self).last_selection_change == old(self).last_selection_change,
            final(self).install_queue == old(self).install_queue,
    {
        self.install_in_progress = false;
        self.current_install_request_id = None;
        self.error_message = Some(error);
        self.status_message = if packages.len() == 1 {
            concat2("Failed to install ", packages[0].as_str())
        } else {
            owned("Install failed")
        };
    }

    /// Records a failed installation of `package_name`.
    pub fn apply_install_failure(&mut self, package_name: &str, error: String)
        ensures
            final(self)@ == batch_failure_spec(old(self)@, seq![package_name@], error@),
            final(self).last_selection_change == old(self).last_selection_change,
            final(self).install_queue == old(self).install_queue,
    {
        let packages = vec![owned(package_name)];
        assert(string_views(packages@) =~= seq![package_name@]);
        self.apply_batch_install_failure(packages.as_slice(), error);
    }

    /// Records a successful removal of `package_name`, with its details read
    /// again (or not, as `refreshed` says).
    pub fn apply_remove_success(&mut self, package_name: &str, refreshed_tool: BlackArchTool, refreshed: bool)
        ensures
            final(self)@ == remove_success_spec(old(self)@, package_name@, refreshed_tool@, refreshed),
            final(self).last_selection_change == old(self).last_selection_change,
    {
        let ghost v = self@;
        let ghost t0 = refreshed_tool@;
        let mut refreshed_tool = refreshed_tool;
        self.install_in_progress = false;
        self.current_remove_request_id = None;
        self.error_message = None;
        let k = tool_position(&self.tools, package_name);
        proof {
            lemma_first_index_of_bounds(tool_names(v.tools), package_name@);
        }
        if k < self.tools.len() {
            if refreshed_tool.category.is_none() {
                refreshed_tool.category = crate::models::copy_opt(&self.tools[k].category);
            }
            if refreshed_tool.categories.len() == 0 {
                refreshed_tool.categories = crate::models::copy_strings(&self.tools[k].categories);
            }
        }
        assert(refreshed_tool@ == removed_record(v, package_name@, t0));
        self.update_tool_record(package_name, refreshed_tool);
        self.update_tool_status(package_name, ToolStatus::NotInstalled);
        self.clear_tool_executables(package_name);
        self.apply_filters();
        self.status_message = if refreshed {
            concat3("Removed ", package_name, " successfully")
        } else {
            owned("Removed package, but details could not be refreshed")
        };
    }
    /// Records a failed removal of `package_name`.
    pub fn apply_remove_failure(&mut self, package_name: &str, error: String)
        ensures
            final(self)@ == remove_failure_spec(old(self)@, package_name@, error@),
            final(self).last_selection_change == old(self).last_selection_change,
    {
        self.install_in_progress = false;
        self.current_remove_request_id = None;
        self.error_message = Some(error);
        self.status_message = concat2("Failed to remove ", package_name);
    }

    /// Starts waiting for the details of `package_name` under request `request_id`.
    pub fn start_detail_loading(&mut self, package_name: String, request_id: u64)
        ensures
            final(self)@ == detail_loading_spec(old(self)@, package_name@, request_id),
            final(self).last_selection_change is None,
    {
        self.current_detail_request_id = request_id;
        self.pending_detail_package = None;
        self.last_selection_change = None;
        self.detail_loading = true;
        self.status_message = concat3("Loading details for ", package_name.as_str(), "...");
    }

    /// Takes in the details `tool` of `package_name` that request
    /// `request_id` read, unless the answer is stale.
    pub fn apply_tool_detail_result(&mut self, package_name: &str, request_id: u64, tool: BlackArchTool)
        ensures
            final(self)@ == detail_result_spec(old(self)@, package_name@, request_id, tool@),
            final(self).last_selection_change == old(self).last_selection_change,
    {
        if request_id != self.current_detail_request_id || !self.is_selected_package(package_name) {
            return;
        }
        self.detail_loading = false;
        self.status_message = concat2("Loaded details for ", package_name);
        self.update_tool_record(package_name, tool);
    }

    /// Marks the selected tool's details as unavailable after request
    /// `request_id` failed with `error`, unless the answer is stale.
    pub fn apply_tool_detail_error(&mut self, package_name: &str, request_id: u64, error: String)
        ensures
            final(self)@ == detail_error_spec(old(self)@, package_name@, request_id, error@),
            final(self).last_selection_change == old(self).last_selection_change,
    {
        if request_id != self.current_detail_request_id || !self.is_selected_package(package_name) {
            return;
        }
        self.detail_loading = false;
        self.status_message = concat2("Package info unavailable for ", package_name);
        let description = concat2("Package info unavailable\n", error.as_str());
        self.update_selected_description(package_name, description);
    }

    /// Takes in loaded data and notes the selected tool's details as pending.
    fn take_loaded_data(&mut self, categories: Vec<String>, tools: Vec<BlackArchTool>, status: String)
        ensures
            final(self)@ == pending_spec(
                data_loaded_spec(old(self)@, string_views(categories@), tool_views(tools@), status@),
            ),
            pending_clock(
                data_loaded_spec(old(self)@, string_views(categories@), tool_views(tools@), status@),
                old(self).last_selection_change,
                final(self).last_selection_change,
            ),
    {
        self.set_backend_data(categories, tools);
        self.apply_user_state_to_tools();
        self.apply_filters();
        self.loading = false;
        self.error_message = None;
        self.status_message = status;
        self.mark_selected_tool_pending_detail();
    }

    /// Takes in a report of the background worker.
    pub fn handle_worker_event(&mut self, event: WorkerEvent)
        ensures
            exists|secs: nat| final(self)@ == #[trigger] event_outcome(old(self)@, event, decimal(secs)),
            loads_data(event) ==> pending_clock(
                event_spec(old(self)@, event, seq![]),
                old(self).last_selection_change,
                final(self).last_selection_change,
            ),
            !loads_data(event) ==> final(self).last_selection_change == old(self).last_selection_change,
    {
        let ghost e = event;
        let ghost mut secs: nat = 0;
        match event {
            WorkerEvent::InitialDataLoaded { tools, categories } => {
                let count = to_decimal(tools.len() as u64);
                let status = concat3("Ready • ", count.as_str(), " tools loaded");
                self.take_loaded_data(categories, tools, status);
            },
            WorkerEvent::BasicCacheSynced { tools, categories } => {
                self.take_loaded_data(categories, tools, owned("Cache synced successfully"));
            },
            WorkerEvent::ToolDetailLoaded { package_name, request_id, tool } => {
                self.apply_tool_detail_result(package_name.as_str(), request_id, tool);
            },
            WorkerEvent::ToolDetailFailed { package_name, request_id, error } => {
                self.apply_tool_detail_error(package_name.as_str(), request_id, error);
            },
            WorkerEvent::SearchCompleted { query, request_id, results } => {
                let mut m = concat2("Search ", query.as_str());
                m.append(" (");
                m.append(to_decimal(request_id).as_str());
                m.append("): ");
                m.append(to_decimal(results.len() as u64).as_str());
                m.append(" result(s)");
                self.status_message = m;
            },
            WorkerEvent::CacheCleared { package_name, request_id } => {
                let mut m = concat2("Cleared detail cache for ", package_name.as_str());
                m.append(" (");
                m.append(to_decimal(request_id).as_str());
                m.append(")");
                self.status_message = m;
            },
            WorkerEvent::ToolRunStarted { package_name, executable, request_id } => {
                self.status_message = concat2("Launched ", executable.as_str());
                self.error_message = None;
                let ghost pre = self@;
                let ghost entry_name = package_name@;
                let ghost entry_exe = executable@;
                self.add_recent_in_memory(package_name, Some(executable));
                proof {
                    secs = choose|n: nat|
                        self@ == recent_added_spec(
                            pre,
                            #[trigger] recent_entry(entry_name, Some(entry_exe), decimal(n)),
                        );
                }
                self.apply_filters();
            },
            WorkerEvent::ToolRunFailed { package_name, error, request_id } => {
                self.status_message = concat2("Failed to launch ", package_name.as_str());
                self.error_message = Some(error);
            },
            WorkerEvent::PackageInstallStarted { package_name, request_id } => {
                if self.current_install_request_id == Some(request_id) {
                    self.status_message = concat3("Installing ", package_name.as_str(), "...");
                }
            },
            WorkerEvent::PackagesInstallStarted { package_names, request_id } => {
                if self.current_install_request_id == Some(request_id) {
                    let count = to_decimal(package_names.len() as u64);
                    self.status_message = concat3("Installing ", count.as_str(), " package(s)...");
                }
            },
            WorkerEvent::PackageInstallFinished { package_name, request_id, refreshed_tool } => {
                if self.current_install_request_id == Some(request_id) {
                    self.apply_install_success(package_name.as_str(), refreshed_tool);
                }
            },
            WorkerEvent::PackagesInstallFinished { package_names, request_id, refreshed_tools } => {
                if self.current_install_request_id == Some(request_id) {
                    self.apply_batch_install_success(package_names.as_slice(), refreshed_tools);
                }
            },
            WorkerEvent::PackageInstallFailed { package_name, request_id, error } => {
                if self.current_install_request_id == Some(request_id) {
                    self.apply_install_failure(package_name.as_str(), error);
                }
            },
            WorkerEvent::PackagesInstallFailed { package_names, request_id, error } => {
                if self.current_install_request_id == Some(request_id) {
                    self.apply_batch_install_failure(package_names.as_slice(), error);
                }
            },
            WorkerEvent::PackageRemoveStarted { package_name, request_id } => {
                if self.current_remove_request_id == Some(request_id) {
                    self.status_message = concat3("Removing ", package_name.as_str(), "...");
                }
            },
            WorkerEvent::PackageRemoveFinished { package_name, request_id, refreshed_tool, refreshed } => {
                if self.current_remove_request_id == Some(request_id) {
                    self.apply_remove_success(package_name.as_str(), refreshed_tool, refreshed);
                }
            },
            WorkerEvent::PackageRemoveFailed { package_name, request_id, error } => {
                if self.current_remove_request_id == Some(request_id) {
                    self.apply_remove_failure(package_name.as_str(), error);
                }
            },
            WorkerEvent::TaskFailed { label, error } => {
                self.loading = false;
                self.detail_loading = false;
                self.error_message = Some(error);
                self.status_message = concat2(label.as_str(), " failed");
            },
        }
        assert(self@ == event_outcome(old(self)@, e, decimal(secs)));
    }

    /// Given the milliseconds `waited` since the last selection change: when a
    /// package's details are pending and the selection has settled, starts
    /// loading them and returns the request for the worker.
    pub fn dispatch_debounced_after(&mut self, waited: u64) -> (r: Option<WorkerCommand>)
        ensures
            debounce_holds(
                old(self)@,
                old(self).last_selection_change,
                waited,
                final(self)@,
                final(self).last_selection_change,
                opt_command_view(r),
            ),
    {
        let package_name = match &self.pending_detail_package {
            Some(name) => name.clone(),
            None => {
                return None;
            },
        };
        if self.last_selection_change.is_none() {
            return None;
        }
        if waited < self.detail_debounce_ms {
            return None;
        }
        let request_id = self.next_request_id();
        self.start_detail_loading(package_name.clone(), request_id);
        Some(WorkerCommand::LoadToolDetail { package_name, request_id })
    }

    /// Reads on the monotonic clock how long ago the selection last changed,
    /// then does what [`App::dispatch_debounced_after`] does after that time.
    pub fn maybe_dispatch_debounced_tasks(&mut self) -> (r: Option<WorkerCommand>)
        ensures
            exists|waited: u64|
                #[trigger] debounce_holds(
                    old(self)@,
                    old(self).last_selection_change,
                    waited,
                    final(self)@,
                    final(self).last_selection_change,
                    opt_command_view(r),
                ),
    {
        let waited = match &self.last_selection_change {
            Some(t) => millis_since(t),
            None => 0,
        };
        self.dispatch_debounced_after(waited)
    }

    /// Starts reloading the selected tool's details, returning the request for the worker.
    pub fn refresh_selected_tool_detail(&mut self) -> (r: Option<WorkerCommand>)
        ensures
            refresh_holds(old(self)@, final(self)@, opt_command_view(r)),
            selected_tool_spec(old(self)@) is None ==> final(self).last_selection_change == old(
                self,
            ).last_selection_change,
            selected_tool_spec(old(self)@) is Some ==> final(self).last_selection_change is None,
    {
        let package_name = match self.selected_tool() {
            Some(tool) => tool.package_name.clone(),
            None => {
                self.status_message = owned("No tool selected");
                return None;
            },
        };
        let request_id = self.next_request_id();
        self.start_detail_loading(package_name.clone(), request_id);
        Some(WorkerCommand::RefreshToolDetail { package_name, request_id })
    }

    /// Starts the first load, with the result of a fresh privilege check;
    /// returns the request for the worker.
    pub fn begin_initial_load(&mut self, privilege_status: PrivilegeStatus) -> (r: WorkerCommand)
        ensures
            r@ == CommandView::LoadInitialData,
            final(self)@ == (AppView {
                loading: true,
                status_message: "Loading BlackArch tools..."@,
                error_message: None,
                privilege_status: Some(privilege_status@),
                ..old(self)@
            }),
            final(self).last_selection_change == old(self).last_selection_change,
    {
        self.loading = true;
        self.status_message = owned("Loading BlackArch tools...");
        self.error_message = None;
        self.refresh_privilege_status(privilege_status);
        WorkerCommand::LoadInitialData
    }

    /// Starts rebuilding the cache; returns the request for the worker.
    pub fn begin_sync_cache(&mut self) -> (r: WorkerCommand)
        ensures
            r@ == CommandView::SyncBasicCache,
            final(self)@ == (AppView {
                loading: true,
                status_message: "Syncing cache..."@,
                error_message: None,
                ..old(self)@
            }),
            final(self).last_selection_change == old(self).last_selection_change,
    {
        self.loading = true;
        self.status_message = owned("Syncing cache...");
        self.error_message = None;
        WorkerCommand::SyncBasicCache
    }
}

} // verus!
