//! What holds of the interface across its changes: the listed tools match the
//! choice, the selection stays in range and on its package, one package
//! operation runs at a time, and stale answers are ignored.
use vstd::prelude::*;

use crate::app::events::{
    batch_success_spec, detail_error_spec, detail_loading_spec, detail_result_spec, installed_all,
    installed_step, queue_without, records_updated, remove_success_spec,
};
use crate::app::filters::{
    apply_filters_spec, by_rank, filtered_spec, kept_selection, matches_category_spec,
    matches_search_spec, matching_tools, recent_names, selected_category_spec, selected_tool_spec,
    tool_names, with_rank,
};
use crate::app::operations::{
    busy_message, confirm_holds, first_install_failure, following_id, start_install_holds,
    start_remove_holds, with_privilege,
};
use crate::app::queue::{install_check, remove_check};
use crate::app::records::with_status;
use crate::actions::privilege::PrivilegeView;
use crate::app::AppView;
use crate::error::AppErrorView;
use crate::models::{RecentView, ToolStatus, ToolView};
use crate::utils::text::lowercase;
use crate::utils::unique::{first_index_of, lemma_first_index_of_bounds};
use crate::utils::validate::valid_package_name;
use crate::worker::message::CommandView;

verus! {

/// Every tool of `matching_tools` is one of `ts` and matches the choice and the query.
proof fn lemma_matching_tools(ts: Seq<ToolView>, sel: Seq<char>, q: Seq<char>, recent: Seq<RecentView>)
    ensures
        forall|i: int|
            0 <= i < matching_tools(ts, sel, q, recent).len() ==> {
                let t = #[trigger] matching_tools(ts, sel, q, recent)[i];
                ts.contains(t) && matches_category_spec(t, sel, recent) && matches_search_spec(t, q)
            },
    decreases ts.len(),
{
    if ts.len() > 0 {
        let p = ts.drop_last();
        lemma_matching_tools(p, sel, q, recent);
        let prev = matching_tools(p, sel, q, recent);
        let m = matching_tools(ts, sel, q, recent);
        assert forall|i: int| 0 <= i < m.len() implies ts.contains(#[trigger] m[i])
            && matches_category_spec(m[i], sel, recent) && matches_search_spec(m[i], q) by {
            if i < prev.len() {
                assert(m[i] == prev[i]);
                let t = prev[i];
                assert(p.contains(t));
                let j = choose|j: int| 0 <= j < p.len() && p[j] == t;
                assert(ts[j] == t);
            } else {
                assert(m[i] == ts.last());
                assert(ts[ts.len() - 1] == ts.last());
            }
        }
    }
}

/// Every tool of `with_rank` is one of `ts` whose package stands at position `k`.
proof fn lemma_with_rank(ts: Seq<ToolView>, names: Seq<Seq<char>>, k: int)
    ensures
        forall|i: int|
            0 <= i < with_rank(ts, names, k).len() ==> ts.contains(
                #[trigger] with_rank(ts, names, k)[i],
            ) && first_index_of(names, with_rank(ts, names, k)[i].package_name) == k,
    decreases ts.len(),
{
    if ts.len() > 0 {
        let p = ts.drop_last();
        lemma_with_rank(p, names, k);
        let prev = with_rank(p, names, k);
        let w = with_rank(ts, names, k);
        assert forall|i: int| 0 <= i < w.len() implies ts.contains(#[trigger] w[i])
            && first_index_of(names, w[i].package_name) == k by {
            if i < prev.len() {
                assert(w[i] == prev[i]);
                let j = choose|j: int| 0 <= j < p.len() && p[j] == prev[i];
                assert(ts[j] == prev[i]);
            } else {
                assert(ts[ts.len() - 1] == ts.last());
            }
        }
    }
}

/// Every tool of `by_rank` is one of `ts`, whose package stands below position `n`.
proof fn lemma_by_rank(ts: Seq<ToolView>, names: Seq<Seq<char>>, n: nat)
    ensures
        forall|i: int|
            0 <= i < by_rank(ts, names, n).len() ==> ts.contains(#[trigger] by_rank(ts, names, n)[i])
                && 0 <= first_index_of(names, by_rank(ts, names, n)[i].package_name) < n,
    decreases n,
{
    if n > 0 {
        lemma_by_rank(ts, names, (n - 1) as nat);
        lemma_with_rank(ts, names, n - 1);
        let a = by_rank(ts, names, (n - 1) as nat);
        let b = with_rank(ts, names, n - 1);
        let r = by_rank(ts, names, n);
        assert forall|i: int| 0 <= i < r.len() implies ts.contains(#[trigger] r[i]) && 0
            <= first_index_of(names, r[i].package_name) < n by {
            if i < a.len() {
                assert(r[i] == a[i]);
            } else {
                assert(r[i] == b[i - a.len()]);
            }
        }
    }
}

/// The tools listed for the recent category come in order of use: a tool whose
/// package was run more recently comes first.
proof fn lemma_by_rank_ordered(ts: Seq<ToolView>, names: Seq<Seq<char>>, n: nat)
    ensures
        forall|i: int, j: int|
            0 <= i < j < by_rank(ts, names, n).len() ==> first_index_of(
                names,
                #[trigger] by_rank(ts, names, n)[i].package_name,
            ) <= first_index_of(names, #[trigger] by_rank(ts, names, n)[j].package_name),
    decreases n,
{
    if n > 0 {
        lemma_by_rank_ordered(ts, names, (n - 1) as nat);
        lemma_by_rank(ts, names, (n - 1) as nat);
        lemma_with_rank(ts, names, n - 1);
        let a = by_rank(ts, names, (n - 1) as nat);
        let b = with_rank(ts, names, n - 1);
        let r = by_rank(ts, names, n);
        assert forall|i: int, j: int| 0 <= i < j < r.len() implies first_index_of(
            names,
            #[trigger] r[i].package_name,
        ) <= first_index_of(names, #[trigger] r[j].package_name) by {
            if j < a.len() {
                assert(r[i] == a[i] && r[j] == a[j]);
            } else if i < a.len() {
                assert(r[i] == a[i] && r[j] == b[j - a.len()]);
            } else {
                assert(r[i] == b[i - a.len()] && r[j] == b[j - a.len()]);
            }
        }
    }
}

/// Every listed tool is one of the tools, belongs to the chosen category and
/// matches the search; under "Recent" the tools come most recently run first.
pub proof fn law_listed_tools_match(v: AppView)
    ensures
        forall|i: int|
            0 <= i < filtered_spec(v).len() ==> {
                let t = #[trigger] filtered_spec(v)[i];
                &&& v.tools.contains(t)
                &&& matches_category_spec(t, selected_category_spec(v), v.user_state.recent)
                &&& matches_search_spec(t, lowercase(v.search_query))
            },
        selected_category_spec(v) == "Recent"@ ==> forall|i: int, j: int|
            0 <= i < j < filtered_spec(v).len() ==> first_index_of(
                recent_names(v.user_state.recent),
                #[trigger] filtered_spec(v)[i].package_name,
            ) <= first_index_of(
                recent_names(v.user_state.recent),
                #[trigger] filtered_spec(v)[j].package_name,
            ),
{
    let sel = selected_category_spec(v);
    let q = lowercase(v.search_query);
    let recent = v.user_state.recent;
    let found = matching_tools(v.tools, sel, q, recent);
    lemma_matching_tools(v.tools, sel, q, recent);
    if sel == "Recent"@ {
        let names = recent_names(recent);
        lemma_by_rank(found, names, recent.len());
        lemma_by_rank_ordered(found, names, recent.len());
        let f = filtered_spec(v);
        assert forall|i: int| 0 <= i < f.len() implies ({
            let t = #[trigger] f[i];
            &&& v.tools.contains(t)
            &&& matches_category_spec(t, sel, recent)
            &&& matches_search_spec(t, q)
        }) by {
            let t = f[i];
            assert(found.contains(t));
            let j = choose|j: int| 0 <= j < found.len() && found[j] == t;
            assert(found[j] == t);
        }
    }
}

/// After the tools are listed again, the selection is in range (zero for an
/// empty list), and stays on the selected package when that is still listed.
pub proof fn law_selection_in_range(v: AppView)
    ensures
        ({
            let f = filtered_spec(v);
            let k = kept_selection(v, f);
            &&& f.len() == 0 ==> k == 0
            &&& f.len() > 0 ==> 0 <= k < f.len()
            &&& selected_tool_spec(v) matches Some(t) ==> (tool_names(f).contains(t.package_name)
                ==> f[k].package_name == t.package_name)
        }),
{
    let f = filtered_spec(v);
    if let Some(t) = selected_tool_spec(v) {
        lemma_first_index_of_bounds(tool_names(f), t.package_name);
    }
}

/// While a package operation runs, no other starts: once an installation or a
/// removal has been requested, a further request to install or remove returns
/// no request and only says that another operation is in progress.
pub proof fn law_one_operation_at_a_time(
    v: AppView,
    after: AppView,
    request: Result<Option<CommandView>, AppErrorView>,
    packages: Seq<Seq<char>>,
    name: Seq<char>,
    p: PrivilegeView,
    next_p: PrivilegeView,
    next: AppView,
    next_request: Result<Option<CommandView>, AppErrorView>,
)
    requires
        request matches Ok(Some(_)),
        start_install_holds(v, packages, p, after, request) || start_remove_holds(
            v,
            name,
            p,
            after,
            request,
        ),
    ensures
        after.install_in_progress,
        start_install_holds(after, packages, next_p, next, next_request) ==> next_request == Ok::<
            Option<CommandView>,
            AppErrorView,
        >(None) && next == with_status(after, busy_message()),
        start_remove_holds(after, name, next_p, next, next_request) ==> next_request == Ok::<
            Option<CommandView>,
            AppErrorView,
        >(None) && next == with_status(after, busy_message()),
{
}

/// An answer about a package's details that does not carry the latest request
/// identifier changes nothing; after a new detail request, only its answer counts.
pub proof fn law_stale_answers_ignored(
    v: AppView,
    name: Seq<char>,
    request_id: u64,
    answer_id: u64,
    tool: ToolView,
    error: Seq<char>,
)
    requires
        answer_id != request_id,
    ensures
        detail_result_spec(detail_loading_spec(v, name, request_id), name, answer_id, tool)
            == detail_loading_spec(v, name, request_id),
        detail_error_spec(detail_loading_spec(v, name, request_id), name, answer_id, error)
            == detail_loading_spec(v, name, request_id),
{
}

/// Each new request identifier is larger than the one before, until the largest is reached.
pub proof fn law_request_ids_increase(id: u64)
    ensures
        id < u64::MAX ==> following_id(id) > id,
        following_id(id) >= id,
{
}

/// Recording refreshed tools leaves the queue as it was.
proof fn lemma_records_keep_queue(v: AppView, ts: Seq<ToolView>)
    ensures
        records_updated(v, ts).install_queue == v.install_queue,
    decreases ts.len(),
{
    if ts.len() > 0 {
        lemma_records_keep_queue(v, ts.drop_last());
    }
}

/// Taking installed packages out of a queue without duplicates keeps it without
/// duplicates, adds nothing, and leaves none of those packages in it.
proof fn lemma_installed_leave_queue(v: AppView, pkgs: Seq<Seq<char>>)
    requires
        v.install_queue.no_duplicates(),
    ensures
        installed_all(v, pkgs).install_queue.no_duplicates(),
        forall|x: Seq<char>| #[trigger] installed_all(v, pkgs).install_queue.contains(x)
            ==> v.install_queue.contains(x),
        forall|i: int|
            0 <= i < pkgs.len() ==> !installed_all(v, pkgs).install_queue.contains(#[trigger] pkgs[i]),
    decreases pkgs.len(),
{
    if pkgs.len() > 0 {
        let p = pkgs.drop_last();
        let n = pkgs.last();
        lemma_installed_leave_queue(v, p);
        let w = installed_all(v, p);
        let q = w.install_queue;
        let r = installed_all(v, pkgs).install_queue;
        assert(r == queue_without(q, n));
        if q.contains(n) {
            let k = first_index_of(q, n);
            lemma_first_index_of_bounds(q, n);
            assert forall|x: Seq<char>| #[trigger] r.contains(x) implies q.contains(x) && x != n by {
                let i = choose|i: int| 0 <= i < r.len() && r[i] == x;
                let ii = if i < k {
                    i
                } else {
                    i + 1
                };
                assert(r[i] == q[ii]);
                assert(ii != k);
            }
            assert(r.no_duplicates()) by {
                assert forall|i: int, j: int| 0 <= i < r.len() && 0 <= j < r.len() && i != j implies r[i]
                    != r[j] by {
                    let ii = if i < k {
                        i
                    } else {
                        i + 1
                    };
                    let jj = if j < k {
                        j
                    } else {
                        j + 1
                    };
                    assert(r[i] == q[ii] && r[j] == q[jj]);
                }
            }
        }
        assert forall|i: int| 0 <= i < pkgs.len() implies !r.contains(#[trigger] pkgs[i]) by {
            if i < p.len() {
                assert(pkgs[i] == p[i]);
                assert(!q.contains(p[i]));
            }
        }
    }
}

/// After a successful installation, none of the installed packages is left in
/// the install queue, which holds no new entry and stays without duplicates.
pub proof fn law_installed_leave_queue(v: AppView, pkgs: Seq<Seq<char>>, refreshed: Seq<ToolView>)
    requires
        v.install_queue.no_duplicates(),
    ensures
        ({
            let q = batch_success_spec(v, pkgs, refreshed).install_queue;
            &&& q.no_duplicates()
            &&& forall|x: Seq<char>| #[trigger] q.contains(x) ==> v.install_queue.contains(x)
            &&& forall|i: int| 0 <= i < pkgs.len() ==> !q.contains(#[trigger] pkgs[i])
        }),
{
    let w0 = AppView {
        install_in_progress: false,
        current_install_request_id: None,
        error_message: None,
        ..v
    };
    lemma_records_keep_queue(w0, refreshed);
    lemma_installed_leave_queue(records_updated(w0, refreshed), pkgs);
}

/// After a successful removal, every record of the package says it is not
/// installed and has no executables; and a package that was in the tool list
/// stays there (its refreshed record carrying its name).
pub proof fn law_removed_package_records(v: AppView, name: Seq<char>, tool: ToolView, refreshed: bool)
    ensures
        ({
            let w = remove_success_spec(v, name, tool, refreshed);
            &&& forall|i: int|
                0 <= i < w.tools.len() && (#[trigger] w.tools[i]).package_name == name ==> w.tools[i].status
                    == ToolStatus::NotInstalled && w.tools[i].executable is None
                    && w.tools[i].executables.len() == 0
            &&& tool.package_name == name && tool_names(v.tools).contains(name) ==> tool_names(
                w.tools,
            ).contains(name)
        }),
{
    let w = remove_success_spec(v, name, tool, refreshed);
    let k = first_index_of(tool_names(v.tools), name);
    lemma_first_index_of_bounds(tool_names(v.tools), name);
    if tool.package_name == name && tool_names(v.tools).contains(name) {
        assert(tool_names(v.tools)[k] == name);
        assert(tool_names(w.tools)[k] == name);
    }
}

/// What a package operation request `c` that took `v` to `after`, given the
/// fresh privilege check `p`, owes: no operation was running and that check
/// found `pkexec`, and it is stored; an installation names at least one
/// package, each a valid name of a listed tool; a removal names a valid
/// package whose record says it is installed; and the operation is then
/// marked running under the request's identifier.
pub open spec fn request_checked(v: AppView, p: PrivilegeView, after: AppView, c: CommandView) -> bool {
    &&& !v.install_in_progress
    &&& p.pkexec_found
    &&& after.privilege_status == Some(p)
    &&& after.install_in_progress
    &&& match c {
        CommandView::InstallPackages { package_names, request_id } => {
            &&& package_names.len() > 0
            &&& forall|i: int|
                0 <= i < package_names.len() ==> valid_package_name(#[trigger] package_names[i])
                    && tool_names(v.tools).contains(package_names[i])
            &&& after.current_install_request_id == Some(request_id)
        },
        CommandView::RemovePackage { package_name, request_id } => {
            &&& valid_package_name(package_name)
            &&& remove_check(v, package_name) is None
            &&& v.tools[first_index_of(tool_names(v.tools), package_name)].status
                == ToolStatus::Installed
            &&& after.current_remove_request_id == Some(request_id)
        },
        _ => false,
    }
}

/// No package of `pkgs` fails its installation check when none is found failing.
proof fn lemma_no_install_failure(v: AppView, pkgs: Seq<Seq<char>>)
    requires
        first_install_failure(v, pkgs) >= pkgs.len(),
    ensures
        forall|i: int| 0 <= i < pkgs.len() ==> install_check(v, #[trigger] pkgs[i]) is None,
    decreases pkgs.len(),
{
    if pkgs.len() > 0 {
        lemma_no_install_failure(v, pkgs.drop_first());
        assert forall|i: int| 0 <= i < pkgs.len() implies install_check(v, #[trigger] pkgs[i]) is None by {
            if i > 0 {
                assert(pkgs[i] == pkgs.drop_first()[i - 1]);
            }
        }
    }
}

proof fn lemma_install_request_checked(
    v: AppView,
    pkgs: Seq<Seq<char>>,
    p: PrivilegeView,
    after: AppView,
    c: CommandView,
)
    requires
        start_install_holds(v, pkgs, p, after, Ok(Some(c))),
    ensures
        request_checked(v, p, after, c),
{
    let w = with_privilege(v, p);
    lemma_no_install_failure(w, pkgs);
    assert forall|i: int| 0 <= i < pkgs.len() implies valid_package_name(#[trigger] pkgs[i])
        && tool_names(v.tools).contains(pkgs[i]) by {
        assert(install_check(w, pkgs[i]) is None);
    }
}

/// Packages are installed or removed only after every check passed: a request
/// to the worker comes back from starting an installation, starting a removal,
/// or confirming the dialog only when no operation was running, the fresh
/// privilege check found `pkexec` (and is stored), and every package it names
/// is a valid name of a listed tool (one that is installed, for a removal);
/// the operation is then marked running under the request's identifier.
pub proof fn law_requests_are_checked(
    v: AppView,
    packages: Seq<Seq<char>>,
    name: Seq<char>,
    p: PrivilegeView,
    after: AppView,
    c: CommandView,
)
    ensures
        start_install_holds(v, packages, p, after, Ok(Some(c))) ==> request_checked(v, p, after, c),
        start_remove_holds(v, name, p, after, Ok(Some(c))) ==> request_checked(v, p, after, c),
        confirm_holds(v, p, after, Ok(Some(c))) ==> request_checked(v, p, after, c),
{
    if start_install_holds(v, packages, p, after, Ok(Some(c))) {
        lemma_install_request_checked(v, packages, p, after, c);
    }
    if confirm_holds(v, p, after, Ok(Some(c))) {
        let closed = AppView { confirm_modal: crate::models::closed_confirm_modal(), ..v };
        match v.confirm_modal.action {
            Some(crate::models::ConfirmActionView::InstallPackages { packages }) => {
                lemma_install_request_checked(closed, packages, p, after, c);
            },
            _ => {},
        }
    }
}

} // verus!
