//! What the background worker decides around the commands it runs: the report
//! that each outcome gives, and the tool records it derives.
use vstd::prelude::*;

use crate::actions::package_installer::InstallResult;
use crate::actions::package_remover::RemoveResult;
use crate::actions::terminal_runner::{build_terminal_args, terminal_args_error, terminal_args_spec};
use crate::error::{error_message, AppError, AppErrorView};
use crate::models::{BlackArchTool, PackageSearchResult, TerminalConfig, ToolStatus, ToolView};
use crate::pacman::query::{tool_result, PackageOutputs};
use crate::services::tool_service::{detail_result, get_tool_detail};
use crate::utils::order::{sort_strings, string_views, text_order};
use crate::utils::scan::{trim_chars, trim_spec};
use crate::utils::text::{chars_of, concat2, copy_string, owned, string_from_chars};
use crate::utils::unique::{first_occurrences, lemma_first_occurrences_push, push_unique};
use crate::worker::message::{WorkerCommand, WorkerEvent};

verus! {

/// A tool after its package was removed: not installed, with no executables.
pub open spec fn removed_tool(t: ToolView) -> ToolView {
    ToolView { status: ToolStatus::NotInstalled, executable: None, executables: seq![], ..t }
}

/// Marks `tool` as removed.
pub fn mark_tool_removed(tool: &mut BlackArchTool)
    ensures
        final(tool)@ == removed_tool(old(tool)@),
{
    tool.status = ToolStatus::NotInstalled;
    tool.executable = None;
    tool.executables = Vec::new();
    assert(tool@.executables =~= seq![]);
}

/// The description of a removed package whose details could not be read again.
pub open spec fn removed_description() -> Seq<char> {
    "Package removed; details could not be refreshed"@
}

/// The record of a removed package whose details could not be read again.
pub open spec fn removed_fallback(name: Seq<char>) -> ToolView {
    ToolView {
        name,
        package_name: name,
        category: None,
        categories: seq![],
        version: None,
        description: Some(removed_description()),
        executable: None,
        executables: seq![],
        status: ToolStatus::NotInstalled,
        favorite: false,
    }
}

/// The record of a removed package whose details could not be read again.
pub fn removed_tool_fallback(package_name: &str) -> (r: BlackArchTool)
    ensures
        r@ == removed_fallback(package_name@),
{
    let r = BlackArchTool {
        name: owned(package_name),
        package_name: owned(package_name),
        category: None,
        categories: Vec::new(),
        version: None,
        description: Some(owned("Package removed; details could not be refreshed")),
        executable: None,
        executables: Vec::new(),
        status: ToolStatus::NotInstalled,
        favorite: false,
    };
    assert(r@.categories =~= seq![]);
    assert(r@.executables =~= seq![]);
    r
}

/// The groups a tool names: its categories, then its category.
pub open spec fn named_groups(t: ToolView) -> Seq<Seq<char>> {
    match t.category {
        Some(c) => t.categories.push(c),
        None => t.categories,
    }
}

/// The groups that the tools name, in order of appearance.
pub open spec fn all_named_groups(tools: Seq<ToolView>) -> Seq<Seq<char>>
    decreases tools.len(),
{
    if tools.len() == 0 {
        seq![]
    } else {
        all_named_groups(tools.drop_last()) + named_groups(tools.last())
    }
}

/// The categories that `tools` name, each once, sorted.
pub open spec fn categories_of_tools(tools: Seq<ToolView>) -> Seq<Seq<char>> {
    first_occurrences(all_named_groups(tools)).sort_by(text_order())
}

/// Adds `c` to `acc` unless it is there, keeping track of the groups seen so far.
fn note_group(acc: &mut Vec<String>, c: &String, Ghost(seen): Ghost<Seq<Seq<char>>>)
    requires
        string_views(old(acc)@) == first_occurrences(seen),
    ensures
        string_views(final(acc)@) == first_occurrences(seen.push(c@)),
{
    proof {
        lemma_first_occurrences_push(seen, c@);
    }
    push_unique(acc, &chars_of(c.as_str()));
}

/// The categories that `tools` name, each once, sorted.
pub fn categories_from_tools(tools: &[BlackArchTool]) -> (r: Vec<String>)
    ensures
        string_views(r@) == categories_of_tools(crate::models::tool_views(tools@)),
{
    let ghost tv = crate::models::tool_views(tools@);
    let mut categories: Vec<String> = Vec::new();
    let mut i: usize = 0;
    assert(tv.take(0) =~= seq![]);
    assert(string_views(categories@) =~= first_occurrences(all_named_groups(tv.take(0))));
    while i < tools.len()
        invariant
            i <= tools@.len(),
            tv == crate::models::tool_views(tools@),
            string_views(categories@) == first_occurrences(all_named_groups(tv.take(i as int))),
        decreases tools@.len() - i,
    {
        let ghost before = all_named_groups(tv.take(i as int));
        let ghost t = tools@[i as int]@;
        assert(tv.take(i + 1).drop_last() =~= tv.take(i as int));
        assert(tv.take(i + 1).last() == t);
        let tool = &tools[i];
        let mut j: usize = 0;
        while j < tool.categories.len()
            invariant
                j <= tool.categories@.len(),
                t == tool@,
                string_views(categories@) == first_occurrences(
                    before + t.categories.take(j as int),
                ),
            decreases tool.categories@.len() - j,
        {
            assert(before + t.categories.take(j + 1) =~= (before + t.categories.take(
                j as int,
            )).push(tool.categories@[j as int]@));
            note_group(
                &mut categories,
                &tool.categories[j],
                Ghost(before + t.categories.take(j as int)),
            );
            j += 1;
        }
        assert(t.categories.take(t.categories.len() as int) =~= t.categories);
        if let Some(c) = &tool.category {
            note_group(&mut categories, c, Ghost(before + t.categories));
            assert(before + t.categories.push(c@) =~= (before + t.categories).push(c@));
        }
        assert(all_named_groups(tv.take(i + 1)) == before + named_groups(t));
        i += 1;
    }
    assert(tv.take(tools@.len() as int) =~= tv);
    sort_strings(&mut categories);
    categories
}

// ---------------------------------------------------------------------------
// Reports
// ---------------------------------------------------------------------------

/// The report of a detail load for `package_name`, given the outputs of its three queries.
pub fn load_tool_detail(package_name: String, request_id: u64, outputs: PackageOutputs) -> (r:
    WorkerEvent)
    ensures
        match detail_result(package_name@, outputs) {
            Ok(t) => r matches WorkerEvent::ToolDetailLoaded { package_name: p, request_id: q, tool }
                && p@ == package_name@ && q == request_id && tool@ == t,
            Err(e) => r matches WorkerEvent::ToolDetailFailed {
                package_name: p,
                request_id: q,
                error,
            } && p@ == package_name@ && q == request_id && error@ == error_message(e),
        },
{
    match get_tool_detail(package_name.as_str(), outputs) {
        Ok(tool) => WorkerEvent::ToolDetailLoaded { package_name, request_id, tool },
        Err(error) => WorkerEvent::ToolDetailFailed {
            package_name,
            request_id,
            error: error.message(),
        },
    }
}

/// The report of the first load, given the tools and the categories that were
/// read: the tools with their categories (or those the tools name, when the
/// categories could not be read), or the failure to read the tools.
pub fn load_initial_data(
    tools: Result<Vec<BlackArchTool>, AppError>,
    categories: Result<Vec<String>, AppError>,
) -> (r: WorkerEvent)
    ensures
        match tools {
            Err(e) => r matches WorkerEvent::TaskFailed { label, error } && label@
                == "initial data"@ && error@ == error_message(e@),
            Ok(ts) => r matches WorkerEvent::InitialDataLoaded { tools: t, categories: c }
                && crate::models::tool_views(t@) == crate::models::tool_views(ts@) && match categories {
                Ok(cs) => string_views(c@) == string_views(cs@),
                Err(_) => string_views(c@) == categories_of_tools(crate::models::tool_views(ts@)),
            },
        },
{
    match tools {
        Ok(tools) => {
            let categories = match categories {
                Ok(categories) => categories,
                Err(_) => categories_from_tools(tools.as_slice()),
            };
            WorkerEvent::InitialDataLoaded { tools, categories }
        },
        Err(error) => WorkerEvent::TaskFailed {
            label: owned("initial data"),
            error: error.message(),
        },
    }
}

/// The report of a cache rebuild, given the categories and the tools that were
/// rebuilt: both, or the first failure.
pub fn sync_basic_cache(
    categories: Result<Vec<String>, AppError>,
    tools: Result<Vec<BlackArchTool>, AppError>,
) -> (r: WorkerEvent)
    ensures
        match categories {
            Err(e) => r matches WorkerEvent::TaskFailed { label, error } && label@ == "sync cache"@
                && error@ == error_message(e@),
            Ok(cs) => match tools {
                Err(e) => r matches WorkerEvent::TaskFailed { label, error } && label@
                    == "sync cache"@ && error@ == error_message(e@),
                Ok(ts) => r matches WorkerEvent::BasicCacheSynced { tools: t, categories: c }
                    && crate::models::tool_views(t@) == crate::models::tool_views(ts@)
                    && string_views(c@) == string_views(cs@),
            },
        },
{
    let categories = match categories {
        Ok(categories) => categories,
        Err(error) => {
            return WorkerEvent::TaskFailed { label: owned("sync cache"), error: error.message() };
        },
    };
    match tools {
        Ok(tools) => WorkerEvent::BasicCacheSynced { tools, categories },
        Err(error) => WorkerEvent::TaskFailed { label: owned("sync cache"), error: error.message() },
    }
}

/// The report of a package search for `query`, given its results.
pub fn search_packages(
    query: String,
    request_id: u64,
    results: Result<Vec<PackageSearchResult>, AppError>,
) -> (r: WorkerEvent)
    ensures
        match results {
            Ok(rs) => r matches WorkerEvent::SearchCompleted { query: q, request_id: id, results: x }
                && q@ == query@ && id == request_id && x@ == rs@,
            Err(e) => r matches WorkerEvent::TaskFailed { label, error } && label@ == "search "@
                + query@ && error@ == error_message(e@),
        },
{
    match results {
        Ok(results) => WorkerEvent::SearchCompleted { query, request_id, results },
        Err(error) => WorkerEvent::TaskFailed {
            label: concat2("search ", query.as_str()),
            error: error.message(),
        },
    }
}

/// The message given when the terminal should stay open after the tool exits.
pub open spec fn hold_unsupported() -> Seq<char> {
    "hold_after_run is not supported without shell wrapping yet"@
}

/// The arguments of the terminal that runs `executable` as `config` asks; an
/// error when the terminal should stay open afterwards, or when the terminal,
/// its window class or the executable is refused.
pub fn run_tool_args(config: &TerminalConfig, executable: &str) -> (r: Result<Vec<String>, AppError>)
    ensures
        config.hold_after_run ==> (r matches Err(e) && e@ == AppErrorView::Config(
            hold_unsupported(),
        )),
        !config.hold_after_run ==> match r {
            Ok(args) => terminal_args_error(config.program@, config.runner_class@, executable@).is_none()
                && string_views(args@) == terminal_args_spec(
                config.program@,
                config.runner_class@,
                executable@,
            ),
            Err(e) => terminal_args_error(config.program@, config.runner_class@, executable@)
                == Some(e@),
        },
{
    if config.hold_after_run {
        return Err(
            AppError::Config(owned("hold_after_run is not supported without shell wrapping yet")),
        );
    }
    build_terminal_args(config.program.as_str(), config.runner_class.as_str(), executable)
}

/// The report of a tool launch, given whether the terminal started and whether
/// the launch was recorded among the recent tools.
pub fn run_tool(
    package_name: String,
    executable: String,
    request_id: u64,
    launched: Result<(), AppError>,
    recorded: Result<(), AppError>,
) -> (r: WorkerEvent)
    ensures
        match launched {
            Err(e) => r matches WorkerEvent::ToolRunFailed { package_name: p, error, request_id: id }
                && p@ == package_name@ && id == request_id && error@ == error_message(e@),
            Ok(()) => match recorded {
                Err(e) => r matches WorkerEvent::ToolRunFailed {
                    package_name: p,
                    error,
                    request_id: id,
                } && p@ == package_name@ && id == request_id && error@ == error_message(e@),
                Ok(()) => r matches WorkerEvent::ToolRunStarted {
                    package_name: p,
                    executable: x,
                    request_id: id,
                } && p@ == package_name@ && x@ == executable@ && id == request_id,
            },
        },
{
    if let Err(error) = launched {
        return WorkerEvent::ToolRunFailed { package_name, error: error.message(), request_id };
    }
    match recorded {
        Ok(()) => WorkerEvent::ToolRunStarted { package_name, executable, request_id },
        Err(error) => WorkerEvent::ToolRunFailed { package_name, error: error.message(), request_id },
    }
}

/// The tools whose details could be read again, in order.
pub open spec fn refreshed_only(v: Seq<Result<ToolView, AppErrorView>>) -> Seq<ToolView>
    decreases v.len(),
{
    if v.len() == 0 {
        seq![]
    } else {
        match v.last() {
            Ok(t) => refreshed_only(v.drop_last()).push(t),
            Err(_) => refreshed_only(v.drop_last()),
        }
    }
}

/// The report of an installation of `package_names`, given how it ended and
/// the details of each package read again afterwards.
pub fn install_packages(
    package_names: Vec<String>,
    request_id: u64,
    outcome: Result<InstallResult, AppError>,
    refreshed: Vec<Result<BlackArchTool, AppError>>,
) -> (r: WorkerEvent)
    ensures
        match outcome {
            Ok(result) => if result.success {
                r matches WorkerEvent::PackagesInstallFinished {
                    package_names: p,
                    request_id: id,
                    refreshed_tools,
                } && string_views(p@) == string_views(package_names@) && id == request_id
                    && crate::models::tool_views(refreshed_tools@) == refreshed_only(
                    crate::services::tool_service::detail_views(refreshed@),
                )
            } else {
                r matches WorkerEvent::PackagesInstallFailed { package_names: p, request_id: id, error }
                    && string_views(p@) == string_views(package_names@) && id == request_id
                    && error@ == "Install failed"@
            },
            Err(e) => r matches WorkerEvent::PackagesInstallFailed {
                package_names: p,
                request_id: id,
                error,
            } && string_views(p@) == string_views(package_names@) && id == request_id && error@
                == error_message(e@),
        },
{
    match outcome {
        Ok(result) => {
            if result.success {
                let ghost dv = crate::services::tool_service::detail_views(refreshed@);
                let mut refreshed_tools: Vec<BlackArchTool> = Vec::new();
                let mut i: usize = 0;
                assert(dv.take(0) =~= seq![]);
                while i < refreshed.len()
                    invariant
                        i <= refreshed@.len(),
                        dv == crate::services::tool_service::detail_views(refreshed@),
                        crate::models::tool_views(refreshed_tools@) == refreshed_only(
                            dv.take(i as int),
                        ),
                    decreases refreshed@.len() - i,
                {
                    assert(dv.take(i + 1).drop_last() =~= dv.take(i as int));
                    assert(dv.take(i + 1).last() == tool_result(refreshed@[i as int]));
                    if let Ok(tool) = &refreshed[i] {
                        let ghost before = crate::models::tool_views(refreshed_tools@);
                        refreshed_tools.push(tool.duplicate());
                        assert(crate::models::tool_views(refreshed_tools@) =~= before.push(
                            tool@,
                        ));
                    }
                    i += 1;
                }
                assert(dv.take(refreshed@.len() as int) =~= dv);
                WorkerEvent::PackagesInstallFinished { package_names, request_id, refreshed_tools }
            } else {
                WorkerEvent::PackagesInstallFailed {
                    package_names,
                    request_id,
                    error: owned("Install failed"),
                }
            }
        },
        Err(error) => WorkerEvent::PackagesInstallFailed {
            package_names,
            request_id,
            error: error.message(),
        },
    }
}

/// The report of a successful removal of `package_name`, given its details
/// read again afterwards: those details marked as removed, or a bare record.
pub fn finish_successful_remove(
    package_name: String,
    request_id: u64,
    detail: Result<BlackArchTool, AppError>,
) -> (r: WorkerEvent)
    ensures
        r matches WorkerEvent::PackageRemoveFinished {
            package_name: p,
            request_id: id,
            refreshed_tool,
            refreshed,
        } && p@ == package_name@ && id == request_id && refreshed == detail is Ok && match detail {
            Ok(t) => refreshed_tool@ == removed_tool(t@),
            Err(_) => refreshed_tool@ == removed_fallback(package_name@),
        },
{
    let (refreshed_tool, refreshed) = match detail {
        Ok(mut tool) => {
            mark_tool_removed(&mut tool);
            (tool, true)
        },
        Err(_) => (removed_tool_fallback(package_name.as_str()), false),
    };
    WorkerEvent::PackageRemoveFinished { package_name, request_id, refreshed_tool, refreshed }
}

/// The message of a removal that failed with error output `stderr`.
pub open spec fn remove_failure_text(stderr: Seq<char>) -> Seq<char> {
    if trim_spec(stderr).len() == 0 {
        "Remove failed"@
    } else {
        trim_spec(stderr)
    }
}

/// The report of a removal of `package_name`, given how it ended and its
/// details read again afterwards.
pub fn remove_package(
    package_name: String,
    request_id: u64,
    outcome: Result<RemoveResult, AppError>,
    detail: Result<BlackArchTool, AppError>,
) -> (r: WorkerEvent)
    ensures
        match outcome {
            Ok(result) => if result.success {
                r matches WorkerEvent::PackageRemoveFinished {
                    package_name: p,
                    request_id: id,
                    refreshed_tool,
                    refreshed,
                } && p@ == package_name@ && id == request_id && refreshed == detail is Ok
                    && match detail {
                    Ok(t) => refreshed_tool@ == removed_tool(t@),
                    Err(_) => refreshed_tool@ == removed_fallback(package_name@),
                }
            } else {
                r matches WorkerEvent::PackageRemoveFailed { package_name: p, request_id: id, error }
                    && p@ == package_name@ && id == request_id && error@ == remove_failure_text(
                    result.stderr@,
                )
            },
            Err(e) => r matches WorkerEvent::PackageRemoveFailed {
                package_name: p,
                request_id: id,
                error,
            } && p@ == package_name@ && id == request_id && error@ == error_message(e@),
        },
{
    match outcome {
        Ok(result) => {
            if result.success {
                finish_successful_remove(package_name, request_id, detail)
            } else {
                let trimmed = trim_chars(&chars_of(result.stderr.as_str()));
                let error = if trimmed.len() == 0 {
                    owned("Remove failed")
                } else {
                    string_from_chars(&trimmed)
                };
                WorkerEvent::PackageRemoveFailed { package_name, request_id, error }
            }
        },
        Err(error) => WorkerEvent::PackageRemoveFailed {
            package_name,
            request_id,
            error: error.message(),
        },
    }
}

/// The report sent before a command is carried out: an installation or a
/// removal first reports that it started (a single package as a list of one);
/// other commands report only their outcome.
pub fn started_report(command: &WorkerCommand) -> (r: Option<WorkerEvent>)
    ensures
        match command {
            WorkerCommand::InstallPackage { package_name: n, request_id: id } => r matches Some(
                WorkerEvent::PackagesInstallStarted { package_names, request_id },
            ) && string_views(package_names@) == seq![n@] && request_id == id,
            WorkerCommand::InstallPackages { package_names: ns, request_id: id } => r matches Some(
                WorkerEvent::PackagesInstallStarted { package_names, request_id },
            ) && string_views(package_names@) == string_views(ns@) && request_id == id,
            WorkerCommand::RemovePackage { package_name: n, request_id: id } => r matches Some(
                WorkerEvent::PackageRemoveStarted { package_name, request_id },
            ) && package_name@ == n@ && request_id == id,
            _ => r is None,
        },
{
    match command {
        WorkerCommand::InstallPackage { package_name, request_id } => {
            let package_names = vec![copy_string(package_name)];
            assert(string_views(package_names@) =~= seq![package_name@]);
            Some(WorkerEvent::PackagesInstallStarted { package_names, request_id: *request_id })
        },
        WorkerCommand::InstallPackages { package_names, request_id } => Some(
            WorkerEvent::PackagesInstallStarted {
                package_names: crate::models::copy_strings(package_names),
                request_id: *request_id,
            },
        ),
        WorkerCommand::RemovePackage { package_name, request_id } => Some(
            WorkerEvent::PackageRemoveStarted {
                package_name: copy_string(package_name),
                request_id: *request_id,
            },
        ),
        _ => None,
    }
}

} // verus!
