//! The messages between the interface and the background worker.
use vstd::prelude::*;

use crate::models::{BlackArchTool, PackageSearchResult};
use crate::utils::order::string_views;

verus! {

/// A request to the background worker.
#[derive(Debug)]
pub enum WorkerCommand {
    LoadInitialData,
    SyncBasicCache,
    LoadToolDetail { package_name: String, request_id: u64 },
    RefreshToolDetail { package_name: String, request_id: u64 },
    SearchPackages { query: String, request_id: u64 },
    ClearPackageCache { package_name: String, request_id: u64 },
    RunTool { package_name: String, executable: String, request_id: u64 },
    InstallPackage { package_name: String, request_id: u64 },
    InstallPackages { package_names: Vec<String>, request_id: u64 },
    RemovePackage { package_name: String, request_id: u64 },
}

/// The mathematical model of a [`WorkerCommand`].
pub enum CommandView {
    LoadInitialData,
    SyncBasicCache,
    LoadToolDetail { package_name: Seq<char>, request_id: u64 },
    RefreshToolDetail { package_name: Seq<char>, request_id: u64 },
    SearchPackages { query: Seq<char>, request_id: u64 },
    ClearPackageCache { package_name: Seq<char>, request_id: u64 },
    RunTool { package_name: Seq<char>, executable: Seq<char>, request_id: u64 },
    InstallPackage { package_name: Seq<char>, request_id: u64 },
    InstallPackages { package_names: Seq<Seq<char>>, request_id: u64 },
    RemovePackage { package_name: Seq<char>, request_id: u64 },
}

impl View for WorkerCommand {
    type V = CommandView;

    open spec fn view(&self) -> CommandView {
        match self {
            WorkerCommand::LoadInitialData => CommandView::LoadInitialData,
            WorkerCommand::SyncBasicCache => CommandView::SyncBasicCache,
            WorkerCommand::LoadToolDetail { package_name, request_id } =>
                CommandView::LoadToolDetail { package_name: package_name@, request_id: *request_id },
            WorkerCommand::RefreshToolDetail { package_name, request_id } =>
                CommandView::RefreshToolDetail {
                    package_name: package_name@,
                    request_id: *request_id,
                },
            WorkerCommand::SearchPackages { query, request_id } => CommandView::SearchPackages {
                query: query@,
                request_id: *request_id,
            },
            WorkerCommand::ClearPackageCache { package_name, request_id } =>
                CommandView::ClearPackageCache {
                    package_name: package_name@,
                    request_id: *request_id,
                },
            WorkerCommand::RunTool { package_name, executable, request_id } =>
                CommandView::RunTool {
                    package_name: package_name@,
                    executable: executable@,
                    request_id: *request_id,
                },
            WorkerCommand::InstallPackage { package_name, request_id } =>
                CommandView::InstallPackage { package_name: package_name@, request_id: *request_id },
            WorkerCommand::InstallPackages { package_names, request_id } =>
                CommandView::InstallPackages {
                    package_names: string_views(package_names@),
                    request_id: *request_id,
                },
            WorkerCommand::RemovePackage { package_name, request_id } =>
                CommandView::RemovePackage { package_name: package_name@, request_id: *request_id },
        }
    }
}

/// The view of an optional request.
pub open spec fn opt_command_view(c: Option<WorkerCommand>) -> Option<CommandView> {
    match c {
        Some(c) => Some(c@),
        None => None,
    }
}

/// A report from the background worker.
#[derive(Debug)]
pub enum WorkerEvent {
    InitialDataLoaded { tools: Vec<BlackArchTool>, categories: Vec<String> },
    BasicCacheSynced { tools: Vec<BlackArchTool>, categories: Vec<String> },
    ToolDetailLoaded { package_name: String, request_id: u64, tool: BlackArchTool },
    ToolDetailFailed { package_name: String, request_id: u64, error: String },
    SearchCompleted { query: String, request_id: u64, results: Vec<PackageSearchResult> },
    CacheCleared { package_name: String, request_id: u64 },
    ToolRunStarted { package_name: String, executable: String, request_id: u64 },
    ToolRunFailed { package_name: String, error: String, request_id: u64 },
    PackageInstallStarted { package_name: String, request_id: u64 },
    PackagesInstallStarted { package_names: Vec<String>, request_id: u64 },
    PackageInstallFinished {
        package_name: String,
        request_id: u64,
        refreshed_tool: Option<BlackArchTool>,
    },
    PackagesInstallFinished {
        package_names: Vec<String>,
        request_id: u64,
        refreshed_tools: Vec<BlackArchTool>,
    },
    PackageInstallFailed { package_name: String, request_id: u64, error: String },
    PackagesInstallFailed { package_names: Vec<String>, request_id: u64, error: String },
    PackageRemoveStarted { package_name: String, request_id: u64 },
    PackageRemoveFinished {
        package_name: String,
        request_id: u64,
        refreshed_tool: BlackArchTool,
        refreshed: bool,
    },
    PackageRemoveFailed { package_name: String, request_id: u64, error: String },
    TaskFailed { label: String, error: String },
}

} // verus!
