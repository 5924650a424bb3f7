//! The library's error type.
use vstd::prelude::*;
use vstd::string::*;

use crate::utils::text::{concat2, concat3, owned};

verus! {

/// What can go wrong in the library and in the programs around it.
#[derive(Debug, Clone, PartialEq, Eq)]
pub enum AppError {
    PacmanNotFound,
    BlackArchRepoNotFound,
    CommandFailed { command: String, status: String, stderr: String },
    InvalidPackageName(String),
    InvalidCategoryName(String),
    ParseError(String),
    /// An input/output failure, with its description.
    Io(String),
    /// A JSON failure, with its description.
    Json(String),
    Config(String),
}

/// The mathematical model of an [`AppError`]: the same variants, with character sequences.
pub enum AppErrorView {
    PacmanNotFound,
    BlackArchRepoNotFound,
    CommandFailed { command: Seq<char>, status: Seq<char>, stderr: Seq<char> },
    InvalidPackageName(Seq<char>),
    InvalidCategoryName(Seq<char>),
    ParseError(Seq<char>),
    Io(Seq<char>),
    Json(Seq<char>),
    Config(Seq<char>),
}

impl View for AppError {
    type V = AppErrorView;

    open spec fn view(&self) -> AppErrorView {
        match self {
            AppError::PacmanNotFound => AppErrorView::PacmanNotFound,
            AppError::BlackArchRepoNotFound => AppErrorView::BlackArchRepoNotFound,
            AppError::CommandFailed { command, status, stderr } => AppErrorView::CommandFailed {
                command: command@,
                status: status@,
                stderr: stderr@,
            },
            AppError::InvalidPackageName(s) => AppErrorView::InvalidPackageName(s@),
            AppError::InvalidCategoryName(s) => AppErrorView::InvalidCategoryName(s@),
            AppError::ParseError(s) => AppErrorView::ParseError(s@),
            AppError::Io(s) => AppErrorView::Io(s@),
            AppError::Json(s) => AppErrorView::Json(s@),
            AppError::Config(s) => AppErrorView::Config(s@),
        }
    }
}

/// The human-readable description of an error.
pub open spec fn error_message(e: AppErrorView) -> Seq<char> {
    match e {
        AppErrorView::PacmanNotFound => "pacman was not found in PATH"@,
        AppErrorView::BlackArchRepoNotFound =>
            "BlackArch repository groups were not found; ensure the BlackArch repo is configured"@,
        AppErrorView::CommandFailed { command, status, stderr } => "command `"@ + command
            + "` failed with status "@ + status + ": "@ + stderr,
        AppErrorView::InvalidPackageName(s) => "invalid package name: "@ + s,
        AppErrorView::InvalidCategoryName(s) => "invalid category name: "@ + s,
        AppErrorView::ParseError(s) => "failed to parse pacman output: "@ + s,
        AppErrorView::Io(s) => "I/O error: "@ + s,
        AppErrorView::Json(s) => "JSON error: "@ + s,
        AppErrorView::Config(s) => "config error: "@ + s,
    }
}

impl AppError {
    /// The human-readable description of this error.
    pub fn message(&self) -> (r: String)
        ensures
            r@ == error_message(self@),
    {
        match self {
            AppError::PacmanNotFound => owned("pacman was not found in PATH"),
            AppError::BlackArchRepoNotFound => owned(
                "BlackArch repository groups were not found; ensure the BlackArch repo is configured",
            ),
            AppError::CommandFailed { command, status, stderr } => {
                let mut r = concat3("command `", command.as_str(), "` failed with status ");
                r.append(status.as_str());
                r.append(": ");
                r.append(stderr.as_str());
                r
            },
            AppError::InvalidPackageName(s) => concat2("invalid package name: ", s.as_str()),
            AppError::InvalidCategoryName(s) => concat2("invalid category name: ", s.as_str()),
            AppError::ParseError(s) => concat2("failed to parse pacman output: ", s.as_str()),
            AppError::Io(s) => concat2("I/O error: ", s.as_str()),
            AppError::Json(s) => concat2("JSON error: ", s.as_str()),
            AppError::Config(s) => concat2("config error: ", s.as_str()),
        }
    }

    /// A copy of this error.
    pub fn duplicate(&self) -> (r: AppError)
        ensures
            r@ == self@,
    {
        match self {
            AppError::PacmanNotFound => AppError::PacmanNotFound,
            AppError::BlackArchRepoNotFound => AppError::BlackArchRepoNotFound,
            AppError::CommandFailed { command, status, stderr } => AppError::CommandFailed {
                command: command.clone(),
                status: status.clone(),
                stderr: stderr.clone(),
            },
            AppError::InvalidPackageName(s) => AppError::InvalidPackageName(s.clone()),
            AppError::InvalidCategoryName(s) => AppError::InvalidCategoryName(s.clone()),
            AppError::ParseError(s) => AppError::ParseError(s.clone()),
            AppError::Io(s) => AppError::Io(s.clone()),
            AppError::Json(s) => AppError::Json(s.clone()),
            AppError::Config(s) => AppError::Config(s.clone()),
        }
    }
}

} // verus!
