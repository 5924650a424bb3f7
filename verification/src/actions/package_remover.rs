//! The `pacman` arguments of a removal, and how a failed removal is reported.
use vstd::prelude::*;

use crate::error::{AppError, AppErrorView};
use crate::pacman::command::CommandRun;
use crate::utils::order::string_views;
use crate::utils::scan::{contains_seq, has_infix, trim_chars, trim_spec};
use crate::utils::text::{chars_of, concat2, copy_string, owned, string_from_chars};
use crate::utils::validate::{valid_package_name, validate_package_name};

verus! {

/// What a removal run reports.
#[derive(Debug)]
pub struct RemoveResult {
    pub package_name: String,
    pub stdout: String,
    pub stderr: String,
    pub success: bool,
}

/// The arguments of `pkexec` that remove `package_name` with its unused dependencies.
pub open spec fn remove_args_spec(package_name: Seq<char>) -> Seq<Seq<char>> {
    seq!["pacman"@, "-Rns"@, "--noconfirm"@, package_name]
}

/// The arguments of `pkexec` that remove `package_name`; an error for an invalid name.
pub fn build_remove_args(package_name: &str) -> (r: Result<Vec<String>, AppError>)
    ensures
        valid_package_name(package_name@) <==> r is Ok,
        r matches Ok(args) ==> string_views(args@) == remove_args_spec(package_name@),
        r matches Err(e) ==> e@ == AppErrorView::InvalidPackageName(package_name@),
{
    if !validate_package_name(package_name) {
        return Err(AppError::InvalidPackageName(owned(package_name)));
    }
    let args = vec![owned("pacman"), owned("-Rns"), owned("--noconfirm"), owned(package_name)];
    assert(string_views(args@) =~= remove_args_spec(package_name@));
    Ok(args)
}

/// Whether a failed removal's error output means that it was cancelled or not authorized.
pub open spec fn removal_cancelled(stderr: Seq<char>) -> bool {
    let t = trim_spec(stderr);
    ||| t.len() == 0
    ||| contains_seq(t, "Authentication is needed"@)
    ||| contains_seq(t, "dismissed"@)
    ||| contains_seq(t, "cancel"@)
    ||| contains_seq(t, "not authorized"@)
}

/// The message that describes a failed removal with error output `stderr` and exit status `status`.
pub open spec fn removal_failure_message(status: Seq<char>, stderr: Seq<char>) -> Seq<char> {
    if removal_cancelled(stderr) {
        "Remove cancelled or authentication failed"@
    } else {
        "pacman remove failed with status "@ + status + ": "@ + trim_spec(stderr)
    }
}

/// The error that a failed removal reports: the command that ran, its status, and a message.
pub fn removal_failure(args: &Vec<String>, status: &String, stderr: &String) -> (r: AppError)
    ensures
        r@ matches AppErrorView::CommandFailed { command, status: st, stderr: msg } && st
            == status@ && msg == removal_failure_message(status@, stderr@) && command
            == "pkexec "@ + crate::utils::text::join_spec(string_views(args@), " "@),
{
    let raw = chars_of(stderr.as_str());
    let t = trim_chars(&raw);
    let cancelled = t.len() == 0 || has_infix(&t, &chars_of("Authentication is needed"))
        || has_infix(&t, &chars_of("dismissed")) || has_infix(&t, &chars_of("cancel"))
        || has_infix(&t, &chars_of("not authorized"));
    let message = if cancelled {
        owned("Remove cancelled or authentication failed")
    } else {
        let mut m = concat2("pacman remove failed with status ", status.as_str());
        m.append(": ");
        let tt = string_from_chars(&t);
        m.append(tt.as_str());
        m
    };
    let joined = crate::utils::text::join(args, " ");
    AppError::CommandFailed {
        command: concat2("pkexec ", joined.as_str()),
        status: copy_string(status),
        stderr: message,
    }
}

/// The arguments of `pkexec` that remove `package_name`, given whether
/// `pkexec` exists: an invalid name first, then a missing `pkexec`.
pub fn remove_command(package_name: &str, pkexec_found: bool) -> (r: Result<Vec<String>, AppError>)
    ensures
        !valid_package_name(package_name@) ==> (r matches Err(e) && e@
            == AppErrorView::InvalidPackageName(package_name@)),
        valid_package_name(package_name@) && !pkexec_found ==> (r matches Err(e) && e@
            == crate::actions::package_installer::pkexec_missing_error()),
        valid_package_name(package_name@) && pkexec_found ==> (r matches Ok(args) && string_views(
            args@,
        ) == remove_args_spec(package_name@)),
{
    let args = build_remove_args(package_name)?;
    if !pkexec_found {
        return Err(
            AppError::Config(
                owned(
                    "pkexec not found. Install polkit and make sure a polkit authentication agent is running.",
                ),
            ),
        );
    }
    Ok(args)
}

/// What running the removal of `package_name` with arguments `args` reports,
/// given how the run ended: its output when it succeeded, else the failure.
pub fn remove_package(package_name: &str, args: &Vec<String>, run: CommandRun) -> (r: Result<
    RemoveResult,
    AppError,
>)
    ensures
        match run {
            CommandRun::NotStarted(m) => r matches Err(e) && e@ == AppErrorView::Io(m@),
            CommandRun::Exited { success, status, stdout, stderr } => if success {
                r matches Ok(res) && res.package_name@ == package_name@ && res.success
                    && res.stdout@ == stdout@ && res.stderr@ == stderr@
            } else {
                r matches Err(e) && e@ == AppErrorView::CommandFailed {
                    command: "pkexec "@ + crate::utils::text::join_spec(string_views(args@), " "@),
                    status: status@,
                    stderr: removal_failure_message(status@, stderr@),
                }
            },
        },
{
    match run {
        CommandRun::NotStarted(message) => Err(AppError::Io(message)),
        CommandRun::Exited { success, status, stdout, stderr } => {
            if success {
                Ok(RemoveResult { package_name: owned(package_name), stdout, stderr, success })
            } else {
                Err(removal_failure(args, &status, &stderr))
            }
        },
    }
}

} // verus!
