//! The command line that launches a tool in a terminal emulator.
use vstd::prelude::*;

use crate::error::{AppError, AppErrorView};
use crate::utils::order::string_views;
use crate::utils::text::{chars_eq, chars_of, concat2, owned};
use crate::utils::validate::{
    supported_terminal, valid_package_name, valid_terminal_class, validate_executable_name,
    validate_terminal_class, validate_terminal_program,
};

verus! {

/// The first reason, if any, why `program`, `class_name` and `executable` cannot launch a tool.
pub open spec fn terminal_args_error(
    program: Seq<char>,
    class_name: Seq<char>,
    executable: Seq<char>,
) -> Option<AppErrorView> {
    if !supported_terminal(program) {
        Some(AppErrorView::Config("unsupported terminal: "@ + program))
    } else if !valid_terminal_class(class_name) {
        Some(AppErrorView::Config("invalid terminal class/app-id: "@ + class_name))
    } else if !valid_package_name(executable) {
        Some(AppErrorView::InvalidPackageName(executable))
    } else {
        None
    }
}

/// The arguments of `program` that run `executable` in a window of class `class_name`.
pub open spec fn terminal_args_spec(
    program: Seq<char>,
    class_name: Seq<char>,
    executable: Seq<char>,
) -> Seq<Seq<char>> {
    if program == "foot"@ {
        seq!["--app-id"@, class_name, executable]
    } else if program == "wezterm"@ {
        seq!["start"@, "--class"@, class_name, "--"@, executable]
    } else {
        seq!["--class"@, class_name, "-e"@, executable]
    }
}

/// Checks the terminal program, the window class and the executable name, in that order.
pub fn validate_terminal_args(program: &str, class_name: &str, executable: &str) -> (r: Result<
    (),
    AppError,
>)
    ensures
        match r {
            Ok(()) => terminal_args_error(program@, class_name@, executable@).is_none(),
            Err(e) => terminal_args_error(program@, class_name@, executable@) == Some(e@),
        },
{
    if !validate_terminal_program(program) {
        return Err(AppError::Config(concat2("unsupported terminal: ", program)));
    }
    if !validate_terminal_class(class_name) {
        return Err(AppError::Config(concat2("invalid terminal class/app-id: ", class_name)));
    }
    if !validate_executable_name(executable) {
        return Err(AppError::InvalidPackageName(owned(executable)));
    }
    Ok(())
}

/// The arguments that make `program` run `executable` in a window of class `class_name`.
pub fn build_terminal_args(program: &str, class_name: &str, executable: &str) -> (r: Result<
    Vec<String>,
    AppError,
>)
    ensures
        match r {
            Ok(args) => terminal_args_error(program@, class_name@, executable@).is_none()
                && string_views(args@) == terminal_args_spec(program@, class_name@, executable@),
            Err(e) => terminal_args_error(program@, class_name@, executable@) == Some(e@),
        },
{
    validate_terminal_args(program, class_name, executable)?;
    let p = chars_of(program);
    let args = if chars_eq(&p, &chars_of("foot")) {
        vec![owned("--app-id"), owned(class_name), owned(executable)]
    } else if chars_eq(&p, &chars_of("wezterm")) {
        vec![owned("start"), owned("--class"), owned(class_name), owned("--"), owned(executable)]
    } else {
        vec![owned("--class"), owned(class_name), owned("-e"), owned(executable)]
    };
    assert(string_views(args@) =~= terminal_args_spec(program@, class_name@, executable@));
    Ok(args)
}

/// The arguments that launch `executable` in `program`, given whether the
/// program exists: the arguments' error first, then a missing program.
pub fn run_in_terminal(program: &str, class_name: &str, executable: &str, terminal_found: bool) -> (r:
    Result<Vec<String>, AppError>)
    ensures
        match terminal_args_error(program@, class_name@, executable@) {
            Some(ev) => r matches Err(e) && e@ == ev,
            None => if terminal_found {
                r matches Ok(args) && string_views(args@) == terminal_args_spec(
                    program@,
                    class_name@,
                    executable@,
                )
            } else {
                r matches Err(e) && e@ == AppErrorView::Config(
                    "terminal program not found in PATH: "@ + program@,
                )
            },
        },
{
    validate_terminal_args(program, class_name, executable)?;
    if !terminal_found {
        return Err(AppError::Config(concat2("terminal program not found in PATH: ", program)));
    }
    build_terminal_args(program, class_name, executable)
}

} // verus!
