//! What a `pacman` run gives back. The process is started around this module,
//! which receives how the run ended.
use vstd::prelude::*;

use crate::error::{AppError, AppErrorView};
use crate::utils::order::string_views;
use crate::utils::scan::{trim_chars, trim_spec};
use crate::utils::text::{chars_of, join, join_spec, owned, string_from_chars};

verus! {

/// How a run of a command ended.
#[derive(Debug)]
pub enum CommandRun {
    /// The process could not be started; the description of the failure.
    NotStarted(String),
    /// The process ran: whether it exited successfully, its exit status as
    /// text, and what it wrote to its standard output and error output.
    Exited { success: bool, status: String, stdout: String, stderr: String },
}

/// The text of the command `pacman` with `args`, as reported in errors.
pub open spec fn pacman_command_line(args: Seq<Seq<char>>) -> Seq<char> {
    "pacman "@ + join_spec(args, " "@)
}

/// The outcome of running `pacman` with `args`: an error when `pacman` is
/// missing, when the process could not start, or when it failed (with its
/// trimmed error output); else its standard output.
pub open spec fn pacman_result_spec(args: Seq<Seq<char>>, pacman_found: bool, run: CommandRun) -> Result<
    Seq<char>,
    AppErrorView,
> {
    if !pacman_found {
        Err(AppErrorView::PacmanNotFound)
    } else {
        match run {
            CommandRun::NotStarted(m) => Err(AppErrorView::Io(m@)),
            CommandRun::Exited { success, status, stdout, stderr } => if success {
                Ok(stdout@)
            } else {
                Err(
                    AppErrorView::CommandFailed {
                        command: pacman_command_line(args),
                        status: status@,
                        stderr: trim_spec(stderr@),
                    },
                )
            },
        }
    }
}

/// The view of a result that carries text.
pub open spec fn text_result(r: Result<String, AppError>) -> Result<Seq<char>, AppErrorView> {
    match r {
        Ok(s) => Ok(s@),
        Err(e) => Err(e@),
    }
}

/// The views of a list of string slices.
pub open spec fn str_views(v: Seq<&str>) -> Seq<Seq<char>> {
    v.map_values(|s: &str| s@)
}

/// The output of `pacman` run with `args`, given whether `pacman` was found
/// and how the run ended.
pub fn run_pacman_owned(args: Vec<String>, pacman_found: bool, run: CommandRun) -> (r: Result<
    String,
    AppError,
>)
    ensures
        text_result(r) == pacman_result_spec(string_views(args@), pacman_found, run),
{
    if !pacman_found {
        return Err(AppError::PacmanNotFound);
    }
    match run {
        CommandRun::NotStarted(message) => Err(AppError::Io(message)),
        CommandRun::Exited { success, status, stdout, stderr } => {
            if success {
                Ok(stdout)
            } else {
                let mut command = owned("pacman ");
                let joined = join(&args, " ");
                command.append(joined.as_str());
                let trimmed = string_from_chars(&trim_chars(&chars_of(stderr.as_str())));
                Err(AppError::CommandFailed { command, status, stderr: trimmed })
            }
        },
    }
}

/// The output of `pacman` run with `args`, given whether `pacman` was found
/// and how the run ended.
pub fn run_pacman(args: &[&str], pacman_found: bool, run: CommandRun) -> (r: Result<
    String,
    AppError,
>)
    ensures
        text_result(r) == pacman_result_spec(str_views(args@), pacman_found, run),
{
    let mut owned_args: Vec<String> = Vec::new();
    let mut i: usize = 0;
    while i < args.len()
        invariant
            i <= args@.len(),
            string_views(owned_args@) == str_views(args@).take(i as int),
        decreases args@.len() - i,
    {
        let ghost before = string_views(owned_args@);
        owned_args.push(owned(args[i]));
        assert(string_views(owned_args@) =~= before.push(args@[i as int]@));
        assert(str_views(args@).take(i + 1) =~= str_views(args@).take(i as int).push(
            args@[i as int]@,
        ));
        i += 1;
    }
    assert(str_views(args@).take(args@.len() as int) =~= str_views(args@));
    run_pacman_owned(owned_args, pacman_found, run)
}

} // verus!
