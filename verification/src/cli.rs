//! The commands of the command-line interface, and what they decide.
use vstd::prelude::*;

use crate::error::{AppError, AppErrorView};
use crate::models::{BlackArchTool, ToolStatus, ToolView};
use crate::utils::text::{copy_string, owned};

verus! {

/// The parsed command line: a subcommand, or none to start the interface.
#[derive(Debug)]
pub struct Cli {
    pub command: Option<Commands>,
}

/// The subcommands of the command line.
#[derive(Debug)]
pub enum Commands {
    Doctor,
    Categories,
    Tools { category: Option<String> },
    Info { package: String },
    Search { query: String },
    Executables { package: String },
    Run { package: String },
    Favorites,
    Favorite { package: String },
    Unfavorite { package: String },
    SyncCache,
}

/// The executable that the `run` command launches for `t`: its executable,
/// else its first executable; an error when it is not installed or has none.
pub open spec fn executable_for_run_spec(t: ToolView) -> Result<Seq<char>, AppErrorView> {
    if t.status != ToolStatus::Installed {
        Err(AppErrorView::Config("Package is not installed"@))
    } else {
        match t.executable {
            Some(e) => Ok(e),
            None => if t.executables.len() > 0 {
                Ok(t.executables[0])
            } else {
                Err(AppErrorView::Config("No executable found for this package"@))
            },
        }
    }
}

/// The executable that the `run` command launches for `tool`.
pub fn executable_for_run(tool: &BlackArchTool) -> (r: Result<String, AppError>)
    ensures
        crate::pacman::command::text_result(r) == executable_for_run_spec(tool@),
{
    if tool.status != ToolStatus::Installed {
        return Err(AppError::Config(owned("Package is not installed")));
    }
    match &tool.executable {
        Some(e) => Ok(copy_string(e)),
        None => if tool.executables.len() > 0 {
            Ok(copy_string(&tool.executables[0]))
        } else {
            Err(AppError::Config(owned("No executable found for this package")))
        },
    }
}

} // verus!
