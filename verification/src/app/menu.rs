//! The action menu, and the actions that run a tool or copy its command.
use vstd::prelude::*;

use crate::actions::privilege::{PrivilegeStatus, PrivilegeView};
use crate::app::events::refresh_holds;
use crate::app::filters::selected_tool_spec;
use crate::app::operations::{
    command_result, following_id, open_install_selected_spec, open_remove_spec,
};
use crate::app::records::{unit_result, with_status};
use crate::app::selection::{next_index, previous_index, wrap_next, wrap_previous};
use crate::app::{App, AppView};
use crate::error::{AppError, AppErrorView};
use crate::models::{ActionMenuItem, ActionMenuView, ToolStatus};
use crate::utils::text::{concat2, concat3, copy_string, owned};
use crate::worker::message::{opt_command_view, CommandView, WorkerCommand};

verus! {

/// What the interface must do after a menu action that needs the outside world.
#[derive(Debug)]
pub enum MenuEffect {
    /// Nothing more.
    Nothing,
    /// Send this request to the worker.
    Send(WorkerCommand),
    /// Toggle the selected tool's favorite flag (which rewrites the favorites file).
    ToggleFavorite,
    /// Copy the selected tool's command to the clipboard.
    CopyCommand,
}

/// The mathematical model of a [`MenuEffect`].
pub enum EffectView {
    Nothing,
    Send(CommandView),
    ToggleFavorite,
    CopyCommand,
}

/// The view of a result that carries a menu effect.
pub open spec fn effect_result(r: Result<MenuEffect, AppError>) -> Result<EffectView, AppErrorView> {
    match r {
        Ok(MenuEffect::Nothing) => Ok(EffectView::Nothing),
        Ok(MenuEffect::Send(c)) => Ok(EffectView::Send(c@)),
        Ok(MenuEffect::ToggleFavorite) => Ok(EffectView::ToggleFavorite),
        Ok(MenuEffect::CopyCommand) => Ok(EffectView::CopyCommand),
        Err(e) => Err(e@),
    }
}

/// A menu outcome as a request outcome: a request to send, or none.
pub open spec fn as_request(r: Result<EffectView, AppErrorView>) -> Result<Option<CommandView>, AppErrorView> {
    match r {
        Ok(EffectView::Send(c)) => Ok(Some(c)),
        Ok(_) => Ok(None),
        Err(e) => Err(e),
    }
}

/// The selected menu entry, if the selection is in range.
pub open spec fn selected_action_spec(v: AppView) -> Option<ActionMenuItem> {
    if v.action_menu.selected_index < v.action_menu.items.len() {
        Some(v.action_menu.items[v.action_menu.selected_index as int])
    } else {
        None
    }
}

/// `v` with the menu hidden.
pub open spec fn menu_closed(v: AppView) -> AppView {
    AppView { action_menu: ActionMenuView { visible: false, ..v.action_menu }, ..v }
}

/// `v` with menu entry `i` selected.
pub open spec fn menu_at(v: AppView, i: usize) -> AppView {
    AppView { action_menu: ActionMenuView { selected_index: i, ..v.action_menu }, ..v }
}

/// `v` with the menu shown on its first entry; or a message without a selected tool.
pub open spec fn open_menu_spec(v: AppView) -> AppView {
    if selected_tool_spec(v) is None {
        with_status(v, "No tool selected"@)
    } else {
        AppView {
            action_menu: ActionMenuView { visible: true, selected_index: 0, ..v.action_menu },
            ..v
        }
    }
}

/// The command offered for the selected tool: its first executable, else its
/// executable, else its package name.
pub open spec fn selected_command_spec(v: AppView) -> Option<Seq<char>> {
    match selected_tool_spec(v) {
        None => None,
        Some(t) => Some(
            if t.executables.len() > 0 {
                t.executables[0]
            } else {
                match t.executable {
                    Some(e) => e,
                    None => t.package_name,
                }
            },
        ),
    }
}

/// The executable to run for the selected tool, or why there is none: no
/// selection, a package that is not installed, details not loaded yet, or no
/// executable known.
pub open spec fn executable_spec(v: AppView) -> Result<Seq<char>, AppErrorView> {
    match selected_tool_spec(v) {
        None => Err(AppErrorView::Config("No tool selected"@)),
        Some(t) => if t.status != ToolStatus::Installed {
            Err(AppErrorView::Config("Package is not installed"@))
        } else if t.version is None && t.executables.len() == 0 && t.executable is None {
            Err(AppErrorView::Config("Package details are not loaded yet"@))
        } else {
            match t.executable {
                Some(e) => Ok(e),
                None => if t.executables.len() > 0 {
                    Ok(t.executables[0])
                } else {
                    Err(AppErrorView::Config("No executable found for this package"@))
                },
            }
        },
    }
}

/// What running the selected tool does: without a selection it only says so;
/// without an executable it fails; else it asks the worker to run the
/// executable under a new request.
pub open spec fn run_holds(v: AppView, after: AppView, r: Result<Option<CommandView>, AppErrorView>) -> bool {
    match selected_tool_spec(v) {
        None => r == Ok::<Option<CommandView>, AppErrorView>(None) && after == with_status(
            v,
            "No tool selected"@,
        ),
        Some(t) => match executable_spec(v) {
            Err(e) => r == Err::<Option<CommandView>, AppErrorView>(e) && after == v,
            Ok(x) => {
                let id = v.next_request_id;
                r == Ok::<Option<CommandView>, AppErrorView>(
                    Some(
                        CommandView::RunTool {
                            package_name: t.package_name,
                            executable: x,
                            request_id: id,
                        },
                    ),
                ) && after == (AppView {
                    next_request_id: following_id(id),
                    status_message: "Launching "@ + x + "..."@,
                    ..v
                })
            },
        },
    }
}

/// What copying the selected command does, given whether a clipboard program
/// exists and how the copy went: without a command it only says so; without a
/// clipboard program, or when the copy failed, it fails; else it says what was copied.
pub open spec fn copy_holds(
    v: AppView,
    clipboard_available: bool,
    copied: Result<(), AppErrorView>,
    after: AppView,
    r: Result<(), AppErrorView>,
) -> bool {
    match selected_command_spec(v) {
        None => r == Ok::<(), AppErrorView>(()) && after == with_status(v, "No command available"@),
        Some(c) => if !clipboard_available {
            r == Err::<(), AppErrorView>(
                AppErrorView::Config("No clipboard tool found. Install wl-clipboard."@),
            ) && after == v
        } else {
            match copied {
                Err(e) => r == Err::<(), AppErrorView>(e) && after == v,
                Ok(()) => r == Ok::<(), AppErrorView>(()) && after == with_status(
                    v,
                    "Copied command: "@ + c,
                ),
            }
        },
    }
}

/// What carrying out the selected menu entry does: the menu closes, then the
/// entry's action runs, or is left to the caller where it needs the outside
/// world; `p` is the result of a fresh privilege check, which the install and
/// remove dialogs take.
pub open spec fn execute_holds(
    v: AppView,
    p: PrivilegeView,
    after: AppView,
    r: Result<EffectView, AppErrorView>,
) -> bool {
    let c = menu_closed(v);
    match selected_action_spec(v) {
        Some(ActionMenuItem::RunInTerminal) => run_holds(c, after, as_request(r)) && !(r matches Ok(
            EffectView::ToggleFavorite,
        )) && !(r matches Ok(EffectView::CopyCommand)),
        Some(ActionMenuItem::InstallOrUpdate) => r == Ok::<EffectView, AppErrorView>(
            EffectView::Nothing,
        ) && after == open_install_selected_spec(c, p),
        Some(ActionMenuItem::Remove) => r == Ok::<EffectView, AppErrorView>(EffectView::Nothing)
            && after == open_remove_spec(c, p),
        Some(ActionMenuItem::ToggleFavorite) => r == Ok::<EffectView, AppErrorView>(
            EffectView::ToggleFavorite,
        ) && after == c,
        Some(ActionMenuItem::CopyCommand) => r == Ok::<EffectView, AppErrorView>(
            EffectView::CopyCommand,
        ) && after == c,
        Some(ActionMenuItem::RefreshDetails) => (r matches Ok(e) && match e {
            EffectView::Send(cmd) => refresh_holds(c, after, Some(cmd)),
            EffectView::Nothing => refresh_holds(c, after, None),
            _ => false,
        }),
        Some(ActionMenuItem::PackageInfo) => r == Ok::<EffectView, AppErrorView>(
            EffectView::Nothing,
        ) && after == with_status(c, "Package info is shown in the details pane"@),
        _ => r == Ok::<EffectView, AppErrorView>(EffectView::Nothing) && after == c,
    }
}

/// Whether carrying out the selected menu entry reloads details (which resets the selection clock).
pub open spec fn execute_reloads(v: AppView) -> bool {
    selected_action_spec(v) == Some(ActionMenuItem::RefreshDetails) && selected_tool_spec(v) is Some
}

impl App {
    /// Shows the action menu on its first entry, or says that no tool is selected.
    pub fn open_action_menu(&mut self)
        ensures
            final(self)@ == open_menu_spec(old(self)@),
            final(self).last_selection_change == old(self).last_selection_change,
    {
        if self.selected_tool().is_none() {
            self.status_message = owned("No tool selected");
            return;
        }
        self.action_menu.visible = true;
        self.action_menu.selected_index = 0;
    }

    /// Hides the action menu.
    pub fn close_action_menu(&mut self)
        ensures
            final(self)@ == menu_closed(old(self)@),
            final(self).last_selection_change == old(self).last_selection_change,
    {
        self.action_menu.visible = false;
    }

    /// Selects the next menu entry, wrapping around.
    pub fn select_next_action(&mut self)
        ensures
            final(self)@ == menu_at(
                old(self)@,
                if old(self)@.action_menu.items.len() == 0 {
                    0
                } else {
                    next_index(
                        old(self).action_menu.selected_index,
                        old(self)@.action_menu.items.len() as usize,
                    )
                },
            ),
            final(self).last_selection_change == old(self).last_selection_change,
    {
        if self.action_menu.items.len() == 0 {
            self.action_menu.selected_index = 0;
            return;
        }
        self.action_menu.selected_index = wrap_next(
            self.action_menu.selected_index,
            self.action_menu.items.len(),
        );
    }

    /// Selects the previous menu entry, wrapping around.
    pub fn select_previous_action(&mut self)
        ensures
            final(self)@ == menu_at(
                old(self)@,
                if old(self)@.action_menu.items.len() == 0 {
                    0
                } else {
                    previous_index(
                        old(self).action_menu.selected_index,
                        old(self)@.action_menu.items.len() as usize,
                    )
                },
            ),
            final(self).last_selection_change == old(self).last_selection_change,
    {
        if self.action_menu.items.len() == 0 {
            self.action_menu.selected_index = 0;
            return;
        }
        self.action_menu.selected_index = wrap_previous(
            self.action_menu.selected_index,
            self.action_menu.items.len(),
        );
    }

    /// The selected menu entry, if the selection is in range.
    pub fn selected_action(&self) -> (r: Option<ActionMenuItem>)
        ensures
            r == selected_action_spec(self@),
    {
        if self.action_menu.selected_index < self.action_menu.items.len() {
            Some(self.action_menu.items[self.action_menu.selected_index])
        } else {
            None
        }
    }

    /// The command offered for the selected tool.
    pub fn selected_command(&self) -> (r: Option<String>)
        ensures
            crate::models::opt_view(r) == selected_command_spec(self@),
    {
        match self.selected_tool() {
            None => None,
            Some(tool) => Some(
                if tool.executables.len() > 0 {
                    copy_string(&tool.executables[0])
                } else {
                    match &tool.executable {
                        Some(e) => copy_string(e),
                        None => copy_string(&tool.package_name),
                    }
                },
            ),
        }
    }

    /// The executable to run for the selected tool.
    pub fn selected_tool_executable(&self) -> (r: Result<String, AppError>)
        ensures
            crate::pacman::command::text_result(r) == executable_spec(self@),
    {
        let tool = match self.selected_tool() {
            Some(tool) => tool,
            None => {
                return Err(AppError::Config(owned("No tool selected")));
            },
        };
        if tool.status != ToolStatus::Installed {
            return Err(AppError::Config(owned("Package is not installed")));
        }
        if tool.version.is_none() && tool.executables.len() == 0 && tool.executable.is_none() {
            return Err(AppError::Config(owned("Package details are not loaded yet")));
        }
        match &tool.executable {
            Some(e) => Ok(copy_string(e)),
            None => if tool.executables.len() > 0 {
                Ok(copy_string(&tool.executables[0]))
            } else {
                Err(AppError::Config(owned("No executable found for this package")))
            },
        }
    }

    /// Says that the selected command was copied, given whether a clipboard
    /// program exists and how the copy went.
    pub fn copy_selected_command(&mut self, clipboard_available: bool, copied: Result<(), AppError>) -> (r:
        Result<(), AppError>)
        ensures
            copy_holds(old(self)@, clipboard_available, unit_result(copied), final(self)@, unit_result(r)),
            final(self).last_selection_change == old(self).last_selection_change,
    {
        let command = match self.selected_command() {
            Some(c) => c,
            None => {
                self.status_message = owned("No command available");
                return Ok(());
            },
        };
        if !clipboard_available {
            return Err(AppError::Config(owned("No clipboard tool found. Install wl-clipboard.")));
        }
        copied?;
        self.status_message = concat2("Copied command: ", command.as_str());
        Ok(())
    }

    /// Asks the worker to run the selected tool's executable.
    pub fn run_selected_tool(&mut self) -> (r: Result<Option<WorkerCommand>, AppError>)
        ensures
            run_holds(old(self)@, final(self)@, command_result(r)),
            final(self).last_selection_change == old(self).last_selection_change,
    {
        let package_name = match self.selected_tool() {
            Some(tool) => tool.package_name.clone(),
            None => {
                self.status_message = owned("No tool selected");
                return Ok(None);
            },
        };
        let executable = self.selected_tool_executable()?;
        let request_id = self.next_request_id();
        self.status_message = concat3("Launching ", executable.as_str(), "...");
        Ok(Some(WorkerCommand::RunTool { package_name, executable, request_id }))
    }

    /// Carries out the selected menu entry; returns what is left for the
    /// caller to do. `privilege` is the result of a fresh privilege check,
    /// which the install and remove dialogs take.
    pub fn execute_selected_action(&mut self, privilege: PrivilegeStatus) -> (r: Result<MenuEffect, AppError>)
        ensures
            execute_holds(old(self)@, privilege@, final(self)@, effect_result(r)),
            execute_reloads(old(self)@) ==> final(self).last_selection_change is None,
            !execute_reloads(old(self)@) ==> final(self).last_selection_change == old(
                self,
            ).last_selection_change,
    {
        let action = self.selected_action();
        self.close_action_menu();
        match action {
            Some(ActionMenuItem::RunInTerminal) => match self.run_selected_tool()? {
                Some(command) => Ok(MenuEffect::Send(command)),
                None => Ok(MenuEffect::Nothing),
            },
            Some(ActionMenuItem::InstallOrUpdate) => {
                self.open_install_confirmation_for_selected_package(privilege);
                Ok(MenuEffect::Nothing)
            },
            Some(ActionMenuItem::Remove) => {
                self.open_remove_confirmation_for_selected_package(privilege);
                Ok(MenuEffect::Nothing)
            },
            Some(ActionMenuItem::ToggleFavorite) => Ok(MenuEffect::ToggleFavorite),
            Some(ActionMenuItem::CopyCommand) => Ok(MenuEffect::CopyCommand),
            Some(ActionMenuItem::RefreshDetails) => match self.refresh_selected_tool_detail() {
                Some(command) => Ok(MenuEffect::Send(command)),
                None => Ok(MenuEffect::Nothing),
            },
            Some(ActionMenuItem::PackageInfo) => {
                self.status_message = owned("Package info is shown in the details pane");
                Ok(MenuEffect::Nothing)
            },
            _ => Ok(MenuEffect::Nothing),
        }
    }
}

} // verus!
