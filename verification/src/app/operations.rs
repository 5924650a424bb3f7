//! Confirming and starting package operations: the confirmation dialogs, the
//! checks before an installation or a removal, and the requests sent to the
//! background worker.
use vstd::prelude::*;

use crate::actions::privilege::{PrivilegeStatus, PrivilegeView};
use crate::app::filters::selected_tool_spec;
use crate::app::queue::{check_result, install_check, remove_check};
use crate::app::records::{unit_result, with_status};
use crate::app::{App, AppView};
use crate::error::{error_message, AppError, AppErrorView};
use crate::models::{
    closed_confirm_modal, ConfirmAction, ConfirmActionView, ConfirmModalState, ConfirmModalView,
    ToolStatus,
};
use crate::utils::clock::{decimal, to_decimal};
use crate::utils::order::string_views;
use crate::utils::text::{concat2, join, join_spec, owned};
use crate::worker::message::{opt_command_view, CommandView, WorkerCommand};

verus! {

/// The view of a result that may carry a request to the worker.
pub open spec fn command_result(r: Result<Option<WorkerCommand>, AppError>) -> Result<
    Option<CommandView>,
    AppErrorView,
> {
    match r {
        Ok(c) => Ok(opt_command_view(c)),
        Err(e) => Err(e@),
    }
}

/// The message shown while another package operation runs.
pub open spec fn busy_message() -> Seq<char> {
    "Another package operation is already in progress"@
}

/// The error given when `pkexec` is missing.
pub open spec fn pkexec_missing_message() -> Seq<char> {
    "pkexec not found. Install polkit and make sure a polkit authentication agent is running."@
}

/// The message shown while the worker waits for the user to authenticate.
pub open spec fn waiting_message() -> Seq<char> {
    "Waiting for authentication prompt..."@
}

/// `v` with `p`, the result of a fresh privilege check, stored.
pub open spec fn with_privilege(v: AppView, p: PrivilegeView) -> AppView {
    AppView { privilege_status: Some(p), ..v }
}

/// The identifier after `id`, staying at the largest one.
pub open spec fn following_id(id: u64) -> u64 {
    if id < u64::MAX {
        (id + 1) as u64
    } else {
        id
    }
}

/// The index of the first package of `pkgs` that cannot be installed, or the number of packages.
pub open spec fn first_install_failure(v: AppView, pkgs: Seq<Seq<char>>) -> int
    decreases pkgs.len(),
{
    if pkgs.len() == 0 {
        0
    } else if install_check(v, pkgs[0]) is Some {
        0
    } else {
        1 + first_install_failure(v, pkgs.drop_first())
    }
}

proof fn lemma_first_install_failure(v: AppView, pkgs: Seq<Seq<char>>, i: int)
    requires
        0 <= i <= pkgs.len(),
        forall|j: int| 0 <= j < i ==> install_check(v, #[trigger] pkgs[j]) is None,
        i == pkgs.len() || install_check(v, pkgs[i]) is Some,
    ensures
        first_install_failure(v, pkgs) == i,
    decreases i,
{
    if i > 0 {
        assert(install_check(v, pkgs[0]) is None);
        assert forall|j: int| 0 <= j < i - 1 implies install_check(
            v,
            #[trigger] pkgs.drop_first()[j],
        ) is None by {
            assert(pkgs.drop_first()[j] == pkgs[j + 1]);
        }
        if i < pkgs.len() {
            assert(pkgs.drop_first()[i - 1] == pkgs[i]);
        }
        lemma_first_install_failure(v, pkgs.drop_first(), i - 1);
    }
}

/// The text of the installation dialog for `pkgs`.
pub open spec fn install_message(pkgs: Seq<Seq<char>>) -> Seq<char> {
    if pkgs.len() == 1 {
        "Package: "@ + pkgs[0]
            + "\n\nThis will install or update this package using pacman.\nA system authentication prompt may appear."@
    } else {
        "Packages: "@ + decimal(pkgs.len())
            + "\n\nThis will install or update all queued packages using pacman.\nA system authentication prompt may appear."@
    }
}

/// The installation dialog for `pkgs`, with the cancel button selected.
pub open spec fn install_modal(pkgs: Seq<Seq<char>>) -> ConfirmModalView {
    ConfirmModalView {
        visible: true,
        title: if pkgs.len() == 1 {
            "Install Package"@
        } else {
            "Install Packages"@
        },
        message: install_message(pkgs),
        command_preview: Some("pkexec pacman -S --needed --noconfirm "@ + join_spec(pkgs, " "@)),
        confirm_label: "Install"@,
        cancel_label: "Cancel"@,
        selected_confirm: false,
        action: Some(ConfirmActionView::InstallPackages { packages: pkgs }),
    }
}

/// `v` after asking to confirm the installation of `pkgs`, given a fresh
/// privilege check `p`: the error of the first package that cannot be
/// installed, a message for an empty list, or the dialog (with `p` stored).
pub open spec fn open_install_spec(v: AppView, pkgs: Seq<Seq<char>>, p: PrivilegeView) -> AppView {
    let k = first_install_failure(v, pkgs);
    if k < pkgs.len() {
        AppView {
            error_message: Some(error_message(install_check(v, pkgs[k]).unwrap())),
            status_message: "Install validation failed"@,
            ..v
        }
    } else if pkgs.len() == 0 {
        with_status(v, "Install queue is empty"@)
    } else {
        AppView { confirm_modal: install_modal(pkgs), ..with_privilege(v, p) }
    }
}

/// `v` after asking to confirm the installation of the selected package,
/// given a fresh privilege check `p`.
pub open spec fn open_install_selected_spec(v: AppView, p: PrivilegeView) -> AppView {
    match selected_tool_spec(v) {
        None => with_status(v, "No package selected"@),
        Some(t) => open_install_spec(v, seq![t.package_name], p),
    }
}

/// The removal dialog for `name`, with the cancel button selected.
pub open spec fn remove_modal(name: Seq<char>) -> ConfirmModalView {
    ConfirmModalView {
        visible: true,
        title: "Remove Package"@,
        message: "Package: "@ + name
            + "\n\nThis will remove the package and unused dependencies using pacman."@,
        command_preview: Some("pkexec pacman -Rns --noconfirm "@ + name),
        confirm_label: "Remove"@,
        cancel_label: "Cancel"@,
        selected_confirm: false,
        action: Some(ConfirmActionView::RemovePackage { package_name: name }),
    }
}

/// `v` after asking to confirm the removal of the selected package: refused
/// while another operation runs, for a package that is not installed, or one
/// that cannot be removed (its error shown); else the dialog, with `p`, the
/// result of a fresh privilege check, stored.
pub open spec fn open_remove_spec(v: AppView, p: PrivilegeView) -> AppView {
    match selected_tool_spec(v) {
        None => with_status(v, "No package selected"@),
        Some(t) => if v.install_in_progress {
            with_status(v, busy_message())
        } else if t.status != ToolStatus::Installed {
            with_status(v, "Package is not installed"@)
        } else {
            match remove_check(v, t.package_name) {
                Some(e) => AppView {
                    error_message: Some(error_message(e)),
                    status_message: error_message(e),
                    ..v
                },
                None => AppView { confirm_modal: remove_modal(t.package_name), ..with_privilege(v, p) },
            }
        },
    }
}

/// The dialog that the former installation flow showed for `name`.
pub open spec fn legacy_install_modal(name: Seq<char>) -> ConfirmModalView {
    ConfirmModalView {
        visible: true,
        title: "Install Package"@,
        message: "Package: "@ + name + "\n\nThis will install or update this package using pacman."@,
        command_preview: Some("pkexec pacman -S --needed --noconfirm "@ + name),
        confirm_label: "Install"@,
        cancel_label: "Cancel"@,
        selected_confirm: false,
        action: Some(ConfirmActionView::InstallPackages { packages: seq![name] }),
    }
}

/// `v` after the former installation flow for the selected package.
pub open spec fn open_install_legacy_spec(v: AppView) -> AppView {
    match selected_tool_spec(v) {
        None => with_status(v, "No package selected"@),
        Some(t) => match install_check(v, t.package_name) {
            Some(e) => AppView {
                error_message: Some(error_message(e)),
                status_message: "Install validation failed"@,
                ..v
            },
            None => AppView { confirm_modal: legacy_install_modal(t.package_name), ..v },
        },
    }
}

/// What starting the installation of `pkgs` does, given the state before and
/// after, a fresh privilege check `p` and the outcome: nothing while another
/// operation runs or for an empty list (a message says why); else `p` is
/// stored, and then an error while `pkexec` is missing or for the first
/// package that cannot be installed; else the installation is marked running
/// under a new request identifier and requested from the worker.
pub open spec fn start_install_holds(
    v: AppView,
    pkgs: Seq<Seq<char>>,
    p: PrivilegeView,
    after: AppView,
    r: Result<Option<CommandView>, AppErrorView>,
) -> bool {
    let w = with_privilege(v, p);
    if v.install_in_progress {
        r == Ok::<Option<CommandView>, AppErrorView>(None) && after == with_status(v, busy_message())
    } else if pkgs.len() == 0 {
        r == Ok::<Option<CommandView>, AppErrorView>(None) && after == with_status(
            v,
            "Install queue is empty"@,
        )
    } else if !p.pkexec_found {
        r == Err::<Option<CommandView>, AppErrorView>(
            AppErrorView::Config(pkexec_missing_message()),
        ) && after == w
    } else if first_install_failure(w, pkgs) < pkgs.len() {
        r == Err::<Option<CommandView>, AppErrorView>(
            install_check(w, pkgs[first_install_failure(w, pkgs)]).unwrap(),
        ) && after == w
    } else {
        let id = v.next_request_id;
        r == Ok::<Option<CommandView>, AppErrorView>(
            Some(CommandView::InstallPackages { package_names: pkgs, request_id: id }),
        ) && after == (AppView {
            next_request_id: following_id(id),
            install_in_progress: true,
            current_install_request_id: Some(id),
            install_queue_modal_visible: false,
            error_message: None,
            status_message: waiting_message(),
            ..w
        })
    }
}

/// What starting the removal of `name` does, given a fresh privilege check
/// `p`: nothing while another operation runs; an error for a package that
/// cannot be removed; else `p` is stored, and then an error while `pkexec` is
/// missing; else the removal is marked running under a new request
/// identifier and requested from the worker.
pub open spec fn start_remove_holds(
    v: AppView,
    name: Seq<char>,
    p: PrivilegeView,
    after: AppView,
    r: Result<Option<CommandView>, AppErrorView>,
) -> bool {
    let w = with_privilege(v, p);
    if v.install_in_progress {
        r == Ok::<Option<CommandView>, AppErrorView>(None) && after == with_status(v, busy_message())
    } else if remove_check(v, name) is Some {
        r == Err::<Option<CommandView>, AppErrorView>(remove_check(v, name).unwrap()) && after == v
    } else if !p.pkexec_found {
        r == Err::<Option<CommandView>, AppErrorView>(
            AppErrorView::Config(pkexec_missing_message()),
        ) && after == w
    } else {
        let id = v.next_request_id;
        r == Ok::<Option<CommandView>, AppErrorView>(
            Some(CommandView::RemovePackage { package_name: name, request_id: id }),
        ) && after == (AppView {
            next_request_id: following_id(id),
            install_in_progress: true,
            current_remove_request_id: Some(id),
            error_message: None,
            status_message: waiting_message(),
            ..w
        })
    }
}

/// The message shown when the dialog for `a` is cancelled.
pub open spec fn cancel_message(a: Option<ConfirmActionView>) -> Seq<char> {
    match a {
        Some(ConfirmActionView::RemovePackage { .. }) => "Remove cancelled"@,
        _ => "Install cancelled"@,
    }
}

/// What answering the confirmation dialog does: with the cancel button
/// selected it closes and says so; else it closes and starts the operation it
/// asked about, given a fresh privilege check `p`.
pub open spec fn confirm_holds(
    v: AppView,
    p: PrivilegeView,
    after: AppView,
    r: Result<Option<CommandView>, AppErrorView>,
) -> bool {
    let a = v.confirm_modal.action;
    let closed = AppView { confirm_modal: closed_confirm_modal(), ..v };
    if !v.confirm_modal.selected_confirm {
        r == Ok::<Option<CommandView>, AppErrorView>(None) && after == with_status(
            closed,
            cancel_message(a),
        )
    } else {
        match a {
            Some(ConfirmActionView::InstallPackages { packages }) => start_install_holds(
                closed,
                packages,
                p,
                after,
                r,
            ),
            Some(ConfirmActionView::RemovePackage { package_name }) => start_remove_holds(
                closed,
                package_name,
                p,
                after,
                r,
            ),
            None => r == Ok::<Option<CommandView>, AppErrorView>(None) && after == with_status(
                closed,
                "No install action selected"@,
            ),
        }
    }
}

impl App {
    /// Takes a new request identifier.
    pub fn next_request_id(&mut self) -> (r: u64)
        ensures
            r == old(self).next_request_id,
            final(self)@ == (AppView { next_request_id: following_id(r), ..old(self)@ }),
            final(self).last_selection_change == old(self).last_selection_change,
            final(self).install_queue == old(self).install_queue,
    {
        let request_id = self.next_request_id;
        self.next_request_id = if request_id < u64::MAX {
            request_id + 1
        } else {
            request_id
        };
        request_id
    }

    /// Records the result of a fresh privilege check.
    pub fn refresh_privilege_status(&mut self, status: PrivilegeStatus)
        ensures
            final(self)@ == (AppView { privilege_status: Some(status@), ..old(self)@ }),
            final(self).last_selection_change == old(self).last_selection_change,
            final(self).install_queue == old(self).install_queue,
    {
        self.privilege_status = Some(status);
    }

    /// Asks to confirm the installation of `packages`; `privilege` is the
    /// result of a fresh privilege check, stored when the dialog opens.
    fn open_install_confirmation_for_packages(&mut self, packages: Vec<String>, privilege: PrivilegeStatus)
        ensures
            final(self)@ == open_install_spec(old(self)@, string_views(packages@), privilege@),
            final(self).last_selection_change == old(self).last_selection_change,
            final(self).install_queue == old(self).install_queue,
    {
        let ghost v = self@;
        let ghost pkgs = string_views(packages@);
        let mut i: usize = 0;
        while i < packages.len()
            invariant
                i <= packages@.len(),
                v == self@,
                v == old(self)@,
                pkgs == string_views(packages@),
                self.last_selection_change == old(self).last_selection_change,
                self.install_queue == old(self).install_queue,
                forall|j: int| 0 <= j < i ==> install_check(v, #[trigger] pkgs[j]) is None,
            decreases packages@.len() - i,
        {
            assert(pkgs[i as int] == packages@[i as int]@);
            match self.validate_install_package(packages[i].as_str()) {
                Err(error) => {
                    proof {
                        lemma_first_install_failure(v, pkgs, i as int);
                    }
                    self.error_message = Some(error.message());
                    self.status_message = owned("Install validation failed");
                    return;
                },
                Ok(()) => {},
            }
            i += 1;
        }
        proof {
            lemma_first_install_failure(v, pkgs, i as int);
        }
        if packages.len() == 0 {
            self.status_message = owned("Install queue is empty");
            return;
        }
        self.refresh_privilege_status(privilege);
        let single = packages.len() == 1;
        let title = if single {
            owned("Install Package")
        } else {
            owned("Install Packages")
        };
        let message = if single {
            let mut m = concat2("Package: ", packages[0].as_str());
            m.append(
                "\n\nThis will install or update this package using pacman.\nA system authentication prompt may appear.",
            );
            m
        } else {
            let count = to_decimal(packages.len() as u64);
            let mut m = concat2("Packages: ", count.as_str());
            m.append(
                "\n\nThis will install or update all queued packages using pacman.\nA system authentication prompt may appear.",
            );
            m
        };
        let joined = join(&packages, " ");
        let preview = concat2("pkexec pacman -S --needed --noconfirm ", joined.as_str());
        self.confirm_modal = ConfirmModalState {
            visible: true,
            title,
            message,
            command_preview: Some(preview),
            confirm_label: owned("Install"),
            cancel_label: owned("Cancel"),
            selected_confirm: false,
            action: Some(ConfirmAction::InstallPackages { packages }),
        };
    }

    /// Asks to confirm the installation of the selected package; `privilege`
    /// is the result of a fresh privilege check.
    pub fn open_install_confirmation_for_selected_package(&mut self, privilege: PrivilegeStatus)
        ensures
            final(self)@ == open_install_selected_spec(old(self)@, privilege@),
            final(self).last_selection_change == old(self).last_selection_change,
            final(self).install_queue == old(self).install_queue,
    {
        let package_name = match self.selected_tool() {
            Some(tool) => tool.package_name.clone(),
            None => {
                self.status_message = owned("No package selected");
                return;
            },
        };
        let packages = vec![package_name];
        assert(string_views(packages@) =~= seq![packages@[0]@]);
        self.open_install_confirmation_for_packages(packages, privilege);
    }

    /// Asks to confirm the installation of the selected package; `privilege`
    /// is the result of a fresh privilege check.
    pub fn open_install_confirmation(&mut self, privilege: PrivilegeStatus)
        ensures
            final(self)@ == open_install_selected_spec(old(self)@, privilege@),
            final(self).last_selection_change == old(self).last_selection_change,
            final(self).install_queue == old(self).install_queue,
    {
        self.open_install_confirmation_for_selected_package(privilege);
    }

    /// Asks to confirm the installation of the queued packages; `privilege`
    /// is the result of a fresh privilege check.
    pub fn open_install_confirmation_for_queue(&mut self, privilege: PrivilegeStatus)
        ensures
            old(self)@.install_queue.len() == 0 ==> final(self)@ == with_status(
                old(self)@,
                "Install queue is empty"@,
            ),
            old(self)@.install_queue.len() > 0 ==> final(self)@ == open_install_spec(
                old(self)@,
                old(self)@.install_queue,
                privilege@,
            ),
            final(self).last_selection_change == old(self).last_selection_change,
            final(self).install_queue == old(self).install_queue,
    {
        if self.install_queue.is_empty() {
            self.status_message = owned("Install queue is empty");
            return;
        }
        let packages = crate::models::copy_strings(&self.install_queue.packages);
        self.open_install_confirmation_for_packages(packages, privilege);
    }

    /// Asks to confirm the removal of the selected package; `privilege` is the
    /// result of a fresh privilege check, stored when the dialog opens.
    pub fn open_remove_confirmation_for_selected_package(&mut self, privilege: PrivilegeStatus)
        ensures
            final(self)@ == open_remove_spec(old(self)@, privilege@),
            final(self).last_selection_change == old(self).last_selection_change,
            final(self).install_queue == old(self).install_queue,
    {
        let (package_name, status) = match self.selected_tool() {
            Some(tool) => (tool.package_name.clone(), tool.status),
            None => {
                self.status_message = owned("No package selected");
                return;
            },
        };
        if self.install_in_progress {
            self.status_message = owned("Another package operation is already in progress");
            return;
        }
        if status != ToolStatus::Installed {
            self.status_message = owned("Package is not installed");
            return;
        }
        if let Err(error) = self.validate_remove_package(package_name.as_str()) {
            let message = error.message();
            self.error_message = Some(message.clone());
            self.status_message = message;
            return;
        }
        self.refresh_privilege_status(privilege);
        let message = {
            let mut m = concat2("Package: ", package_name.as_str());
            m.append("\n\nThis will remove the package and unused dependencies using pacman.");
            m
        };
        let preview = concat2("pkexec pacman -Rns --noconfirm ", package_name.as_str());
        self.confirm_modal = ConfirmModalState {
            visible: true,
            title: owned("Remove Package"),
            message,
            command_preview: Some(preview),
            confirm_label: owned("Remove"),
            cancel_label: owned("Cancel"),
            selected_confirm: false,
            action: Some(ConfirmAction::RemovePackage { package_name }),
        };
    }

    /// Asks to confirm the installation of the selected package, as the former flow did.
    pub fn open_install_confirmation_legacy(&mut self)
        ensures
            final(self)@ == open_install_legacy_spec(old(self)@),
            final(self).last_selection_change == old(self).last_selection_change,
            final(self).install_queue == old(self).install_queue,
    {
        let package_name = match self.selected_tool() {
            Some(tool) => tool.package_name.clone(),
            None => {
                self.status_message = owned("No package selected");
                return;
            },
        };
        if let Err(error) = self.validate_install_package(package_name.as_str()) {
            self.error_message = Some(error.message());
            self.status_message = owned("Install validation failed");
            return;
        }
        let message = {
            let mut m = concat2("Package: ", package_name.as_str());
            m.append("\n\nThis will install or update this package using pacman.");
            m
        };
        let preview = concat2("pkexec pacman -S --needed --noconfirm ", package_name.as_str());
        let packages = vec![package_name];
        assert(string_views(packages@) =~= seq![packages@[0]@]);
        self.confirm_modal = ConfirmModalState {
            visible: true,
            title: owned("Install Package"),
            message,
            command_preview: Some(preview),
            confirm_label: owned("Install"),
            cancel_label: owned("Cancel"),
            selected_confirm: false,
            action: Some(ConfirmAction::InstallPackages { packages }),
        };
    }

    /// Closes the confirmation dialog.
    pub fn close_confirmation_modal(&mut self)
        ensures
            final(self)@ == (AppView { confirm_modal: closed_confirm_modal(), ..old(self)@ }),
            final(self).last_selection_change == old(self).last_selection_change,
            final(self).install_queue == old(self).install_queue,
    {
        self.confirm_modal = ConfirmModalState::default();
    }

    /// Moves the dialog's selection to the other button.
    pub fn toggle_confirmation_selection(&mut self)
        ensures
            final(self)@ == (AppView {
                confirm_modal: ConfirmModalView {
                    selected_confirm: !old(self)@.confirm_modal.selected_confirm,
                    ..old(self)@.confirm_modal
                },
                ..old(self)@
            }),
            final(self).last_selection_change == old(self).last_selection_change,
            final(self).install_queue == old(self).install_queue,
    {
        self.confirm_modal.selected_confirm = !self.confirm_modal.selected_confirm;
    }

    /// Stores `privilege`, the result of a fresh privilege check, and fails
    /// when it found `pkexec` missing.
    fn ensure_install_privileges_ready(&mut self, privilege: PrivilegeStatus) -> (r: Result<(), AppError>)
        ensures
            final(self)@ == with_privilege(old(self)@, privilege@),
            final(self).last_selection_change == old(self).last_selection_change,
            final(self).install_queue == old(self).install_queue,
            !privilege.pkexec_found ==> (r matches Err(e) && e@ == AppErrorView::Config(
                pkexec_missing_message(),
            )),
            privilege.pkexec_found ==> r is Ok,
    {
        let found = privilege.pkexec_found;
        self.refresh_privilege_status(privilege);
        if !found {
            return Err(
                AppError::Config(
                    owned(
                        "pkexec not found. Install polkit and make sure a polkit authentication agent is running.",
                    ),
                ),
            );
        }
        Ok(())
    }

    /// Starts installing `packages`, returning the request for the worker;
    /// `privilege` is the result of a fresh privilege check.
    pub fn start_install_packages(&mut self, packages: Vec<String>, privilege: PrivilegeStatus) -> (r: Result<
        Option<WorkerCommand>,
        AppError,
    >)
        ensures
            start_install_holds(
                old(self)@,
                string_views(packages@),
                privilege@,
                final(self)@,
                command_result(r),
            ),
            final(self).last_selection_change == old(self).last_selection_change,
            final(self).install_queue == old(self).install_queue,
    {
        if self.install_in_progress {
            self.status_message = owned("Another package operation is already in progress");
            return Ok(None);
        }
        if packages.len() == 0 {
            self.status_message = owned("Install queue is empty");
            return Ok(None);
        }
        self.ensure_install_privileges_ready(privilege)?;
        let ghost v = self@;
        let ghost pkgs = string_views(packages@);
        let mut i: usize = 0;
        while i < packages.len()
            invariant
                i <= packages@.len(),
                v == self@,
                v == with_privilege(old(self)@, privilege@),
                pkgs == string_views(packages@),
                self.last_selection_change == old(self).last_selection_change,
                self.install_queue == old(self).install_queue,
                !v.install_in_progress,
                privilege.pkexec_found,
                forall|j: int| 0 <= j < i ==> install_check(v, #[trigger] pkgs[j]) is None,
            decreases packages@.len() - i,
        {
            assert(pkgs[i as int] == packages@[i as int]@);
            if let Err(error) = self.validate_install_package(packages[i].as_str()) {
                proof {
                    lemma_first_install_failure(v, pkgs, i as int);
                }
                return Err(error);
            }
            i += 1;
        }
        proof {
            lemma_first_install_failure(v, pkgs, i as int);
        }
        let request_id = self.next_request_id();
        self.install_in_progress = true;
        self.current_install_request_id = Some(request_id);
        self.install_queue_modal_visible = false;
        self.error_message = None;
        self.status_message = owned("Waiting for authentication prompt...");
        Ok(Some(WorkerCommand::InstallPackages { package_names: packages, request_id }))
    }

    /// Starts installing `package_name`, returning the request for the
    /// worker; `privilege` is the result of a fresh privilege check.
    pub fn start_install_package(&mut self, package_name: String, privilege: PrivilegeStatus) -> (r: Result<
        Option<WorkerCommand>,
        AppError,
    >)
        ensures
            start_install_holds(
                old(self)@,
                seq![package_name@],
                privilege@,
                final(self)@,
                command_result(r),
            ),
            final(self).last_selection_change == old(self).last_selection_change,
            final(self).install_queue == old(self).install_queue,
    {
        let packages = vec![package_name];
        assert(string_views(packages@) =~= seq![packages@[0]@]);
        self.start_install_packages(packages, privilege)
    }

    /// Starts removing `package_name`, returning the request for the worker;
    /// `privilege` is the result of a fresh privilege check.
    pub fn start_remove_package(&mut self, package_name: String, privilege: PrivilegeStatus) -> (r: Result<
        Option<WorkerCommand>,
        AppError,
    >)
        ensures
            start_remove_holds(old(self)@, package_name@, privilege@, final(self)@, command_result(r)),
            final(self).last_selection_change == old(self).last_selection_change,
            final(self).install_queue == old(self).install_queue,
    {
        if self.install_in_progress {
            self.status_message = owned("Another package operation is already in progress");
            return Ok(None);
        }
        self.validate_remove_package(package_name.as_str())?;
        self.ensure_install_privileges_ready(privilege)?;
        let request_id = self.next_request_id();
        self.install_in_progress = true;
        self.current_remove_request_id = Some(request_id);
        self.error_message = None;
        self.status_message = owned("Waiting for authentication prompt...");
        Ok(Some(WorkerCommand::RemovePackage { package_name, request_id }))
    }

    /// Answers the confirmation dialog: cancels, or starts the operation it
    /// asked about; `privilege` is the result of a fresh privilege check.
    pub fn confirm_modal_action(&mut self, privilege: PrivilegeStatus) -> (r: Result<Option<WorkerCommand>, AppError>)
        ensures
            confirm_holds(old(self)@, privilege@, final(self)@, command_result(r)),
            final(self).last_selection_change == old(self).last_selection_change,
            final(self).install_queue == old(self).install_queue,
    {
        let action = match &self.confirm_modal.action {
            Some(a) => Some(a.duplicate()),
            None => None,
        };
        assert(crate::models::opt_action_view(action) == old(self)@.confirm_modal.action);
        if !self.confirm_modal.selected_confirm {
            self.close_confirmation_modal();
            self.status_message = match &action {
                Some(ConfirmAction::RemovePackage { .. }) => owned("Remove cancelled"),
                _ => owned("Install cancelled"),
            };
            return Ok(None);
        }
        self.close_confirmation_modal();
        match action {
            Some(ConfirmAction::InstallPackages { packages }) => self.start_install_packages(
                packages,
                privilege,
            ),
            Some(ConfirmAction::RemovePackage { package_name }) => self.start_remove_package(
                package_name,
                privilege,
            ),
            None => {
                self.status_message = owned("No install action selected");
                Ok(None)
            },
        }
    }
}

} // verus!
