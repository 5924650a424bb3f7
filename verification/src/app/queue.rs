//! The install queue as the interface edits it, and the checks a package
//! passes before it is installed or removed.
use vstd::prelude::*;

use crate::app::filters::{selected_tool_spec, tool_names, tool_position};
use crate::app::records::{unit_result, with_status};
use crate::app::selection::{next_index, previous_index, wrap_next, wrap_previous};
use crate::app::{App, AppView};
use crate::error::{AppError, AppErrorView};
use crate::models::ToolStatus;
use crate::utils::text::{concat2, concat3, owned};
use crate::utils::unique::{first_index_of, lemma_first_index_of_bounds};
use crate::utils::validate::{valid_package_name, validate_package_name};

verus! {

/// The message of a package that the tool list does not hold.
pub open spec fn not_available() -> Seq<char> {
    "Package is not available in the BlackArch tool list"@
}

/// Why `name` cannot be installed, if it cannot: an invalid name, or a
/// package that the tool list does not hold.
pub open spec fn install_check(v: AppView, name: Seq<char>) -> Option<AppErrorView> {
    if !valid_package_name(name) {
        Some(AppErrorView::InvalidPackageName(name))
    } else if !tool_names(v.tools).contains(name) {
        Some(AppErrorView::Config(not_available()))
    } else {
        None
    }
}

/// Why `name` cannot be removed, if it cannot: an invalid name, a package that
/// the tool list does not hold, or one whose (first) record is not installed.
pub open spec fn remove_check(v: AppView, name: Seq<char>) -> Option<AppErrorView> {
    let k = first_index_of(tool_names(v.tools), name);
    if !valid_package_name(name) {
        Some(AppErrorView::InvalidPackageName(name))
    } else if k >= v.tools.len() {
        Some(AppErrorView::Config(not_available()))
    } else if v.tools[k].status != ToolStatus::Installed {
        Some(AppErrorView::Config("Package is not installed"@))
    } else {
        None
    }
}

/// The outcome of a check as a result.
pub open spec fn check_result(c: Option<AppErrorView>) -> Result<(), AppErrorView> {
    match c {
        Some(e) => Err(e),
        None => Ok(()),
    }
}

/// `v` with queue `q`.
pub open spec fn with_queue(v: AppView, q: Seq<Seq<char>>) -> AppView {
    AppView { install_queue: q, ..v }
}

/// The outcome of toggling the selected package in the queue, given the state
/// before and after: no selection changes only the status; a package that
/// cannot be installed gives its error; else it leaves the queue when queued
/// and joins it otherwise.
pub open spec fn queue_toggle_holds(v: AppView, after: AppView, r: Result<(), AppErrorView>) -> bool {
    match selected_tool_spec(v) {
        None => r == Ok::<(), AppErrorView>(()) && after == with_status(v, "No package selected"@),
        Some(t) => {
            let n = t.package_name;
            match install_check(v, n) {
                Some(e) => r == Err::<(), AppErrorView>(e) && after == v,
                None => r == Ok::<(), AppErrorView>(()) && if v.install_queue.contains(n) {
                    after == with_status(
                        with_queue(v, v.install_queue.remove(first_index_of(v.install_queue, n))),
                        "Removed "@ + n + " from install queue"@,
                    )
                } else {
                    after == with_status(
                        with_queue(v, v.install_queue.push(n)),
                        "Added "@ + n + " to install queue"@,
                    )
                },
            }
        },
    }
}

/// The outcome of adding the selected package to the queue.
pub open spec fn queue_add_holds(v: AppView, after: AppView, r: Result<(), AppErrorView>) -> bool {
    match selected_tool_spec(v) {
        None => r == Ok::<(), AppErrorView>(()) && after == with_status(v, "No package selected"@),
        Some(t) => {
            let n = t.package_name;
            match install_check(v, n) {
                Some(e) => r == Err::<(), AppErrorView>(e) && after == v,
                None => r == Ok::<(), AppErrorView>(()) && if v.install_queue.contains(n) {
                    after == with_status(v, n + " is already queued"@)
                } else {
                    after == with_status(
                        with_queue(v, v.install_queue.push(n)),
                        "Added "@ + n + " to install queue"@,
                    )
                },
            }
        },
    }
}

/// The outcome of removing the selected package from the queue.
pub open spec fn queue_remove_spec(v: AppView) -> AppView {
    match selected_tool_spec(v) {
        None => with_status(v, "No package selected"@),
        Some(t) => {
            let n = t.package_name;
            if v.install_queue.contains(n) {
                with_status(
                    with_queue(v, v.install_queue.remove(first_index_of(v.install_queue, n))),
                    "Removed "@ + n + " from install queue"@,
                )
            } else {
                with_status(v, n + " is not queued"@)
            }
        },
    }
}

/// `i` clamped to a list of `len` entries (zero for an empty list).
pub open spec fn clamp_index(i: usize, len: int) -> usize {
    if len == 0 {
        0
    } else if i < len - 1 {
        i
    } else {
        (len - 1) as usize
    }
}

/// `i` clamped to a list of `len` entries (zero for an empty list).
pub fn clamp(i: usize, len: usize) -> (r: usize)
    ensures
        r == clamp_index(i, len as int),
{
    if len == 0 {
        0
    } else if i < len - 1 {
        i
    } else {
        len - 1
    }
}

/// `v` with the queue shown, the selection clamped; or a message for an empty queue.
pub open spec fn open_queue_spec(v: AppView) -> AppView {
    if v.install_queue.len() == 0 {
        with_status(v, "Install queue is empty"@)
    } else {
        AppView {
            install_queue_modal_visible: true,
            install_queue_selected_index: clamp_index(
                v.install_queue_selected_index,
                v.install_queue.len() as int,
            ),
            ..v
        }
    }
}

/// `v` with the selected queue entry removed and the selection clamped; or a
/// message when no entry is selected.
pub open spec fn remove_queue_item_spec(v: AppView) -> AppView {
    let i = v.install_queue_selected_index;
    if i < v.install_queue.len() {
        let n = v.install_queue[i as int];
        let q = v.install_queue.remove(first_index_of(v.install_queue, n));
        AppView {
            install_queue: q,
            install_queue_selected_index: clamp_index(i, q.len() as int),
            status_message: "Removed "@ + n + " from install queue"@,
            ..v
        }
    } else {
        with_status(v, "Install queue is empty"@)
    }
}

impl App {
    /// Checks that `package_name` can be installed: a valid name that the tool list holds.
    pub fn validate_install_package(&self, package_name: &str) -> (r: Result<(), AppError>)
        ensures
            unit_result(r) == check_result(install_check(self@, package_name@)),
    {
        if !validate_package_name(package_name) {
            return Err(AppError::InvalidPackageName(owned(package_name)));
        }
        let k = tool_position(&self.tools, package_name);
        proof {
            lemma_first_index_of_bounds(tool_names(self@.tools), package_name@);
        }
        if k >= self.tools.len() {
            return Err(
                AppError::Config(owned("Package is not available in the BlackArch tool list")),
            );
        }
        Ok(())
    }

    /// Checks that `package_name` can be removed: a valid name that the tool
    /// list holds, installed.
    pub fn validate_remove_package(&self, package_name: &str) -> (r: Result<(), AppError>)
        ensures
            unit_result(r) == check_result(remove_check(self@, package_name@)),
    {
        if !validate_package_name(package_name) {
            return Err(AppError::InvalidPackageName(owned(package_name)));
        }
        let k = tool_position(&self.tools, package_name);
        if k >= self.tools.len() {
            return Err(
                AppError::Config(owned("Package is not available in the BlackArch tool list")),
            );
        }
        if self.tools[k].status != ToolStatus::Installed {
            return Err(AppError::Config(owned("Package is not installed")));
        }
        Ok(())
    }

    /// Adds the selected package to the install queue, or removes it when it is queued.
    pub fn toggle_selected_package_in_queue(&mut self) -> (r: Result<(), AppError>)
        ensures
            queue_toggle_holds(old(self)@, final(self)@, unit_result(r)),
            final(self).last_selection_change == old(self).last_selection_change,
            old(self).install_queue.wf() ==> final(self).install_queue.wf(),
    {
        let package_name = match self.selected_tool() {
            Some(tool) => tool.package_name.clone(),
            None => {
                self.status_message = owned("No package selected");
                return Ok(());
            },
        };
        self.validate_install_package(package_name.as_str())?;
        let added = self.install_queue.toggle(package_name.clone());
        self.status_message = if added {
            concat3("Added ", package_name.as_str(), " to install queue")
        } else {
            concat3("Removed ", package_name.as_str(), " from install queue")
        };
        Ok(())
    }

    /// Adds the selected package to the install queue unless it is queued.
    pub fn add_selected_package_to_queue(&mut self) -> (r: Result<(), AppError>)
        ensures
            queue_add_holds(old(self)@, final(self)@, unit_result(r)),
            final(self).last_selection_change == old(self).last_selection_change,
            old(self).install_queue.wf() ==> final(self).install_queue.wf(),
    {
        let package_name = match self.selected_tool() {
            Some(tool) => tool.package_name.clone(),
            None => {
                self.status_message = owned("No package selected");
                return Ok(());
            },
        };
        self.validate_install_package(package_name.as_str())?;
        if self.install_queue.add(package_name.clone()) {
            self.status_message = concat3("Added ", package_name.as_str(), " to install queue");
        } else {
            self.status_message = concat2(package_name.as_str(), " is already queued");
        }
        Ok(())
    }

    /// Removes the selected package from the install queue, if it is queued.
    pub fn remove_selected_package_from_queue(&mut self) -> (r: Result<(), AppError>)
        ensures
            r is Ok,
            final(self)@ == queue_remove_spec(old(self)@),
            final(self).last_selection_change == old(self).last_selection_change,
            old(self).install_queue.wf() ==> final(self).install_queue.wf(),
    {
        let package_name = match self.selected_tool() {
            Some(tool) => tool.package_name.clone(),
            None => {
                self.status_message = owned("No package selected");
                return Ok(());
            },
        };
        if self.install_queue.remove(package_name.as_str()) {
            self.status_message = concat3("Removed ", package_name.as_str(), " from install queue");
        } else {
            self.status_message = concat2(package_name.as_str(), " is not queued");
        }
        Ok(())
    }

    /// Shows the install queue, or says that it is empty.
    pub fn open_install_queue_modal(&mut self)
        ensures
            final(self)@ == open_queue_spec(old(self)@),
            final(self).last_selection_change == old(self).last_selection_change,
            final(self).install_queue == old(self).install_queue,
    {
        if self.install_queue.is_empty() {
            self.status_message = owned("Install queue is empty");
            return;
        }
        self.install_queue_modal_visible = true;
        self.install_queue_selected_index = clamp(
            self.install_queue_selected_index,
            self.install_queue.len(),
        );
    }

    /// Hides the install queue.
    pub fn close_install_queue_modal(&mut self)
        ensures
            final(self)@ == (AppView { install_queue_modal_visible: false, ..old(self)@ }),
            final(self).last_selection_change == old(self).last_selection_change,
            final(self).install_queue == old(self).install_queue,
    {
        self.install_queue_modal_visible = false;
    }

    /// Selects the next queue entry, wrapping around.
    pub fn select_next_queue_item(&mut self)
        ensures
            final(self)@ == (AppView {
                install_queue_selected_index: if old(self)@.install_queue.len() == 0 {
                    0
                } else {
                    next_index(
                        old(self).install_queue_selected_index,
                        old(self)@.install_queue.len() as usize,
                    )
                },
                ..old(self)@
            }),
            final(self).last_selection_change == old(self).last_selection_change,
            final(self).install_queue == old(self).install_queue,
    {
        if self.install_queue.is_empty() {
            self.install_queue_selected_index = 0;
            return;
        }
        self.install_queue_selected_index = wrap_next(
            self.install_queue_selected_index,
            self.install_queue.len(),
        );
    }

    /// Selects the previous queue entry, wrapping around.
    pub fn select_previous_queue_item(&mut self)
        ensures
            final(self)@ == (AppView {
                install_queue_selected_index: if old(self)@.install_queue.len() == 0 {
                    0
                } else {
                    previous_index(
                        old(self).install_queue_selected_index,
                        old(self)@.install_queue.len() as usize,
                    )
                },
                ..old(self)@
            }),
            final(self).last_selection_change == old(self).last_selection_change,
            final(self).install_queue == old(self).install_queue,
    {
        if self.install_queue.is_empty() {
            self.install_queue_selected_index = 0;
            return;
        }
        self.install_queue_selected_index = wrap_previous(
            self.install_queue_selected_index,
            self.install_queue.len(),
        );
    }

    /// Removes the selected queue entry, or says that the queue is empty.
    pub fn remove_selected_queue_item(&mut self)
        ensures
            final(self)@ == remove_queue_item_spec(old(self)@),
            final(self).last_selection_change == old(self).last_selection_change,
            old(self).install_queue.wf() ==> final(self).install_queue.wf(),
    {
        if self.install_queue_selected_index >= self.install_queue.len() {
            self.status_message = owned("Install queue is empty");
            return;
        }
        let package_name = self.install_queue.packages[self.install_queue_selected_index].clone();
        assert(package_name@ == self@.install_queue[self.install_queue_selected_index as int]);
        assert(self@.install_queue.contains(package_name@));
        self.install_queue.remove(package_name.as_str());
        self.install_queue_selected_index = clamp(
            self.install_queue_selected_index,
            self.install_queue.len(),
        );
        self.status_message = concat3("Removed ", package_name.as_str(), " from install queue");
    }
}

} // verus!
