//! Which operation a key press asks for. The open dialog takes the key first
//! (confirmation, then action menu, then install queue), then the search
//! field while it has the focus, then the main view.
use vstd::prelude::*;

use crate::app::records::with_status;
use crate::app::{App, AppView, FocusPane};
use crate::utils::text::owned;

verus! {

/// A key press, as far as the interface tells keys apart.
#[derive(Debug, Clone, Copy, PartialEq, Eq, Structural)]
pub enum Key {
    Char(char),
    Up,
    Down,
    Left,
    Right,
    Enter,
    Esc,
    Tab,
    Backspace,
    Delete,
    Other,
}

/// The operation that a key press asks for.
#[derive(Debug, Clone, Copy, PartialEq, Eq, Structural)]
pub enum KeyAction {
    Ignore,
    Quit,
    ClearError,
    FocusNext,
    EnterSearch,
    ExitSearch,
    PushSearchChar(char),
    PopSearchChar,
    PreviousTool,
    NextTool,
    PreviousCategory,
    NextCategory,
    OpenActionMenu,
    PreviousAction,
    NextAction,
    ExecuteAction,
    CloseActionMenu,
    ToggleConfirmation,
    Confirm,
    CloseConfirmation,
    PreviousQueueItem,
    NextQueueItem,
    RemoveQueueItem,
    InstallQueue,
    CloseQueue,
    ToggleInQueue,
    OpenQueue,
    Sync,
    RefreshDetail,
    RunTool,
    Install,
    Remove,
    ToggleFavorite,
    CopyCommand,
    ShowHelp,
}

/// Keys of the confirmation dialog.
pub open spec fn confirm_key_spec(key: Key) -> KeyAction {
    match key {
        Key::Left | Key::Right | Key::Tab => KeyAction::ToggleConfirmation,
        Key::Enter => KeyAction::Confirm,
        Key::Esc | Key::Char('q') => KeyAction::CloseConfirmation,
        _ => KeyAction::Ignore,
    }
}

/// Keys of the action menu.
pub open spec fn menu_key_spec(key: Key) -> KeyAction {
    match key {
        Key::Up => KeyAction::PreviousAction,
        Key::Down => KeyAction::NextAction,
        Key::Enter => KeyAction::ExecuteAction,
        Key::Esc | Key::Char('q') => KeyAction::CloseActionMenu,
        _ => KeyAction::Ignore,
    }
}

/// Keys of the install queue dialog.
pub open spec fn queue_key_spec(key: Key) -> KeyAction {
    match key {
        Key::Up => KeyAction::PreviousQueueItem,
        Key::Down => KeyAction::NextQueueItem,
        Key::Delete | Key::Char('x') => KeyAction::RemoveQueueItem,
        Key::Enter => KeyAction::InstallQueue,
        Key::Esc | Key::Char('q') => KeyAction::CloseQueue,
        _ => KeyAction::Ignore,
    }
}

/// Keys of the search field: a character is typed into the query.
pub open spec fn search_key_spec(key: Key) -> KeyAction {
    match key {
        Key::Esc | Key::Enter | Key::Tab => KeyAction::ExitSearch,
        Key::Backspace => KeyAction::PopSearchChar,
        Key::Char(c) => KeyAction::PushSearchChar(c),
        Key::Up => KeyAction::PreviousTool,
        Key::Down => KeyAction::NextTool,
        _ => KeyAction::Ignore,
    }
}

/// Keys of the main view; the arrows move in the categories while that pane
/// has the focus, else in the tools.
pub open spec fn main_key_spec(focus: FocusPane, key: Key) -> KeyAction {
    match key {
        Key::Char('q') => KeyAction::Quit,
        Key::Esc => KeyAction::ClearError,
        Key::Tab => KeyAction::FocusNext,
        Key::Char('/') => KeyAction::EnterSearch,
        Key::Up => if focus == FocusPane::Categories {
            KeyAction::PreviousCategory
        } else {
            KeyAction::PreviousTool
        },
        Key::Down => if focus == FocusPane::Categories {
            KeyAction::NextCategory
        } else {
            KeyAction::NextTool
        },
        Key::Enter => KeyAction::OpenActionMenu,
        Key::Char('a') => KeyAction::ToggleInQueue,
        Key::Char('I') => KeyAction::OpenQueue,
        Key::Char('s') => KeyAction::Sync,
        Key::Char('d') => KeyAction::RefreshDetail,
        Key::Char('r') => KeyAction::RunTool,
        Key::Char('i') => KeyAction::Install,
        Key::Char('x') => KeyAction::Remove,
        Key::Char('f') => KeyAction::ToggleFavorite,
        Key::Char('c') => KeyAction::CopyCommand,
        Key::Char('?') => KeyAction::ShowHelp,
        _ => KeyAction::Ignore,
    }
}

/// The operation that `key` asks for in state `a`.
pub open spec fn key_action_spec(a: AppView, key: Key) -> KeyAction {
    if a.confirm_modal.visible {
        confirm_key_spec(key)
    } else if a.action_menu.visible {
        menu_key_spec(key)
    } else if a.install_queue_modal_visible {
        queue_key_spec(key)
    } else if a.focus == FocusPane::Search {
        search_key_spec(key)
    } else {
        main_key_spec(a.focus, key)
    }
}

fn confirm_key(key: Key) -> (r: KeyAction)
    ensures
        r == confirm_key_spec(key),
{
    match key {
        Key::Left | Key::Right | Key::Tab => KeyAction::ToggleConfirmation,
        Key::Enter => KeyAction::Confirm,
        Key::Esc | Key::Char('q') => KeyAction::CloseConfirmation,
        _ => KeyAction::Ignore,
    }
}

fn menu_key(key: Key) -> (r: KeyAction)
    ensures
        r == menu_key_spec(key),
{
    match key {
        Key::Up => KeyAction::PreviousAction,
        Key::Down => KeyAction::NextAction,
        Key::Enter => KeyAction::ExecuteAction,
        Key::Esc | Key::Char('q') => KeyAction::CloseActionMenu,
        _ => KeyAction::Ignore,
    }
}

fn queue_key(key: Key) -> (r: KeyAction)
    ensures
        r == queue_key_spec(key),
{
    match key {
        Key::Up => KeyAction::PreviousQueueItem,
        Key::Down => KeyAction::NextQueueItem,
        Key::Delete | Key::Char('x') => KeyAction::RemoveQueueItem,
        Key::Enter => KeyAction::InstallQueue,
        Key::Esc | Key::Char('q') => KeyAction::CloseQueue,
        _ => KeyAction::Ignore,
    }
}

fn search_key(key: Key) -> (r: KeyAction)
    ensures
        r == search_key_spec(key),
{
    match key {
        Key::Esc | Key::Enter | Key::Tab => KeyAction::ExitSearch,
        Key::Backspace => KeyAction::PopSearchChar,
        Key::Char(c) => KeyAction::PushSearchChar(c),
        Key::Up => KeyAction::PreviousTool,
        Key::Down => KeyAction::NextTool,
        _ => KeyAction::Ignore,
    }
}

fn main_key(focus: FocusPane, key: Key) -> (r: KeyAction)
    ensures
        r == main_key_spec(focus, key),
{
    let in_categories = match focus {
        FocusPane::Categories => true,
        _ => false,
    };
    match key {
        Key::Char('q') => KeyAction::Quit,
        Key::Esc => KeyAction::ClearError,
        Key::Tab => KeyAction::FocusNext,
        Key::Char('/') => KeyAction::EnterSearch,
        Key::Up => if in_categories {
            KeyAction::PreviousCategory
        } else {
            KeyAction::PreviousTool
        },
        Key::Down => if in_categories {
            KeyAction::NextCategory
        } else {
            KeyAction::NextTool
        },
        Key::Enter => KeyAction::OpenActionMenu,
        Key::Char('a') => KeyAction::ToggleInQueue,
        Key::Char('I') => KeyAction::OpenQueue,
        Key::Char('s') => KeyAction::Sync,
        Key::Char('d') => KeyAction::RefreshDetail,
        Key::Char('r') => KeyAction::RunTool,
        Key::Char('i') => KeyAction::Install,
        Key::Char('x') => KeyAction::Remove,
        Key::Char('f') => KeyAction::ToggleFavorite,
        Key::Char('c') => KeyAction::CopyCommand,
        Key::Char('?') => KeyAction::ShowHelp,
        _ => KeyAction::Ignore,
    }
}

/// The help line shown in the status bar.
pub open spec fn help_text() -> Seq<char> {
    "Help: ↑↓ move • Tab focus • / search • Enter menu • a queue • I queue • s sync • q quit"@
}

impl App {
    /// The operation that `key` asks for in the current state.
    pub fn key_action(&self, key: Key) -> (r: KeyAction)
        ensures
            r == key_action_spec(self@, key),
    {
        if self.confirm_modal.visible {
            confirm_key(key)
        } else if self.action_menu.visible {
            menu_key(key)
        } else if self.install_queue_modal_visible {
            queue_key(key)
        } else {
            match self.focus {
                FocusPane::Search => search_key(key),
                _ => main_key(self.focus, key),
            }
        }
    }

    /// Shows the key help in the status bar; nothing else changes.
    pub fn show_help(&mut self)
        ensures
            final(self)@ == with_status(old(self)@, help_text()),
            final(self).last_selection_change == old(self).last_selection_change,
    {
        self.status_message = owned(
            "Help: ↑↓ move • Tab focus • / search • Enter menu • a queue • I queue • s sync • q quit",
        );
        proof {
            reveal_strlit(
                "Help: ↑↓ move • Tab focus • / search • Enter menu • a queue • I queue • s sync • q quit",
            );
        }
    }
}

} // verus!
