//! The interface's state and every change that a key press or a worker report
//! makes to it. Changes that need the outside world (files, processes, the
//! clock's reading aside) receive what it gave, or return the request to send
//! to the background worker.
use vstd::prelude::*;

use crate::actions::action_menu::default_state;
use crate::actions::privilege::{opt_privilege_view, PrivilegeStatus, PrivilegeView};
use crate::models::{
    closed_confirm_modal, default_menu_items, opt_view, tool_views, ActionMenuState,
    ActionMenuView, BlackArchTool, ConfirmModalState, ConfirmModalView, InstallQueue,
    PasswordInputModalState, PasswordModalView, ToolView, UserState, UserStateView,
};
use crate::utils::order::string_views;
use crate::utils::text::owned;

pub mod categories;
pub mod events;
pub mod filters;
pub mod keys;
pub mod menu;
pub mod operations;
pub mod queue;
pub mod records;
pub mod selection;

verus! {

/// The pane that receives key presses.
#[derive(Debug, Clone, Copy, PartialEq, Eq, Structural)]
pub enum FocusPane {
    Categories,
    Tools,
    Details,
    Search,
}

/// The state of the interface.
pub struct App {
    pub tools: Vec<BlackArchTool>,
    pub filtered_tools: Vec<BlackArchTool>,
    pub categories: Vec<String>,
    pub selected_tool_index: usize,
    pub selected_category_index: usize,
    pub search_query: String,
    pub focus: FocusPane,
    pub loading: bool,
    pub detail_loading: bool,
    pub error_message: Option<String>,
    pub status_message: String,
    pub current_detail_request_id: u64,
    pub next_request_id: u64,
    pub pending_detail_package: Option<String>,
    /// When the selection last changed, on the monotonic clock.
    pub last_selection_change: Option<std::time::Instant>,
    pub detail_debounce_ms: u64,
    pub user_state: UserState,
    pub action_menu: ActionMenuState,
    pub confirm_modal: ConfirmModalState,
    pub password_input_modal: PasswordInputModalState,
    pub install_queue: InstallQueue,
    pub install_queue_modal_visible: bool,
    pub install_queue_selected_index: usize,
    pub install_in_progress: bool,
    pub current_install_request_id: Option<u64>,
    pub current_remove_request_id: Option<u64>,
    pub privilege_status: Option<PrivilegeStatus>,
    pub should_quit: bool,
}

/// The mathematical model of an [`App`]: every field but the clock reading
/// `last_selection_change`, which contracts state apart.
#[verifier::ext_equal]
pub struct AppView {
    pub tools: Seq<ToolView>,
    pub filtered_tools: Seq<ToolView>,
    pub categories: Seq<Seq<char>>,
    pub selected_tool_index: usize,
    pub selected_category_index: usize,
    pub search_query: Seq<char>,
    pub focus: FocusPane,
    pub loading: bool,
    pub detail_loading: bool,
    pub error_message: Option<Seq<char>>,
    pub status_message: Seq<char>,
    pub current_detail_request_id: u64,
    pub next_request_id: u64,
    pub pending_detail_package: Option<Seq<char>>,
    pub detail_debounce_ms: u64,
    pub user_state: UserStateView,
    pub action_menu: ActionMenuView,
    pub confirm_modal: ConfirmModalView,
    pub password_input_modal: PasswordModalView,
    pub install_queue: Seq<Seq<char>>,
    pub install_queue_modal_visible: bool,
    pub install_queue_selected_index: usize,
    pub install_in_progress: bool,
    pub current_install_request_id: Option<u64>,
    pub current_remove_request_id: Option<u64>,
    pub privilege_status: Option<PrivilegeView>,
    pub should_quit: bool,
}

impl View for App {
    type V = AppView;

    open spec fn view(&self) -> AppView {
        AppView {
            tools: tool_views(self.tools@),
            filtered_tools: tool_views(self.filtered_tools@),
            categories: string_views(self.categories@),
            selected_tool_index: self.selected_tool_index,
            selected_category_index: self.selected_category_index,
            search_query: self.search_query@,
            focus: self.focus,
            loading: self.loading,
            detail_loading: self.detail_loading,
            error_message: opt_view(self.error_message),
            status_message: self.status_message@,
            current_detail_request_id: self.current_detail_request_id,
            next_request_id: self.next_request_id,
            pending_detail_package: opt_view(self.pending_detail_package),
            detail_debounce_ms: self.detail_debounce_ms,
            user_state: self.user_state@,
            action_menu: self.action_menu@,
            confirm_modal: self.confirm_modal@,
            password_input_modal: self.password_input_modal@,
            install_queue: self.install_queue@,
            install_queue_modal_visible: self.install_queue_modal_visible,
            install_queue_selected_index: self.install_queue_selected_index,
            install_in_progress: self.install_in_progress,
            current_install_request_id: self.current_install_request_id,
            current_remove_request_id: self.current_remove_request_id,
            privilege_status: opt_privilege_view(self.privilege_status),
            should_quit: self.should_quit,
        }
    }
}

/// The categories that are not BlackArch groups, listed before them.
pub open spec fn virtual_categories() -> Seq<Seq<char>> {
    seq!["All Tools"@, "Installed"@, "Favorites"@, "Recent"@]
}

/// The categories that are not BlackArch groups.
pub fn virtual_category_list() -> (r: Vec<String>)
    ensures
        string_views(r@) == virtual_categories(),
{
    let r = vec![owned("All Tools"), owned("Installed"), owned("Favorites"), owned("Recent")];
    assert(string_views(r@) =~= virtual_categories());
    r
}

/// The interface as it starts.
pub open spec fn initial_view() -> AppView {
    AppView {
        tools: seq![],
        filtered_tools: seq![],
        categories: virtual_categories(),
        selected_tool_index: 0,
        selected_category_index: 0,
        search_query: seq![],
        focus: FocusPane::Tools,
        loading: false,
        detail_loading: false,
        error_message: None,
        status_message: "Ready"@,
        current_detail_request_id: 0,
        next_request_id: 1,
        pending_detail_package: None,
        detail_debounce_ms: 200,
        user_state: UserStateView { favorites: seq![], recent: seq![] },
        action_menu: ActionMenuView { visible: false, selected_index: 0, items: default_menu_items() },
        confirm_modal: closed_confirm_modal(),
        password_input_modal: PasswordModalView {
            visible: false,
            title: seq![],
            message: seq![],
            password: seq![],
            confirm_label: "OK"@,
            cancel_label: "Cancel"@,
            action: None,
        },
        install_queue: seq![],
        install_queue_modal_visible: false,
        install_queue_selected_index: 0,
        install_in_progress: false,
        current_install_request_id: None,
        current_remove_request_id: None,
        privilege_status: None,
        should_quit: false,
    }
}

impl App {
    /// The interface as it starts: no tools, the virtual categories, ready.
    pub fn new() -> (r: App)
        ensures
            r@ == initial_view(),
            r.last_selection_change.is_none(),
            r.install_queue.wf(),
    {
        let r = App {
            tools: Vec::new(),
            filtered_tools: Vec::new(),
            categories: virtual_category_list(),
            selected_tool_index: 0,
            selected_category_index: 0,
            search_query: String::new(),
            focus: FocusPane::Tools,
            loading: false,
            detail_loading: false,
            error_message: None,
            status_message: owned("Ready"),
            current_detail_request_id: 0,
            next_request_id: 1,
            pending_detail_package: None,
            last_selection_change: None,
            detail_debounce_ms: 200,
            user_state: UserState::default(),
            action_menu: default_state(),
            confirm_modal: ConfirmModalState::default(),
            password_input_modal: PasswordInputModalState::default(),
            install_queue: InstallQueue::new(),
            install_queue_modal_visible: false,
            install_queue_selected_index: 0,
            install_in_progress: false,
            current_install_request_id: None,
            current_remove_request_id: None,
            privilege_status: None,
            should_quit: false,
        };
        assert(r@.tools =~= seq![]);
        assert(r@.filtered_tools =~= seq![]);
        assert(r@.search_query =~= seq![]);
        assert(r@.user_state.favorites =~= seq![]);
        assert(r@.user_state.recent =~= seq![]);
        assert(r@.password_input_modal.title =~= seq![]);
        assert(r@.password_input_modal.message =~= seq![]);
        assert(r@.password_input_modal.password =~= seq![]);
        assert(r@ =~= initial_view());
        r
    }
}

} // verus!
