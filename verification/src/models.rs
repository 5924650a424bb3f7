//! The data of the application: tools, packages, user state, menus, modals,
//! the install queue and the configuration.
use vstd::prelude::*;

use crate::utils::order::string_views;
use crate::utils::text::{copy_string, owned};
use crate::utils::unique::{first_index_of, lemma_first_index_of};
use crate::utils::validate::{valid_package_name, validate_package_name};

verus! {

/// The view of an optional string.
pub open spec fn opt_view(o: Option<String>) -> Option<Seq<char>> {
    match o {
        Some(s) => Some(s@),
        None => None,
    }
}

/// A copy of an optional string.
pub fn copy_opt(o: &Option<String>) -> (r: Option<String>)
    ensures
        opt_view(r) == opt_view(*o),
{
    match o {
        Some(s) => Some(s.clone()),
        None => None,
    }
}

/// A copy of a list of strings.
pub fn copy_strings(v: &Vec<String>) -> (r: Vec<String>)
    ensures
        string_views(r@) == string_views(v@),
{
    let mut r: Vec<String> = Vec::new();
    let mut i: usize = 0;
    while i < v.len()
        invariant
            i <= v@.len(),
            string_views(r@) == string_views(v@).take(i as int),
        decreases v@.len() - i,
    {
        let ghost before = string_views(r@);
        r.push(copy_string(&v[i]));
        assert(string_views(r@) =~= before.push(v@[i as int]@));
        assert(string_views(v@).take(i + 1) =~= string_views(v@).take(i as int).push(
            v@[i as int]@,
        ));
        i += 1;
    }
    assert(string_views(v@).take(v@.len() as int) =~= string_views(v@));
    r
}

/// Whether a package is installed.
#[derive(Debug, Clone, Copy, PartialEq, Eq, Structural)]
pub enum ToolStatus {
    Installed,
    NotInstalled,
    UpdateAvailable,
}

/// A BlackArch tool: a package together with what is known of it.
#[derive(Debug, Clone, PartialEq, Eq)]
pub struct BlackArchTool {
    pub name: String,
    pub package_name: String,
    pub category: Option<String>,
    pub categories: Vec<String>,
    pub version: Option<String>,
    pub description: Option<String>,
    pub executable: Option<String>,
    pub executables: Vec<String>,
    pub status: ToolStatus,
    pub favorite: bool,
}

/// The mathematical model of a [`BlackArchTool`].
pub struct ToolView {
    pub name: Seq<char>,
    pub package_name: Seq<char>,
    pub category: Option<Seq<char>>,
    pub categories: Seq<Seq<char>>,
    pub version: Option<Seq<char>>,
    pub description: Option<Seq<char>>,
    pub executable: Option<Seq<char>>,
    pub executables: Seq<Seq<char>>,
    pub status: ToolStatus,
    pub favorite: bool,
}

impl View for BlackArchTool {
    type V = ToolView;

    open spec fn view(&self) -> ToolView {
        ToolView {
            name: self.name@,
            package_name: self.package_name@,
            category: opt_view(self.category),
            categories: string_views(self.categories@),
            version: opt_view(self.version),
            description: opt_view(self.description),
            executable: opt_view(self.executable),
            executables: string_views(self.executables@),
            status: self.status,
            favorite: self.favorite,
        }
    }
}

/// The views of a sequence of tools.
pub open spec fn tool_views(v: Seq<BlackArchTool>) -> Seq<ToolView> {
    v.map_values(|t: BlackArchTool| t@)
}

impl BlackArchTool {
    /// A copy of this tool.
    pub fn duplicate(&self) -> (r: BlackArchTool)
        ensures
            r@ == self@,
    {
        BlackArchTool {
            name: copy_string(&self.name),
            package_name: copy_string(&self.package_name),
            category: copy_opt(&self.category),
            categories: copy_strings(&self.categories),
            version: copy_opt(&self.version),
            description: copy_opt(&self.description),
            executable: copy_opt(&self.executable),
            executables: copy_strings(&self.executables),
            status: self.status,
            favorite: self.favorite,
        }
    }
}

/// One result of a package search.
#[derive(Debug, Clone, PartialEq, Eq)]
pub struct PackageSearchResult {
    pub repository: String,
    pub name: String,
    pub version: Option<String>,
    pub groups: Vec<String>,
    pub description: Option<String>,
}

/// What `pacman` reports of a package.
#[derive(Debug, Clone, PartialEq, Eq)]
pub struct PackageInfo {
    pub repository: Option<String>,
    pub name: String,
    pub version: Option<String>,
    pub description: Option<String>,
    pub url: Option<String>,
    pub groups: Vec<String>,
    pub licenses: Vec<String>,
    pub installed: bool,
    pub executables: Vec<String>,
}

/// The mathematical model of a [`PackageInfo`].
pub struct PackageInfoView {
    pub repository: Option<Seq<char>>,
    pub name: Seq<char>,
    pub version: Option<Seq<char>>,
    pub description: Option<Seq<char>>,
    pub url: Option<Seq<char>>,
    pub groups: Seq<Seq<char>>,
    pub licenses: Seq<Seq<char>>,
    pub installed: bool,
    pub executables: Seq<Seq<char>>,
}

impl View for PackageInfo {
    type V = PackageInfoView;

    open spec fn view(&self) -> PackageInfoView {
        PackageInfoView {
            repository: opt_view(self.repository),
            name: self.name@,
            version: opt_view(self.version),
            description: opt_view(self.description),
            url: opt_view(self.url),
            groups: string_views(self.groups@),
            licenses: string_views(self.licenses@),
            installed: self.installed,
            executables: string_views(self.executables@),
        }
    }
}

/// The user's favorites and recently run tools.
#[derive(Debug, Clone, PartialEq, Eq)]
pub struct UserState {
    pub favorites: Vec<String>,
    pub recent: Vec<RecentTool>,
}

/// A tool that was run, and when.
#[derive(Debug, Clone, PartialEq, Eq)]
pub struct RecentTool {
    pub package_name: String,
    pub executable: Option<String>,
    pub last_used: String,
}

/// The mathematical model of a [`RecentTool`].
pub struct RecentView {
    pub package_name: Seq<char>,
    pub executable: Option<Seq<char>>,
    pub last_used: Seq<char>,
}

impl View for RecentTool {
    type V = RecentView;

    open spec fn view(&self) -> RecentView {
        RecentView {
            package_name: self.package_name@,
            executable: opt_view(self.executable),
            last_used: self.last_used@,
        }
    }
}

/// The views of a sequence of recent entries.
pub open spec fn recent_views(v: Seq<RecentTool>) -> Seq<RecentView> {
    v.map_values(|r: RecentTool| r@)
}

impl RecentTool {
    /// A copy of this entry.
    pub fn duplicate(&self) -> (r: RecentTool)
        ensures
            r@ == self@,
    {
        RecentTool {
            package_name: copy_string(&self.package_name),
            executable: copy_opt(&self.executable),
            last_used: copy_string(&self.last_used),
        }
    }
}

/// The mathematical model of a [`UserState`].
pub struct UserStateView {
    pub favorites: Seq<Seq<char>>,
    pub recent: Seq<RecentView>,
}

impl View for UserState {
    type V = UserStateView;

    open spec fn view(&self) -> UserStateView {
        UserStateView { favorites: string_views(self.favorites@), recent: recent_views(self.recent@) }
    }
}

impl Default for UserState {
    fn default() -> (r: UserState)
        ensures
            r.favorites@.len() == 0,
            r.recent@.len() == 0,
    {
        UserState { favorites: Vec::new(), recent: Vec::new() }
    }
}

/// An entry of the action menu.
#[derive(Debug, Clone, Copy, PartialEq, Eq, Structural)]
pub enum ActionMenuItem {
    RunInTerminal,
    InstallOrUpdate,
    Remove,
    ToggleFavorite,
    CopyCommand,
    RefreshDetails,
    PackageInfo,
    Cancel,
}

/// The action menu: whether it shows, which entry is selected, and its entries.
#[derive(Debug, Clone, PartialEq, Eq)]
pub struct ActionMenuState {
    pub visible: bool,
    pub selected_index: usize,
    pub items: Vec<ActionMenuItem>,
}

/// The entries of the action menu, in order.
pub open spec fn default_menu_items() -> Seq<ActionMenuItem> {
    seq![
        ActionMenuItem::RunInTerminal,
        ActionMenuItem::InstallOrUpdate,
        ActionMenuItem::Remove,
        ActionMenuItem::ToggleFavorite,
        ActionMenuItem::CopyCommand,
        ActionMenuItem::RefreshDetails,
        ActionMenuItem::PackageInfo,
        ActionMenuItem::Cancel,
    ]
}

/// The mathematical model of an [`ActionMenuState`].
pub struct ActionMenuView {
    pub visible: bool,
    pub selected_index: usize,
    pub items: Seq<ActionMenuItem>,
}

impl View for ActionMenuState {
    type V = ActionMenuView;

    open spec fn view(&self) -> ActionMenuView {
        ActionMenuView { visible: self.visible, selected_index: self.selected_index, items: self.items@ }
    }
}

impl Default for ActionMenuState {
    fn default() -> (r: ActionMenuState)
        ensures
            !r.visible,
            r.selected_index == 0,
            r.items@ == default_menu_items(),
    {
        let items = vec![
            ActionMenuItem::RunInTerminal,
            ActionMenuItem::InstallOrUpdate,
            ActionMenuItem::Remove,
            ActionMenuItem::ToggleFavorite,
            ActionMenuItem::CopyCommand,
            ActionMenuItem::RefreshDetails,
            ActionMenuItem::PackageInfo,
            ActionMenuItem::Cancel,
        ];
        assert(items@ =~= default_menu_items());
        ActionMenuState { visible: false, selected_index: 0, items }
    }
}

/// The package operation that a confirmation modal asks about.
#[derive(Debug, Clone, PartialEq, Eq)]
pub enum ConfirmAction {
    InstallPackages { packages: Vec<String> },
    RemovePackage { package_name: String },
}

/// The mathematical model of a [`ConfirmAction`].
pub enum ConfirmActionView {
    InstallPackages { packages: Seq<Seq<char>> },
    RemovePackage { package_name: Seq<char> },
}

impl View for ConfirmAction {
    type V = ConfirmActionView;

    open spec fn view(&self) -> ConfirmActionView {
        match self {
            ConfirmAction::InstallPackages { packages } => ConfirmActionView::InstallPackages {
                packages: string_views(packages@),
            },
            ConfirmAction::RemovePackage { package_name } => ConfirmActionView::RemovePackage {
                package_name: package_name@,
            },
        }
    }
}

/// The view of an optional confirm action.
pub open spec fn opt_action_view(a: Option<ConfirmAction>) -> Option<ConfirmActionView> {
    match a {
        Some(a) => Some(a@),
        None => None,
    }
}

impl ConfirmAction {
    /// A copy of this action.
    pub fn duplicate(&self) -> (r: ConfirmAction)
        ensures
            r@ == self@,
    {
        match self {
            ConfirmAction::InstallPackages { packages } => ConfirmAction::InstallPackages {
                packages: copy_strings(packages),
            },
            ConfirmAction::RemovePackage { package_name } => ConfirmAction::RemovePackage {
                package_name: copy_string(package_name),
            },
        }
    }
}

/// The packages waiting to be installed together.
#[derive(Debug, Clone, PartialEq, Eq)]
pub struct InstallQueue {
    pub packages: Vec<String>,
}

impl View for InstallQueue {
    type V = Seq<Seq<char>>;

    open spec fn view(&self) -> Seq<Seq<char>> {
        string_views(self.packages@)
    }
}

impl Default for InstallQueue {
    fn default() -> (r: InstallQueue)
        ensures
            r@.len() == 0,
    {
        InstallQueue { packages: Vec::new() }
    }
}

impl InstallQueue {
    /// The queue is well formed: every package name is valid and none occurs twice.
    pub open spec fn wf(&self) -> bool {
        &&& forall|i: int| 0 <= i < self@.len() ==> valid_package_name(#[trigger] self@[i])
        &&& self@.no_duplicates()
    }

    /// An empty queue.
    pub fn new() -> (r: InstallQueue)
        ensures
            r@ == Seq::<Seq<char>>::empty(),
            r.wf(),
    {
        let r = InstallQueue { packages: Vec::new() };
        assert(r@ =~= Seq::<Seq<char>>::empty());
        r
    }

    /// The position of `package_name` in the queue, if it is there.
    fn position(&self, package_name: &str) -> (r: Option<usize>)
        ensures
            match r {
                Some(i) => i < self@.len() && self@[i as int] == package_name@ && forall|j: int|
                    0 <= j < i ==> self@[j] != package_name@,
                None => !self@.contains(package_name@),
            },
    {
        let mut i: usize = 0;
        while i < self.packages.len()
            invariant
                i <= self@.len(),
                self@.len() == self.packages@.len(),
                forall|j: int| 0 <= j < i ==> self@[j] != package_name@,
            decreases self@.len() - i,
        {
            if crate::utils::text::str_eq(self.packages[i].as_str(), package_name) {
                return Some(i);
            }
            i += 1;
        }
        None
    }

    /// Adds a valid package name that is not queued yet; returns whether it was added.
    pub fn add(&mut self, package_name: String) -> (r: bool)
        ensures
            r == (valid_package_name(package_name@) && !old(self)@.contains(package_name@)),
            r ==> final(self)@ == old(self)@.push(package_name@),
            !r ==> final(self)@ == old(self)@,
            old(self).wf() ==> final(self).wf(),
    {
        if !validate_package_name(package_name.as_str()) || self.contains(package_name.as_str()) {
            return false;
        }
        let ghost before = self@;
        let ghost name = package_name@;
        self.packages.push(package_name);
        assert(self@ =~= before.push(name));
        proof {
            if old(self).wf() {
                assert forall|i: int, j: int|
                    0 <= i < self@.len() && 0 <= j < self@.len() && i != j implies self@[i]
                    != self@[j] by {
                    if i == before.len() as int {
                        assert(before[j] == self@[j]);
                    } else if j == before.len() as int {
                        assert(before[i] == self@[i]);
                    }
                }
            }
        }
        true
    }

    /// Removes the first occurrence of `package_name`; returns whether it was queued.
    pub fn remove(&mut self, package_name: &str) -> (r: bool)
        ensures
            r == old(self)@.contains(package_name@),
            r ==> final(self)@ == old(self)@.remove(first_index_of(old(self)@, package_name@)),
            !r ==> final(self)@ == old(self)@,
            old(self).wf() ==> final(self).wf(),
            old(self).wf() ==> !final(self)@.contains(package_name@),
    {
        match self.position(package_name) {
            Some(i) => {
                let ghost before = self@;
                self.packages.remove(i);
                assert(self@ =~= before.remove(i as int));
                proof {
                    lemma_first_index_of(before, package_name@, i as int);
                    assert(before.contains(package_name@)) by {
                        assert(before[i as int] == package_name@);
                    }
                    if old(self).wf() {
                        assert forall|k: int| 0 <= k < self@.len() implies valid_package_name(
                            #[trigger] self@[k],
                        ) by {
                            if k < i {
                                assert(self@[k] == before[k]);
                            } else {
                                assert(self@[k] == before[k + 1]);
                            }
                        }
                        assert forall|a: int, b: int|
                            0 <= a < self@.len() && 0 <= b < self@.len() && a != b implies self@[a]
                            != self@[b] by {
                            let aa = if a < i {
                                a
                            } else {
                                a + 1
                            };
                            let bb = if b < i {
                                b
                            } else {
                                b + 1
                            };
                            assert(self@[a] == before[aa]);
                            assert(self@[b] == before[bb]);
                        }
                        assert forall|k: int| 0 <= k < self@.len() implies self@[k]
                            != package_name@ by {
                            if k < i {
                                assert(self@[k] == before[k]);
                            } else {
                                assert(self@[k] == before[k + 1]);
                            }
                        }
                    }
                }
                true
            },
            None => false,
        }
    }

    /// Removes `package_name` when it is queued, else adds it; returns whether it was added.
    pub fn toggle(&mut self, package_name: String) -> (r: bool)
        ensures
            old(self)@.contains(package_name@) ==> !r && final(self)@ == old(self)@.remove(
                first_index_of(old(self)@, package_name@),
            ),
            !old(self)@.contains(package_name@) ==> r == valid_package_name(package_name@),
            !old(self)@.contains(package_name@) && r ==> final(self)@ == old(self)@.push(
                package_name@,
            ),
            !old(self)@.contains(package_name@) && !r ==> final(self)@ == old(self)@,
            old(self).wf() ==> final(self).wf(),
    {
        if self.remove(package_name.as_str()) {
            false
        } else {
            self.add(package_name)
        }
    }

    /// Whether `package_name` is queued.
    pub fn contains(&self, package_name: &str) -> (r: bool)
        ensures
            r == self@.contains(package_name@),
    {
        match self.position(package_name) {
            Some(i) => {
                assert(self@[i as int] == package_name@);
                true
            },
            None => false,
        }
    }

    /// Empties the queue.
    pub fn clear(&mut self)
        ensures
            final(self)@ == Seq::<Seq<char>>::empty(),
            final(self).wf(),
    {
        self.packages.clear();
        assert(self@ =~= Seq::<Seq<char>>::empty());
    }

    /// Whether the queue is empty.
    pub fn is_empty(&self) -> (r: bool)
        ensures
            r == (self@.len() == 0),
    {
        self.packages.len() == 0
    }

    /// The number of queued packages.
    pub fn len(&self) -> (r: usize)
        ensures
            r == self@.len(),
    {
        self.packages.len()
    }
}

/// A confirmation dialog for a package operation.
#[derive(Debug, Clone, PartialEq, Eq)]
pub struct ConfirmModalState {
    pub visible: bool,
    pub title: String,
    pub message: String,
    pub command_preview: Option<String>,
    pub confirm_label: String,
    pub cancel_label: String,
    pub selected_confirm: bool,
    pub action: Option<ConfirmAction>,
}

/// The mathematical model of a [`ConfirmModalState`].
pub struct ConfirmModalView {
    pub visible: bool,
    pub title: Seq<char>,
    pub message: Seq<char>,
    pub command_preview: Option<Seq<char>>,
    pub confirm_label: Seq<char>,
    pub cancel_label: Seq<char>,
    pub selected_confirm: bool,
    pub action: Option<ConfirmActionView>,
}

impl View for ConfirmModalState {
    type V = ConfirmModalView;

    open spec fn view(&self) -> ConfirmModalView {
        ConfirmModalView {
            visible: self.visible,
            title: self.title@,
            message: self.message@,
            command_preview: opt_view(self.command_preview),
            confirm_label: self.confirm_label@,
            cancel_label: self.cancel_label@,
            selected_confirm: self.selected_confirm,
            action: opt_action_view(self.action),
        }
    }
}

/// The closed confirmation dialog.
pub open spec fn closed_confirm_modal() -> ConfirmModalView {
    ConfirmModalView {
        visible: false,
        title: Seq::empty(),
        message: Seq::empty(),
        command_preview: None,
        confirm_label: "Confirm"@,
        cancel_label: "Cancel"@,
        selected_confirm: false,
        action: None,
    }
}

impl Default for ConfirmModalState {
    fn default() -> (r: ConfirmModalState)
        ensures
            r@ == closed_confirm_modal(),
    {
        let r = ConfirmModalState {
            visible: false,
            title: String::new(),
            message: String::new(),
            command_preview: None,
            confirm_label: owned("Confirm"),
            cancel_label: owned("Cancel"),
            selected_confirm: false,
            action: None,
        };
        assert(r@.title =~= Seq::<char>::empty());
        r
    }
}

/// A dialog asking for a password.
#[derive(Debug, Clone, PartialEq, Eq)]
pub struct PasswordInputModalState {
    pub visible: bool,
    pub title: String,
    pub message: String,
    pub password: String,
    pub confirm_label: String,
    pub cancel_label: String,
    pub action: Option<ConfirmAction>,
}

/// The mathematical model of a [`PasswordInputModalState`].
pub struct PasswordModalView {
    pub visible: bool,
    pub title: Seq<char>,
    pub message: Seq<char>,
    pub password: Seq<char>,
    pub confirm_label: Seq<char>,
    pub cancel_label: Seq<char>,
    pub action: Option<ConfirmActionView>,
}

impl View for PasswordInputModalState {
    type V = PasswordModalView;

    open spec fn view(&self) -> PasswordModalView {
        PasswordModalView {
            visible: self.visible,
            title: self.title@,
            message: self.message@,
            password: self.password@,
            confirm_label: self.confirm_label@,
            cancel_label: self.cancel_label@,
            action: opt_action_view(self.action),
        }
    }
}

impl Default for PasswordInputModalState {
    fn default() -> (r: PasswordInputModalState)
        ensures
            !r.visible,
            r.title@.len() == 0,
            r.message@.len() == 0,
            r.password@.len() == 0,
            r.confirm_label@ == "OK"@,
            r.cancel_label@ == "Cancel"@,
            r.action.is_none(),
    {
        PasswordInputModalState {
            visible: false,
            title: String::new(),
            message: String::new(),
            password: String::new(),
            confirm_label: owned("OK"),
            cancel_label: owned("Cancel"),
            action: None,
        }
    }
}

/// A BlackArch category and how many tools it holds.
#[derive(Debug, Clone, PartialEq, Eq)]
pub struct BlackArchCategory {
    pub name: String,
    pub tool_count: usize,
}

/// The configuration file's contents.
#[derive(Debug, Clone, PartialEq, Eq)]
pub struct AppConfig {
    pub ui: UiConfig,
    pub pacman: PacmanConfig,
    pub terminal: TerminalConfig,
}

/// The `[ui]` table of the configuration.
#[derive(Debug, Clone, PartialEq, Eq)]
pub struct UiConfig {
    pub theme: String,
    pub show_icons: bool,
}

/// The `[pacman]` table of the configuration.
#[derive(Debug, Clone, PartialEq, Eq)]
pub struct PacmanConfig {
    pub prefer_cache: bool,
    pub sync_on_start: bool,
    pub max_package_info_jobs: usize,
}

/// The `[terminal]` table of the configuration.
#[derive(Debug, Clone, PartialEq, Eq)]
pub struct TerminalConfig {
    pub program: String,
    pub runner_class: String,
    pub hold_after_run: bool,
}

/// When the tool cache was written, and how many tools it holds.
#[derive(Debug, Clone, PartialEq, Eq)]
pub struct CacheMetadata {
    pub generated_at: String,
    pub tool_count: usize,
}

impl Default for AppConfig {
    fn default() -> (r: AppConfig)
        ensures
            r.ui.theme@ == "catppuccin-mocha"@,
            r.ui.show_icons,
            r.pacman.prefer_cache,
            !r.pacman.sync_on_start,
            r.pacman.max_package_info_jobs == 8,
            r.terminal.program@ == "kitty"@,
            r.terminal.runner_class@ == "blackarch-tool-runner"@,
            !r.terminal.hold_after_run,
    {
        AppConfig {
            ui: UiConfig { theme: owned("catppuccin-mocha"), show_icons: true },
            pacman: PacmanConfig {
                prefer_cache: true,
                sync_on_start: false,
                max_package_info_jobs: 8,
            },
            terminal: TerminalConfig {
                program: owned("kitty"),
                runner_class: owned("blackarch-tool-runner"),
                hold_after_run: false,
            },
        }
    }
}

} // verus!
