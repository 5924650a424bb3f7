//! The entries of the action menu and their labels.
use vstd::prelude::*;

use crate::models::{default_menu_items, ActionMenuItem, ActionMenuState};

verus! {

/// The action menu as it starts: hidden, first entry selected, all entries present.
pub fn default_state() -> (r: ActionMenuState)
    ensures
        !r.visible,
        r.selected_index == 0,
        r.items@ == default_menu_items(),
{
    ActionMenuState::default()
}

/// The label shown for a menu entry; the favorite entry depends on whether the tool is a favorite.
pub open spec fn item_label_spec(item: ActionMenuItem, favorite: bool) -> Seq<char> {
    match item {
        ActionMenuItem::RunInTerminal => "Run in terminal"@,
        ActionMenuItem::InstallOrUpdate => "Install / Update"@,
        ActionMenuItem::Remove => "Remove"@,
        ActionMenuItem::ToggleFavorite => if favorite {
            "Remove from Favorites"@
        } else {
            "Add to Favorites"@
        },
        ActionMenuItem::CopyCommand => "Copy Command"@,
        ActionMenuItem::RefreshDetails => "Refresh Details"@,
        ActionMenuItem::PackageInfo => "Package Info"@,
        ActionMenuItem::Cancel => "Cancel"@,
    }
}

/// The label shown for a menu entry.
pub fn item_label(item: ActionMenuItem, favorite: bool) -> (r: &'static str)
    ensures
        r@ == item_label_spec(item, favorite),
{
    match item {
        ActionMenuItem::RunInTerminal => "Run in terminal",
        ActionMenuItem::InstallOrUpdate => "Install / Update",
        ActionMenuItem::Remove => "Remove",
        ActionMenuItem::ToggleFavorite => if favorite {
            "Remove from Favorites"
        } else {
            "Add to Favorites"
        },
        ActionMenuItem::CopyCommand => "Copy Command",
        ActionMenuItem::RefreshDetails => "Refresh Details",
        ActionMenuItem::PackageInfo => "Package Info",
        ActionMenuItem::Cancel => "Cancel",
    }
}

} // verus!
