pub mod action_menu;
pub mod clipboard;
pub mod package_installer;
pub mod package_remover;
pub mod privilege;
pub mod terminal_runner;
