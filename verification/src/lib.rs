pub mod actions;
pub mod app;
pub mod cache;
pub mod cli;
pub mod config;
pub mod error;
pub mod laws;
pub mod models;
pub mod pacman;
pub mod services;
pub mod ui;
pub mod user_state;
pub mod utils;
pub mod worker;
