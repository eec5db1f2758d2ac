//! Session and work-item logic for a tmux-based workspace pilot.
pub mod text;
pub mod config;
pub mod html;
pub mod tmux;
pub mod copilot;
pub mod fuzzy;
pub mod order;
pub mod azdo;
pub mod demo;
pub mod lists;
pub mod screen;
pub mod entries;
pub mod merge;
pub mod showcase;
pub mod store;
pub mod display;
pub mod plans;
pub mod listing;
pub mod watch;
pub mod poll;
pub mod watch_list;
pub mod notices;
pub mod cli;
pub mod env_config;
pub mod setup;
pub mod keys;
pub mod hierarchy;
