//! Verified core of a bastion SSH server: access-control policies, role
//! hierarchies, configuration and login rules, the interactive choice of a target,
//! the administration console's state, and session recording.
pub mod text;
pub mod policy;
pub mod graph;
pub mod roles;
pub mod config;
pub mod models;
pub mod common;
pub mod login;
pub mod password;
pub mod tui;
pub mod table;
pub mod target_selector;
pub mod errors;
pub mod asciinema;
pub mod editor;
pub mod database;
pub mod manage;
pub mod permission;
pub mod group_editor;
pub mod console;
pub mod playback;
pub mod bind_editor;
pub mod grant_role;
pub mod admin_shell;
pub mod init;
pub mod viewer;
