//! Remote projects: SSH hosts, WSL distributions and development containers.
//!
//! The library holds the rules by which remote connections are described,
//! stored, listed, opened and repaired. It runs no process and reads no file:
//! it says which command to run or which question to ask next, and what the
//! answer means.
pub mod config_picker;
pub mod connection;
pub mod create_page;
pub mod create_state;
pub mod dev_container;
pub mod dev_container_build;
pub mod dev_container_status;
pub mod docker;
pub mod docker_exec;
pub mod docker_server;
pub mod material;
pub mod modal;
pub mod model;
pub mod open_project;
pub mod output;
pub mod overlay;
pub mod process;
pub mod projects;
pub mod remote_entries;
pub mod servers_page;
pub mod settings;
pub mod settings_sync;
pub mod shell;
pub mod ssh_config;
pub mod ssh_config_laws;
pub mod ssh_form;
pub mod text;
pub mod theme;
