//! The decisions of an application that updates itself.

pub mod cache;
pub mod command;
pub mod dependencies;
pub mod download;
pub mod error;
pub mod install_linux;
pub mod install_macos;
pub mod install_windows;
pub mod installer_dir;
pub mod macos_task;
pub mod marker;
pub mod os_path;
pub mod polling;
pub mod release;
pub mod remote_server;
pub mod stale;
pub mod status;
pub mod text;
pub mod update_lock;
pub mod update_task;
pub mod updater;
pub mod version;
