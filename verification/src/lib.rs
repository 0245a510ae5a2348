//! Verified core logic of the Mendimaru WinBoat Studio Pro manager.
pub mod asset_imports;
pub mod asset_mirror;
pub mod bounded_command;
pub mod container;
pub mod contracts;
pub mod coordination;
pub mod diagnostics;
pub mod environment;
pub mod guest_apps;
pub mod installed_versions;
pub mod nvram;
pub mod operation_watch;
pub mod outside;
pub mod paths;
pub mod project_access;
pub mod project_launches;
pub mod project_locks;
pub mod project_watcher;
pub mod projects;
pub mod remote_app;
pub mod runtime_rules;
pub mod runtime_session;
pub mod scripts;
pub mod security;
pub mod session_registry;
pub mod settings;
pub mod staging;
pub mod startup;
pub mod startup_diagnostics;
pub mod studio_cache;
pub mod studio_ops;
pub mod studio_sessions;
pub mod text;
pub mod ui_automation;
pub mod ui_bridge;
pub mod windows_reason;
pub mod workspace_scan;
