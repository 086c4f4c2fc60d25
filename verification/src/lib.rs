//! Project-type and service classification: given a plain-data snapshot of a
//! directory tree, determine which frameworks, package managers, ports and
//! commands its projects use, and compose single-project detection into
//! multi-service project graphs.

pub mod cargo_toml;
pub mod commands;
pub mod docker;
pub mod docker_compose;
pub mod framework;
pub mod fstree;
pub mod kv;
pub mod models;
pub mod monorepo;
pub mod package_json;
pub mod package_manager;
pub mod port;
pub mod project_scanner;
pub mod records;
pub mod scan;
pub mod service_type;
pub mod tauri_conf;
pub mod text;
