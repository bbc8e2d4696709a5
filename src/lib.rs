//! Core of a small npm-style package manager: package manifests, their
//! discovery, script execution outcomes, registry metadata and package name
//! validation.

pub mod banned_names;
pub mod text;
pub mod pairs;
pub mod validation;
pub mod json;
pub mod package_json;
pub mod run_script;
pub mod locate;
pub mod registry;
pub mod cli;
