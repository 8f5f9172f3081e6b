//! Plugins: manifests on disk, scripts run in a throwaway interpreter.

pub mod capability;
pub mod error;
pub mod invoke;
pub mod json;
pub mod listing;
pub mod manifest;
pub mod sandbox;

pub use invoke::run_plugin_command;
pub use listing::load_plugins;
pub use manifest::PluginInfo;
