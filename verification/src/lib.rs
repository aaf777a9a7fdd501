//! A store for user settings: JSON documents that are read and written by
//! dot-separated key paths, kept in files that a registry tracks by ID.
pub mod config;
pub mod error;
pub mod handlers;
pub mod json;
pub mod text;
pub mod tree;
pub mod dot_notation;
pub mod scope;
pub mod storage;
pub mod settings;
pub mod state;

pub use config::PluginConfigOptions;
pub use settings::{SettingsFile, SettingsFileOptions};
