//! The failures that the library reports.
use vstd::prelude::*;

verus! {

/// Why an operation on a settings document or on the registry failed.
#[derive(Debug)]
pub enum SettingsError {
    /// The text of a settings file is not a JSON document.
    Parse(serde_json::Error),
    /// The encoder refused to write a tree as text.
    Serialize(serde_json::Error),
    /// No settings file is registered under this ID.
    NotFound(usize),
    /// Nothing has been loaded yet from the settings file with this ID.
    NotLoaded(usize),
    /// New settings files may not be added from outside.
    Permission,
    /// The registry already holds as many settings files as it may.
    LimitExceeded,
    /// The path leaves the directory that settings files are confined to.
    ScopeViolation,
}

} // verus!
