//! One settings file: where it lies, how it is written, and what reading and
//! writing a key does to its text.
use vstd::prelude::*;
use crate::dot_notation::{
    exists_dot_notation,
    get_dot_notation,
    path_exists,
    path_get,
    path_segments,
    path_set,
    set_dot_notation,
};
use crate::error::SettingsError;
use crate::json::parsed_json;
use crate::storage::{encode, encoded, load_settings_file};
use crate::tree::{TreeValue, TreeView};

verus! {

/// One settings JSON file.
#[derive(Debug)]
pub struct SettingsFile {
    /// Path to the settings file.
    pub file_path: String,
    /// Whether to prettify the JSON output. (Default: `false`)
    pub prettify: bool,
}

/// What a caller from outside gives to have a settings file added.
#[derive(Debug)]
pub struct SettingsFileOptions {
    /// Path to the settings file relative to the scope directory.
    pub scoped_file_path: String,
    /// Whether to prettify the JSON before storing in the settings file.
    /// (Default: `false`)
    pub prettify: Option<bool>,
    /// The values to write to the settings file when it is created. (Default:
    /// an empty object)
    pub default_settings: Option<TreeValue>,
}

/// The tree that a new settings file holds: the given one, or an empty object.
pub open spec fn initial_tree(default_settings: Option<TreeValue>) -> TreeView {
    match default_settings {
        Some(settings) => settings@,
        None => TreeView::Object(Map::empty()),
    }
}

/// What has to be written so that a settings file exists: nothing where it is
/// present, the text of `tree` where it is not. `None` at the top where the
/// encoder gives an error.
pub open spec fn ensured(present: bool, tree: TreeView, prettify: bool) -> Option<Option<Seq<char>>> {
    if present {
        Some(None)
    } else {
        match encoded(tree, prettify) {
            Some(text) => Some(Some(text)),
            None => None,
        }
    }
}

/// The text of the file after `value` is set at `key`; `None` where the
/// encoder gives an error.
pub open spec fn text_after_set(tree: TreeView, key: Seq<char>, value: TreeView, prettify: bool) -> Option<
    Seq<char>,
> {
    encoded(path_set(tree, path_segments(key), value), prettify)
}

impl Clone for SettingsFile {
    fn clone(&self) -> (r: Self)
        ensures
            r == *self,
    {
        SettingsFile { file_path: self.file_path.clone(), prettify: self.prettify }
    }
}

impl Clone for SettingsFileOptions {
    fn clone(&self) -> (r: Self)
        ensures
            r.scoped_file_path == self.scoped_file_path,
            r.prettify == self.prettify,
            r.default_settings is Some == self.default_settings is Some,
            initial_tree(r.default_settings) == initial_tree(self.default_settings),
    {
        SettingsFileOptions {
            scoped_file_path: self.scoped_file_path.clone(),
            prettify: self.prettify,
            default_settings: match &self.default_settings {
                Some(settings) => Some(settings.clone()),
                None => None,
            },
        }
    }
}

impl SettingsFile {
    /// Makes the handle of the settings file at `file_path` and says what has
    /// to be written so that the file exists. `present` tells whether the file
    /// is there already. Where it is, nothing is to be written. Where it is
    /// not, the text of `default_settings` is, or of an empty object where
    /// none are given. Fails with `Serialize` where that text cannot be had.
    pub fn new(
        file_path: String,
        prettify: Option<bool>,
        default_settings: Option<TreeValue>,
        present: bool,
    ) -> (r: Result<(SettingsFile, Option<String>), SettingsError>)
        ensures
            match ensured(present, initial_tree(default_settings), prettify == Some(true)) {
                Some(text) => r matches Ok((file, to_write)) && file.file_path == file_path
                    && file.prettify == (prettify == Some(true)) && (match text {
                    Some(text) => to_write matches Some(written) && written@ == text,
                    None => to_write is None,
                }),
                None => r matches Err(SettingsError::Serialize(_)),
            },
    {
        let settings_file = SettingsFile {
            file_path,
            prettify: match prettify {
                Some(flag) => flag,
                None => false,
            },
        };
        let initial = match default_settings {
            Some(settings) => settings,
            None => TreeValue::empty_object(),
        };
        match settings_file.ensure_settings_file(initial, present) {
            Ok(to_write) => Ok((settings_file, to_write)),
            Err(error) => Err(error),
        }
    }

    /// Whether the key is present in the settings that `contents`, the text of
    /// the file, holds. Fails with `Parse` exactly where the text is not a
    /// JSON document.
    pub fn has(&self, contents: &str, key: &str) -> (r: Result<bool, SettingsError>)
        ensures
            match parsed_json(contents@) {
                Some(tree) => r matches Ok(found) && found == path_exists(tree, path_segments(key@)),
                None => r matches Err(SettingsError::Parse(_)),
            },
    {
        let settings = self.load_settings(contents)?;
        exists_dot_notation(&settings, key)
    }

    /// The value at the key in the settings that `contents`, the text of the
    /// file, holds; null where the key is not present. Fails with `Parse`
    /// exactly where the text is not a JSON document.
    pub fn get(&self, contents: &str, key: &str) -> (r: Result<TreeValue, SettingsError>)
        ensures
            match parsed_json(contents@) {
                Some(tree) => r matches Ok(value) && value@ == path_get(tree, path_segments(key@)),
                None => r matches Err(SettingsError::Parse(_)),
            },
    {
        let settings = self.load_settings(contents)?;
        get_dot_notation(&settings, key)
    }

    /// The text to write to the file so that the key holds `new_value`, given
    /// `contents`, the text of the file now. Fails with `Parse` exactly where
    /// that text is not a JSON document, and with `Serialize` where the
    /// encoder gives an error for the new settings.
    pub fn set(&self, contents: &str, key: &str, new_value: TreeValue) -> (r: Result<String, SettingsError>)
        ensures
            match parsed_json(contents@) {
                Some(tree) => match text_after_set(tree, key@, new_value@, self.prettify) {
                    Some(text) => r matches Ok(written) && written@ == text,
                    None => r matches Err(SettingsError::Serialize(_)),
                },
                None => r matches Err(SettingsError::Parse(_)),
            },
    {
        let mut settings = self.load_settings(contents)?;
        let _ = set_dot_notation(&mut settings, key, new_value);
        self.save_settings(&settings)
    }

    /// Says what has to be written so that the file exists: nothing where it
    /// is present, the text of `default_settings` where it is not. Fails with
    /// `Serialize` where that text cannot be had.
    pub fn ensure_settings_file(&self, default_settings: TreeValue, present: bool) -> (r: Result<
        Option<String>,
        SettingsError,
    >)
        ensures
            match ensured(present, default_settings@, self.prettify) {
                Some(Some(text)) => r matches Ok(Some(written)) && written@ == text,
                Some(None) => r matches Ok(None),
                None => r matches Err(SettingsError::Serialize(_)),
            },
    {
        if present {
            return Ok(None);
        }
        match self.save_settings(&default_settings) {
            Ok(text) => Ok(Some(text)),
            Err(error) => Err(error),
        }
    }

    /// Reads the settings from the text of the file. Fails with `Parse`
    /// exactly where the text is not a JSON document.
    pub fn load_settings(&self, contents: &str) -> (r: Result<TreeValue, SettingsError>)
        ensures
            match parsed_json(contents@) {
                Some(tree) => r matches Ok(settings) && settings@ == tree,
                None => r matches Err(SettingsError::Parse(_)),
            },
    {
        load_settings_file(contents)
    }

    /// Gives the text to write to the file for these settings: pretty-printed
    /// where the file asks for it, compact otherwise. Fails with `Serialize`
    /// where the encoder gives an error.
    pub fn save_settings(&self, settings: &TreeValue) -> (r: Result<String, SettingsError>)
        ensures
            match encoded(settings@, self.prettify) {
                Some(text) => r matches Ok(written) && written@ == text,
                None => r matches Err(SettingsError::Serialize(_)),
            },
    {
        encode(settings, self.prettify)
    }
}

} // verus!
