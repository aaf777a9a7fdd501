//! Between a settings tree and the text of its file. Reading and writing the
//! file itself is the caller's part: these functions take the text that was
//! read and give the text to write.
use vstd::prelude::*;
use vstd::string::StringExecFns;
use crate::config::Config;
use crate::error::SettingsError;
use crate::json::{
    compact_json,
    json_from_str,
    json_to_string,
    json_to_string_pretty,
    parsed_json,
    pretty_json,
    tree_from_json,
    tree_to_json,
};
use crate::scope::{join_path, joined_text};
use crate::tree::{TreeValue, TreeView};

verus! {

/// The text of a tree, pretty-printed or compact; `None` where the encoder
/// gives an error.
pub open spec fn encoded(tree: TreeView, prettify: bool) -> Option<Seq<char>> {
    if prettify {
        pretty_json(tree)
    } else {
        compact_json(tree)
    }
}

/// The text that a new settings file starts with.
pub open spec fn empty_document() -> Seq<char> {
    "{}"@
}

/// Writes a tree as text, pretty-printed or compact. Fails where the encoder
/// does.
pub fn encode(settings: &TreeValue, prettify: bool) -> (r: Result<String, SettingsError>)
    ensures
        match encoded(settings@, prettify) {
            Some(text) => r matches Ok(written) && written@ == text,
            None => r matches Err(SettingsError::Serialize(_)),
        },
{
    let value = tree_to_json(settings);
    let written = if prettify {
        json_to_string_pretty(&value)
    } else {
        json_to_string(&value)
    };
    match written {
        Ok(text) => Ok(text),
        Err(error) => Err(SettingsError::Serialize(error)),
    }
}

/// Says what has to be written so that the settings file exists: nothing
/// where it is present, the empty document `{}` where it is not.
pub fn ensure_settings_file(present: bool) -> (r: Option<String>)
    ensures
        present ==> r is None,
        !present ==> (r matches Some(text) && text@ == empty_document()),
{
    if present {
        None
    } else {
        Some(String::from_str("{}"))
    }
}

/// Reads the settings from the text of a settings file. Fails with `Parse`
/// exactly where the text is not a JSON document.
pub fn load_settings_file(contents: &str) -> (r: Result<TreeValue, SettingsError>)
    ensures
        match parsed_json(contents@) {
            Some(tree) => r matches Ok(settings) && settings@ == tree,
            None => r matches Err(SettingsError::Parse(_)),
        },
{
    match json_from_str(contents) {
        Ok(value) => Ok(tree_from_json(value)),
        Err(error) => Err(SettingsError::Parse(error)),
    }
}

/// Gives the text to write to the settings file for these settings:
/// pretty-printed where the configuration asks for it, compact otherwise.
/// Fails with `Serialize` where the encoder gives an error.
pub fn save_settings_json(settings: &TreeValue, config: &Config) -> (r: Result<String, SettingsError>)
    ensures
        match encoded(settings@, config.prettify) {
            Some(text) => r matches Ok(written) && written@ == text,
            None => r matches Err(SettingsError::Serialize(_)),
        },
{
    encode(settings, config.prettify)
}

/// The path of the settings file: the file name, resolved from the directory.
pub fn settings_file_path(config: &Config) -> (r: String)
    ensures
        r@ == joined_text(config.directory@, config.file_name@),
{
    join_path(config.directory.as_str(), config.file_name.as_str())
}

} // verus!
