//! What the commands of the plugin do, once the caller has read the text of
//! the settings file: each works on the settings file with the given ID, or on
//! the first one where no ID is given.
use vstd::prelude::*;
use crate::dot_notation::{path_exists, path_get, path_segments};
use crate::error::SettingsError;
use crate::json::parsed_json;
use crate::settings::text_after_set;
use crate::state::{PluginStateData, chosen_id};
use crate::tree::TreeValue;

verus! {

/// Whether the key is present in the settings. `contents` is the text of the
/// settings file. Fails with `NotFound` where no file has the ID, else with
/// `Parse` where the text is not a JSON document.
pub fn has(state: &PluginStateData, key: &str, contents: &str, file_id: Option<usize>) -> (r: Result<
    bool,
    SettingsError,
>)
    requires
        state.wf(),
    ensures
        chosen_id(file_id) >= state.files().len() ==> (r matches Err(SettingsError::NotFound(id))
            && id == chosen_id(file_id)),
        chosen_id(file_id) < state.files().len() ==> (match parsed_json(contents@) {
            Some(tree) => r matches Ok(found) && found == path_exists(tree, path_segments(key@)),
            None => r matches Err(SettingsError::Parse(_)),
        }),
{
    let settings_file = match state.get_settings_file(PluginStateData::choose_id(file_id)) {
        Ok(settings_file) => settings_file,
        Err(error) => {
            return Err(error);
        },
    };
    settings_file.has(contents, key)
}

/// The value at the key in the settings; null where the key is not present.
/// `contents` is the text of the settings file. Fails with `NotFound` where no
/// file has the ID, else with `Parse` where the text is not a JSON document.
pub fn get(state: &PluginStateData, key: &str, contents: &str, file_id: Option<usize>) -> (r: Result<
    TreeValue,
    SettingsError,
>)
    requires
        state.wf(),
    ensures
        chosen_id(file_id) >= state.files().len() ==> (r matches Err(SettingsError::NotFound(id))
            && id == chosen_id(file_id)),
        chosen_id(file_id) < state.files().len() ==> (match parsed_json(contents@) {
            Some(tree) => r matches Ok(value) && value@ == path_get(tree, path_segments(key@)),
            None => r matches Err(SettingsError::Parse(_)),
        }),
{
    let settings_file = match state.get_settings_file(PluginStateData::choose_id(file_id)) {
        Ok(settings_file) => settings_file,
        Err(error) => {
            return Err(error);
        },
    };
    settings_file.get(contents, key)
}

/// The text to write to the settings file so that the key holds `value`; the
/// path to the key is made where it is missing. `contents` is the text of the
/// settings file now. Fails with `NotFound` where no file has the ID, else
/// with `Parse` where the text is not a JSON document, else with `Serialize`
/// where the encoder gives an error for the new settings.
pub fn set(
    state: &PluginStateData,
    key: &str,
    value: TreeValue,
    contents: &str,
    file_id: Option<usize>,
) -> (r: Result<String, SettingsError>)
    requires
        state.wf(),
    ensures
        chosen_id(file_id) >= state.files().len() ==> (r matches Err(SettingsError::NotFound(id))
            && id == chosen_id(file_id)),
        chosen_id(file_id) < state.files().len() ==> (match parsed_json(contents@) {
            Some(tree) => match text_after_set(
                tree,
                key@,
                value@,
                state.files()[chosen_id(file_id) as int].prettify,
            ) {
                Some(text) => r matches Ok(written) && written@ == text,
                None => r matches Err(SettingsError::Serialize(_)),
            },
            None => r matches Err(SettingsError::Parse(_)),
        }),
{
    let settings_file = match state.get_settings_file(PluginStateData::choose_id(file_id)) {
        Ok(settings_file) => settings_file,
        Err(error) => {
            return Err(error);
        },
    };
    settings_file.set(contents, key, value)
}

} // verus!
