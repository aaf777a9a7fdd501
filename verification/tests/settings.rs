use tauri_plugin_settings::error::SettingsError;
use tauri_plugin_settings::settings::SettingsFile;
use tauri_plugin_settings::tree::TreeValue;

const DOCUMENT: &str = r#"{"name":"John Doe","age":43,"preferences":{"theme":"dark"}}"#;

fn file(prettify: bool) -> SettingsFile {
    SettingsFile {
        file_path: "/app/config/settings.json".to_string(),
        prettify,
    }
}

fn text(value: &str) -> TreeValue {
    TreeValue::String(value.to_string())
}

#[test]
fn new_file_on_a_fresh_path_is_created_with_empty_object() {
    let (file, to_write) =
        SettingsFile::new("/app/config/settings.json".to_string(), None, None, false).unwrap();
    assert_eq!(file.file_path, "/app/config/settings.json");
    assert_eq!(file.prettify, false);
    assert_eq!(to_write, Some("{}".to_string()));
}

#[test]
fn new_file_on_a_present_path_writes_nothing() {
    let (file, to_write) =
        SettingsFile::new("/app/config/settings.json".to_string(), Some(true), None, true).unwrap();
    assert_eq!(file.prettify, true);
    assert_eq!(to_write, None);
}

#[test]
fn new_file_is_created_with_the_default_settings() {
    let defaults = TreeValue::Object(vec![("theme".to_string(), text("dark"))]);
    let (_, to_write) = SettingsFile::new("a.json".to_string(), None, Some(defaults.clone()), false)
        .unwrap();
    assert_eq!(to_write, Some(r#"{"theme":"dark"}"#.to_string()));
    let (_, pretty) = SettingsFile::new("a.json".to_string(), Some(true), Some(defaults), false)
        .unwrap();
    assert_eq!(pretty, Some("{\n  \"theme\": \"dark\"\n}".to_string()));
}

#[test]
fn ensure_twice_creates_once() {
    let file = file(false);
    let first = file.ensure_settings_file(TreeValue::empty_object(), false).unwrap();
    assert_eq!(first, Some("{}".to_string()));
    let second = file.ensure_settings_file(TreeValue::empty_object(), true).unwrap();
    assert_eq!(second, None);
}

#[test]
fn has_looks_into_the_text() {
    let file = file(false);
    assert_eq!(file.has(DOCUMENT, "preferences.theme").unwrap(), true);
    assert_eq!(file.has(DOCUMENT, "preferences.fullscreen").unwrap(), false);
    assert_eq!(file.has(DOCUMENT, "name").unwrap(), true);
    assert_eq!(file.has("{}", "name").unwrap(), false);
}

#[test]
fn get_reads_from_the_text() {
    let file = file(false);
    assert_eq!(file.get(DOCUMENT, "preferences.theme").unwrap(), text("dark"));
    assert_eq!(file.get(DOCUMENT, "name").unwrap(), text("John Doe"));
    assert_eq!(file.get(DOCUMENT, "missing").unwrap(), TreeValue::Null);
}

#[test]
fn set_then_get_end_to_end() {
    let file = file(false);
    let written = file.set(DOCUMENT, "preferences.theme", text("light")).unwrap();
    assert_eq!(
        written,
        r#"{"age":43,"name":"John Doe","preferences":{"theme":"light"}}"#
    );
    assert_eq!(file.get(&written, "preferences.theme").unwrap(), text("light"));
    let reloaded = file.load_settings(&written).unwrap();
    assert_eq!(
        tauri_plugin_settings::dot_notation::get_dot_notation(&reloaded, "preferences.theme")
            .unwrap(),
        text("light")
    );
    assert_eq!(file.get(&written, "name").unwrap(), text("John Doe"));
}

#[test]
fn set_writes_pretty_text_where_asked() {
    let written = file(true).set("{}", "a.b", TreeValue::Bool(true)).unwrap();
    assert_eq!(written, "{\n  \"a\": {\n    \"b\": true\n  }\n}");
}

#[test]
fn corrupt_text_is_a_parse_error() {
    let file = file(false);
    assert!(matches!(file.has("{oops", "a"), Err(SettingsError::Parse(_))));
    assert!(matches!(file.get("{oops", "a"), Err(SettingsError::Parse(_))));
    assert!(matches!(
        file.set("{oops", "a", TreeValue::Null),
        Err(SettingsError::Parse(_))
    ));
    assert!(matches!(file.load_settings(""), Err(SettingsError::Parse(_))));
}

#[test]
fn save_settings_follows_the_prettify_flag() {
    let tree = TreeValue::Object(vec![("a".to_string(), TreeValue::Null)]);
    assert_eq!(file(false).save_settings(&tree).unwrap(), r#"{"a":null}"#);
    assert_eq!(file(true).save_settings(&tree).unwrap(), "{\n  \"a\": null\n}");
}

#[test]
fn clone_keeps_path_and_flag() {
    let first = file(true);
    let copy = first.clone();
    assert_eq!(copy.file_path, first.file_path);
    assert_eq!(copy.prettify, first.prettify);
}
