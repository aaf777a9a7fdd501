use tauri_plugin_settings::dot_notation::{
    exists_dot_notation, get_dot_notation, set_dot_notation, split_path,
};
use tauri_plugin_settings::storage::load_settings_file;
use tauri_plugin_settings::tree::TreeValue;

fn text(value: &str) -> TreeValue {
    TreeValue::String(value.to_string())
}

fn number(value: i64) -> TreeValue {
    TreeValue::Number(serde_json::Number::from(value))
}

fn object(entries: Vec<(&str, TreeValue)>) -> TreeValue {
    TreeValue::Object(
        entries
            .into_iter()
            .map(|(key, value)| (key.to_string(), value))
            .collect(),
    )
}

fn get_dummy_data() -> TreeValue {
    load_settings_file(
        r#"
	{
		"name": "John Doe",
		"age": 43,
		"preferences": {
			"theme": "dark",
			"open_on_start": true
		}
	}"#,
    )
    .unwrap()
}

fn get_updated_dummy_data() -> TreeValue {
    load_settings_file(
        r#"
	{
		"name": "John Lark",
		"age": 40,
		"preferences": {
			"theme": "light",
			"open_on_start": 0,
			"fullscreen": true,
			"run_out_of_names": {
				"another_setting": 12
			}
		},
		"recently_opened": ["file1", "file2"],
		"test": {
			"test_path": "ok"
		}
	}"#,
    )
    .unwrap()
}

#[test]
fn get_dot_notation_works() {
    let data: TreeValue = get_dummy_data();

    let get_name: TreeValue = get_dot_notation(&data, "name").unwrap();
    let get_age: TreeValue = get_dot_notation(&data, "age").unwrap();
    let get_theme: TreeValue = get_dot_notation(&data, "preferences.theme").unwrap();
    let get_startup: TreeValue = get_dot_notation(&data, "preferences.open_on_start").unwrap();
    let get_null: TreeValue = get_dot_notation(&data, "preferences.fullscreen").unwrap();

    assert_eq!(get_name, text("John Doe"));
    assert_eq!(get_age, number(43));
    assert_eq!(get_theme, text("dark"));
    assert_eq!(get_startup, TreeValue::Bool(true));
    assert_eq!(get_null, TreeValue::Null);
}

#[test]
fn set_dot_notation_works() {
    let mut data: TreeValue = get_dummy_data();
    let updated_data: TreeValue = get_updated_dummy_data();

    set_dot_notation(&mut data, "name", text("John Lark")).unwrap();
    set_dot_notation(&mut data, "age", number(40)).unwrap();
    set_dot_notation(&mut data, "preferences.theme", text("light")).unwrap();
    set_dot_notation(&mut data, "preferences.open_on_start", number(0)).unwrap();
    set_dot_notation(&mut data, "preferences.fullscreen", TreeValue::Bool(true)).unwrap();
    set_dot_notation(
        &mut data,
        "preferences.run_out_of_names.another_setting",
        number(12),
    )
    .unwrap();
    set_dot_notation(
        &mut data,
        "recently_opened",
        TreeValue::Array(vec![text("file1"), text("file2")]),
    )
    .unwrap();
    set_dot_notation(&mut data, "test.test_path", text("ok")).unwrap();

    assert_eq!(data, updated_data);
}

#[test]
fn split_path_cuts_at_every_dot() {
    assert_eq!(split_path("preferences.theme"), vec!["preferences", "theme"]);
    assert_eq!(split_path("name"), vec!["name"]);
    assert_eq!(split_path(""), vec![""]);
    assert_eq!(split_path("."), vec!["", ""]);
    assert_eq!(split_path("a..b"), vec!["a", "", "b"]);
    assert_eq!(split_path(".a."), vec!["", "a", ""]);
    assert_eq!(split_path("é.ü"), vec!["é", "ü"]);
}

#[test]
fn absent_path_is_null_and_does_not_exist() {
    let data = get_dummy_data();
    for path in ["missing", "preferences.fullscreen", "name.first", "age.x.y", "a.b.c"] {
        assert_eq!(get_dot_notation(&data, path).unwrap(), TreeValue::Null);
        assert_eq!(exists_dot_notation(&data, path).unwrap(), false);
    }
}

#[test]
fn present_path_exists() {
    let data = get_dummy_data();
    for path in ["name", "age", "preferences", "preferences.theme", "preferences.open_on_start"] {
        assert_eq!(exists_dot_notation(&data, path).unwrap(), true);
    }
}

#[test]
fn explicit_null_exists() {
    let data = object(vec![("a", TreeValue::Null)]);
    assert_eq!(exists_dot_notation(&data, "a").unwrap(), true);
    assert_eq!(get_dot_notation(&data, "a").unwrap(), TreeValue::Null);
    assert_eq!(exists_dot_notation(&data, "a.b").unwrap(), false);
}

#[test]
fn set_then_get_returns_the_value() {
    let trees = vec![
        TreeValue::Null,
        number(7),
        TreeValue::Array(vec![number(1)]),
        get_dummy_data(),
    ];
    for tree in trees {
        for path in ["x", "preferences.theme", "a.b.c.d", "", "name.first"] {
            for value in [TreeValue::Null, text("v"), object(vec![("k", number(1))])] {
                let mut changed = tree.clone();
                set_dot_notation(&mut changed, path, value.clone()).unwrap();
                assert_eq!(exists_dot_notation(&changed, path).unwrap(), true);
                assert_eq!(get_dot_notation(&changed, path).unwrap(), value);
            }
        }
    }
}

#[test]
fn set_twice_is_set_once() {
    for path in ["x", "preferences.theme", "a.b.c", "name.first"] {
        let mut once = get_dummy_data();
        set_dot_notation(&mut once, path, text("v")).unwrap();
        let mut twice = once.clone();
        set_dot_notation(&mut twice, path, text("v")).unwrap();
        assert_eq!(twice, once);
    }
}

#[test]
fn set_creates_intermediate_objects() {
    let mut tree = TreeValue::empty_object();
    set_dot_notation(&mut tree, "a.b.c", number(1)).unwrap();
    assert_eq!(
        get_dot_notation(&tree, "a.b").unwrap(),
        object(vec![("c", number(1))])
    );
    assert_eq!(
        tree,
        object(vec![("a", object(vec![("b", object(vec![("c", number(1))]))]))])
    );
}

#[test]
fn set_overwrites_a_scalar_on_the_way() {
    let mut tree = object(vec![("a", number(1))]);
    set_dot_notation(&mut tree, "a.b", number(2)).unwrap();
    assert_eq!(
        get_dot_notation(&tree, "a").unwrap(),
        object(vec![("b", number(2))])
    );
}

#[test]
fn set_keeps_the_other_fields() {
    let mut tree = get_dummy_data();
    set_dot_notation(&mut tree, "preferences.theme", text("light")).unwrap();
    assert_eq!(get_dot_notation(&tree, "name").unwrap(), text("John Doe"));
    assert_eq!(
        get_dot_notation(&tree, "preferences.open_on_start").unwrap(),
        TreeValue::Bool(true)
    );
}

#[test]
fn arrays_are_not_indexed_by_segments() {
    let mut tree = object(vec![("list", TreeValue::Array(vec![text("x"), text("y")]))]);
    assert_eq!(get_dot_notation(&tree, "list.0").unwrap(), TreeValue::Null);
    assert_eq!(exists_dot_notation(&tree, "list.0").unwrap(), false);
    set_dot_notation(&mut tree, "list.0", text("z")).unwrap();
    assert_eq!(
        get_dot_notation(&tree, "list").unwrap(),
        object(vec![("0", text("z"))])
    );
}

#[test]
fn empty_path_names_the_empty_key() {
    let mut tree = object(vec![("a", number(1))]);
    assert_eq!(exists_dot_notation(&tree, "").unwrap(), false);
    set_dot_notation(&mut tree, "", number(2)).unwrap();
    assert_eq!(tree, object(vec![("a", number(1)), ("", number(2))]));
    assert_eq!(get_dot_notation(&tree, "").unwrap(), number(2));
}

#[test]
fn get_returns_a_copy() {
    let tree = get_dummy_data();
    let mut copy = get_dot_notation(&tree, "preferences").unwrap();
    set_dot_notation(&mut copy, "theme", text("light")).unwrap();
    assert_eq!(get_dot_notation(&tree, "preferences.theme").unwrap(), text("dark"));
}
