use tauri_plugin_settings::config::{Config, ConfigError, PluginConfig, PluginConfigOptions};

fn dir() -> Option<String> {
    Some("/home/user/.config/app".to_string())
}

#[test]
fn options_keep_what_they_are_given() {
    let options = PluginConfigOptions::new(Some("/scope".to_string()), Some(5), Some(true));
    assert_eq!(options.scope, Some("/scope".to_string()));
    assert_eq!(options.files_limit, Some(5));
    assert_eq!(options.allow_file_addition, Some(true));
    let none = PluginConfigOptions::new(None, None, None);
    assert_eq!(none.scope, None);
    assert_eq!(none.files_limit, None);
    assert_eq!(none.allow_file_addition, None);
}

#[test]
fn plugin_config_takes_defaults() {
    let config = PluginConfig::new(dir(), None, None, None).unwrap();
    assert_eq!(config.scope, "/home/user/.config/app");
    assert_eq!(config.files_limit, 0);
    assert_eq!(config.allow_file_addition, false);
    let same = PluginConfig::default(dir()).unwrap();
    assert_eq!(same.scope, "/home/user/.config/app");
    assert_eq!(same.files_limit, 0);
    assert_eq!(same.allow_file_addition, false);
}

#[test]
fn plugin_config_takes_what_is_given() {
    let config = PluginConfig::new(dir(), Some("/scope".to_string()), Some(3), Some(true)).unwrap();
    assert_eq!(config.scope, "/scope");
    assert_eq!(config.files_limit, 3);
    assert_eq!(config.allow_file_addition, true);
}

#[test]
fn plugin_config_from_options() {
    let options = PluginConfigOptions::new(None, Some(5), Some(true));
    let config = PluginConfig::from_options(dir(), &options).unwrap();
    assert_eq!(config.scope, "/home/user/.config/app");
    assert_eq!(config.files_limit, 5);
    assert_eq!(config.allow_file_addition, true);
    let scoped = PluginConfigOptions::new(Some("/scope".to_string()), None, None);
    let config = PluginConfig::from_options(dir(), &scoped).unwrap();
    assert_eq!(config.scope, "/scope");
    assert_eq!(config.files_limit, 0);
    assert_eq!(config.allow_file_addition, false);
}

#[test]
fn plugin_config_needs_a_scope_or_the_config_directory() {
    assert_eq!(
        PluginConfig::new(None, None, None, None).err(),
        Some(ConfigError::ConfigDirNotFound)
    );
    assert_eq!(
        PluginConfig::new(None, None, Some(3), Some(true)).err(),
        Some(ConfigError::ConfigDirNotFound)
    );
    assert_eq!(PluginConfig::default(None).err(), Some(ConfigError::ConfigDirNotFound));
    let options = PluginConfigOptions::new(None, None, None);
    assert_eq!(
        PluginConfig::from_options(None, &options).err(),
        Some(ConfigError::ConfigDirNotFound)
    );
}

#[test]
fn plugin_config_with_a_scope_needs_no_config_directory() {
    let config = PluginConfig::new(None, Some("/scope".to_string()), None, None).unwrap();
    assert_eq!(config.scope, "/scope");
    assert_eq!(config.files_limit, 0);
    assert_eq!(config.allow_file_addition, false);
    let options = PluginConfigOptions::new(Some("/scope".to_string()), Some(2), Some(true));
    let config = PluginConfig::from_options(None, &options).unwrap();
    assert_eq!(config.scope, "/scope");
    assert_eq!(config.files_limit, 2);
    assert_eq!(config.allow_file_addition, true);
}

#[test]
fn plugin_config_prefers_the_scope_to_the_config_directory() {
    let config = PluginConfig::new(dir(), Some("/scope".to_string()), None, None).unwrap();
    assert_eq!(config.scope, "/scope");
}

#[test]
fn config_takes_defaults() {
    let config = Config::new(dir(), None, None, None, None).unwrap();
    assert_eq!(config.file_name, "settings.json");
    assert_eq!(config.directory, "/home/user/.config/app");
    assert_eq!(config.prettify, false);
    assert_eq!(config.num_spaces, 0);
}

#[test]
fn config_takes_what_is_given() {
    let config = Config::new(
        dir(),
        Some("user.json".to_string()),
        Some("/data".to_string()),
        Some(true),
        Some(4),
    )
    .unwrap();
    assert_eq!(config.file_name, "user.json");
    assert_eq!(config.directory, "/data");
    assert_eq!(config.prettify, true);
    assert_eq!(config.num_spaces, 4);
}

#[test]
fn config_needs_some_directory() {
    assert_eq!(
        Config::new(None, None, None, None, None).err(),
        Some(ConfigError::ConfigDirNotFound)
    );
    let config = Config::new(None, None, Some("/data".to_string()), None, None).unwrap();
    assert_eq!(config.directory, "/data");
}
