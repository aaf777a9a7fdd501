//! Configuration, resolved once when the store starts.
//!
//! The directory that the platform gives an application for its configuration
//! is found by the caller and handed in as `app_config_dir`: `None` where the
//! platform names none.
use vstd::prelude::*;

verus! {

/// The configuration of the settings plugin.
#[derive(Debug)]
pub struct PluginConfig {
    /// A path to limit the creation of settings files to.
    pub scope: String,
    /// Whether new settings files may be added from outside.
    pub allow_file_addition: bool,
    /// The largest number of settings files; `0` for no limit.
    pub files_limit: usize,
}

/// Configuration options for the settings plugin; what is left out takes its
/// default.
#[derive(Debug)]
pub struct PluginConfigOptions {
    /// A path to limit the creation of settings files to. Default: the
    /// application's configuration directory.
    pub scope: Option<String>,
    /// Whether new settings files may be added from outside. Default: `false`.
    pub allow_file_addition: Option<bool>,
    /// The largest number of settings files. Default: `0`, no limit.
    pub files_limit: Option<usize>,
}

/// The configuration of a store with a single settings file.
#[derive(Debug)]
pub struct Config {
    pub file_name: String,
    pub directory: String,
    pub prettify: bool,
    pub num_spaces: u8,
}

/// Why no configuration could be made.
#[derive(Debug, Clone, Copy, PartialEq, Eq)]
pub enum ConfigError {
    /// The platform names no configuration directory for the application.
    ConfigDirNotFound,
}

impl Clone for PluginConfig {
    fn clone(&self) -> (r: Self)
        ensures
            r == *self,
    {
        PluginConfig {
            scope: self.scope.clone(),
            allow_file_addition: self.allow_file_addition,
            files_limit: self.files_limit,
        }
    }
}

impl Clone for PluginConfigOptions {
    fn clone(&self) -> (r: Self)
        ensures
            r == *self,
    {
        PluginConfigOptions {
            scope: match &self.scope {
                Some(scope) => Some(scope.clone()),
                None => None,
            },
            allow_file_addition: self.allow_file_addition,
            files_limit: self.files_limit,
        }
    }
}

impl Clone for Config {
    fn clone(&self) -> (r: Self)
        ensures
            r == *self,
    {
        Config {
            file_name: self.file_name.clone(),
            directory: self.directory.clone(),
            prettify: self.prettify,
            num_spaces: self.num_spaces,
        }
    }
}

impl PluginConfigOptions {
    /// Creates a new `PluginConfigOptions` struct.
    pub fn new(scope: Option<String>, files_limit: Option<usize>, allow_file_addition: Option<bool>) -> (r:
        Self)
        ensures
            r.scope == scope,
            r.files_limit == files_limit,
            r.allow_file_addition == allow_file_addition,
    {
        Self { scope, files_limit, allow_file_addition }
    }
}

impl PluginConfig {
    /// Creates a new `PluginConfig` struct. The scope defaults to the
    /// application's configuration directory, the limit to `0` (none), the
    /// permission to add files to `false`. With no scope given and no
    /// application configuration directory there is no configuration.
    pub fn new(
        app_config_dir: Option<String>,
        scope: Option<String>,
        files_limit: Option<usize>,
        allow_file_addition: Option<bool>,
    ) -> (r: Result<Self, ConfigError>)
        ensures
            scope is None && app_config_dir is None ==> r == Err::<Self, ConfigError>(
                ConfigError::ConfigDirNotFound,
            ),
            scope is Some || app_config_dir is Some ==> r == Ok::<Self, ConfigError>(
                (PluginConfig {
                    scope: if scope is Some {
                        scope->0
                    } else {
                        app_config_dir->0
                    },
                    files_limit: if files_limit is Some {
                        files_limit->0
                    } else {
                        0
                    },
                    allow_file_addition: if allow_file_addition is Some {
                        allow_file_addition->0
                    } else {
                        false
                    },
                }),
            ),
    {
        let scope = match scope {
            Some(scope) => scope,
            None => match app_config_dir {
                Some(dir) => dir,
                None => {
                    return Err(ConfigError::ConfigDirNotFound);
                },
            },
        };
        Ok(
            Self {
                scope,
                files_limit: match files_limit {
                    Some(limit) => limit,
                    None => 0,
                },
                allow_file_addition: match allow_file_addition {
                    Some(allow) => allow,
                    None => false,
                },
            },
        )
    }

    /// Creates a `PluginConfig` from `PluginConfigOptions`, with the default
    /// for every option that is `None`. With no scope among the options and no
    /// application configuration directory there is no configuration.
    pub fn from_options(app_config_dir: Option<String>, options: &PluginConfigOptions) -> (r: Result<
        Self,
        ConfigError,
    >)
        ensures
            options.scope is None && app_config_dir is None ==> r == Err::<Self, ConfigError>(
                ConfigError::ConfigDirNotFound,
            ),
            options.scope is Some || app_config_dir is Some ==> r == Ok::<Self, ConfigError>(
                (PluginConfig {
                    scope: if options.scope is Some {
                        options.scope->0
                    } else {
                        app_config_dir->0
                    },
                    files_limit: if options.files_limit is Some {
                        options.files_limit->0
                    } else {
                        0
                    },
                    allow_file_addition: if options.allow_file_addition is Some {
                        options.allow_file_addition->0
                    } else {
                        false
                    },
                }),
            ),
    {
        let options = options.clone();
        Self::new(app_config_dir, options.scope, options.files_limit, options.allow_file_addition)
    }

    /// Creates a `PluginConfig` with the default values.
    pub fn default(app_config_dir: Option<String>) -> (r: Result<Self, ConfigError>)
        ensures
            app_config_dir is None ==> r == Err::<Self, ConfigError>(ConfigError::ConfigDirNotFound),
            app_config_dir is Some ==> r == Ok::<Self, ConfigError>(
                (PluginConfig {
                    scope: app_config_dir->0,
                    files_limit: 0,
                    allow_file_addition: false,
                }),
            ),
    {
        Self::new(app_config_dir, None, None, None)
    }
}

/// The name of the settings file where none is given.
pub open spec fn default_file_name() -> Seq<char> {
    "settings.json"@
}

impl Config {
    /// Creates a `Config`. The directory defaults to the application's
    /// configuration directory, the file name to `settings.json`, `prettify`
    /// to `false` and `num_spaces` to `0`. With no directory given and no
    /// application configuration directory there is no configuration.
    pub fn new(
        app_config_dir: Option<String>,
        file_name: Option<String>,
        directory: Option<String>,
        prettify: Option<bool>,
        num_spaces: Option<u8>,
    ) -> (r: Result<Config, ConfigError>)
        ensures
            directory is None && app_config_dir is None ==> r == Err::<Config, ConfigError>(
                ConfigError::ConfigDirNotFound,
            ),
            directory is Some || app_config_dir is Some ==> r is Ok && r->Ok_0.directory == (
            if directory is Some {
                directory->0
            } else {
                app_config_dir->0
            }) && r->Ok_0.file_name@ == (if file_name is Some {
                file_name->0@
            } else {
                default_file_name()
            }) && r->Ok_0.prettify == (if prettify is Some {
                prettify->0
            } else {
                false
            }) && r->Ok_0.num_spaces == (if num_spaces is Some {
                num_spaces->0
            } else {
                0
            }),
    {
        let config_directory = match directory {
            Some(dir) => dir,
            None => match app_config_dir {
                Some(dir) => dir,
                None => {
                    return Err(ConfigError::ConfigDirNotFound);
                },
            },
        };
        Ok(
            Config {
                file_name: match file_name {
                    Some(name) => name,
                    None => "settings.json".to_owned(),
                },
                directory: config_directory,
                prettify: match prettify {
                    Some(flag) => flag,
                    None => false,
                },
                num_spaces: match num_spaces {
                    Some(spaces) => spaces,
                    None => 0,
                },
            },
        )
    }
}

} // verus!
