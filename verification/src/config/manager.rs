//! The application's settings and their manager.
//!
//! The manager holds the settings and the path of the file that keeps them.
//! It never touches the file: where the settings are to be written it hands
//! out a `PendingSave`, which says what to write and where.

use std::path::PathBuf;
use vstd::prelude::*;

verus! {

/// The path that `std` makes of `text`.
pub uninterp spec fn path_of(text: Seq<char>) -> PathBuf;

/// The path that `std` makes by joining `name` to `base`.
pub uninterp spec fn joined_path(base: PathBuf, name: Seq<char>) -> PathBuf;

/// Calls `dirs::home_dir`: the home directory of the user, or `None` where
/// there is none to be found. Trusted, with nothing promised of the result:
/// it depends on the environment.
#[verifier::external_body]
pub(crate) fn home_directory() -> (home: Option<PathBuf>)
{
    dirs::home_dir()
}

/// Calls `dirs::config_dir`: the directory for the user's configuration
/// files, or `None`. Trusted, with nothing promised of the result: it
/// depends on the environment.
#[verifier::external_body]
pub(crate) fn user_config_directory() -> (directory: Option<PathBuf>)
{
    dirs::config_dir()
}

/// Calls `dirs::data_local_dir`: the directory for the user's local data,
/// or `None`. Trusted, with nothing promised of the result: it depends on
/// the environment.
#[verifier::external_body]
pub(crate) fn user_data_directory() -> (directory: Option<PathBuf>)
{
    dirs::data_local_dir()
}

/// Calls `PathBuf::from` on a text. Trusted: the result is a function of the
/// text alone, named `path_of`.
#[verifier::external_body]
pub(crate) fn path_from_text(text: &str) -> (path: PathBuf)
    ensures
        path == path_of(text@),
{
    PathBuf::from(text)
}

/// Calls `Path::join`. Trusted: the result is a function of the base and
/// the name alone, named `joined_path`.
#[verifier::external_body]
pub(crate) fn path_join(base: &PathBuf, name: &str) -> (path: PathBuf)
    ensures
        path == joined_path(*base, name@),
{
    base.join(name)
}

/// Application configuration.
#[derive(Debug)]
pub struct AppConfig {
    /// Access token for the remote store.
    pub dropbox_token: String,
    /// Local folder that is kept in sync.
    pub sync_folder: PathBuf,
    /// Seconds between two polls of a large folder.
    pub polling_interval: u64,
    /// Number of files up to which a folder is watched rather than polled.
    pub max_files_for_inotify: usize,
    /// Size in bytes from which a file counts as large.
    pub large_file_threshold: u64,
    /// Log level.
    pub log_level: String,
}

/// What an `AppConfig` holds, as mathematical values.
pub struct AppConfigView {
    pub dropbox_token: Seq<char>,
    pub sync_folder: PathBuf,
    pub polling_interval: u64,
    pub max_files_for_inotify: usize,
    pub large_file_threshold: u64,
    pub log_level: Seq<char>,
}

impl View for AppConfig {
    type V = AppConfigView;

    open spec fn view(&self) -> AppConfigView {
        AppConfigView {
            dropbox_token: self.dropbox_token@,
            sync_folder: self.sync_folder,
            polling_interval: self.polling_interval,
            max_files_for_inotify: self.max_files_for_inotify,
            large_file_threshold: self.large_file_threshold,
            log_level: self.log_level@,
        }
    }
}

/// The settings of a fresh installation for a user whose home directory is
/// `home`: no token, the folder `Dropbox` under the home directory (under
/// `/tmp` where there is no home directory), a poll every five minutes,
/// watching up to 20,000 files, 100 MiB as the size of a large file, and the
/// log level `info`.
pub open spec fn default_config(home: Option<PathBuf>) -> AppConfigView {
    AppConfigView {
        dropbox_token: Seq::empty(),
        sync_folder: joined_path(
            match home {
                Some(home) => home,
                None => path_of("/tmp"@),
            },
            "Dropbox"@,
        ),
        polling_interval: 300,
        max_files_for_inotify: 20_000,
        large_file_threshold: 104_857_600,
        log_level: "info"@,
    }
}

impl AppConfig {
    /// The settings of a fresh installation for a user whose home directory
    /// is `home`.
    pub fn with_home(home: Option<PathBuf>) -> (config: AppConfig)
        ensures
            config@ == default_config(home),
    {
        let base = match home {
            Some(home) => home,
            None => path_from_text("/tmp"),
        };
        AppConfig {
            dropbox_token: String::new(),
            sync_folder: path_join(&base, "Dropbox"),
            polling_interval: 300,
            max_files_for_inotify: 20_000,
            large_file_threshold: 100 * 1024 * 1024,
            log_level: "info".to_string(),
        }
    }
}

impl Default for AppConfig {
    /// The settings of a fresh installation for the user who runs the
    /// program.
    fn default() -> (config: Self)
        ensures
            exists|home: Option<PathBuf>| config@ == #[trigger] default_config(home),
            config.dropbox_token@.len() == 0,
            config.polling_interval == 300,
            config.max_files_for_inotify == 20_000,
            config.large_file_threshold == 100 * 1024 * 1024,
            config.log_level@ == "info"@,
    {
        AppConfig::with_home(home_directory())
    }
}

impl Clone for AppConfig {
    fn clone(&self) -> (copy: Self)
        ensures
            copy@ == self@,
    {
        AppConfig {
            dropbox_token: self.dropbox_token.clone(),
            sync_folder: self.sync_folder.clone(),
            polling_interval: self.polling_interval,
            max_files_for_inotify: self.max_files_for_inotify,
            large_file_threshold: self.large_file_threshold,
            log_level: self.log_level.clone(),
        }
    }
}

/// Why a directory of the application could not be named.
#[derive(Debug, Clone, Copy, PartialEq, Eq, Structural)]
pub enum ConfigError {
    /// The user has no directory for configuration files.
    NoConfigDirectory,
    /// The user has no directory for local data.
    NoDataDirectory,
}

/// The name of the application's directory under a directory of the user.
pub open spec fn app_directory_name() -> Seq<char> {
    "dropbox-sync-daemon"@
}

/// The name of the settings file in the application's directory.
pub open spec fn config_file_name() -> Seq<char> {
    "config.json"@
}

/// The application's directory under `base`, or `missing` where there is no
/// base.
pub open spec fn app_directory(base: Option<PathBuf>, missing: ConfigError) -> Result<
    PathBuf,
    ConfigError,
> {
    match base {
        Some(base) => Ok(joined_path(base, app_directory_name())),
        None => Err(missing),
    }
}

/// The application's directory under `base`, or `missing` where there is no
/// base.
pub fn app_directory_under(base: Option<PathBuf>, missing: ConfigError) -> (directory: Result<
    PathBuf,
    ConfigError,
>)
    ensures
        directory == app_directory(base, missing),
{
    match base {
        Some(base) => Ok(path_join(&base, "dropbox-sync-daemon")),
        None => Err(missing),
    }
}

/// A request to write the settings: `config` is to be stored in the file at
/// `path`.
#[derive(Debug)]
pub struct PendingSave {
    pub path: PathBuf,
    pub config: AppConfig,
}

/// What a `PendingSave` holds, as mathematical values.
pub struct PendingSaveView {
    pub path: PathBuf,
    pub config: AppConfigView,
}

impl View for PendingSave {
    type V = PendingSaveView;

    open spec fn view(&self) -> PendingSaveView {
        PendingSaveView { path: self.path, config: self.config@ }
    }
}

/// The view of a save that may be pending.
pub open spec fn pending_view(save: Option<PendingSave>) -> Option<PendingSaveView> {
    match save {
        Some(save) => Some(save@),
        None => None,
    }
}

/// Configuration manager: the settings and the path of their file.
#[derive(Debug)]
pub struct ConfigManager {
    config: AppConfig,
    config_path: PathBuf,
}

impl ConfigManager {
    /// The settings that the manager holds.
    pub closed spec fn settings(&self) -> AppConfig {
        self.config
    }

    /// The path of the file that keeps the settings.
    pub closed spec fn path(&self) -> PathBuf {
        self.config_path
    }

    /// What a save of the manager's present settings asks for.
    pub open spec fn save_request(&self) -> PendingSaveView {
        PendingSaveView { path: self.path(), config: self.settings()@ }
    }

    /// A manager of `config`, kept in the file at `config_path`.
    pub fn new(config: AppConfig, config_path: PathBuf) -> (manager: ConfigManager)
        ensures
            manager.settings() == config,
            manager.path() == config_path,
    {
        ConfigManager { config, config_path }
    }

    /// The manager for the settings file at `config_path`, given what
    /// reading that file gave: the settings in it, or `None` where the file
    /// does not exist. Without a file the manager starts from the default
    /// settings, which are to be written to the file.
    pub fn open(config_path: PathBuf, loaded: Option<AppConfig>) -> (opened: (
        ConfigManager,
        Option<PendingSave>,
    ))
        ensures
            opened.0.path() == config_path,
            loaded matches Some(config) ==> opened.0.settings() == config && opened.1 is None,
            loaded is None ==> (exists|home: Option<PathBuf>|
                opened.0.settings()@ == #[trigger] default_config(home)) && pending_view(opened.1)
                == Some(opened.0.save_request()),
    {
        match loaded {
            Some(config) => (ConfigManager { config, config_path }, None),
            None => {
                let manager = ConfigManager { config: AppConfig::default(), config_path };
                let save = manager.save();
                (manager, Some(save))
            },
        }
    }

    /// The path of the settings file in the application's configuration
    /// directory `directory`.
    pub fn config_file_in(directory: &PathBuf) -> (path: PathBuf)
        ensures
            path == joined_path(*directory, config_file_name()),
    {
        path_join(directory, "config.json")
    }

    /// Asks for the present settings to be written to their file.
    pub fn save(&self) -> (request: PendingSave)
        ensures
            request@ == self.save_request(),
    {
        PendingSave { path: self.config_path.clone(), config: self.config.clone() }
    }

    /// The settings.
    pub fn config(&self) -> (config: &AppConfig)
        ensures
            *config == self.settings(),
    {
        &self.config
    }

    /// The settings, to be changed in place. The path of their file stays.
    pub fn config_mut(&mut self) -> (config: &mut AppConfig)
        ensures
            *config == old(self).settings(),
            final(self).settings() == *final(config),
            final(self).path() == old(self).path(),
    {
        &mut self.config
    }

    /// Sets the access token and asks for the settings to be written.
    pub fn set_dropbox_token(&mut self, token: String) -> (request: PendingSave)
        ensures
            final(self).settings()@ == (AppConfigView {
                dropbox_token: token@,
                ..old(self).settings()@
            }),
            final(self).path() == old(self).path(),
            request@ == final(self).save_request(),
    {
        self.config.dropbox_token = token;
        self.save()
    }

    /// Sets the folder to keep in sync and asks for the settings to be
    /// written.
    pub fn set_sync_folder(&mut self, path: PathBuf) -> (request: PendingSave)
        ensures
            final(self).settings()@ == (AppConfigView {
                sync_folder: path,
                ..old(self).settings()@
            }),
            final(self).path() == old(self).path(),
            request@ == final(self).save_request(),
    {
        self.config.sync_folder = path;
        self.save()
    }

    /// The application's configuration directory: `NoConfigDirectory` where
    /// the user has none, else the application's directory under whatever
    /// the environment names.
    pub fn config_dir() -> (directory: Result<PathBuf, ConfigError>)
        ensures
            exists|base: Option<PathBuf>|
                directory == #[trigger] app_directory(base, ConfigError::NoConfigDirectory),
    {
        let base = user_config_directory();
        let directory = app_directory_under(base, ConfigError::NoConfigDirectory);
        assert(directory == app_directory(base, ConfigError::NoConfigDirectory));
        directory
    }

    /// The application's data directory, for logs: `NoDataDirectory` where
    /// the user has none, else the application's directory under whatever
    /// the environment names.
    pub fn data_dir() -> (directory: Result<PathBuf, ConfigError>)
        ensures
            exists|base: Option<PathBuf>|
                directory == #[trigger] app_directory(base, ConfigError::NoDataDirectory),
    {
        let base = user_data_directory();
        let directory = app_directory_under(base, ConfigError::NoDataDirectory);
        assert(directory == app_directory(base, ConfigError::NoDataDirectory));
        directory
    }
}

impl std::ops::Deref for ConfigManager {
    type Target = AppConfig;

    /// The settings, so that a manager can be read where settings are read.
    fn deref(&self) -> (config: &AppConfig)
        ensures
            *config == self.settings(),
    {
        &self.config
    }
}

} // verus!
