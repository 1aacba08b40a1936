//! The typed configuration of the driver and its compiled-in defaults.

use vstd::prelude::*;

verus! {

/// Name under which the per-user configuration directory is scoped.
pub const APP_PREFIX: &'static str = "gcsf";

/// Name of the settings file inside the configuration directory.
pub const SETTINGS_FILE: &'static str = "gcsf.toml";

/// Name of the credential file inside the configuration directory.
pub const TOKEN_FILE: &'static str = "auth_token.json";

/// Content written to the settings file when none exists yet.
pub const DEFAULT_CONFIG: &'static str =
    "debug = false\ncache_max_seconds = 300\ncache_max_items = 20\ncache_statfs_seconds = 10\nsync_interval = 10\nmount_options = [\"fsname=GCSF\", \"allow_root\", \"big_writes\", \"max_write=131072\"]\nauthorize_using_code = false\n";

/// Seconds a file's contents stay cached when the settings do not say.
pub const DEFAULT_CACHE_MAX_SECONDS: u64 = 300;

/// Number of files kept cached when the settings do not say.
pub const DEFAULT_CACHE_MAX_ITEMS: u64 = 20;

/// Seconds the filesystem statistics stay cached when the settings do not say.
pub const DEFAULT_CACHE_STATFS_SECONDS: u64 = 10;

/// Seconds between two checks for remote changes when the settings do not say.
pub const DEFAULT_SYNC_INTERVAL: u64 = 10;

/// The mount options used when the settings do not list any.
pub open spec fn default_mount_options() -> Seq<Seq<char>> {
    seq!["fsname=GCSF"@, "allow_root"@, "big_writes"@, "max_write=131072"@]
}

/// The settings the driver runs with.
///
/// `token_path` is never taken from the settings file: the loader computes it
/// from the layout of the configuration directory and sets it after parsing.
/// A configuration without it cannot be mounted.
#[derive(Debug, PartialEq, Eq)]
pub struct Configuration {
    pub debug: bool,
    pub cache_max_seconds: u64,
    pub cache_max_items: u64,
    pub cache_statfs_seconds: u64,
    pub sync_interval: u64,
    pub mount_options: Vec<String>,
    pub authorize_using_code: bool,
    pub token_path: Option<String>,
}

/// A configuration as a mathematical value.
pub struct ConfigurationView {
    pub debug: bool,
    pub cache_max_seconds: u64,
    pub cache_max_items: u64,
    pub cache_statfs_seconds: u64,
    pub sync_interval: u64,
    pub mount_options: Seq<Seq<char>>,
    pub authorize_using_code: bool,
    pub token_path: Option<Seq<char>>,
}

/// The configuration that the compiled-in defaults describe. It has no
/// credential path.
pub open spec fn default_view() -> ConfigurationView {
    ConfigurationView {
        debug: false,
        cache_max_seconds: DEFAULT_CACHE_MAX_SECONDS,
        cache_max_items: DEFAULT_CACHE_MAX_ITEMS,
        cache_statfs_seconds: DEFAULT_CACHE_STATFS_SECONDS,
        sync_interval: DEFAULT_SYNC_INTERVAL,
        mount_options: default_mount_options(),
        authorize_using_code: false,
        token_path: None,
    }
}

impl View for Configuration {
    type V = ConfigurationView;

    open spec fn view(&self) -> ConfigurationView {
        ConfigurationView {
            debug: self.debug,
            cache_max_seconds: self.cache_max_seconds,
            cache_max_items: self.cache_max_items,
            cache_statfs_seconds: self.cache_statfs_seconds,
            sync_interval: self.sync_interval,
            mount_options: self.mount_options@.map_values(|s: String| s@),
            authorize_using_code: self.authorize_using_code,
            token_path: match self.token_path {
                Some(path) => Some(path@),
                None => None,
            },
        }
    }
}

impl ConfigurationView {
    /// Whether the credential path has been set, which mounting needs.
    pub open spec fn is_mountable(self) -> bool {
        self.token_path is Some
    }
}

/// The compiled-in mount options, as owned strings.
pub fn default_mount_option_list() -> (options: Vec<String>)
    ensures
        options@.map_values(|s: String| s@) == default_mount_options(),
{
    let mut options: Vec<String> = Vec::new();
    options.push("fsname=GCSF".to_owned());
    options.push("allow_root".to_owned());
    options.push("big_writes".to_owned());
    options.push("max_write=131072".to_owned());
    assert(options@.map_values(|s: String| s@) =~= default_mount_options());
    options
}

impl Default for Configuration {
    /// The compiled-in defaults, without a credential path.
    fn default() -> (config: Configuration)
        ensures
            config@ == default_view(),
    {
        Configuration {
            debug: false,
            cache_max_seconds: DEFAULT_CACHE_MAX_SECONDS,
            cache_max_items: DEFAULT_CACHE_MAX_ITEMS,
            cache_statfs_seconds: DEFAULT_CACHE_STATFS_SECONDS,
            sync_interval: DEFAULT_SYNC_INTERVAL,
            mount_options: default_mount_option_list(),
            authorize_using_code: false,
            token_path: None,
        }
    }
}

impl Configuration {
    /// Whether additional logging was asked for.
    pub fn debug(&self) -> (on: bool)
        ensures
            on == self@.debug,
    {
        self.debug
    }

    /// The configured mount option values, in order.
    pub fn mount_options(&self) -> (options: &Vec<String>)
        ensures
            options@.map_values(|s: String| s@) == self@.mount_options,
    {
        &self.mount_options
    }

    /// Whether the credential path has been set.
    pub fn is_mountable(&self) -> (ok: bool)
        ensures
            ok == self@.is_mountable(),
    {
        self.token_path.is_some()
    }

    /// The same configuration with `path` as its credential path, whatever
    /// path it held before.
    pub fn with_token_path(self, path: String) -> (config: Configuration)
        ensures
            config@ == (ConfigurationView { token_path: Some(path@), ..self@ }),
            config@.is_mountable(),
    {
        Configuration {
            debug: self.debug,
            cache_max_seconds: self.cache_max_seconds,
            cache_max_items: self.cache_max_items,
            cache_statfs_seconds: self.cache_statfs_seconds,
            sync_interval: self.sync_interval,
            mount_options: self.mount_options,
            authorize_using_code: self.authorize_using_code,
            token_path: Some(path),
        }
    }
}

} // verus!
