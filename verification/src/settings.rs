//! From the text of a settings file to a typed configuration.
//!
//! Parsing and value coercion are the work of the `config` crate. This module
//! asks it for the recognised keys, one by one, and merges what it finds with
//! the compiled-in defaults.

use crate::configuration::{
    default_mount_option_list, default_mount_options, Configuration, ConfigurationView,
    DEFAULT_CACHE_MAX_ITEMS, DEFAULT_CACHE_MAX_SECONDS, DEFAULT_CACHE_STATFS_SECONDS,
    DEFAULT_SYNC_INTERVAL,
};
use crate::error::LoadError;
use vstd::prelude::*;

verus! {

/// The settings store of the `config` crate.
#[verifier::external_type_specification]
#[verifier::external_body]
pub struct ExSettingsStore(config::Config);

/// The error type of the `config` crate.
#[verifier::external_type_specification]
#[verifier::external_body]
pub struct ExSettingsError(config::ConfigError);

/// What a settings store holds under one key: the value read as a truth
/// value, as an integer and as a list of strings, each where the `config`
/// crate can coerce the stored value to that type.
pub struct Entry {
    pub truth: Option<bool>,
    pub integer: Option<i64>,
    pub strings: Option<Seq<Seq<char>>>,
}

/// The entries of a settings store, by the key that finds them.
pub uninterp spec fn entries(settings: config::Config) -> Map<Seq<char>, Entry>;

/// The entries that the `config` crate reads out of `text` taken as TOML, or
/// `None` where `text` is not well-formed TOML.
pub uninterp spec fn toml_entries(text: Seq<char>) -> Option<Map<Seq<char>, Entry>>;

/// The result of asking a settings store for one key.
#[derive(Debug, PartialEq, Eq)]
pub enum Lookup<T> {
    /// The store has nothing under the key.
    Missing,
    /// The store has a value under the key that is not of the type asked for.
    Invalid,
    /// The value under the key.
    Found(T),
}

/// What the lookup of a key gives, from the coercion of its entry to the type
/// asked for.
pub open spec fn lookup_of<T>(coerced: Option<Option<T>>) -> Lookup<T> {
    match coerced {
        None => Lookup::Missing,
        Some(None) => Lookup::Invalid,
        Some(Some(value)) => Lookup::Found(value),
    }
}

/// The truth value under `key` in `table`.
pub open spec fn truth_at(table: Map<Seq<char>, Entry>, key: Seq<char>) -> Lookup<bool> {
    lookup_of(
        if table.dom().contains(key) {
            Some(table[key].truth)
        } else {
            None
        },
    )
}

/// The integer under `key` in `table`.
pub open spec fn integer_at(table: Map<Seq<char>, Entry>, key: Seq<char>) -> Lookup<i64> {
    lookup_of(
        if table.dom().contains(key) {
            Some(table[key].integer)
        } else {
            None
        },
    )
}

/// The list of strings under `key` in `table`.
pub open spec fn strings_at(table: Map<Seq<char>, Entry>, key: Seq<char>) -> Lookup<
    Seq<Seq<char>>,
> {
    lookup_of(
        if table.dom().contains(key) {
            Some(table[key].strings)
        } else {
            None
        },
    )
}

/// Keys that name an entry directly. A key with a subscript in it addresses an
/// element of a list, which none of the lookups here is for.
pub open spec fn direct_key(key: Seq<char>) -> bool {
    !key.contains('[')
}

/// `config::Source::collect` on `config::File::from_str(text, FileFormat::Toml)`,
/// with the collected table made the root of a fresh `config::Config`.
///
/// The source parses `text` as TOML and hands back its top-level table, or
/// the parser's error. Nothing but `text` goes into the result.
#[verifier::external_body]
fn parse_toml(text: &str) -> (parsed: Result<config::Config, config::ConfigError>)
    ensures
        match parsed {
            Ok(settings) => toml_entries(text@) == Some(entries(settings)),
            Err(_) => toml_entries(text@) is None,
        },
{
    let source = config::File::from_str(text, config::FileFormat::Toml);
    let table = config::Source::collect(&source)?;
    let mut settings = config::Config::new();
    settings.cache = table.into();
    Ok(settings)
}

/// `config::Config::get_bool`: the value under `key` coerced to a truth value.
/// The crate reports a key it does not hold with `ConfigError::NotFound`, and
/// a value it cannot coerce with another error.
#[verifier::external_body]
fn lookup_truth(settings: &config::Config, key: &str) -> (found: Lookup<bool>)
    requires
        direct_key(key@),
    ensures
        found == truth_at(entries(*settings), key@),
{
    match settings.get_bool(key) {
        Ok(value) => Lookup::Found(value),
        Err(config::ConfigError::NotFound(_)) => Lookup::Missing,
        Err(_) => Lookup::Invalid,
    }
}

/// `config::Config::get_int`: the value under `key` coerced to an integer.
/// The crate reports a key it does not hold with `ConfigError::NotFound`, and
/// a value it cannot coerce with another error.
#[verifier::external_body]
fn lookup_integer(settings: &config::Config, key: &str) -> (found: Lookup<i64>)
    requires
        direct_key(key@),
    ensures
        found == integer_at(entries(*settings), key@),
{
    match settings.get_int(key) {
        Ok(value) => Lookup::Found(value),
        Err(config::ConfigError::NotFound(_)) => Lookup::Missing,
        Err(_) => Lookup::Invalid,
    }
}

/// `config::Config::get`, asked for a `Vec<String>`: the list under `key`
/// with each element coerced to a string. The crate reports a key it does not
/// hold with `ConfigError::NotFound`, and a value it cannot coerce with
/// another error.
#[verifier::external_body]
fn lookup_strings(settings: &config::Config, key: &str) -> (found: Lookup<Vec<String>>)
    requires
        direct_key(key@),
    ensures
        texts_of(found) == strings_at(entries(*settings), key@),
{
    match settings.get::<Vec<String>>(key) {
        Ok(value) => Lookup::Found(value),
        Err(config::ConfigError::NotFound(_)) => Lookup::Missing,
        Err(_) => Lookup::Invalid,
    }
}

/// A looked-up list of strings as a mathematical value.
pub open spec fn texts_of(found: Lookup<Vec<String>>) -> Lookup<Seq<Seq<char>>> {
    match found {
        Lookup::Missing => Lookup::Missing,
        Lookup::Invalid => Lookup::Invalid,
        Lookup::Found(list) => Lookup::Found(list@.map_values(|s: String| s@)),
    }
}

/// Key of the logging switch.
pub const KEY_DEBUG: &'static str = "debug";

/// Key of the time, in seconds, that a file's contents stay cached.
pub const KEY_CACHE_MAX_SECONDS: &'static str = "cache_max_seconds";

/// Key of the number of files kept cached.
pub const KEY_CACHE_MAX_ITEMS: &'static str = "cache_max_items";

/// Key of the time, in seconds, that the filesystem statistics stay cached.
pub const KEY_CACHE_STATFS_SECONDS: &'static str = "cache_statfs_seconds";

/// Key of the time, in seconds, between two checks for remote changes.
pub const KEY_SYNC_INTERVAL: &'static str = "sync_interval";

/// Key of the list of mount option values.
pub const KEY_MOUNT_OPTIONS: &'static str = "mount_options";

/// Key of the authorization mode switch.
pub const KEY_AUTHORIZE_USING_CODE: &'static str = "authorize_using_code";

/// What a settings file says under each recognised key, before it is merged
/// with the defaults.
#[derive(Debug, PartialEq, Eq)]
pub struct RawSettings {
    pub debug: Lookup<bool>,
    pub cache_max_seconds: Lookup<i64>,
    pub cache_max_items: Lookup<i64>,
    pub cache_statfs_seconds: Lookup<i64>,
    pub sync_interval: Lookup<i64>,
    pub mount_options: Lookup<Vec<String>>,
    pub authorize_using_code: Lookup<bool>,
}

/// Raw settings as a mathematical value.
pub struct RawSettingsView {
    pub debug: Lookup<bool>,
    pub cache_max_seconds: Lookup<i64>,
    pub cache_max_items: Lookup<i64>,
    pub cache_statfs_seconds: Lookup<i64>,
    pub sync_interval: Lookup<i64>,
    pub mount_options: Lookup<Seq<Seq<char>>>,
    pub authorize_using_code: Lookup<bool>,
}

impl View for RawSettings {
    type V = RawSettingsView;

    open spec fn view(&self) -> RawSettingsView {
        RawSettingsView {
            debug: self.debug,
            cache_max_seconds: self.cache_max_seconds,
            cache_max_items: self.cache_max_items,
            cache_statfs_seconds: self.cache_statfs_seconds,
            sync_interval: self.sync_interval,
            mount_options: texts_of(self.mount_options),
            authorize_using_code: self.authorize_using_code,
        }
    }
}

/// What `table` says under each recognised key. Other keys are not looked at.
pub open spec fn settings_in(table: Map<Seq<char>, Entry>) -> RawSettingsView {
    RawSettingsView {
        debug: truth_at(table, KEY_DEBUG@),
        cache_max_seconds: integer_at(table, KEY_CACHE_MAX_SECONDS@),
        cache_max_items: integer_at(table, KEY_CACHE_MAX_ITEMS@),
        cache_statfs_seconds: integer_at(table, KEY_CACHE_STATFS_SECONDS@),
        sync_interval: integer_at(table, KEY_SYNC_INTERVAL@),
        mount_options: strings_at(table, KEY_MOUNT_OPTIONS@),
        authorize_using_code: truth_at(table, KEY_AUTHORIZE_USING_CODE@),
    }
}

/// The value of a switch: what the file says, or `fallback` where the file
/// has no such key. `None` where the file's value is not a truth value.
pub open spec fn switch_of(found: Lookup<bool>, fallback: bool) -> Option<bool> {
    match found {
        Lookup::Missing => Some(fallback),
        Lookup::Invalid => None,
        Lookup::Found(value) => Some(value),
    }
}

/// The value of a count or duration: what the file says, or `fallback` where
/// the file has no such key. `None` where the file's value is not an integer,
/// or is negative.
pub open spec fn amount_of(found: Lookup<i64>, fallback: u64) -> Option<u64> {
    match found {
        Lookup::Missing => Some(fallback),
        Lookup::Invalid => None,
        Lookup::Found(value) => if value >= 0 {
            Some(value as u64)
        } else {
            None
        },
    }
}

/// The value of a list: what the file says, or `fallback` where the file has
/// no such key. `None` where the file's value is not a list of strings.
pub open spec fn list_of(found: Lookup<Seq<Seq<char>>>, fallback: Seq<Seq<char>>) -> Option<
    Seq<Seq<char>>,
> {
    match found {
        Lookup::Missing => Some(fallback),
        Lookup::Invalid => None,
        Lookup::Found(value) => Some(value),
    }
}

/// Whether every recognised key of `raw` is either absent or holds a value of
/// its type.
pub open spec fn acceptable(raw: RawSettingsView) -> bool {
    &&& switch_of(raw.debug, false) is Some
    &&& amount_of(raw.cache_max_seconds, DEFAULT_CACHE_MAX_SECONDS) is Some
    &&& amount_of(raw.cache_max_items, DEFAULT_CACHE_MAX_ITEMS) is Some
    &&& amount_of(raw.cache_statfs_seconds, DEFAULT_CACHE_STATFS_SECONDS) is Some
    &&& amount_of(raw.sync_interval, DEFAULT_SYNC_INTERVAL) is Some
    &&& list_of(raw.mount_options, default_mount_options()) is Some
    &&& switch_of(raw.authorize_using_code, false) is Some
}

/// The configuration that `raw` and the compiled-in defaults give, with
/// `token_path` as its credential path. `None` where `raw` is not acceptable.
pub open spec fn merged(raw: RawSettingsView, token_path: Seq<char>) -> Option<
    ConfigurationView,
> {
    if acceptable(raw) {
        Some(
            ConfigurationView {
                debug: switch_of(raw.debug, false)->0,
                cache_max_seconds: amount_of(raw.cache_max_seconds, DEFAULT_CACHE_MAX_SECONDS)->0,
                cache_max_items: amount_of(raw.cache_max_items, DEFAULT_CACHE_MAX_ITEMS)->0,
                cache_statfs_seconds: amount_of(
                    raw.cache_statfs_seconds,
                    DEFAULT_CACHE_STATFS_SECONDS,
                )->0,
                sync_interval: amount_of(raw.sync_interval, DEFAULT_SYNC_INTERVAL)->0,
                mount_options: list_of(raw.mount_options, default_mount_options())->0,
                authorize_using_code: switch_of(raw.authorize_using_code, false)->0,
                token_path: Some(token_path),
            },
        )
    } else {
        None
    }
}

/// The configuration that a parsed settings file gives, with `token_path` as
/// its credential path. `None` where the file did not parse or holds a value
/// of the wrong type under a recognised key.
pub open spec fn loaded(parsed: Option<Map<Seq<char>, Entry>>, token_path: Seq<char>) -> Option<
    ConfigurationView,
> {
    match parsed {
        None => None,
        Some(table) => merged(settings_in(table), token_path),
    }
}

fn switch_or(found: Lookup<bool>, fallback: bool) -> (value: Option<bool>)
    ensures
        value == switch_of(found, fallback),
{
    match found {
        Lookup::Missing => Some(fallback),
        Lookup::Invalid => None,
        Lookup::Found(value) => Some(value),
    }
}

fn amount_or(found: Lookup<i64>, fallback: u64) -> (value: Option<u64>)
    ensures
        value == amount_of(found, fallback),
{
    match found {
        Lookup::Missing => Some(fallback),
        Lookup::Invalid => None,
        Lookup::Found(value) => if value >= 0 {
            Some(value as u64)
        } else {
            None
        },
    }
}

fn list_or_default(found: Lookup<Vec<String>>) -> (value: Option<Vec<String>>)
    ensures
        match value {
            Some(list) => list_of(texts_of(found), default_mount_options()) == Some(
                list@.map_values(|s: String| s@),
            ),
            None => list_of(texts_of(found), default_mount_options()) is None,
        },
{
    match found {
        Lookup::Missing => Some(default_mount_option_list()),
        Lookup::Invalid => None,
        Lookup::Found(list) => Some(list),
    }
}

/// Merges what a settings file says with the compiled-in defaults and sets
/// the credential path.
///
/// A key that the file does not hold takes its default. A recognised key with
/// a value of the wrong type, or a negative count or duration, makes the whole
/// file invalid. The credential path of the result is always `token_path`:
/// nothing that the file says can change it.
pub fn merge_settings(raw: RawSettings, token_path: String) -> (result: Result<
    Configuration,
    LoadError,
>)
    ensures
        match result {
            Ok(config) => merged(raw@, token_path@) == Some(config@),
            Err(error) => error == LoadError::InvalidConfig && merged(raw@, token_path@) is None,
        },
        result is Ok <==> acceptable(raw@),
        result matches Ok(config) ==> config@.token_path == Some(token_path@),
{
    let debug = switch_or(raw.debug, false);
    let cache_max_seconds = amount_or(raw.cache_max_seconds, DEFAULT_CACHE_MAX_SECONDS);
    let cache_max_items = amount_or(raw.cache_max_items, DEFAULT_CACHE_MAX_ITEMS);
    let cache_statfs_seconds = amount_or(raw.cache_statfs_seconds, DEFAULT_CACHE_STATFS_SECONDS);
    let sync_interval = amount_or(raw.sync_interval, DEFAULT_SYNC_INTERVAL);
    let mount_options = list_or_default(raw.mount_options);
    let authorize_using_code = switch_or(raw.authorize_using_code, false);
    match (
        debug,
        cache_max_seconds,
        cache_max_items,
        cache_statfs_seconds,
        sync_interval,
        mount_options,
        authorize_using_code,
    ) {
        (
            Some(debug),
            Some(cache_max_seconds),
            Some(cache_max_items),
            Some(cache_statfs_seconds),
            Some(sync_interval),
            Some(mount_options),
            Some(authorize_using_code),
        ) => Ok(
            Configuration {
                debug,
                cache_max_seconds,
                cache_max_items,
                cache_statfs_seconds,
                sync_interval,
                mount_options,
                authorize_using_code,
                token_path: Some(token_path),
            },
        ),
        _ => Err(LoadError::InvalidConfig),
    }
}

/// Asks `settings` for each recognised key.
fn read_settings(settings: &config::Config) -> (raw: RawSettings)
    ensures
        raw@ == settings_in(entries(*settings)),
{
    proof {
        lemma_keys_are_direct();
    }
    RawSettings {
        debug: lookup_truth(settings, KEY_DEBUG),
        cache_max_seconds: lookup_integer(settings, KEY_CACHE_MAX_SECONDS),
        cache_max_items: lookup_integer(settings, KEY_CACHE_MAX_ITEMS),
        cache_statfs_seconds: lookup_integer(settings, KEY_CACHE_STATFS_SECONDS),
        sync_interval: lookup_integer(settings, KEY_SYNC_INTERVAL),
        mount_options: lookup_strings(settings, KEY_MOUNT_OPTIONS),
        authorize_using_code: lookup_truth(settings, KEY_AUTHORIZE_USING_CODE),
    }
}

/// None of the recognised keys holds a subscript.
proof fn lemma_keys_are_direct()
    ensures
        direct_key(KEY_DEBUG@),
        direct_key(KEY_CACHE_MAX_SECONDS@),
        direct_key(KEY_CACHE_MAX_ITEMS@),
        direct_key(KEY_CACHE_STATFS_SECONDS@),
        direct_key(KEY_SYNC_INTERVAL@),
        direct_key(KEY_MOUNT_OPTIONS@),
        direct_key(KEY_AUTHORIZE_USING_CODE@),
{
    reveal_strlit("debug");
    reveal_strlit("cache_max_seconds");
    reveal_strlit("cache_max_items");
    reveal_strlit("cache_statfs_seconds");
    reveal_strlit("sync_interval");
    reveal_strlit("mount_options");
    reveal_strlit("authorize_using_code");
}

/// Turns the text of a settings file into a configuration whose credential
/// path is `token_path`.
///
/// The text is parsed as TOML. Keys other than the recognised ones are
/// ignored, so no key of the file can set the credential path. A text that
/// does not parse, or that holds a value of the wrong type under a recognised
/// key, is rejected as a whole: no configuration is made from the part that
/// was fine.
pub fn load_configuration(text: &str, token_path: String) -> (result: Result<
    Configuration,
    LoadError,
>)
    ensures
        match result {
            Ok(config) => loaded(toml_entries(text@), token_path@) == Some(config@),
            Err(error) => error == LoadError::InvalidConfig && loaded(
                toml_entries(text@),
                token_path@,
            ) is None,
        },
        result matches Ok(config) ==> config@.token_path == Some(token_path@),
{
    match parse_toml(text) {
        Ok(settings) => merge_settings(read_settings(&settings), token_path),
        Err(_) => Err(LoadError::InvalidConfig),
    }
}

} // verus!
