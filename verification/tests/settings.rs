use gcsf::configuration::{Configuration, DEFAULT_CONFIG};
use gcsf::error::LoadError;
use gcsf::settings::{load_configuration, merge_settings, Lookup, RawSettings};

const TOKEN: &str = "/home/user/.config/gcsf/auth_token.json";

fn load(text: &str) -> Result<Configuration, LoadError> {
    load_configuration(text, TOKEN.to_string())
}

fn defaults_with_token() -> Configuration {
    Configuration::default().with_token_path(TOKEN.to_string())
}

fn nothing_found() -> RawSettings {
    RawSettings {
        debug: Lookup::Missing,
        cache_max_seconds: Lookup::Missing,
        cache_max_items: Lookup::Missing,
        cache_statfs_seconds: Lookup::Missing,
        sync_interval: Lookup::Missing,
        mount_options: Lookup::Missing,
        authorize_using_code: Lookup::Missing,
    }
}

#[test]
fn default_template_gives_the_default_configuration() {
    let config = load(DEFAULT_CONFIG).unwrap();
    assert!(!config.debug);
    assert_eq!(config.cache_max_seconds, 300);
    assert_eq!(config.cache_max_items, 20);
    assert_eq!(config.cache_statfs_seconds, 10);
    assert_eq!(config.sync_interval, 10);
    assert_eq!(
        config.mount_options,
        vec!["fsname=GCSF", "allow_root", "big_writes", "max_write=131072"]
    );
    assert!(!config.authorize_using_code);
    assert_eq!(config.token_path.as_deref(), Some(TOKEN));
    assert_eq!(config, defaults_with_token());
}

#[test]
fn changed_cache_time_is_taken_from_the_file() {
    let text = DEFAULT_CONFIG.replace("cache_max_seconds = 300", "cache_max_seconds = 600");
    let config = load(&text).unwrap();
    assert_eq!(config.cache_max_seconds, 600);
    assert_eq!(config.sync_interval, 10);
    let mut expected = defaults_with_token();
    expected.cache_max_seconds = 600;
    assert_eq!(config, expected);
}

#[test]
fn every_key_is_read() {
    let text = "debug = true\n\
                cache_max_seconds = 1\n\
                cache_max_items = 2\n\
                cache_statfs_seconds = 3\n\
                sync_interval = 4\n\
                mount_options = [\"ro\", \"fsname=X\"]\n\
                authorize_using_code = true\n";
    let config = load(text).unwrap();
    assert_eq!(
        config,
        Configuration {
            debug: true,
            cache_max_seconds: 1,
            cache_max_items: 2,
            cache_statfs_seconds: 3,
            sync_interval: 4,
            mount_options: vec!["ro".to_string(), "fsname=X".to_string()],
            authorize_using_code: true,
            token_path: Some(TOKEN.to_string()),
        }
    );
}

#[test]
fn credential_path_in_the_file_is_ignored() {
    let text = format!("{}token_path = \"/tmp/stolen.json\"\n", DEFAULT_CONFIG);
    let config = load(&text).unwrap();
    assert_eq!(config.token_path.as_deref(), Some(TOKEN));
}

#[test]
fn credential_path_is_the_given_one_for_any_text() {
    for text in ["", "debug = true\n", "token_path = 7\n", "x = 1\n[section]\ny = 2\n"] {
        let config = load_configuration(text, "/derived/path".to_string()).unwrap();
        assert_eq!(config.token_path.as_deref(), Some("/derived/path"));
    }
}

#[test]
fn empty_file_gives_the_defaults() {
    assert_eq!(load("").unwrap(), defaults_with_token());
}

#[test]
fn missing_keys_take_their_defaults() {
    let config = load("debug = true\nsync_interval = 99\n").unwrap();
    let mut expected = defaults_with_token();
    expected.debug = true;
    expected.sync_interval = 99;
    assert_eq!(config, expected);
}

#[test]
fn unknown_keys_are_ignored() {
    let config = load("colour = \"blue\"\n[cache]\nsize = 3\n").unwrap();
    assert_eq!(config, defaults_with_token());
}

#[test]
fn comments_are_skipped() {
    let config = load("# Show additional logging info?\ndebug = true\n").unwrap();
    assert!(config.debug);
}

#[test]
fn empty_option_list_is_kept_empty() {
    let config = load("mount_options = []\n").unwrap();
    assert_eq!(config.mount_options, Vec::<String>::new());
}

#[test]
fn zero_is_a_valid_amount() {
    let config = load("cache_max_items = 0\n").unwrap();
    assert_eq!(config.cache_max_items, 0);
}

#[test]
fn largest_amount_is_kept() {
    let config = load("cache_max_seconds = 9223372036854775807\n").unwrap();
    assert_eq!(config.cache_max_seconds, 9223372036854775807);
}

#[test]
fn malformed_text_is_invalid() {
    assert_eq!(load("debug = = true"), Err(LoadError::InvalidConfig));
    assert_eq!(load("mount_options = [\"a\", "), Err(LoadError::InvalidConfig));
    assert_eq!(load("this is not toml"), Err(LoadError::InvalidConfig));
}

#[test]
fn value_of_the_wrong_type_is_invalid() {
    assert_eq!(load("debug = [true]\n"), Err(LoadError::InvalidConfig));
    assert_eq!(load("cache_max_seconds = \"soon\"\n"), Err(LoadError::InvalidConfig));
    assert_eq!(load("cache_max_items = [1]\n"), Err(LoadError::InvalidConfig));
    assert_eq!(load("mount_options = 5\n"), Err(LoadError::InvalidConfig));
    assert_eq!(load("mount_options = \"allow_root\"\n"), Err(LoadError::InvalidConfig));
    assert_eq!(load("authorize_using_code = \"maybe\"\n"), Err(LoadError::InvalidConfig));
}

#[test]
fn negative_amount_is_invalid() {
    assert_eq!(load("cache_max_seconds = -1\n"), Err(LoadError::InvalidConfig));
    assert_eq!(load("sync_interval = -10\n"), Err(LoadError::InvalidConfig));
}

#[test]
fn one_bad_key_spoils_a_file_that_is_fine_otherwise() {
    let text = DEFAULT_CONFIG.replace("sync_interval = 10", "sync_interval = [10]");
    assert_eq!(load(&text), Err(LoadError::InvalidConfig));
}

#[test]
fn merge_of_nothing_gives_the_defaults() {
    assert_eq!(
        merge_settings(nothing_found(), TOKEN.to_string()),
        Ok(defaults_with_token())
    );
}

#[test]
fn merge_takes_found_values() {
    let raw = RawSettings {
        debug: Lookup::Found(true),
        cache_max_seconds: Lookup::Found(600),
        cache_max_items: Lookup::Found(7),
        cache_statfs_seconds: Lookup::Found(8),
        sync_interval: Lookup::Found(9),
        mount_options: Lookup::Found(vec!["ro".to_string()]),
        authorize_using_code: Lookup::Found(true),
    };
    assert_eq!(
        merge_settings(raw, "/t".to_string()),
        Ok(Configuration {
            debug: true,
            cache_max_seconds: 600,
            cache_max_items: 7,
            cache_statfs_seconds: 8,
            sync_interval: 9,
            mount_options: vec!["ro".to_string()],
            authorize_using_code: true,
            token_path: Some("/t".to_string()),
        })
    );
}

#[test]
fn merge_rejects_each_invalid_key() {
    let mut raw = nothing_found();
    raw.debug = Lookup::Invalid;
    assert_eq!(merge_settings(raw, TOKEN.to_string()), Err(LoadError::InvalidConfig));
    let mut raw = nothing_found();
    raw.cache_max_seconds = Lookup::Invalid;
    assert_eq!(merge_settings(raw, TOKEN.to_string()), Err(LoadError::InvalidConfig));
    let mut raw = nothing_found();
    raw.cache_max_items = Lookup::Invalid;
    assert_eq!(merge_settings(raw, TOKEN.to_string()), Err(LoadError::InvalidConfig));
    let mut raw = nothing_found();
    raw.cache_statfs_seconds = Lookup::Invalid;
    assert_eq!(merge_settings(raw, TOKEN.to_string()), Err(LoadError::InvalidConfig));
    let mut raw = nothing_found();
    raw.sync_interval = Lookup::Invalid;
    assert_eq!(merge_settings(raw, TOKEN.to_string()), Err(LoadError::InvalidConfig));
    let mut raw = nothing_found();
    raw.mount_options = Lookup::Invalid;
    assert_eq!(merge_settings(raw, TOKEN.to_string()), Err(LoadError::InvalidConfig));
    let mut raw = nothing_found();
    raw.authorize_using_code = Lookup::Invalid;
    assert_eq!(merge_settings(raw, TOKEN.to_string()), Err(LoadError::InvalidConfig));
}

#[test]
fn merge_rejects_negative_amounts() {
    let mut raw = nothing_found();
    raw.cache_max_items = Lookup::Found(-1);
    assert_eq!(merge_settings(raw, TOKEN.to_string()), Err(LoadError::InvalidConfig));
    let mut raw = nothing_found();
    raw.sync_interval = Lookup::Found(i64::MIN);
    assert_eq!(merge_settings(raw, TOKEN.to_string()), Err(LoadError::InvalidConfig));
}

#[test]
fn merge_accepts_the_bounds() {
    let mut raw = nothing_found();
    raw.cache_max_seconds = Lookup::Found(0);
    raw.cache_max_items = Lookup::Found(i64::MAX);
    let config = merge_settings(raw, TOKEN.to_string()).unwrap();
    assert_eq!(config.cache_max_seconds, 0);
    assert_eq!(config.cache_max_items, 9223372036854775807);
}
