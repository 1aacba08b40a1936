use gcsf::configuration::{
    default_mount_option_list, Configuration, APP_PREFIX, DEFAULT_CACHE_MAX_ITEMS,
    DEFAULT_CACHE_MAX_SECONDS, DEFAULT_CACHE_STATFS_SECONDS, DEFAULT_CONFIG,
    DEFAULT_SYNC_INTERVAL, SETTINGS_FILE, TOKEN_FILE,
};
use gcsf::error::LoadError;

#[test]
fn file_names_are_fixed() {
    assert_eq!(APP_PREFIX, "gcsf");
    assert_eq!(SETTINGS_FILE, "gcsf.toml");
    assert_eq!(TOKEN_FILE, "auth_token.json");
}

#[test]
fn default_template_is_verbatim() {
    let expected = [
        "debug = false",
        "cache_max_seconds = 300",
        "cache_max_items = 20",
        "cache_statfs_seconds = 10",
        "sync_interval = 10",
        "mount_options = [\"fsname=GCSF\", \"allow_root\", \"big_writes\", \"max_write=131072\"]",
        "authorize_using_code = false",
    ];
    let lines: Vec<&str> = DEFAULT_CONFIG.lines().collect();
    assert_eq!(lines, expected);
    assert!(DEFAULT_CONFIG.ends_with("authorize_using_code = false\n"));
}

#[test]
fn default_numbers() {
    assert_eq!(DEFAULT_CACHE_MAX_SECONDS, 300);
    assert_eq!(DEFAULT_CACHE_MAX_ITEMS, 20);
    assert_eq!(DEFAULT_CACHE_STATFS_SECONDS, 10);
    assert_eq!(DEFAULT_SYNC_INTERVAL, 10);
}

#[test]
fn default_mount_options_are_the_four_of_the_template() {
    assert_eq!(
        default_mount_option_list(),
        vec![
            "fsname=GCSF".to_string(),
            "allow_root".to_string(),
            "big_writes".to_string(),
            "max_write=131072".to_string(),
        ]
    );
}

#[test]
fn default_configuration_has_no_credential_path() {
    let config = Configuration::default();
    assert!(!config.debug);
    assert_eq!(config.cache_max_seconds, 300);
    assert_eq!(config.cache_max_items, 20);
    assert_eq!(config.cache_statfs_seconds, 10);
    assert_eq!(config.sync_interval, 10);
    assert_eq!(config.mount_options.len(), 4);
    assert!(!config.authorize_using_code);
    assert_eq!(config.token_path, None);
    assert!(!config.is_mountable());
}

#[test]
fn getters_read_the_fields() {
    let mut config = Configuration::default();
    config.debug = true;
    config.mount_options = vec!["ro".to_string()];
    assert!(config.debug());
    assert_eq!(config.mount_options(), &vec!["ro".to_string()]);
}

#[test]
fn with_token_path_sets_only_the_path() {
    let config = Configuration::default().with_token_path("/cfg/auth_token.json".to_string());
    let mut expected = Configuration::default();
    expected.token_path = Some("/cfg/auth_token.json".to_string());
    assert_eq!(config, expected);
    assert!(config.is_mountable());
}

#[test]
fn with_token_path_overwrites_an_earlier_path() {
    let config = Configuration::default()
        .with_token_path("/old".to_string())
        .with_token_path("/new".to_string());
    assert_eq!(config.token_path, Some("/new".to_string()));
}

#[test]
fn load_error_messages() {
    assert_eq!(LoadError::ConfigDir.message(), "Cannot create configuration directory");
    assert_eq!(LoadError::ConfigFileWrite.message(), "Could not create config file");
    assert_eq!(LoadError::InvalidConfig.message(), "Invalid configuration file");
}
