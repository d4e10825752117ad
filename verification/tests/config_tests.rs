use configparser::ini::Ini;
use slideshow_rs::config::{
    classify_load_failure, classify_lowered_failure, config_from_ini, config_from_values,
};
use slideshow_rs::errors::ConfigError;

fn parsed(text: &str) -> Ini {
    let mut ini = Ini::new();
    ini.read(text.to_string()).expect("the text is a configuration");
    ini
}

fn some(text: &str) -> Option<String> {
    Some(text.to_string())
}

#[test]
fn configuration_is_read_from_the_settings_section() {
    let ini = parsed(
        "[settings]\ncouchdb_url = http://db:5984\ntv_uuid = tv-42\nmanager_url = http://manager\n",
    );
    let config = config_from_ini(&ini).expect("all three keys are there");
    assert_eq!(config.couchdb_url, "http://db:5984");
    assert_eq!(config.tv_uuid, "tv-42");
    assert_eq!(config.manager_url, "http://manager");
}

#[test]
fn keys_of_other_sections_do_not_count() {
    let ini = parsed(
        "[other]\ncouchdb_url = http://db:5984\ntv_uuid = tv-42\nmanager_url = http://manager\n",
    );
    assert!(matches!(config_from_ini(&ini), Err(ConfigError::MissingKey(key)) if key == "couchdb_url"));
}

#[test]
fn first_missing_key_is_reported() {
    let ini = parsed("[settings]\nmanager_url = http://manager\n");
    assert!(matches!(config_from_ini(&ini), Err(ConfigError::MissingKey(key)) if key == "couchdb_url"));
    let ini = parsed("[settings]\ncouchdb_url = http://db:5984\n");
    assert!(matches!(config_from_ini(&ini), Err(ConfigError::MissingKey(key)) if key == "tv_uuid"));
    let ini = parsed("[settings]\ncouchdb_url = http://db:5984\ntv_uuid = tv-42\n");
    assert!(matches!(config_from_ini(&ini), Err(ConfigError::MissingKey(key)) if key == "manager_url"));
}

#[test]
fn key_without_value_counts_as_missing() {
    let ini = parsed("[settings]\ncouchdb_url\ntv_uuid = tv-42\nmanager_url = http://manager\n");
    assert!(matches!(config_from_ini(&ini), Err(ConfigError::MissingKey(key)) if key == "couchdb_url"));
}

#[test]
fn empty_configuration_misses_the_first_key() {
    assert!(matches!(
        config_from_ini(&Ini::new()),
        Err(ConfigError::MissingKey(key)) if key == "couchdb_url"
    ));
}

#[test]
fn configuration_from_values_wants_all_three() {
    let config = config_from_values(some("a"), some("b"), some("c")).expect("all there");
    assert_eq!((config.couchdb_url.as_str(), config.tv_uuid.as_str()), ("a", "b"));
    assert_eq!(config.manager_url, "c");
    assert!(matches!(
        config_from_values(None, None, None),
        Err(ConfigError::MissingKey(key)) if key == "couchdb_url"
    ));
    assert!(matches!(
        config_from_values(some("a"), None, None),
        Err(ConfigError::MissingKey(key)) if key == "tv_uuid"
    ));
    assert!(matches!(
        config_from_values(some("a"), some("b"), None),
        Err(ConfigError::MissingKey(key)) if key == "manager_url"
    ));
    assert!(matches!(
        config_from_values(None, some("b"), some("c")),
        Err(ConfigError::MissingKey(key)) if key == "couchdb_url"
    ));
}

#[test]
fn unreadable_file_is_an_io_failure() {
    let message = "couldn't read /etc/slideshow.conf: No such file or directory (OS Error 2)";
    assert!(matches!(
        classify_load_failure(message.to_string()),
        ConfigError::Io(text) if text == message
    ));
    assert!(matches!(
        classify_load_failure("Failed to Read File".to_string()),
        ConfigError::Io(text) if text == "Failed to Read File"
    ));
}

#[test]
fn any_other_load_failure_is_a_parse_failure() {
    let message = "line 3: section not closed";
    assert!(matches!(
        classify_load_failure(message.to_string()),
        ConfigError::Parse(text) if text == message
    ));
    assert!(matches!(classify_load_failure(String::new()), ConfigError::Parse(text) if text.is_empty()));
    assert!(matches!(
        classify_load_failure("os error 13".to_string()),
        ConfigError::Parse(_)
    ));
}

#[test]
fn lowered_failure_text_is_searched_as_it_is() {
    assert!(matches!(
        classify_lowered_failure("X".to_string(), "an os error 2 here"),
        ConfigError::Io(text) if text == "X"
    ));
    assert!(matches!(
        classify_lowered_failure("X".to_string(), "an OS ERROR 2 here"),
        ConfigError::Parse(text) if text == "X"
    ));
}
