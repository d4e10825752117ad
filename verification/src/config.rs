//! The client's configuration: where the document store is, which display
//! this is, and where displays are managed.

use crate::errors::{ConfigError, ConfigFailure};
use crate::text::{contains, contains_text, lowercase_text, to_lowercase};
use vstd::prelude::*;

verus! {

/// The settings of one display.
#[derive(Clone, Debug)]
pub struct AppConfig {
    /// The base address of the document store.
    pub couchdb_url: String,
    /// The identifier of this display, which is also the id of its document.
    pub tv_uuid: String,
    /// The address of the manager where displays are set up.
    pub manager_url: String,
}

/// A parsed configuration file of `configparser`. Nothing of its contents
/// is visible here but through `ini_value`.
#[verifier::external_type_specification]
#[verifier::external_body]
pub struct ExIni(configparser::ini::Ini);

/// The value that a parsed configuration holds for `key` in `section`, as
/// its lookup finds it.
pub uninterp spec fn ini_value(
    ini: configparser::ini::Ini,
    section: Seq<char>,
    key: Seq<char>,
) -> Option<Seq<char>>;

/// Calls `Ini::get`, which returns a copy of the value stored for the key in
/// the section, or nothing where there is none. What the configuration
/// holds is named, not stated.
#[verifier::external_body]
fn ini_get(ini: &configparser::ini::Ini, section: &str, key: &str) -> (value: Option<String>)
    ensures
        match value {
            Some(text) => ini_value(*ini, section@, key@) == Some(text@),
            None => ini_value(*ini, section@, key@) is None,
        },
{
    ini.get(section, key)
}

/// The configuration that three looked-up values make: all three must be
/// there, and the first that is missing, in the order address, display,
/// manager, is reported by its key.
pub open spec fn config_of(
    couchdb_url: Option<Seq<char>>,
    tv_uuid: Option<Seq<char>>,
    manager_url: Option<Seq<char>>,
) -> Result<(Seq<char>, Seq<char>, Seq<char>), ConfigFailure> {
    match (couchdb_url, tv_uuid, manager_url) {
        (None, _, _) => Err(ConfigFailure::MissingKey("couchdb_url"@)),
        (Some(_), None, _) => Err(ConfigFailure::MissingKey("tv_uuid"@)),
        (Some(_), Some(_), None) => Err(ConfigFailure::MissingKey("manager_url"@)),
        (Some(a), Some(b), Some(c)) => Ok((a, b, c)),
    }
}

/// The view of an optional string.
pub open spec fn text_of(value: Option<String>) -> Option<Seq<char>> {
    match value {
        Some(s) => Some(s@),
        None => None,
    }
}

/// Whether `result` is the configuration or failure that `expected` says.
pub open spec fn config_matches(
    result: Result<AppConfig, ConfigError>,
    expected: Result<(Seq<char>, Seq<char>, Seq<char>), ConfigFailure>,
) -> bool {
    match result {
        Ok(config) => expected == Ok::<(Seq<char>, Seq<char>, Seq<char>), ConfigFailure>(
            (config.couchdb_url@, config.tv_uuid@, config.manager_url@),
        ),
        Err(error) => expected == Err::<(Seq<char>, Seq<char>, Seq<char>), ConfigFailure>(error@),
    }
}

/// Makes the configuration from the three values of the `[settings]`
/// section, each as it was looked up.
pub fn config_from_values(
    couchdb_url: Option<String>,
    tv_uuid: Option<String>,
    manager_url: Option<String>,
) -> (result: Result<AppConfig, ConfigError>)
    ensures
        config_matches(result, config_of(text_of(couchdb_url), text_of(tv_uuid), text_of(manager_url))),
{
    let couchdb_url = match couchdb_url {
        Some(value) => value,
        None => {
            return Err(ConfigError::MissingKey(String::from_str("couchdb_url")));
        },
    };
    let tv_uuid = match tv_uuid {
        Some(value) => value,
        None => {
            return Err(ConfigError::MissingKey(String::from_str("tv_uuid")));
        },
    };
    let manager_url = match manager_url {
        Some(value) => value,
        None => {
            return Err(ConfigError::MissingKey(String::from_str("manager_url")));
        },
    };
    Ok(AppConfig { couchdb_url, tv_uuid, manager_url })
}

/// Makes the configuration from the `[settings]` section of a parsed
/// configuration file.
pub fn config_from_ini(ini: &configparser::ini::Ini) -> (result: Result<AppConfig, ConfigError>)
    ensures
        config_matches(
            result,
            config_of(
                ini_value(*ini, "settings"@, "couchdb_url"@),
                ini_value(*ini, "settings"@, "tv_uuid"@),
                ini_value(*ini, "settings"@, "manager_url"@),
            ),
        ),
{
    let couchdb_url = ini_get(ini, "settings", "couchdb_url");
    if couchdb_url.is_none() {
        return Err(ConfigError::MissingKey(String::from_str("couchdb_url")));
    }
    let tv_uuid = ini_get(ini, "settings", "tv_uuid");
    if tv_uuid.is_none() {
        return Err(ConfigError::MissingKey(String::from_str("tv_uuid")));
    }
    let manager_url = ini_get(ini, "settings", "manager_url");
    config_from_values(couchdb_url, tv_uuid, manager_url)
}

/// Whether the lower-case text of a load failure tells of a file that could
/// not be read rather than of one that could not be parsed.
pub open spec fn tells_of_unreadable_file(lowered: Seq<char>) -> bool {
    contains_text(lowered, "os error 2"@) || contains_text(lowered, "failed to read file"@)
}

/// Sorts a load failure by its text in lower case: an unreadable file is an
/// I/O failure, anything else a parse failure; either carries `message`.
pub fn classify_lowered_failure(message: String, lowered: &str) -> (error: ConfigError)
    ensures
        error@ == if tells_of_unreadable_file(lowered@) {
            ConfigFailure::Io(message@)
        } else {
            ConfigFailure::Parse(message@)
        },
{
    if contains(lowered, "os error 2") || contains(lowered, "failed to read file") {
        ConfigError::Io(message)
    } else {
        ConfigError::Parse(message)
    }
}

/// Sorts the failure to load the configuration file by what its message
/// says, whatever the case of its letters.
pub fn classify_load_failure(message: String) -> (error: ConfigError)
    ensures
        error@ == if tells_of_unreadable_file(lowercase_text(message@)) {
            ConfigFailure::Io(message@)
        } else {
            ConfigFailure::Parse(message@)
        },
{
    let lowered = to_lowercase(message.as_str());
    classify_lowered_failure(message, lowered.as_str())
}

} // verus!
