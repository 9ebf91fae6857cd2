//! The client's configuration: where it lives and how it is decoded.

use vstd::prelude::*;

verus! {

/// Credentials and server address for every request of one invocation.
#[derive(Clone, Debug, PartialEq, Eq)]
pub struct Config {
    pub api_key: String,
    pub server_url: String,
}

/// Why no configuration could be had.
#[derive(PartialEq, Eq, Structural, Clone, Copy, Debug)]
pub enum ConfigError {
    /// The configuration file is missing or could not be read.
    Unreadable,
    /// The file was read, but is not valid TOML or lacks a required string key.
    Invalid,
}

/// Top-level entries of a decoded TOML document: each key, with its value
/// where that value is a string.
pub type TomlEntries = Seq<(Seq<char>, Option<Seq<char>>)>;

/// The top-level entries of `text` read as a TOML document, or `None` where
/// `text` is not a TOML document.
pub uninterp spec fn toml_top_level(text: Seq<char>) -> Option<TomlEntries>;

/// Relies on `toml::from_str` decoding into a `toml::Table`: `None` where the
/// text is not a TOML document, else the table's entries, each value kept
/// where it is a `toml::Value::String`.
#[verifier::external_body]
fn toml_entries(text: &str) -> (r: Option<Vec<(String, Option<String>)>>)
    ensures
        r.deep_view() == toml_top_level(text@),
{
    toml::from_str::<toml::Table>(text).ok().map(|table| {
        table.into_iter().map(|(k, v)| match v {
            toml::Value::String(s) => (k, Some(s)),
            _ => (k, None),
        }).collect()
    })
}

/// Path of the configuration file below a home directory.
pub open spec fn config_path_spec(home: Seq<char>) -> Seq<char> {
    home + "/.config/fallo/config.toml"@
}

/// The string value of the first entry named `key`, if that value is a string.
pub open spec fn string_entry(entries: TomlEntries, key: Seq<char>) -> Option<Seq<char>>
    decreases entries.len(),
{
    if entries.len() == 0 {
        None
    } else if entries[0].0 == key {
        entries[0].1
    } else {
        string_entry(entries.drop_first(), key)
    }
}

/// The `(api_key, server_url)` pair that a document's entries hold, if both
/// are present as strings.
pub open spec fn config_of_entries(entries: TomlEntries) -> Option<(Seq<char>, Seq<char>)> {
    match (string_entry(entries, "api_key"@), string_entry(entries, "server_url"@)) {
        (Some(k), Some(u)) => Some((k, u)),
        _ => None,
    }
}

/// The `(api_key, server_url)` pair that a configuration text holds, if any.
pub open spec fn config_of_text(text: Seq<char>) -> Option<(Seq<char>, Seq<char>)> {
    match toml_top_level(text) {
        Some(entries) => config_of_entries(entries),
        None => None,
    }
}

impl Config {
    pub open spec fn model(&self) -> (Seq<char>, Seq<char>) {
        (self.api_key@, self.server_url@)
    }
}

/// Builds `<home>/.config/fallo/config.toml`.
pub fn config_path(home: &str) -> (r: String)
    ensures
        r@ == config_path_spec(home@),
{
    let mut path = String::from_str(home);
    path.append("/.config/fallo/config.toml");
    path
}

proof fn lemma_string_entry_skip(entries: TomlEntries, key: Seq<char>, i: int)
    requires
        0 <= i < entries.len(),
        entries[i].0 != key,
    ensures
        string_entry(entries.skip(i), key) == string_entry(entries.skip(i + 1), key),
{
    assert(entries.skip(i).drop_first() =~= entries.skip(i + 1));
}

/// Looks up the string value of `key` among decoded TOML entries.
pub fn find_string_entry(entries: &Vec<(String, Option<String>)>, key: &str) -> (r: Option<String>)
    ensures
        r.deep_view() == string_entry(entries.deep_view(), key@),
{
    let wanted = String::from_str(key);
    let ghost es = entries.deep_view();
    let mut i: usize = 0;
    assert(es.skip(0) =~= es);
    while i < entries.len()
        invariant
            i <= entries.len(),
            es == entries.deep_view(),
            es.len() == entries.len(),
            wanted@ == key@,
            string_entry(es, key@) == string_entry(es.skip(i as int), key@),
        decreases entries.len() - i,
    {
        let entry = &entries[i];
        if entry.0 == wanted {
            assert(es.skip(i as int)[0] == es[i as int]);
            assert(es[i as int] == entries@[i as int].deep_view());
            assert(string_entry(es.skip(i as int), key@) == es[i as int].1);
            let found = match &entry.1 {
                Some(v) => Some(v.clone()),
                None => None,
            };
            assert(found.deep_view() == entry.1.deep_view());
            return found;
        }
        proof {
            lemma_string_entry_skip(es, key@, i as int);
        }
        i = i + 1;
    }
    None
}

/// Reads a configuration out of decoded TOML entries: both `api_key` and
/// `server_url` must be present with string values.
pub fn config_from_entries(entries: &Vec<(String, Option<String>)>) -> (r: Result<Config, ConfigError>)
    ensures
        match r {
            Ok(c) => config_of_entries(entries.deep_view()) == Some(c.model()),
            Err(e) => e == ConfigError::Invalid && config_of_entries(entries.deep_view()) is None,
        },
{
    let api_key = find_string_entry(entries, "api_key");
    let server_url = find_string_entry(entries, "server_url");
    match (api_key, server_url) {
        (Some(api_key), Some(server_url)) => Ok(Config { api_key, server_url }),
        _ => Err(ConfigError::Invalid),
    }
}

/// Decodes a configuration text.
pub fn parse_config(text: &str) -> (r: Result<Config, ConfigError>)
    ensures
        match r {
            Ok(c) => config_of_text(text@) == Some(c.model()),
            Err(e) => e == ConfigError::Invalid && config_of_text(text@) is None,
        },
{
    match toml_entries(text) {
        Some(entries) => config_from_entries(&entries),
        None => Err(ConfigError::Invalid),
    }
}

/// Turns the configuration file's text, or `None` where it could not be
/// read, into a configuration.
pub fn load_config(text: Option<&str>) -> (r: Result<Config, ConfigError>)
    ensures
        match text {
            None => r == Err::<Config, ConfigError>(ConfigError::Unreadable),
            Some(t) => match r {
                Ok(c) => config_of_text(t@) == Some(c.model()),
                Err(e) => e == ConfigError::Invalid && config_of_text(t@) is None,
            },
        },
{
    match text {
        None => Err(ConfigError::Unreadable),
        Some(t) => parse_config(t),
    }
}

/// Message shown for each configuration error.
pub open spec fn config_error_message_spec(e: ConfigError) -> Seq<char> {
    match e {
        ConfigError::Unreadable =>
            "Unable to read config file! Create a new one at `$HOME/.config/fallo/config.toml`"@,
        ConfigError::Invalid =>
            "Unable to parse config file! Make sure it contains everything it should."@,
    }
}

/// The line printed for a configuration error.
pub fn config_error_message(e: ConfigError) -> (r: String)
    ensures
        r@ == config_error_message_spec(e),
{
    match e {
        ConfigError::Unreadable => String::from_str(
            "Unable to read config file! Create a new one at `$HOME/.config/fallo/config.toml`",
        ),
        ConfigError::Invalid => String::from_str(
            "Unable to parse config file! Make sure it contains everything it should.",
        ),
    }
}

} // verus!
