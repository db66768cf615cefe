use crate::api::{base_url_of, Client, ClientValue};
use crate::error::{result_view, ApiError, Failure};
use crate::text::{glue, glue3, text_view};
use vstd::prelude::*;

verus! {

/// What the configuration file holds: the controller's host and the API key,
/// each of which may be missing.
#[derive(Debug, PartialEq, Eq)]
pub struct Config {
    pub host: Option<String>,
    pub api_key: Option<String>,
}

/// The mathematical value of a `Config`.
pub struct ConfigValue {
    pub host: Option<Seq<char>>,
    pub api_key: Option<Seq<char>>,
}

impl View for Config {
    type V = ConfigValue;

    open spec fn view(&self) -> ConfigValue {
        ConfigValue { host: text_view(self.host), api_key: text_view(self.api_key) }
    }
}

impl Default for Config {
    /// The configuration that holds nothing.
    fn default() -> (config: Config)
        ensures
            config@ == (ConfigValue { host: None, api_key: None }),
    {
        Config { host: None, api_key: None }
    }
}

/// A value that is replaced where a new one is given.
pub open spec fn replaced(current: Option<Seq<char>>, given: Option<Seq<char>>) -> Option<
    Seq<char>,
> {
    match given {
        Some(value) => Some(value),
        None => current,
    }
}

/// The path of `name` below the directory `base`: the two are joined by a
/// `/`, which is left out where `base` is empty or ends in one.
pub open spec fn joined(base: Seq<char>, name: Seq<char>) -> Seq<char> {
    if base.len() == 0 || base.last() == '/' {
        base + name
    } else {
        base + "/"@ + name
    }
}

/// The directory of the configuration: `unifi` below the user's
/// configuration directory, or below `.` where the user has none.
pub open spec fn config_dir_of(home: Option<Seq<char>>) -> Seq<char> {
    joined(
        match home {
            Some(dir) => dir,
            None => "."@,
        },
        "unifi"@,
    )
}

/// The path of the configuration file: `config.json` in the directory of
/// the configuration.
pub open spec fn config_path_of(home: Option<Seq<char>>) -> Seq<char> {
    joined(config_dir_of(home), "config.json"@)
}

/// The client that a configuration describes. A configuration without a
/// host, or else without an API key, describes none.
pub open spec fn client_of(config: ConfigValue) -> Result<ClientValue, Failure> {
    match config.host {
        None => Err(Failure::NotConfigured),
        Some(host) => match config.api_key {
            None => Err(Failure::ApiKeyNotConfigured),
            Some(api_key) => Ok(ClientValue { base_url: base_url_of(host), api_key }),
        },
    }
}

/// The path of `name` below the directory `base`.
pub fn join(base: &str, name: &str) -> (path: String)
    ensures
        path@ == joined(base@, name@),
{
    let n = base.unicode_len();
    if n == 0 || base.get_char(n - 1) == '/' {
        glue(base, name)
    } else {
        glue3(base, "/", name)
    }
}

/// The directory of the configuration, given the user's configuration
/// directory.
pub fn config_dir(home: Option<&str>) -> (dir: String)
    ensures
        dir@ == config_dir_of(
            match home {
                Some(chars) => Some(chars@),
                None => None,
            },
        ),
{
    match home {
        Some(dir) => join(dir, "unifi"),
        None => join(".", "unifi"),
    }
}

/// The path of the configuration file, given the user's configuration
/// directory.
pub fn config_path(home: Option<&str>) -> (path: String)
    ensures
        path@ == config_path_of(
            match home {
                Some(chars) => Some(chars@),
                None => None,
            },
        ),
{
    let dir = config_dir(home);
    join(dir.as_str(), "config.json")
}

/// The client that a configuration describes.
pub fn get_client(config: &Config) -> (outcome: Result<Client, ApiError>)
    ensures
        result_view(outcome) == client_of(config@),
{
    match &config.host {
        None => Err(ApiError::NotConfigured),
        Some(host) => match &config.api_key {
            None => Err(ApiError::ApiKeyNotConfigured),
            Some(api_key) => Ok(Client::new(host.as_str(), api_key.as_str())),
        },
    }
}

impl Config {
    /// The configuration with the host and the API key replaced, each where
    /// a new one is given.
    pub fn with(self, host: Option<String>, api_key: Option<String>) -> (config: Config)
        ensures
            config@.host == replaced(self@.host, text_view(host)),
            config@.api_key == replaced(self@.api_key, text_view(api_key)),
    {
        Config {
            host: match host {
                Some(value) => Some(value),
                None => self.host,
            },
            api_key: match api_key {
                Some(value) => Some(value),
                None => self.api_key,
            },
        }
    }
}

} // verus!
