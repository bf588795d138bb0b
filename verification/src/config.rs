//! Startup decisions: where the service listens, and which database replica it
//! opens from what the environment holds.

use vstd::prelude::*;
use vstd::string::StringExecFns;

verus! {

/// The port on which the service listens.
pub const PORT: u16 = 8080;

/// The seconds between two synchronisations of the replica with its remote.
pub const SYNC_INTERVAL_SECS: u64 = 5;

/// The address on which the service listens: the local loopback.
pub fn host() -> (address: &'static str)
    ensures
        address@ == "127.0.0.1"@,
{
    "127.0.0.1"
}

/// The environment variable that holds the URL of the remote database.
pub fn url_variable() -> (name: &'static str)
    ensures
        name@ == "LIBSQL_URL"@,
{
    "LIBSQL_URL"
}

/// The environment variable that holds the token for the remote database.
pub fn auth_token_variable() -> (name: &'static str)
    ensures
        name@ == "LIBSQL_AUTH_TOKEN"@,
{
    "LIBSQL_AUTH_TOKEN"
}

/// A replica of a remote database: a local file that serves reads and follows
/// the remote.
#[derive(Debug, Clone, PartialEq, Eq)]
pub struct ReplicaConfig {
    /// The local file of the replica.
    pub path: String,
    /// The URL of the remote database.
    pub url: String,
    /// The token that the remote database asks for; may be empty.
    pub auth_token: String,
    /// Whether a client sees its own writes at once.
    pub read_your_writes: bool,
    /// The seconds between two synchronisations with the remote.
    pub sync_interval_secs: u64,
}

/// A replica configuration as the contracts see it.
pub struct ReplicaConfigView {
    pub path: Seq<char>,
    pub url: Seq<char>,
    pub auth_token: Seq<char>,
    pub read_your_writes: bool,
    pub sync_interval_secs: u64,
}

impl View for ReplicaConfig {
    type V = ReplicaConfigView;

    open spec fn view(&self) -> ReplicaConfigView {
        ReplicaConfigView {
            path: self.path@,
            url: self.url@,
            auth_token: self.auth_token@,
            read_your_writes: self.read_your_writes,
            sync_interval_secs: self.sync_interval_secs,
        }
    }
}

/// Why the service cannot start.
#[derive(Debug, Clone, Copy, PartialEq, Eq, Structural)]
pub enum ConfigError {
    /// There is no environment file.
    EnvFileMissing,
    /// The environment holds no URL of the remote database.
    UrlMissing,
}

impl ConfigError {
    /// The error in words.
    pub open spec fn text(self) -> Seq<char> {
        match self {
            ConfigError::EnvFileMissing => ".env file not found"@,
            ConfigError::UrlMissing => "LIBSQL_URL must be set"@,
        }
    }

    /// The error in words, as the service states it when it gives up.
    pub fn message(&self) -> (words: &'static str)
        ensures
            words@ == self.text(),
    {
        match self {
            ConfigError::EnvFileMissing => ".env file not found",
            ConfigError::UrlMissing => "LIBSQL_URL must be set",
        }
    }
}

/// The replica that the service opens for a URL and a token, if one is set.
pub open spec fn replica(url: Seq<char>, auth_token: Option<Seq<char>>) -> ReplicaConfigView {
    ReplicaConfigView {
        path: "local.db"@,
        url,
        auth_token: match auth_token {
            Some(token) => token,
            None => Seq::empty(),
        },
        read_your_writes: true,
        sync_interval_secs: SYNC_INTERVAL_SECS,
    }
}

/// What becomes of a startup with this environment.
pub open spec fn connection_plan(
    env_file_loaded: bool,
    url: Option<Seq<char>>,
    auth_token: Option<Seq<char>>,
) -> Result<ReplicaConfigView, ConfigError> {
    if !env_file_loaded {
        Err(ConfigError::EnvFileMissing)
    } else {
        match url {
            None => Err(ConfigError::UrlMissing),
            Some(url) => Ok(replica(url, auth_token)),
        }
    }
}

/// The text that an optional string holds.
pub open spec fn text_of(value: Option<String>) -> Option<Seq<char>> {
    match value {
        Some(text) => Some(text@),
        None => None,
    }
}

/// Decides which database the service connects to.
///
/// `env_file_loaded` says whether the environment file was found and read;
/// `url` and `auth_token` are what the environment then holds under
/// [`url_variable`] and [`auth_token_variable`]. Without the file or without
/// the URL there is no connection; a token that is not set is the empty one.
pub fn connection(env_file_loaded: bool, url: Option<String>, auth_token: Option<String>) -> (plan:
    Result<ReplicaConfig, ConfigError>)
    ensures
        match connection_plan(env_file_loaded, text_of(url), text_of(auth_token)) {
            Ok(replica) => plan is Ok && plan->Ok_0@ == replica,
            Err(error) => plan == Err::<ReplicaConfig, ConfigError>(error),
        },
{
    if !env_file_loaded {
        return Err(ConfigError::EnvFileMissing);
    }
    match url {
        None => Err(ConfigError::UrlMissing),
        Some(url) => {
            let auth_token = match auth_token {
                Some(token) => token,
                None => String::new(),
            };
            Ok(
                ReplicaConfig {
                    path: String::from_str("local.db"),
                    url,
                    auth_token,
                    read_your_writes: true,
                    sync_interval_secs: SYNC_INTERVAL_SECS,
                },
            )
        },
    }
}

} // verus!
