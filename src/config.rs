//! Settings and secrets, and the context object the server runs with.

use vstd::prelude::*;
use vstd::string::StringExecFns;
use crate::token::AccessToken;

verus! {

/// Settings of the issue mirror.
#[derive(Debug)]
pub struct GithubConfig {
    /// Whether the mirror subscribes to the bus at all.
    pub enabled: bool,
    pub app_id: u64,
    pub app_key_file: String,
    pub app_name: Option<String>,
    /// `owner/name` of the tracker's repository.
    pub repo: String,
}

/// Where the websocket listener binds.
#[derive(Debug)]
pub struct PortBindConfig {
    pub address: String,
    pub port: u16,
}

#[derive(Debug)]
pub struct Config {
    pub mongodb_connection_string: String,
    pub websocket: PortBindConfig,
    pub github: GithubConfig,
}

#[derive(Debug)]
pub struct Keys {
    /// The shared secret a websocket upgrade must carry.
    pub todolist_auth_key: String,
}

#[derive(Debug)]
pub struct Secrets {
    pub keys: Keys,
}

/// The mirror's cached access token.
#[derive(Debug, Default)]
pub struct GithubState {
    pub access_token: AccessToken,
}

fn copy_opt(s: &Option<String>) -> (r: Option<String>)
    ensures
        match (r, s) {
            (Some(a), Some(b)) => a@ == b@,
            (None, None) => true,
            _ => false,
        },
{
    match s {
        Some(t) => Some(t.clone()),
        None => None,
    }
}

impl GithubConfig {
    /// Field by field equality of views.
    pub open spec fn same(&self, o: &GithubConfig) -> bool {
        &&& self.enabled == o.enabled
        &&& self.app_id == o.app_id
        &&& self.app_key_file@ == o.app_key_file@
        &&& (match (self.app_name, o.app_name) {
            (Some(a), Some(b)) => a@ == b@,
            (None, None) => true,
            _ => false,
        })
        &&& self.repo@ == o.repo@
    }

    pub fn copy(&self) -> (r: GithubConfig)
        ensures
            r.same(self),
    {
        GithubConfig {
            enabled: self.enabled,
            app_id: self.app_id,
            app_key_file: self.app_key_file.clone(),
            app_name: copy_opt(&self.app_name),
            repo: self.repo.clone(),
        }
    }
}

impl Config {
    /// Field by field equality of views.
    pub open spec fn same(&self, o: &Config) -> bool {
        &&& self.mongodb_connection_string@ == o.mongodb_connection_string@
        &&& self.websocket.address@ == o.websocket.address@
        &&& self.websocket.port == o.websocket.port
        &&& self.github.same(&o.github)
    }

    pub fn copy(&self) -> (r: Config)
        ensures
            r.same(self),
    {
        Config {
            mongodb_connection_string: self.mongodb_connection_string.clone(),
            websocket: PortBindConfig {
                address: self.websocket.address.clone(),
                port: self.websocket.port,
            },
            github: self.github.copy(),
        }
    }
}

/// What the server runs with, built once at start and handed to each part.
#[derive(Debug)]
pub struct ServerState {
    /// The settings as first read.
    pub default_config: Config,
    /// The settings in force.
    pub config: Config,
    pub secrets: Secrets,
    pub github_state: GithubState,
}

impl ServerState {
    /// A copy of the settings in force.
    pub fn read_config(&self) -> (r: Option<Config>)
        ensures
            r matches Some(c) && c.same(&self.config),
    {
        Some(self.config.copy())
    }
}

/// Builds the server's context: the settings in force start as the ones
/// read, and no access token is held yet.
pub fn initialize(config: Config, secrets: Secrets) -> (r: ServerState)
    ensures
        r.config.same(&config),
        r.default_config.same(&config),
        r.secrets.keys.todolist_auth_key@ == secrets.keys.todolist_auth_key@,
        r.github_state.access_token.token@ == Seq::<char>::empty(),
        r.github_state.access_token.expires_at@ == Seq::<char>::empty(),
{
    let default_config = config.copy();
    ServerState {
        default_config,
        config,
        secrets,
        github_state: GithubState {
            access_token: AccessToken { token: String::new(), expires_at: String::new() },
        },
    }
}

/// The mirror's settings in force.
pub fn get_github_repo(state: &ServerState) -> (r: Option<GithubConfig>)
    ensures
        r matches Some(c) && c.same(&state.config.github),
{
    Some(state.config.github.copy())
}

/// The reply to the tracker's webhook, whatever it posts.
pub fn hook(data: &crate::json::JsonValue) -> (r: Result<String, u16>)
    ensures
        r matches Ok(s) && s@ == "Hello from rust and mongoDB"@,
{
    Ok(String::from_str("Hello from rust and mongoDB"))
}

} // verus!
