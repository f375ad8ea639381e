//! Configuration: server connection settings and display settings, their
//! defaults, and how environment values override a loaded configuration.
use vstd::prelude::*;
use crate::text::{lowercase, to_lowercase};

verus! {

/// Complete configuration of the client.
#[derive(Debug, Clone)]
pub struct Config {
    pub server: ServerConfig,
    pub tui: TuiConfig,
}

/// How to reach the Black Duck server.
#[derive(Debug, Clone)]
pub struct ServerConfig {
    /// Black Duck server URL, e.g. `<https://blackduck.example.com>`
    pub url: String,
    /// API token for authentication
    pub api_token: Option<String>,
    /// Accept invalid/self-signed TLS certificates
    pub accept_invalid_certs: bool,
}

/// Display settings.
#[derive(Debug, Clone)]
pub struct TuiConfig {
    /// Number of items per page when fetching from API
    pub page_size: u32,
}

/// Number of items per page when none is configured.
pub fn default_page_size() -> (r: u32)
    ensures
        r == 100,
{
    100
}

impl Default for TuiConfig {
    fn default() -> (r: Self)
        ensures
            r.page_size == 100,
    {
        TuiConfig { page_size: default_page_size() }
    }
}

impl Default for ServerConfig {
    fn default() -> (r: Self)
        ensures
            r.url@.len() == 0,
            r.api_token is None,
            !r.accept_invalid_certs,
    {
        ServerConfig { url: String::new(), api_token: None, accept_invalid_certs: false }
    }
}

impl Default for Config {
    fn default() -> (r: Self)
        ensures
            r.server.url@.len() == 0,
            r.server.api_token is None,
            !r.server.accept_invalid_certs,
            r.tui.page_size == 100,
    {
        Config { server: ServerConfig::default(), tui: TuiConfig::default() }
    }
}

/// A flag value that means "yes": `1`, `true` or `yes`, in any letter case.
pub open spec fn truthy(v: Seq<char>) -> bool {
    let l = lowercase(v);
    l == "1"@ || l == "true"@ || l == "yes"@
}

/// Whether an environment flag value means "yes".
pub fn parse_flag(val: &str) -> (b: bool)
    ensures
        b == truthy(val@),
{
    let l = to_lowercase(val);
    let one = String::from_str("1");
    let yes_word = String::from_str("true");
    let yes = String::from_str("yes");
    l == one || l == yes_word || l == yes
}

impl Config {
    /// Applies values read from the environment on top of this configuration:
    /// a non-empty URL replaces `server.url`, a non-empty token becomes
    /// `server.api_token`, and a flag value, when present, sets
    /// `server.accept_invalid_certs` to whether it means "yes".
    pub fn with_env_overrides(
        self,
        url: Option<String>,
        token: Option<String>,
        accept_invalid_certs: Option<String>,
    ) -> (r: Config)
        ensures
            r.tui == self.tui,
            (url matches Some(u) && u@.len() > 0) ==> r.server.url == url->0,
            !(url matches Some(u) && u@.len() > 0) ==> r.server.url == self.server.url,
            (token matches Some(t) && t@.len() > 0) ==> r.server.api_token == token,
            !(token matches Some(t) && t@.len() > 0) ==> r.server.api_token
                == self.server.api_token,
            accept_invalid_certs matches Some(v) ==> r.server.accept_invalid_certs == truthy(v@),
            accept_invalid_certs is None ==> r.server.accept_invalid_certs
                == self.server.accept_invalid_certs,
    {
        let mut cfg = self;
        match url {
            Some(u) => {
                if !u.as_str().is_empty() {
                    cfg.server.url = u;
                }
            },
            None => {},
        }
        match token {
            Some(t) => {
                if !t.as_str().is_empty() {
                    cfg.server.api_token = Some(t);
                }
            },
            None => {},
        }
        match accept_invalid_certs {
            Some(v) => {
                cfg.server.accept_invalid_certs = parse_flag(v.as_str());
            },
            None => {},
        }
        cfg
    }
}

} // verus!
