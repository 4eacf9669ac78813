//! Durable configuration: the API endpoint and the stored credential.
//! Reading and writing the file itself is I/O and stays outside the
//! library; this module owns the values and the path computation.

use vstd::prelude::*;
use crate::error::CliError;

verus! {

/// Where the remote service lives.
#[derive(Debug, Clone)]
pub struct ApiConfig {
    pub endpoint: String,
}

/// The stored credential, if any.
#[derive(Debug, Clone)]
pub struct AuthConfig {
    pub api_key: Option<String>,
}

/// Endpoint and credential together: everything the session needs at start.
#[derive(Debug, Clone)]
pub struct Config {
    pub api: ApiConfig,
    pub auth: AuthConfig,
}

/// The endpoint used when no configuration file exists yet.
pub fn default_api_endpoint() -> (r: ApiConfig)
    ensures
        r.endpoint@ == "https://api.zeredata.com"@,
{
    ApiConfig { endpoint: String::from_str("https://api.zeredata.com") }
}

impl Default for AuthConfig {
    /// No credential stored.
    fn default() -> (r: AuthConfig)
        ensures
            r.api_key is None,
    {
        AuthConfig { api_key: None }
    }
}

impl Default for Config {
    /// The default endpoint and no credential.
    fn default() -> (r: Config)
        ensures
            r.api.endpoint@ == "https://api.zeredata.com"@,
            r.auth.api_key is None,
    {
        Config { api: default_api_endpoint(), auth: AuthConfig { api_key: None } }
    }
}

/// Relies on `directories::ProjectDirs::from` to name this application's
/// configuration directory; the answer depends on the machine and
/// environment, so nothing is promised about it.
#[verifier::external_body]
fn project_config_dir() -> (r: Option<String>)
{
    directories::ProjectDirs::from("com", "zeredata", "zere").map(
        |proj_dirs| proj_dirs.config_dir().to_string_lossy().into_owned(),
    )
}

/// The configuration file name appended to a directory.
pub fn config_file_in_dir(dir: &str) -> (r: String)
    ensures
        r@ == dir@ + "/config.toml"@,
{
    String::from_str(dir).concat("/config.toml")
}

impl Config {
    /// The path of the configuration file, when the platform names a
    /// configuration directory for this application.
    pub fn config_path() -> (r: Result<String, CliError>)
        ensures
            r matches Ok(p) ==> p@.len() >= "/config.toml"@.len() && p@.subrange(
                p@.len() - "/config.toml"@.len(),
                p@.len() as int,
            ) == "/config.toml"@,
            r matches Err(e) ==> (e matches CliError::Config(m) && m@
                == "Could not determine config directory"@),
    {
        match project_config_dir() {
            Some(dir) => {
                let p = config_file_in_dir(dir.as_str());
                proof {
                    assert(p@.subrange(
                        p@.len() - "/config.toml"@.len(),
                        p@.len() as int,
                    ) =~= "/config.toml"@);
                }
                Ok(p)
            },
            None => Err(
                CliError::Config(String::from_str("Could not determine config directory")),
            ),
        }
    }

    /// Replaces the endpoint.
    pub fn set_endpoint(&mut self, endpoint: String)
        ensures
            final(self).api.endpoint@ == endpoint@,
            final(self).auth == old(self).auth,
    {
        self.api.endpoint = endpoint;
    }

    /// Replaces (or clears) the stored credential.
    pub fn set_api_key(&mut self, api_key: Option<String>)
        ensures
            final(self).auth.api_key == api_key,
            final(self).api == old(self).api,
    {
        self.auth.api_key = api_key;
    }

    /// Whether a credential is stored.
    pub fn is_authenticated(&self) -> (r: bool)
        ensures
            r == (self.auth.api_key is Some),
    {
        match &self.auth.api_key {
            Some(_) => true,
            None => false,
        }
    }

    /// The stored credential, or the error that says to log in first.
    pub fn require_auth(&self) -> (r: Result<&str, CliError>)
        ensures
            self.auth.api_key is Some ==> (r matches Ok(k) && k@ == self.auth.api_key->0@),
            self.auth.api_key is None ==> (r matches Err(e) && e is NotAuthenticated),
    {
        match &self.auth.api_key {
            Some(k) => Ok(k.as_str()),
            None => Err(CliError::NotAuthenticated),
        }
    }
}

} // verus!
