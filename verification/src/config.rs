//! Persistent proxy configuration. The API key is never part of it; it lives in the OS keyring.
//! Files are stored under the platform's project directories for `systems.astrea.axiom-proxy`.

use vstd::prelude::*;

use std::path::PathBuf;

use crate::error::CoreError;
use crate::text::{decimal, push_decimal};

verus! {

/// std's `PathBuf`, carried through as an opaque value.
#[verifier::external_type_specification]
#[verifier::external_body]
pub struct ExPathBuf(PathBuf);

pub fn default_port() -> (r: u16)
    ensures
        r == 8484,
{
    8484
}

pub fn default_backend_url() -> (r: String)
    ensures
        r@ == "https://api.axiom.stream"@,
{
    String::from_str("https://api.axiom.stream")
}

pub fn default_attestation_ttl() -> (r: u64)
    ensures
        r == 900,
{
    900
}

pub fn default_true() -> (r: bool)
    ensures
        r,
{
    true
}

pub fn default_log_level() -> (r: String)
    ensures
        r@ == "info"@,
{
    String::from_str("info")
}

#[derive(Debug)]
pub struct Config {
    pub port: u16,
    pub backend_url: String,
    pub attestation_ttl_secs: u64,
    pub default_model: Option<String>,
    pub start_minimized: bool,
    pub close_to_tray: bool,
    pub log_level: String,
}

impl Default for Config {
    fn default() -> (r: Self)
        ensures
            r.port == 8484,
            r.backend_url@ == "https://api.axiom.stream"@,
            r.attestation_ttl_secs == 900,
            r.default_model is None,
            !r.start_minimized,
            r.close_to_tray,
            r.log_level@ == "info"@,
    {
        Config {
            port: default_port(),
            backend_url: default_backend_url(),
            attestation_ttl_secs: default_attestation_ttl(),
            default_model: None,
            start_minimized: false,
            close_to_tray: true,
            log_level: default_log_level(),
        }
    }
}

/// The configuration directory of the project `qualifier.organization.application`
/// (`ProjectDirs::config_dir`); `None` when the platform has no home directory. What comes back
/// rests on the environment, so nothing is stated of it.
#[verifier::external_body]
fn project_config_dir(qualifier: &str, organization: &str, application: &str) -> Option<PathBuf> {
    match directories::ProjectDirs::from(qualifier, organization, application) {
        Some(dirs) => Some(dirs.config_dir().to_path_buf()),
        None => None,
    }
}

/// The local data directory of the project (`ProjectDirs::data_local_dir`); `None` when the
/// platform has no home directory. What comes back rests on the environment, so nothing is
/// stated of it.
#[verifier::external_body]
fn project_data_local_dir(qualifier: &str, organization: &str, application: &str) -> Option<
    PathBuf,
> {
    match directories::ProjectDirs::from(qualifier, organization, application) {
        Some(dirs) => Some(dirs.data_local_dir().to_path_buf()),
        None => None,
    }
}

/// `dir.join(name)`: the path of `name` inside `dir`; a function of its two arguments.
pub uninterp spec fn joined_path(dir: PathBuf, name: Seq<char>) -> PathBuf;

/// `Path::join`.
#[verifier::external_body]
fn join_path(dir: &PathBuf, name: &str) -> (r: PathBuf)
    ensures
        r == joined_path(*dir, name@),
{
    dir.join(name)
}

/// The configuration file inside the configuration directory the platform reported, if it
/// reported one.
pub fn config_path_in(dir: Option<PathBuf>) -> (r: Result<PathBuf, CoreError>)
    ensures
        dir matches Some(d) ==> r == Ok::<PathBuf, CoreError>(joined_path(d, "config.json"@)),
        dir is None ==> (r matches Err(CoreError::Config(m)) && m@
            == "no home directory for config path"@),
{
    match dir {
        Some(d) => Ok(join_path(&d, "config.json")),
        None => Err(CoreError::Config(String::from_str("no home directory for config path"))),
    }
}

/// The request history file inside the local data directory the platform reported, if it
/// reported one.
pub fn history_path_in(dir: Option<PathBuf>) -> (r: Result<PathBuf, CoreError>)
    ensures
        dir matches Some(d) ==> r == Ok::<PathBuf, CoreError>(joined_path(d, "request-history.json"@)),
        dir is None ==> (r matches Err(CoreError::Config(m)) && m@
            == "no home directory for history path"@),
{
    match dir {
        Some(d) => Ok(join_path(&d, "request-history.json")),
        None => Err(CoreError::Config(String::from_str("no home directory for history path"))),
    }
}

impl Config {
    /// `config.json` in the configuration directory of the project `systems.astrea.axiom-proxy`.
    /// Whether the platform has that directory rests on the environment.
    pub fn default_path() -> (r: Result<PathBuf, CoreError>)
        ensures
            r matches Ok(p) ==> exists|d: PathBuf| p == joined_path(d, "config.json"@),
            r matches Err(e) ==> (e matches CoreError::Config(m) && m@
                == "no home directory for config path"@),
    {
        config_path_in(project_config_dir("systems", "astrea", "axiom-proxy"))
    }

    /// `request-history.json` in the local data directory of the project
    /// `systems.astrea.axiom-proxy`: the metadata-only request history shared by the desktop and
    /// headless variants. Whether the platform has that directory rests on the environment.
    pub fn history_path() -> (r: Result<PathBuf, CoreError>)
        ensures
            r matches Ok(p) ==> exists|d: PathBuf| p == joined_path(d, "request-history.json"@),
            r matches Err(e) ==> (e matches CoreError::Config(m) && m@
                == "no home directory for history path"@),
    {
        history_path_in(project_data_local_dir("systems", "astrea", "axiom-proxy"))
    }

    /// The local OpenAI-compatible endpoint.
    pub fn base_url(&self) -> (r: String)
        ensures
            r@ == "http://127.0.0.1:"@ + decimal(self.port as nat) + "/v1"@,
    {
        let mut out = String::from_str("http://127.0.0.1:");
        push_decimal(&mut out, self.port as u64);
        out.append("/v1");
        out
    }
}

} // verus!
