//! Configuration: where detections, storage and outputs are.

use vstd::prelude::*;

verus! {

/// A value that is either one string or a list of strings.
#[derive(Debug)]
pub enum StringOrList {
    String(String),
    List(Vec<String>),
}

/// Where schemas are read from and where class files are written.
#[derive(Debug)]
pub struct StorageConfig {
    /// The schema root.
    pub schema: String,
    /// The storage base.
    pub path: String,
}

/// The MCP endpoints that the API may use.
#[derive(Debug)]
pub struct MCPConfig {
    pub url: StringOrList,
}

/// The web interface settings.
#[derive(Debug)]
pub struct UIConfig {
    pub enabled: bool,
    pub path: Option<String>,
}

impl Default for UIConfig {
    fn default() -> (r: UIConfig)
        ensures
            r.enabled,
            r.path is None,
    {
        UIConfig { enabled: true, path: None }
    }
}

/// The settings that decide whether the pipeline can run.
#[derive(Debug)]
pub struct StrIEMConfig {
    /// The directory of the source configuration and rule database.
    pub db: Option<String>,
    /// The Sigma rule directories.
    pub detections: Option<StringOrList>,
    /// The URL of the downstream destination, where one is configured.
    pub output: Option<String>,
    pub storage: Option<StorageConfig>,
    /// The API section's `enabled` flag, where the section is given.
    pub api_enabled: Option<bool>,
    pub fqdn: Option<String>,
}

/// Where processed events can go.
#[derive(Clone, Copy, Debug, PartialEq, Eq, Structural)]
pub enum Readiness {
    /// An output or storage is configured.
    Sinks,
    /// Only the API runs: events will be dropped, which deserves a warning.
    ApiOnly,
}

/// A configuration that would discard every event.
#[derive(Clone, Copy, Debug, PartialEq, Eq, Structural)]
pub enum ConfigError {
    /// No output, storage or API is configured.
    NothingConfigured,
}

impl StrIEMConfig {
    /// Whether the pipeline can run: it needs an output or storage, or at least an
    /// enabled API.
    pub fn check(config: &StrIEMConfig) -> (r: Result<Readiness, ConfigError>)
        ensures
            r == (if config.output is Some || config.storage is Some {
                Ok::<Readiness, ConfigError>(Readiness::Sinks)
            } else if config.api_enabled == Some(true) {
                Ok(Readiness::ApiOnly)
            } else {
                Err(ConfigError::NothingConfigured)
            }),
    {
        let api = match config.api_enabled {
            Some(enabled) => enabled,
            None => false,
        };
        if !(config.output.is_some() || config.storage.is_some()) {
            if !api {
                return Err(ConfigError::NothingConfigured);
            }
            return Ok(Readiness::ApiOnly);
        }
        Ok(Readiness::Sinks)
    }
}

/// A query over stored events, with the row limit that applies where the SQL has none.
#[derive(Debug)]
pub struct QueryRequest {
    pub sql: String,
    pub limit: usize,
}

/// The row limit of a query that gives none.
pub fn default_limit() -> (r: usize)
    ensures
        r == 10,
{
    10
}

} // verus!
