//! Configuration of the consumer, and the checks and decisions made on it
//! before ingest starts.
use vstd::prelude::*;

verus! {

/// How to authenticate with the document store.
#[derive(Debug, Clone, Copy, PartialEq, Eq, Structural)]
pub enum SurrealAuthType {
    /// Use a token for authentication
    Token,
    /// Root-level authentication
    Root,
    /// Namespace authentication
    Namespace,
}

/// Where records go.
#[derive(Debug, Clone, Copy, PartialEq, Eq, Structural)]
pub enum ExporterType {
    /// Export to a JSONL (JSON Lines) file
    Jsonl,
    /// Export to a CSV file
    Csv,
    /// Export to a document store
    Surrealdb,
    /// Do not export anywhere, just log the data.
    DryRun,
}

impl Default for ExporterType {
    fn default() -> (r: ExporterType)
        ensures
            r == ExporterType::Surrealdb,
    {
        ExporterType::Surrealdb
    }
}

/// Options of the file sinks.
#[derive(Debug, Clone)]
pub struct FileExporterOptions {
    /// Path to the file to export to
    pub file_path: Option<String>,
}

/// Connection settings of the document store.
#[derive(Debug, Clone)]
pub struct SurrealDbConn {
    pub surreal_endpoint: String,
    pub auth_type: Option<SurrealAuthType>,
    pub token: Option<String>,
    pub username: Option<String>,
    pub password: Option<String>,
    pub namespace: String,
    pub database: String,
    /// Whether authors' profiles are fetched and stored.
    pub fetch_user_data: bool,
}

/// The whole configuration.
#[derive(Debug, Clone)]
pub struct Config {
    pub surreal_conn: SurrealDbConn,
    pub exporter: ExporterType,
    pub file_exporter: FileExporterOptions,
    pub atproto_relay: String,
}

/// A setting that the chosen options require is missing.
#[derive(Debug, Clone, Copy, PartialEq, Eq, Structural)]
pub enum ConfigError {
    /// The JSONL and CSV sinks need a file path.
    MissingFilePath,
    /// Token authentication needs a token.
    MissingToken,
    /// Root and namespace authentication need a user name.
    MissingUsername,
    /// Root and namespace authentication need a password.
    MissingPassword,
}

/// How to sign in to the document store.
#[derive(Debug, Clone)]
pub enum AuthPlan {
    Anonymous,
    Token(String),
    Root { username: String, password: String },
    Namespace { username: String, password: String, namespace: String },
}

/// The sink to open, with what it needs.
#[derive(Debug, Clone)]
pub enum SinkPlan {
    Jsonl(String),
    Csv(String),
    Document(AuthPlan),
    DryRun,
}

fn copy_text(t: &String) -> (r: String)
    ensures
        r == *t,
{
    t.clone()
}

/// The credential that the chosen sign-in lacks, if any.
pub open spec fn auth_error(c: SurrealDbConn) -> Option<ConfigError> {
    match c.auth_type {
        None => None,
        Some(SurrealAuthType::Token) => if c.token is Some { None } else { Some(ConfigError::MissingToken) },
        Some(_) => if c.username is None {
            Some(ConfigError::MissingUsername)
        } else if c.password is None {
            Some(ConfigError::MissingPassword)
        } else {
            None
        },
    }
}

impl SurrealDbConn {
    /// The sign-in the settings ask for; fails when a credential it needs is missing.
    pub fn auth_plan(&self) -> (r: Result<AuthPlan, ConfigError>)
        ensures
            match auth_error(*self) {
                Some(e) => r == Err::<AuthPlan, ConfigError>(e),
                None => r is Ok,
            },
            match self.auth_type {
                None => r matches Ok(AuthPlan::Anonymous),
                Some(SurrealAuthType::Token) => match self.token {
                    Some(t) => r matches Ok(AuthPlan::Token(x)) && x == t,
                    None => r == Err::<AuthPlan, ConfigError>(ConfigError::MissingToken),
                },
                Some(a) => match (self.username, self.password) {
                    (None, _) => r == Err::<AuthPlan, ConfigError>(ConfigError::MissingUsername),
                    (Some(_), None) => r == Err::<AuthPlan, ConfigError>(ConfigError::MissingPassword),
                    (Some(u), Some(p)) => if a == SurrealAuthType::Root {
                        r matches Ok(AuthPlan::Root { username, password }) && username == u && password == p
                    } else {
                        r matches Ok(AuthPlan::Namespace { username, password, namespace })
                            && username == u && password == p && namespace == self.namespace
                    },
                },
            },
    {
        match self.auth_type {
            None => Ok(AuthPlan::Anonymous),
            Some(SurrealAuthType::Token) => match &self.token {
                Some(t) => Ok(AuthPlan::Token(copy_text(t))),
                None => Err(ConfigError::MissingToken),
            },
            Some(a) => match (&self.username, &self.password) {
                (None, _) => Err(ConfigError::MissingUsername),
                (Some(_), None) => Err(ConfigError::MissingPassword),
                (Some(u), Some(p)) => if a == SurrealAuthType::Root {
                    Ok(AuthPlan::Root { username: copy_text(u), password: copy_text(p) })
                } else {
                    Ok(AuthPlan::Namespace {
                        username: copy_text(u),
                        password: copy_text(p),
                        namespace: copy_text(&self.namespace),
                    })
                },
            },
        }
    }
}

impl Config {
    /// The sink to open; fails when a setting it needs is missing.
    pub fn sink_plan(&self) -> (r: Result<SinkPlan, ConfigError>)
        ensures
            match self.exporter {
                ExporterType::Jsonl => match self.file_exporter.file_path {
                    Some(p) => r matches Ok(SinkPlan::Jsonl(x)) && x == p,
                    None => r == Err::<SinkPlan, ConfigError>(ConfigError::MissingFilePath),
                },
                ExporterType::Csv => match self.file_exporter.file_path {
                    Some(p) => r matches Ok(SinkPlan::Csv(x)) && x == p,
                    None => r == Err::<SinkPlan, ConfigError>(ConfigError::MissingFilePath),
                },
                ExporterType::Surrealdb => match auth_error(self.surreal_conn) {
                    None => r matches Ok(SinkPlan::Document(_)),
                    Some(e) => r == Err::<SinkPlan, ConfigError>(e),
                },
                ExporterType::DryRun => r matches Ok(SinkPlan::DryRun),
            },
    {
        match self.exporter {
            ExporterType::Jsonl => match &self.file_exporter.file_path {
                Some(p) => Ok(SinkPlan::Jsonl(copy_text(p))),
                None => Err(ConfigError::MissingFilePath),
            },
            ExporterType::Csv => match &self.file_exporter.file_path {
                Some(p) => Ok(SinkPlan::Csv(copy_text(p))),
                None => Err(ConfigError::MissingFilePath),
            },
            ExporterType::Surrealdb => match self.surreal_conn.auth_plan() {
                Ok(a) => Ok(SinkPlan::Document(a)),
                Err(e) => Err(e),
            },
            ExporterType::DryRun => Ok(SinkPlan::DryRun),
        }
    }
}

/// The level of logging.
#[derive(Debug, Clone, Copy, PartialEq, Eq, Structural)]
pub enum LogLevel {
    Debug,
    Info,
}

/// Debug logging for debug builds, info logging otherwise.
pub fn default_level_filter(debug_build: bool) -> (r: LogLevel)
    ensures
        r == (if debug_build { LogLevel::Debug } else { LogLevel::Info }),
{
    if debug_build {
        LogLevel::Debug
    } else {
        LogLevel::Info
    }
}

} // verus!
