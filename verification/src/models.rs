//! The configuration that the engine consumes and the records it hands to
//! the presentation layer.

use crate::error::SyncError;
use vstd::prelude::*;

verus! {

/// The language used where none is configured.
pub fn default_lang() -> (lang: String)
    ensures
        lang@ == "zh-CN"@,
{
    "zh-CN".to_owned()
}

/// The interval between two cycles, in minutes, where none is configured.
pub fn default_interval() -> (minutes: u32)
    ensures
        minutes == 60,
{
    60
}

/// The way the client finds its source where none is configured.
pub fn default_method() -> (method: String)
    ensures
        method@ == "official"@,
{
    "official".to_owned()
}

/// The named origin where none is configured.
pub fn default_select_origin() -> (origin: String)
    ensures
        origin@ == "FetchGithubHosts"@,
{
    "FetchGithubHosts".to_owned()
}

/// The port of the HTTP endpoint where none is configured.
pub fn default_port() -> (port: u16)
    ensures
        port == 9898,
{
    9898
}

/// The configuration of the client role.
#[derive(Debug, Clone, PartialEq, Eq)]
pub struct ClientConfig {
    /// Minutes between two cycles.
    pub interval: u32,
    /// `"custom"` to fetch from `custom_url`, anything else for a named
    /// origin.
    pub method: String,
    /// The named origin.
    pub select_origin: String,
    pub custom_url: String,
    /// Whether the client starts with the program.
    pub auto_fetch: bool,
}

/// The configuration of the server role.
#[derive(Debug, Clone, PartialEq, Eq)]
pub struct ServerConfig {
    /// Minutes between two cycles.
    pub interval: u32,
    /// The port of the HTTP endpoint.
    pub port: u16,
    /// The file of a custom status page template; empty for the built-in
    /// one.
    pub template_path: String,
}

/// The whole configuration.
#[derive(Debug, Clone, PartialEq, Eq)]
pub struct AppConfig {
    pub lang: String,
    pub client: ClientConfig,
    pub server: ServerConfig,
}

/// What an update check found.
#[derive(Debug, Clone, PartialEq, Eq)]
pub struct UpdateInfo {
    pub has_update: bool,
    pub version: String,
    pub url: String,
}

impl Default for ClientConfig {
    fn default() -> (config: ClientConfig)
        ensures
            config.interval == 60,
            config.method@ == "official"@,
            config.select_origin@ == "FetchGithubHosts"@,
            config.custom_url@ == Seq::<char>::empty(),
            !config.auto_fetch,
    {
        ClientConfig {
            interval: default_interval(),
            method: default_method(),
            select_origin: default_select_origin(),
            custom_url: String::new(),
            auto_fetch: false,
        }
    }
}

impl Default for ServerConfig {
    fn default() -> (config: ServerConfig)
        ensures
            config.interval == 60,
            config.port == 9898,
            config.template_path@ == Seq::<char>::empty(),
    {
        ServerConfig {
            interval: default_interval(),
            port: default_port(),
            template_path: String::new(),
        }
    }
}

impl Default for AppConfig {
    fn default() -> (config: AppConfig)
        ensures
            config.lang@ == "zh-CN"@,
            config.client.interval == 60,
            config.client.method@ == "official"@,
            config.client.select_origin@ == "FetchGithubHosts"@,
            config.client.custom_url@ == Seq::<char>::empty(),
            !config.client.auto_fetch,
            config.server.interval == 60,
            config.server.port == 9898,
            config.server.template_path@ == Seq::<char>::empty(),
    {
        AppConfig {
            lang: default_lang(),
            client: ClientConfig::default(),
            server: ServerConfig::default(),
        }
    }
}

/// The severity of a log event.
#[derive(Debug, Clone, Copy, PartialEq, Eq, Structural)]
pub enum LogLevel {
    Info,
    Success,
    Error,
}

impl LogLevel {
    /// The name of the level: `info`, `success` or `error`.
    pub fn name(&self) -> (s: &'static str)
        ensures
            s@ == match *self {
                LogLevel::Info => "info"@,
                LogLevel::Success => "success"@,
                LogLevel::Error => "error"@,
            },
    {
        match self {
            LogLevel::Info => "info",
            LogLevel::Success => "success",
            LogLevel::Error => "error",
        }
    }
}

/// A log event for the presentation layer: a message key to localize, the
/// severity, and for a failure its class and detail.
#[derive(Debug, Clone, PartialEq, Eq)]
pub struct LogPayload {
    /// The message key, such as `client.fetchSuccess`.
    pub key: String,
    /// The failure that the event reports, if it reports one.
    pub params: Option<SyncError>,
    pub level: LogLevel,
}

} // verus!
