//! Keeps the hosts-file entries for a fixed set of domains fresh: the
//! managed hosts-file block, the resolution-to-artifact pipeline, the
//! request handling of the embedded HTTP endpoint and the lifecycle of the
//! periodic client and server tasks.

pub mod artifact_laws;
pub mod cli;
pub mod clock;
pub mod config;
pub mod dns;
pub mod dnscache;
pub mod elevate;
pub mod error;
pub mod hosts;
pub mod hosts_laws;
pub mod http;
pub mod json;
pub mod lifecycle;
pub mod lines;
pub mod locale;
pub mod models;
pub mod platform;
pub mod registry;
pub mod remote;
pub mod server;
pub mod template;
pub mod text;
pub mod version;
