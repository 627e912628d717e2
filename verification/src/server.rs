//! The server role's cycle: from one resolution pass to the artifacts that
//! the HTTP endpoint publishes.

use crate::clock::{is_one_line, local_timestamp};
use crate::dns::{fetch_hosts, format_hosts_text, resolved_hosts, text_artifact, Lookup};
use crate::error::{ErrorKind, SyncError};
use crate::hosts::pairs;
use crate::json::{json_of_pairs, pairs_to_json};
use vstd::prelude::*;

verus! {

/// The file name of the text artifact, beside the running program.
pub const TEXT_ARTIFACT_NAME: &'static str = "hosts.txt";

/// The file name of the structured artifact, beside the running program.
pub const JSON_ARTIFACT_NAME: &'static str = "hosts.json";

/// What one server cycle publishes: the text artifact, the structured
/// artifact and the time of the cycle. All three come from one resolution
/// pass.
#[derive(Debug, PartialEq, Eq)]
pub struct ServerArtifacts {
    /// The content of `hosts.txt`.
    pub text: String,
    /// The content of `hosts.json`.
    pub json: String,
    /// The time of the resolution pass.
    pub updated: String,
}

/// The artifacts of one resolution pass, given the time and what writing
/// the hosts as JSON returned. Where that failed there are no artifacts,
/// and the failure is a write failure that carries the writer's message.
pub fn build_artifacts(hosts: &[(String, String)], now: &str, json: Result<String, String>) -> (r:
    Result<ServerArtifacts, SyncError>)
    ensures
        match json {
            Ok(written) => r is Ok && r->Ok_0.text@ == text_artifact(pairs(hosts@), now@)
                && r->Ok_0.json@ == written@ && r->Ok_0.updated@ == now@,
            Err(message) => r is Err && r->Err_0.kind == ErrorKind::WriteFailure
                && r->Err_0.detail@ == message@,
        },
{
    match json {
        Ok(written) => Ok(
            ServerArtifacts {
                text: format_hosts_text(hosts, now),
                json: written,
                updated: now.to_owned(),
            },
        ),
        Err(message) => Err(SyncError { kind: ErrorKind::WriteFailure, detail: message }),
    }
}

/// One server cycle between the lookups and the writes: the resolved hosts
/// of the batch, rendered once as text and once as JSON and stamped with
/// the local time. Both artifacts show the same hosts in the same order.
pub fn server_fetch_hosts(lookups: &[Lookup]) -> (r: Result<ServerArtifacts, SyncError>)
    ensures
        match json_of_pairs(resolved_hosts(lookups@)) {
            Ok(written) => r is Ok && r->Ok_0.json@ == written && is_one_line(r->Ok_0.updated@)
                && r->Ok_0.text@ == text_artifact(resolved_hosts(lookups@), r->Ok_0.updated@),
            Err(message) => r is Err && r->Err_0.kind == ErrorKind::WriteFailure
                && r->Err_0.detail@ == message,
        },
{
    let hosts = fetch_hosts(lookups);
    let now = local_timestamp();
    let json = pairs_to_json(hosts.as_slice());
    build_artifacts(hosts.as_slice(), now.as_str(), json)
}

} // verus!
