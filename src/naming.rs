//! Derived object names, relay addresses and fixed settings.
//!
//! Every object that belongs to a session is keyed by a name derived from the
//! session identifier, so that stop and status can find them again.

use vstd::prelude::*;
use crate::text::{has_prefix, joined, strip_prefix};

verus! {

/// Namespace in which every lab object lives.
pub const DEFAULT_NAMESPACE: &'static str = "default";

/// Size of the buffer that one read of the shell's output fills at most.
pub const RELAY_BUFFER_SIZE: usize = 4096;

/// Seconds to wait for a workload to become ready.
pub const POD_TIMEOUT_SECS: u64 = 60;

/// Seconds to wait for a network exposure to get an external address.
pub const SERVICE_TIMEOUT_SECS: u64 = 120;

/// Ceiling on a workload's active lifetime, in seconds.
pub const POD_DEADLINE_SECS: i64 = 7200;

/// The workload name `<prefix>-<session_id>`.
pub open spec fn workload_name_of(prefix: Seq<char>, session_id: Seq<char>) -> Seq<char> {
    prefix + "-"@ + session_id
}

/// The pull-credential name `gcr-secret-<session_id>`.
pub open spec fn secret_name_of(session_id: Seq<char>) -> Seq<char> {
    "gcr-secret-"@ + session_id
}

/// The exposure name `lab-web-<session_id>`.
pub open spec fn service_name_of(session_id: Seq<char>) -> Seq<char> {
    "lab-web-"@ + session_id
}

/// The relay route of a workload.
pub open spec fn webshell_path_of(pod_name: Seq<char>) -> Seq<char> {
    "/spawn/webshell/"@ + pod_name
}

/// The client-facing relay URL of a workload.
pub open spec fn webshell_url_of(pod_name: Seq<char>) -> Seq<char> {
    "ws://lab-api-service:8080"@ + webshell_path_of(pod_name)
}

/// The field selector that restricts a watch to one named object.
pub open spec fn name_selector_of(name: Seq<char>) -> Seq<char> {
    "metadata.name="@ + name
}

/// The session component of a workload name, if it carries a known prefix.
pub open spec fn session_of_spec(pod_name: Seq<char>) -> Option<Seq<char>> {
    if has_prefix(pod_name, "web-session-"@) {
        Some(pod_name.subrange(12, pod_name.len() as int))
    } else if has_prefix(pod_name, "ctf-session-"@) {
        Some(pod_name.subrange(12, pod_name.len() as int))
    } else {
        None
    }
}

/// Derives the workload name from a prefix and a session identifier.
pub fn pod_name(prefix: &str, session_id: &str) -> (r: String)
    ensures
        r@ == workload_name_of(prefix@, session_id@),
{
    let mut r = joined(prefix, "-");
    r.append(session_id);
    r
}

/// Derives the pull-credential name of a session.
pub fn secret_name(session_id: &str) -> (r: String)
    ensures
        r@ == secret_name_of(session_id@),
{
    joined("gcr-secret-", session_id)
}

/// Derives the exposure name of a session.
pub fn service_name(session_id: &str) -> (r: String)
    ensures
        r@ == service_name_of(session_id@),
{
    joined("lab-web-", session_id)
}

/// The route under which the relay for `pod_name` is served.
pub fn webshell_path(pod_name: &str) -> (r: String)
    ensures
        r@ == webshell_path_of(pod_name@),
{
    joined("/spawn/webshell/", pod_name)
}

/// The address a client connects to for the relay of `pod_name`.
pub fn webshell_url(pod_name: &str) -> (r: String)
    ensures
        r@ == webshell_url_of(pod_name@),
{
    let mut r = String::from_str("ws://lab-api-service:8080");
    r.append("/spawn/webshell/");
    r.append(pod_name);
    r
}

/// The field selector for a watch on the object called `name`.
pub fn name_selector(name: &str) -> (r: String)
    ensures
        r@ == name_selector_of(name@),
{
    joined("metadata.name=", name)
}

/// Recovers the session identifier embedded in a workload name.
pub fn session_of(pod_name: &str) -> (r: Option<String>)
    ensures
        r matches Some(s) ==> session_of_spec(pod_name@) == Some(s@),
        r is None ==> session_of_spec(pod_name@) is None,
{
    proof {
        reveal_strlit("web-session-");
        reveal_strlit("ctf-session-");
    }
    match strip_prefix(pod_name, "web-session-") {
        Some(rest) => Some(rest),
        None => strip_prefix(pod_name, "ctf-session-"),
    }
}

} // verus!
