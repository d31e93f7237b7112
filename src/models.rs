//! Requests, results and errors of the lab lifecycle.

use vstd::prelude::*;
use crate::text::str_equals;

verus! {

/// A request to start a lab for one session.
pub struct SpawnRequest {
    /// Opaque unique identifier of the session (its textual form).
    pub session_id: String,
    /// Which kind of lab to start; one of a closed set of tags.
    pub lab_type: String,
    /// Reference to the image the lab runs.
    pub template_path: String,
}

/// What a successful spawn hands back.
pub struct SpawnResult {
    /// The workload's derived name, which identifies the lab from now on.
    pub pod_name: String,
    /// The external address of a browser-reachable lab; `None` for terminal labs.
    pub web_url: Option<String>,
}

/// The answer to a spawn call, as the request boundary reports it.
pub struct SpawnResponse {
    pub container_id: String,
    pub webshell_url: String,
    pub status: String,
}

/// A request to tear a lab down.
pub struct StopRequest {
    pub container_id: String,
}

/// The answer to a stop call.
pub struct StopResponse {
    pub status: String,
}

/// Why a spawn did not produce a lab.
#[derive(PartialEq, Eq, Structural, Clone, Copy, Debug)]
pub enum SpawnError {
    /// The lab type is not one of the recognized tags; nothing was touched.
    InvalidInput,
    /// A cluster or token call (create, watch, token) failed.
    UpstreamUnavailable,
    /// The platform reported the workload as failed.
    UpstreamFailure,
    /// The readiness deadline passed before the object became ready or failed.
    ReadinessTimeout,
}

/// The recognized lab types.
#[derive(PartialEq, Eq, Structural, Clone, Copy, Debug)]
pub enum LabKind {
    /// A guided lab used through the terminal relay only.
    TerminalGuided,
    /// A guided lab that also serves a web application.
    WebGuided,
}

/// The lab kind a type tag names, if any.
pub open spec fn lab_kind_of(tag: Seq<char>) -> Option<LabKind> {
    if tag == "ctf_terminal_guided"@ {
        Some(LabKind::TerminalGuided)
    } else if tag == "ctf_web_guided"@ {
        Some(LabKind::WebGuided)
    } else {
        None
    }
}

/// The workload name prefix of a lab kind.
pub open spec fn prefix_of(kind: LabKind) -> Seq<char> {
    match kind {
        LabKind::TerminalGuided => "ctf-session"@,
        LabKind::WebGuided => "web-session"@,
    }
}

/// Whether a lab kind needs a browser-reachable network exposure.
pub open spec fn exposed(kind: LabKind) -> bool {
    kind == LabKind::WebGuided
}

/// The HTTP status with which the request boundary reports an error.
pub open spec fn status_code_of(e: SpawnError) -> u16 {
    match e {
        SpawnError::InvalidInput => 400,
        SpawnError::UpstreamUnavailable => 500,
        SpawnError::UpstreamFailure => 500,
        SpawnError::ReadinessTimeout => 408,
    }
}

impl SpawnError {
    /// The HTTP status code that reports this error to a client.
    pub fn status_code(&self) -> (r: u16)
        ensures
            r == status_code_of(*self),
    {
        match self {
            SpawnError::InvalidInput => 400,
            SpawnError::UpstreamUnavailable => 500,
            SpawnError::UpstreamFailure => 500,
            SpawnError::ReadinessTimeout => 408,
        }
    }
}

impl LabKind {
    /// Reads a lab type tag; an unknown tag is invalid input.
    pub fn parse(tag: &str) -> (r: Result<LabKind, SpawnError>)
        ensures
            r matches Ok(k) ==> lab_kind_of(tag@) == Some(k),
            r matches Err(e) ==> lab_kind_of(tag@) is None && e == SpawnError::InvalidInput,
    {
        if str_equals(tag, "ctf_terminal_guided") {
            Ok(LabKind::TerminalGuided)
        } else if str_equals(tag, "ctf_web_guided") {
            Ok(LabKind::WebGuided)
        } else {
            Err(SpawnError::InvalidInput)
        }
    }

    /// The prefix of the names of this kind's workloads.
    pub fn name_prefix(&self) -> (r: &'static str)
        ensures
            r@ == prefix_of(*self),
    {
        match self {
            LabKind::TerminalGuided => "ctf-session",
            LabKind::WebGuided => "web-session",
        }
    }

    /// Whether labs of this kind get a network exposure.
    pub fn needs_exposure(&self) -> (r: bool)
        ensures
            r == exposed(*self),
    {
        match self {
            LabKind::TerminalGuided => false,
            LabKind::WebGuided => true,
        }
    }
}

} // verus!
