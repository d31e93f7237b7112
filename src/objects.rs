//! The workload and exposure objects a session creates, as plain values that
//! the cluster boundary turns into the platform's own objects.

use vstd::prelude::*;
use crate::models::SpawnRequest;
use crate::naming::{service_name, service_name_of, POD_DEADLINE_SECS};

verus! {

/// A workload to create: one container running the session's image.
pub struct PodPlan {
    pub name: String,
    /// Labels, by key in ascending order.
    pub labels: Vec<(String, String)>,
    /// The pull credential the workload's image is fetched with.
    pub image_pull_secret: String,
    pub container_name: String,
    pub image: String,
    /// Resource limits, by resource name in ascending order.
    pub limits: Vec<(String, String)>,
    /// Resource requests, by resource name in ascending order.
    pub requests: Vec<(String, String)>,
    /// A scratch volume, mounted at `mount_path` in the container.
    pub volume_name: String,
    pub mount_path: String,
    pub restart_policy: String,
    pub active_deadline_seconds: i64,
}

/// A load-balanced exposure that selects a session's workload by its labels.
pub struct ServicePlan {
    pub name: String,
    /// Labels of the exposure itself, by key in ascending order.
    pub labels: Vec<(String, String)>,
    /// Labels a workload must carry to be selected, by key in ascending order.
    pub selector: Vec<(String, String)>,
    pub service_type: String,
    pub port_name: String,
    pub port: i32,
    pub target_port: i32,
    pub protocol: String,
}

/// `kv` is the pair `(k, v)`.
pub open spec fn is_pair(kv: (String, String), k: Seq<char>, v: Seq<char>) -> bool {
    kv.0@ == k && kv.1@ == v
}

/// The labels `app` and `session_id` that tie a session's objects together.
pub open spec fn session_labels(l: Seq<(String, String)>, session_id: Seq<char>) -> bool {
    l.len() == 2 && is_pair(l[0], "app"@, "altair-lab"@) && is_pair(l[1], "session_id"@, session_id)
}

/// `r` describes the workload `pod_name` of a request, pulling its image with
/// the credential `secret_name`.
pub open spec fn describes_pod(r: PodPlan, pod_name: Seq<char>, secret_name: Seq<char>, payload: SpawnRequest) -> bool {
    &&& r.name@ == pod_name
    &&& r.labels@.len() == 3
    &&& is_pair(r.labels@[0], "app"@, "altair-lab"@)
    &&& is_pair(r.labels@[1], "lab_type"@, payload.lab_type@)
    &&& is_pair(r.labels@[2], "session_id"@, payload.session_id@)
    &&& r.image_pull_secret@ == secret_name
    &&& r.container_name@ == "lab-container"@
    &&& r.image@ == payload.template_path@
    &&& r.limits@.len() == 2
    &&& is_pair(r.limits@[0], "cpu"@, "500m"@)
    &&& is_pair(r.limits@[1], "memory"@, "512Mi"@)
    &&& r.requests@.len() == 2
    &&& is_pair(r.requests@[0], "cpu"@, "250m"@)
    &&& is_pair(r.requests@[1], "memory"@, "256Mi"@)
    &&& r.volume_name@ == "var-log"@
    &&& r.mount_path@ == "/var/log"@
    &&& r.restart_policy@ == "Never"@
    &&& r.active_deadline_seconds == POD_DEADLINE_SECS
}

/// `r` describes the exposure of the session `session_id`.
pub open spec fn describes_service(r: ServicePlan, session_id: Seq<char>) -> bool {
    &&& r.name@ == service_name_of(session_id)
    &&& session_labels(r.labels@, session_id)
    &&& session_labels(r.selector@, session_id)
    &&& r.service_type@ == "LoadBalancer"@
    &&& r.port_name@ == "http"@
    &&& r.port == 80
    &&& r.target_port == 3000
    &&& r.protocol@ == "TCP"@
}

fn pair(k: &str, v: &str) -> (r: (String, String))
    ensures
        is_pair(r, k@, v@),
{
    (String::from_str(k), String::from_str(v))
}

/// Describes the workload `pod_name` for a request, pulling its image with
/// the credential `secret_name`.
pub fn build_pod(pod_name: &str, secret_name: &str, payload: &SpawnRequest) -> (r: PodPlan)
    ensures
        describes_pod(r, pod_name@, secret_name@, *payload),
{
    let labels = vec![
        pair("app", "altair-lab"),
        pair("lab_type", payload.lab_type.as_str()),
        pair("session_id", payload.session_id.as_str()),
    ];
    let limits = vec![pair("cpu", "500m"), pair("memory", "512Mi")];
    let requests = vec![pair("cpu", "250m"), pair("memory", "256Mi")];
    PodPlan {
        name: String::from_str(pod_name),
        labels,
        image_pull_secret: String::from_str(secret_name),
        container_name: String::from_str("lab-container"),
        image: payload.template_path.clone(),
        limits,
        requests,
        volume_name: String::from_str("var-log"),
        mount_path: String::from_str("/var/log"),
        restart_policy: String::from_str("Never"),
        active_deadline_seconds: POD_DEADLINE_SECS,
    }
}

/// Describes the exposure of a session's web lab: port 80 to the
/// workload's port 3000 over TCP, behind a load balancer.
pub fn build_service(session_id: &str) -> (r: ServicePlan)
    ensures
        describes_service(r, session_id@),
{
    ServicePlan {
        name: service_name(session_id),
        labels: vec![pair("app", "altair-lab"), pair("session_id", session_id)],
        selector: vec![pair("app", "altair-lab"), pair("session_id", session_id)],
        service_type: String::from_str("LoadBalancer"),
        port_name: String::from_str("http"),
        port: 80,
        target_port: 3000,
        protocol: String::from_str("TCP"),
    }
}

} // verus!
