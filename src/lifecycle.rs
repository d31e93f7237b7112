//! The session lifecycle: the decisions of spawn, stop and status.
//!
//! The cluster calls themselves are made by the caller. A session says which
//! step comes next; the caller performs it and hands the result back. Every
//! step's success gates the next one, and a failure ends the spawn with its
//! classification. Nothing is rolled back: a workload that was created before
//! a later step failed stays until the lab is stopped.

use vstd::prelude::*;
use vstd::utf8::encode_utf8;
use crate::models::{
    exposed, lab_kind_of, prefix_of, LabKind, SpawnError, SpawnRequest, SpawnResponse, SpawnResult,
    StopResponse,
};
use crate::naming::{
    pod_name, secret_name, service_name_of, session_of, session_of_spec, secret_name_of,
    webshell_url, webshell_url_of, workload_name_of,
};
use crate::objects::{build_pod, build_service, describes_pod, describes_service, PodPlan, ServicePlan};
use crate::provision::{pull_config_of, pull_secret, SecretPlan};
use crate::readiness::{PodInfo, WaitOutcome};

verus! {

/// Everything a valid request determines before any cluster call.
pub struct SpawnPlan {
    pub kind: LabKind,
    pub session_id: String,
    pub template_path: String,
    pub pod_name: String,
    pub secret_name: String,
    pub pod: PodPlan,
    /// The exposure to create, for lab kinds that need one.
    pub service: Option<ServicePlan>,
}

/// `p` is the plan of the request `req`.
pub open spec fn plans(req: SpawnRequest, p: SpawnPlan) -> bool {
    &&& lab_kind_of(req.lab_type@) == Some(p.kind)
    &&& p.session_id@ == req.session_id@
    &&& p.template_path@ == req.template_path@
    &&& p.pod_name@ == workload_name_of(prefix_of(p.kind), req.session_id@)
    &&& p.secret_name@ == secret_name_of(req.session_id@)
    &&& describes_pod(p.pod, p.pod_name@, p.secret_name@, req)
    &&& (p.service is Some <==> exposed(p.kind))
    &&& (p.service matches Some(svc) ==> describes_service(svc, req.session_id@))
}

/// `sp` is the pull credential of a plan, made with the access token `token`.
pub open spec fn describes_secret(sp: SecretPlan, plan: SpawnPlan, token: Seq<char>) -> bool {
    &&& sp.name@ == plan.secret_name@
    &&& sp.secret_type@ == "kubernetes.io/dockerconfigjson"@
    &&& sp.data_key@ == ".dockerconfigjson"@
    &&& sp.data@ == encode_utf8(pull_config_of(plan.template_path@, token))
}

/// Derives the plan of a request, or rejects an unknown lab type.
pub fn plan_spawn(req: &SpawnRequest) -> (r: Result<SpawnPlan, SpawnError>)
    ensures
        r is Err <==> lab_kind_of(req.lab_type@) is None,
        r matches Err(e) ==> e == SpawnError::InvalidInput,
        r matches Ok(p) ==> plans(*req, p),
{
    let kind = match LabKind::parse(req.lab_type.as_str()) {
        Ok(k) => k,
        Err(e) => return Err(e),
    };
    let name = pod_name(kind.name_prefix(), req.session_id.as_str());
    let secret = secret_name(req.session_id.as_str());
    let pod = build_pod(name.as_str(), secret.as_str(), req);
    let service = if kind.needs_exposure() {
        Some(build_service(req.session_id.as_str()))
    } else {
        None
    };
    Ok(SpawnPlan {
        kind,
        session_id: req.session_id.clone(),
        template_path: req.template_path.clone(),
        pod_name: name,
        secret_name: secret,
        pod,
        service,
    })
}

/// The step a spawn is at; each names the call the caller makes next.
pub enum SpawnStage {
    /// Get an access token for the registry.
    FetchingToken,
    /// Delete any stale credential of this name, then create this one.
    ReplacingSecret(SecretPlan),
    /// Create the planned workload.
    CreatingPod,
    /// Watch the workload until it is ready, fails, or the deadline passes.
    AwaitingPod,
    /// Delete any stale exposure of this name, then create the planned one.
    ReplacingService,
    /// Watch the exposure until it has an external address or the deadline passes.
    AwaitingService,
    /// The spawn is over.
    Finished(Result<SpawnResult, SpawnError>),
}

/// What the caller reports back after performing a step.
pub enum SpawnEvent {
    /// The access token was issued.
    TokenIssued(String),
    /// The step's call succeeded.
    CallSucceeded,
    /// The step's call (a create, a watch subscription, the token) failed.
    CallFailed,
    /// The readiness wait of the step ended.
    WaitEnded(WaitOutcome),
}

/// One spawn in progress.
pub struct SpawnSession {
    pub plan: SpawnPlan,
    pub stage: SpawnStage,
}

/// A spawn that finished with this error.
pub open spec fn failed_with(t: SpawnStage, e: SpawnError) -> bool {
    t matches SpawnStage::Finished(Err(x)) && x == e
}

/// A spawn that finished with the workload `pod_name` and the address `web_url`.
pub open spec fn succeeded_with(t: SpawnStage, pod_name: Seq<char>, web_url: Option<Seq<char>>) -> bool {
    match t {
        SpawnStage::Finished(Ok(res)) => res.pod_name@ == pod_name && match (res.web_url, web_url) {
            (Some(u), Some(w)) => u@ == w,
            (None, None) => true,
            _ => false,
        },
        _ => false,
    }
}

/// The stage after a wait on the step `s` ended with `o`, for the plan `plan`.
pub open spec fn after_wait(plan: SpawnPlan, s: SpawnStage, o: WaitOutcome, t: SpawnStage) -> bool {
    match o {
        WaitOutcome::Ready(v) => match s {
            SpawnStage::AwaitingPod => if plan.service is Some {
                t is ReplacingService
            } else {
                succeeded_with(t, plan.pod_name@, None)
            },
            _ => succeeded_with(t, plan.pod_name@, Some(v@)),
        },
        WaitOutcome::Failed => failed_with(t, SpawnError::UpstreamFailure),
        WaitOutcome::TimedOut => failed_with(t, SpawnError::ReadinessTimeout),
        WaitOutcome::Pending => t == s,
    }
}

/// The transition of a spawn from `s` to `t` on the event `ev`.
pub open spec fn spawn_step(plan: SpawnPlan, s: SpawnStage, ev: SpawnEvent, t: SpawnStage) -> bool {
    match s {
        SpawnStage::Finished(_) => t == s,
        _ => match ev {
            SpawnEvent::CallFailed => failed_with(t, SpawnError::UpstreamUnavailable),
            SpawnEvent::TokenIssued(tok) => match s {
                SpawnStage::FetchingToken => t matches SpawnStage::ReplacingSecret(sp)
                    && describes_secret(sp, plan, tok@),
                _ => t == s,
            },
            SpawnEvent::CallSucceeded => match s {
                SpawnStage::ReplacingSecret(_) => t is CreatingPod,
                SpawnStage::CreatingPod => t is AwaitingPod,
                SpawnStage::ReplacingService => t is AwaitingService,
                _ => t == s,
            },
            SpawnEvent::WaitEnded(o) => match s {
                SpawnStage::AwaitingPod | SpawnStage::AwaitingService => after_wait(plan, s, o, t),
                _ => t == s,
            },
        },
    }
}

impl SpawnSession {
    /// Begins a spawn: an unknown lab type is rejected here, before any
    /// cluster call; otherwise the first step is to fetch a token.
    pub fn start(req: &SpawnRequest) -> (r: Result<SpawnSession, SpawnError>)
        ensures
            r is Err <==> lab_kind_of(req.lab_type@) is None,
            r matches Err(e) ==> e == SpawnError::InvalidInput,
            r matches Ok(s) ==> plans(*req, s.plan) && s.stage is FetchingToken,
    {
        match plan_spawn(req) {
            Ok(plan) => Ok(SpawnSession { plan, stage: SpawnStage::FetchingToken }),
            Err(e) => Err(e),
        }
    }

    /// Whether the spawn is over.
    pub fn is_finished(&self) -> (r: bool)
        ensures
            r == (self.stage is Finished),
    {
        matches!(self.stage, SpawnStage::Finished(_))
    }

    fn finish_ok(&self, web_url: Option<String>) -> (r: SpawnStage)
        ensures
            r matches SpawnStage::Finished(Ok(res)) && res.pod_name@ == self.plan.pod_name@ && res.web_url == web_url,
    {
        SpawnStage::Finished(Ok(SpawnResult { pod_name: self.plan.pod_name.clone(), web_url }))
    }

    /// Takes in the result of the current step and moves to the next one.
    pub fn advance(&mut self, ev: SpawnEvent)
        ensures
            final(self).plan == old(self).plan,
            spawn_step(old(self).plan, old(self).stage, ev, final(self).stage),
    {
        if matches!(self.stage, SpawnStage::Finished(_)) {
            return;
        }
        match ev {
            SpawnEvent::CallFailed => {
                self.stage = SpawnStage::Finished(Err(SpawnError::UpstreamUnavailable));
            },
            SpawnEvent::TokenIssued(tok) => {
                if matches!(self.stage, SpawnStage::FetchingToken) {
                    let sp = pull_secret(
                        self.plan.secret_name.as_str(),
                        self.plan.template_path.as_str(),
                        tok.as_str(),
                    );
                    self.stage = SpawnStage::ReplacingSecret(sp);
                }
            },
            SpawnEvent::CallSucceeded => {
                match self.stage {
                    SpawnStage::ReplacingSecret(_) => {
                        self.stage = SpawnStage::CreatingPod;
                    },
                    SpawnStage::CreatingPod => {
                        self.stage = SpawnStage::AwaitingPod;
                    },
                    SpawnStage::ReplacingService => {
                        self.stage = SpawnStage::AwaitingService;
                    },
                    _ => {},
                }
            },
            SpawnEvent::WaitEnded(o) => {
                let awaiting_pod = matches!(self.stage, SpawnStage::AwaitingPod);
                if awaiting_pod || matches!(self.stage, SpawnStage::AwaitingService) {
                    match o {
                        WaitOutcome::Ready(v) => {
                            if awaiting_pod {
                                if self.plan.service.is_some() {
                                    self.stage = SpawnStage::ReplacingService;
                                } else {
                                    self.stage = self.finish_ok(None);
                                }
                            } else {
                                self.stage = self.finish_ok(Some(v));
                            }
                        },
                        WaitOutcome::Failed => {
                            self.stage = SpawnStage::Finished(Err(SpawnError::UpstreamFailure));
                        },
                        WaitOutcome::TimedOut => {
                            self.stage = SpawnStage::Finished(Err(SpawnError::ReadinessTimeout));
                        },
                        WaitOutcome::Pending => {},
                    }
                }
            },
        }
    }

    /// The spawn's result, once it is over.
    pub fn into_result(self) -> (r: Option<Result<SpawnResult, SpawnError>>)
        ensures
            match self.stage {
                SpawnStage::Finished(x) => r == Some(x),
                _ => r is None,
            },
    {
        match self.stage {
            SpawnStage::Finished(x) => Some(x),
            _ => None,
        }
    }
}

/// The name a request's workload gets is `<prefix>-<session_id>`, with the
/// prefix of its lab kind, whatever else the request holds: two requests with
/// the same session and lab type plan the same workload, credential and
/// exposure names.
pub proof fn lemma_names_stable(req_a: SpawnRequest, plan_a: SpawnPlan, req_b: SpawnRequest, plan_b: SpawnPlan)
    requires
        plans(req_a, plan_a),
        plans(req_b, plan_b),
        req_a.session_id@ == req_b.session_id@,
        req_a.lab_type@ == req_b.lab_type@,
    ensures
        plan_a.pod_name@ == plan_b.pod_name@,
        plan_a.pod_name@ == workload_name_of(prefix_of(plan_a.kind), req_a.session_id@),
        plan_a.secret_name@ == plan_b.secret_name@,
        plan_a.service matches Some(svc_a) ==> plan_b.service matches Some(svc_b) && svc_a.name@ == svc_b.name@,
{
}

/// The address a client uses for a spawned lab: the external address of a web
/// lab, else the relay URL of its workload.
pub open spec fn access_url_of(r: SpawnResult) -> Seq<char> {
    match r.web_url {
        Some(u) => u@,
        None => webshell_url_of(r.pod_name@),
    }
}

impl SpawnResult {
    /// The address a client uses to reach this lab.
    pub fn access_url(&self) -> (r: String)
        ensures
            r@ == access_url_of(*self),
    {
        match &self.web_url {
            Some(u) => u.clone(),
            None => webshell_url(self.pod_name.as_str()),
        }
    }
}

/// The answer to a successful spawn: the lab's identifier and address.
pub fn spawn_response(result: &SpawnResult) -> (r: SpawnResponse)
    ensures
        r.container_id@ == result.pod_name@,
        r.webshell_url@ == access_url_of(*result),
        r.status@ == "running"@,
{
    SpawnResponse {
        container_id: result.pod_name.clone(),
        webshell_url: result.access_url(),
        status: String::from_str("running"),
    }
}

/// The answer to a stop, which always completes.
pub fn stop_response() -> (r: StopResponse)
    ensures
        r.status@ == "stopped"@,
{
    StopResponse { status: String::from_str("stopped") }
}

/// How a delete call ended.
#[derive(PartialEq, Eq, Structural, Clone, Copy, Debug)]
pub enum DeleteOutcome {
    Deleted,
    NotFound,
    Failed,
}

/// The step a stop is at.
pub enum StopStage {
    /// Delete the exposure of this name.
    DeletingService(String),
    /// Delete the workload.
    DeletingPod,
    /// The stop is over.
    Done,
}

/// One stop in progress: best effort, it never fails to its caller.
pub struct StopSession {
    pub pod_name: String,
    pub stage: StopStage,
}

/// The stage after a delete of stage `s` ended, whatever the outcome.
pub open spec fn stop_next(s: StopStage) -> StopStage {
    match s {
        StopStage::DeletingService(_) => StopStage::DeletingPod,
        _ => StopStage::Done,
    }
}

/// Whether a delete outcome at stage `s` is worth reporting in the log: an
/// exposure that is already gone is not.
pub open spec fn stop_reports(s: StopStage, o: DeleteOutcome) -> bool {
    match s {
        StopStage::DeletingService(_) => o == DeleteOutcome::Failed,
        StopStage::DeletingPod => o != DeleteOutcome::Deleted,
        StopStage::Done => false,
    }
}

impl StopSession {
    /// Begins stopping the lab `pod_name`: its exposure first, when the name
    /// carries a session, then the workload.
    pub fn start(pod_name: String) -> (r: StopSession)
        ensures
            r.pod_name == pod_name,
            match session_of_spec(pod_name@) {
                Some(sid) => r.stage matches StopStage::DeletingService(n) && n@ == service_name_of(sid),
                None => r.stage is DeletingPod,
            },
    {
        let stage = match session_of(pod_name.as_str()) {
            Some(sid) => StopStage::DeletingService(crate::naming::service_name(sid.as_str())),
            None => StopStage::DeletingPod,
        };
        StopSession { pod_name, stage }
    }

    /// Takes in how the current delete ended and moves on; returns whether
    /// that outcome should be reported.
    pub fn advance(&mut self, outcome: DeleteOutcome) -> (report: bool)
        ensures
            final(self).pod_name == old(self).pod_name,
            final(self).stage == stop_next(old(self).stage),
            report == stop_reports(old(self).stage, outcome),
    {
        match self.stage {
            StopStage::DeletingService(_) => {
                self.stage = StopStage::DeletingPod;
                outcome == DeleteOutcome::Failed
            },
            StopStage::DeletingPod => {
                self.stage = StopStage::Done;
                outcome != DeleteOutcome::Deleted
            },
            StopStage::Done => false,
        }
    }
}

/// A stop always goes on to delete the workload after the exposure, whether
/// the exposure was deleted, was not there, or could not be deleted; and it
/// ends after the workload's delete, whatever that gave.
pub proof fn lemma_stop_reaches_workload(pod_name: String, o: DeleteOutcome)
    ensures
        forall|n: String| stop_next(StopStage::DeletingService(n)) is DeletingPod,
        stop_next(StopStage::DeletingPod) is Done,
        forall|n: String| !stop_reports(StopStage::DeletingService(n), DeleteOutcome::NotFound),
{
}

/// The reported phase of a workload, or `Unknown` when it could not be read or has none.
pub open spec fn status_of(fetched: Option<PodInfo>) -> Seq<char> {
    match fetched {
        Some(p) => match p.status {
            Some(s) => match s.phase {
                Some(ph) => ph@,
                None => "Unknown"@,
            },
            None => "Unknown"@,
        },
        None => "Unknown"@,
    }
}

/// The status text of a lab from its workload as read from the cluster
/// (`None` when the read failed).
pub fn status_text(fetched: Option<PodInfo>) -> (r: String)
    ensures
        r@ == status_of(fetched),
{
    match fetched {
        Some(p) => match p.status {
            Some(s) => match s.phase {
                Some(ph) => ph,
                None => String::from_str("Unknown"),
            },
            None => String::from_str("Unknown"),
        },
        None => String::from_str("Unknown"),
    }
}

} // verus!
