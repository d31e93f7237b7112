//! Readiness policy: what an observed workload or exposure state means, and
//! the bounded wait that folds the observed states into one outcome.

use vstd::prelude::*;
use crate::models::SpawnError;
use crate::text::{joined, str_equals};

verus! {

/// The state a container reports.
pub enum ContainerState {
    Waiting { reason: Option<String> },
    Running,
    Terminated { exit_code: i32, reason: Option<String> },
}

/// The reported status of one container of a workload.
pub struct ContainerStatusInfo {
    pub name: String,
    pub ready: bool,
    pub state: Option<ContainerState>,
}

/// The reported status of a workload.
pub struct PodStatusInfo {
    pub phase: Option<String>,
    pub container_statuses: Option<Vec<ContainerStatusInfo>>,
}

/// A workload as a watch reports it; `status` is absent until the platform sets it.
pub struct PodInfo {
    pub status: Option<PodStatusInfo>,
}

/// One load-balancer ingress entry of an exposure.
pub struct IngressInfo {
    pub ip: Option<String>,
    pub hostname: Option<String>,
}

/// An exposure as a watch reports it: its load-balancer ingress list, if any.
pub struct ServiceInfo {
    pub ingress: Option<Vec<IngressInfo>>,
}

/// A change event of a watch on one named object.
pub enum ObjectEvent<T> {
    Added(T),
    Modified(T),
    /// A deletion, bookmark or error event: it carries no state to judge.
    Other,
}

/// Does `phase` hold exactly the text `expected`?
pub open spec fn phase_is(phase: Option<String>, expected: Seq<char>) -> bool {
    match phase {
        Some(p) => p@ == expected,
        None => false,
    }
}

/// Did this container terminate with a non-zero exit code?
pub open spec fn terminated_with_error(c: ContainerStatusInfo) -> bool {
    match c.state {
        Some(ContainerState::Terminated { exit_code, .. }) => exit_code != 0,
        _ => false,
    }
}

/// Did this container terminate with exit code 0?
pub open spec fn terminated_cleanly(c: ContainerStatusInfo) -> bool {
    match c.state {
        Some(ContainerState::Terminated { exit_code, .. }) => exit_code == 0,
        _ => false,
    }
}

/// Ready: phase "Running", and a non-empty container list that is all ready.
pub open spec fn pod_ready(p: PodInfo) -> bool {
    match p.status {
        Some(s) => phase_is(s.phase, "Running"@) && match s.container_statuses {
            Some(cs) => cs@.len() > 0 && forall|i: int| 0 <= i < cs@.len() ==> (#[trigger] cs@[i]).ready,
            None => false,
        },
        None => false,
    }
}

/// Failed: phase "Failed", or some container terminated with a non-zero exit code.
pub open spec fn pod_failed(p: PodInfo) -> bool {
    match p.status {
        Some(s) => phase_is(s.phase, "Failed"@) || match s.container_statuses {
            Some(cs) => exists|i: int| 0 <= i < cs@.len() && terminated_with_error(#[trigger] cs@[i]),
            None => false,
        },
        None => false,
    }
}

/// The non-empty text of an optional field.
pub open spec fn present(f: Option<String>) -> Option<Seq<char>> {
    match f {
        Some(v) => if v@.len() > 0 { Some(v@) } else { None },
        None => None,
    }
}

/// The external address of an exposure: from its first ingress entry, the
/// first non-empty of IP and hostname, as an `http://` URL.
pub open spec fn external_url_of(s: ServiceInfo) -> Option<Seq<char>> {
    match s.ingress {
        Some(list) => if list@.len() == 0 {
            None
        } else {
            match present(list@[0].ip) {
                Some(ip) => Some("http://"@ + ip),
                None => match present(list@[0].hostname) {
                    Some(h) => Some("http://"@ + h),
                    None => None,
                },
            }
        },
        None => None,
    }
}

fn phase_equals(phase: &Option<String>, expected: &str) -> (r: bool)
    ensures
        r == phase_is(*phase, expected@),
{
    match phase {
        Some(p) => str_equals(p.as_str(), expected),
        None => false,
    }
}

/// Whether the workload is ready for use.
pub fn is_pod_ready(pod: &PodInfo) -> (r: bool)
    ensures
        r == pod_ready(*pod),
{
    let status = match &pod.status {
        Some(s) => s,
        None => return false,
    };
    if !phase_equals(&status.phase, "Running") {
        return false;
    }
    let cs = match &status.container_statuses {
        Some(cs) => cs,
        None => return false,
    };
    if cs.len() == 0 {
        return false;
    }
    let mut i: usize = 0;
    while i < cs.len()
        invariant
            i <= cs@.len(),
            pod.status == Some(*status),
            status.container_statuses == Some(*cs),
            phase_is(status.phase, "Running"@),
            forall|j: int| 0 <= j < i ==> (#[trigger] cs@[j]).ready,
        decreases cs@.len() - i,
    {
        if !cs[i].ready {
            assert(!cs@[i as int].ready);
            return false;
        }
        i = i + 1;
    }
    true
}

/// Whether the platform reports the workload as failed.
pub fn is_pod_failed(pod: &PodInfo) -> (r: bool)
    ensures
        r == pod_failed(*pod),
{
    let status = match &pod.status {
        Some(s) => s,
        None => return false,
    };
    if phase_equals(&status.phase, "Failed") {
        return true;
    }
    let cs = match &status.container_statuses {
        Some(cs) => cs,
        None => return false,
    };
    let mut i: usize = 0;
    while i < cs.len()
        invariant
            i <= cs@.len(),
            pod.status == Some(*status),
            status.container_statuses == Some(*cs),
            forall|j: int| 0 <= j < i ==> !terminated_with_error(#[trigger] cs@[j]),
        decreases cs@.len() - i,
    {
        match &cs[i].state {
            Some(ContainerState::Terminated { exit_code, .. }) => {
                if *exit_code != 0 {
                    assert(terminated_with_error(cs@[i as int]));
                    assert(pod.status->Some_0.container_statuses->Some_0 == *cs);
                    return true;
                }
            },
            _ => {},
        }
        i = i + 1;
    }
    false
}

fn present_text(f: &Option<String>) -> (r: Option<&str>)
    ensures
        r matches Some(v) ==> present(*f) == Some(v@),
        r is None ==> present(*f) is None,
{
    match f {
        Some(v) => {
            if v.as_str().unicode_len() > 0 {
                Some(v.as_str())
            } else {
                None
            }
        },
        None => None,
    }
}

/// The URL at which an exposure is reachable, once it has an address.
pub fn external_url(svc: &ServiceInfo) -> (r: Option<String>)
    ensures
        r matches Some(u) ==> external_url_of(*svc) == Some(u@),
        r is None ==> external_url_of(*svc) is None,
{
    let list = match &svc.ingress {
        Some(l) => l,
        None => return None,
    };
    if list.len() == 0 {
        return None;
    }
    let first = &list[0];
    match present_text(&first.ip) {
        Some(ip) => Some(joined("http://", ip)),
        None => match present_text(&first.hostname) {
            Some(h) => Some(joined("http://", h)),
            None => None,
        },
    }
}

/// The failure rules: phase "Failed" is a failure whatever the containers
/// report; a container that terminated with a non-zero exit code is a failure
/// whatever the phase; and a "Succeeded" workload whose containers all
/// terminated with exit code 0 is not a failure.
pub proof fn lemma_failure_rules(p: PodInfo, i: int)
    ensures
        match p.status {
            Some(s) => phase_is(s.phase, "Failed"@) ==> pod_failed(p),
            None => true,
        },
        match p.status {
            Some(s) => match s.container_statuses {
                Some(cs) => (0 <= i < cs@.len() && terminated_with_error(cs@[i])) ==> pod_failed(p),
                None => true,
            },
            None => true,
        },
        match p.status {
            Some(s) => match s.container_statuses {
                Some(cs) => (phase_is(s.phase, "Succeeded"@)
                    && forall|j: int| 0 <= j < cs@.len() ==> terminated_cleanly(#[trigger] cs@[j]))
                    ==> !pod_failed(p),
                None => true,
            },
            None => true,
        },
{
    reveal_strlit("Failed");
    reveal_strlit("Succeeded");
    assert("Failed"@[0] != "Succeeded"@[0]);
}

/// The readiness rules: a workload is never ready while its container list is
/// empty or absent, nor in any phase but "Running", nor while one of its
/// containers is not ready. Without a status it is neither ready nor failed.
pub proof fn lemma_readiness_rules(p: PodInfo, i: int)
    ensures
        match p.status {
            Some(s) => match s.container_statuses {
                Some(cs) => {
                    &&& cs@.len() == 0 ==> !pod_ready(p)
                    &&& (0 <= i < cs@.len() && !cs@[i].ready) ==> !pod_ready(p)
                },
                None => !pod_ready(p),
            },
            None => !pod_ready(p) && !pod_failed(p),
        },
        match p.status {
            Some(s) => !phase_is(s.phase, "Running"@) ==> !pod_ready(p),
            None => true,
        },
{
}

/// Where a bounded readiness wait stands.
pub enum WaitOutcome {
    /// Nothing decisive has been observed and the deadline has not passed.
    Pending,
    /// The object became usable; carries the workload name or the exposure URL.
    Ready(String),
    /// The platform reported the workload as failed.
    Failed,
    /// The deadline passed first.
    TimedOut,
}

/// A bounded wait for one named object, fed with the events of a watch on it
/// and with the time that has passed since the wait began.
pub struct ReadinessWait {
    pub name: String,
    pub deadline_secs: u64,
    pub outcome: WaitOutcome,
}

/// The outcome after one workload event: the first decisive state wins.
pub open spec fn after_pod_event(o: WaitOutcome, name: String, ev: ObjectEvent<PodInfo>) -> WaitOutcome {
    match o {
        WaitOutcome::Pending => match ev {
            ObjectEvent::Added(p) | ObjectEvent::Modified(p) => if pod_ready(p) {
                WaitOutcome::Ready(name)
            } else if pod_failed(p) {
                WaitOutcome::Failed
            } else {
                WaitOutcome::Pending
            },
            ObjectEvent::Other => WaitOutcome::Pending,
        },
        _ => o,
    }
}

/// The outcome after a sequence of workload events.
pub open spec fn after_pod_events(o: WaitOutcome, name: String, evs: Seq<ObjectEvent<PodInfo>>) -> WaitOutcome
    decreases evs.len(),
{
    if evs.len() == 0 {
        o
    } else {
        after_pod_events(after_pod_event(o, name, evs[0]), name, evs.drop_first())
    }
}

/// The outcome once `elapsed` seconds have passed: a pending wait times out
/// exactly when the deadline is reached.
pub open spec fn after_elapsed(o: WaitOutcome, deadline: u64, elapsed: u64) -> WaitOutcome {
    match o {
        WaitOutcome::Pending => if elapsed >= deadline {
            WaitOutcome::TimedOut
        } else {
            WaitOutcome::Pending
        },
        _ => o,
    }
}

/// An event that decides nothing: no ready and no failed state in it.
pub open spec fn undecisive(ev: ObjectEvent<PodInfo>) -> bool {
    match ev {
        ObjectEvent::Added(p) | ObjectEvent::Modified(p) => !pod_ready(p) && !pod_failed(p),
        ObjectEvent::Other => true,
    }
}

impl ReadinessWait {
    /// Starts a wait on the object `name` that gives up after `deadline_secs`.
    pub fn new(name: String, deadline_secs: u64) -> (r: ReadinessWait)
        ensures
            r.name == name,
            r.deadline_secs == deadline_secs,
            r.outcome is Pending,
    {
        ReadinessWait { name, deadline_secs, outcome: WaitOutcome::Pending }
    }

    /// Whether the wait has an outcome.
    pub fn is_settled(&self) -> (r: bool)
        ensures
            r == !(self.outcome is Pending),
    {
        !matches!(self.outcome, WaitOutcome::Pending)
    }

    /// Takes in one event of the watch on a workload.
    pub fn observe_pod(&mut self, ev: &ObjectEvent<PodInfo>)
        ensures
            final(self).name == old(self).name,
            final(self).deadline_secs == old(self).deadline_secs,
            final(self).outcome == after_pod_event(old(self).outcome, old(self).name, *ev),
    {
        if !matches!(self.outcome, WaitOutcome::Pending) {
            return;
        }
        match ev {
            ObjectEvent::Added(p) | ObjectEvent::Modified(p) => {
                if is_pod_ready(p) {
                    self.outcome = WaitOutcome::Ready(self.name.clone());
                } else if is_pod_failed(p) {
                    self.outcome = WaitOutcome::Failed;
                }
            },
            ObjectEvent::Other => {},
        }
    }

    /// Takes in one event of the watch on an exposure: the first event that
    /// carries an external address settles the wait with its URL.
    pub fn observe_service(&mut self, ev: &ObjectEvent<ServiceInfo>)
        ensures
            final(self).name == old(self).name,
            final(self).deadline_secs == old(self).deadline_secs,
            !(old(self).outcome is Pending) ==> final(self).outcome == old(self).outcome,
            old(self).outcome is Pending ==> match *ev {
                ObjectEvent::Added(s) | ObjectEvent::Modified(s) => match external_url_of(s) {
                    Some(u) => final(self).outcome matches WaitOutcome::Ready(v) && v@ == u,
                    None => final(self).outcome is Pending,
                },
                ObjectEvent::Other => final(self).outcome is Pending,
            },
    {
        if !matches!(self.outcome, WaitOutcome::Pending) {
            return;
        }
        match ev {
            ObjectEvent::Added(s) | ObjectEvent::Modified(s) => {
                match external_url(s) {
                    Some(u) => {
                        self.outcome = WaitOutcome::Ready(u);
                    },
                    None => {},
                }
            },
            ObjectEvent::Other => {},
        }
    }

    /// Tells the wait that `elapsed_secs` seconds have passed since it began.
    pub fn elapse(&mut self, elapsed_secs: u64)
        ensures
            final(self).name == old(self).name,
            final(self).deadline_secs == old(self).deadline_secs,
            final(self).outcome == after_elapsed(old(self).outcome, old(self).deadline_secs, elapsed_secs),
    {
        if matches!(self.outcome, WaitOutcome::Pending) && elapsed_secs >= self.deadline_secs {
            self.outcome = WaitOutcome::TimedOut;
        }
    }
}

/// A wait that sees only undecisive events stays pending, and once time is
/// told it times out exactly when the elapsed time reaches the deadline:
/// not before, and not later.
pub proof fn lemma_timeout_at_deadline(name: String, deadline: u64, evs: Seq<ObjectEvent<PodInfo>>, elapsed: u64)
    requires
        forall|i: int| 0 <= i < evs.len() ==> undecisive(#[trigger] evs[i]),
    ensures
        after_pod_events(WaitOutcome::Pending, name, evs) is Pending,
        after_elapsed(after_pod_events(WaitOutcome::Pending, name, evs), deadline, elapsed) is TimedOut
            <==> elapsed >= deadline,
        after_elapsed(after_pod_events(WaitOutcome::Pending, name, evs), deadline, elapsed) is Pending
            <==> elapsed < deadline,
    decreases evs.len(),
{
    if evs.len() > 0 {
        assert(undecisive(evs[0]));
        let rest = evs.drop_first();
        assert forall|i: int| 0 <= i < rest.len() implies undecisive(#[trigger] rest[i]) by {
            assert(rest[i] == evs[i + 1]);
        }
        lemma_timeout_at_deadline(name, deadline, rest, elapsed);
    }
}

} // verus!
