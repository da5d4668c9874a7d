//! The orchestrator that runs backends as jobs of a cluster scheduler.
//!
//! The cluster is reached by the caller. This module decides what is asked
//! of the cluster next, and what a report from the cluster leads to.

use crate::instance_host::{HostError, HostErrorView, Instance};
use vstd::prelude::*;
use vstd::string::*;

verus! {

/// The port that every cluster backend listens on.
pub const BACKEND_PORT: u16 = 8080;

/// How long a pod is given to start running, in seconds.
pub const READY_TIMEOUT_SECS: u64 = 15;

/// How often the pods of a job are listed before discovery gives up.
pub const MAX_DISCOVERY_ATTEMPTS: u32 = 32;

/// How long to wait before the pods are listed again, in milliseconds.
pub const DISCOVERY_PAUSE_MILLIS: u64 = 500;

/// A pod as a listing shows it.
pub struct PodSummary {
    /// The pod's name; empty where the listing gave none.
    pub name: String,
    /// Whether the pod is marked for deletion.
    pub terminating: bool,
}

/// A pod as a listing shows it, by its characters.
pub struct PodView {
    pub name: Seq<char>,
    pub terminating: bool,
}

impl View for PodSummary {
    type V = PodView;

    open spec fn view(&self) -> PodView {
        PodView { name: self.name@, terminating: self.terminating }
    }
}

/// The pods of a listing, each by its characters.
pub open spec fn pod_views(pods: Seq<PodSummary>) -> Seq<PodView> {
    Seq::new(pods.len(), |i: int| pods[i]@)
}

/// The name of the first pod of a listing that is not marked for deletion.
pub open spec fn first_live(pods: Seq<PodView>) -> Option<Seq<char>>
    decreases pods.len(),
{
    if pods.len() == 0 {
        None
    } else if !pods[0].terminating {
        Some(pods[0].name)
    } else {
        first_live(pods.drop_first())
    }
}

/// The label selector that finds the pods of `username`'s job.
pub open spec fn pod_selector(username: Seq<char>) -> Seq<char> {
    "job-name="@ + username
}

/// Where the provisioning of one backend stands: what the caller asks of
/// the cluster next, or how it ended.
pub enum Step {
    /// Submit the job with this name.
    CreateJob { name: String },
    /// List the pods that `selector` finds; `attempt` listings found none.
    ListPods { selector: String, attempt: u32 },
    /// Wait until `pod` runs, for `timeout_secs` seconds at most.
    AwaitRunning { pod: String, timeout_secs: u64 },
    /// Read the address of `pod`.
    ReadAddress { pod: String },
    /// The backend is reachable.
    Ready(Instance),
    /// Provisioning failed.
    Failed(HostError),
}

/// A step by its characters.
pub enum StepView {
    CreateJob { name: Seq<char> },
    ListPods { selector: Seq<char>, attempt: u32 },
    AwaitRunning { pod: Seq<char>, timeout_secs: u64 },
    ReadAddress { pod: Seq<char> },
    Ready { url: Seq<char>, port: u16 },
    Failed(HostErrorView),
}

impl View for Step {
    type V = StepView;

    open spec fn view(&self) -> StepView {
        match self {
            Step::CreateJob { name } => StepView::CreateJob { name: name@ },
            Step::ListPods { selector, attempt } => StepView::ListPods {
                selector: selector@,
                attempt: *attempt,
            },
            Step::AwaitRunning { pod, timeout_secs } => StepView::AwaitRunning {
                pod: pod@,
                timeout_secs: *timeout_secs,
            },
            Step::ReadAddress { pod } => StepView::ReadAddress { pod: pod@ },
            Step::Ready(instance) => StepView::Ready { url: instance.url@, port: instance.port },
            Step::Failed(e) => StepView::Failed(e@),
        }
    }
}

/// What the cluster answered to a step.
pub enum Report {
    /// The job was accepted.
    Submitted,
    /// The pods that the selector found.
    Listed(Vec<PodSummary>),
    /// The pod runs.
    Running,
    /// The pod did not run in time.
    TimedOut,
    /// The pod's address, where it has one.
    Address(Option<String>),
    /// The cluster refused or failed; the text says why.
    Failed(String),
}

/// A report by its characters.
pub enum ReportView {
    Submitted,
    Listed(Seq<PodView>),
    Running,
    TimedOut,
    Address(Option<Seq<char>>),
    Failed(Seq<char>),
}

impl View for Report {
    type V = ReportView;

    open spec fn view(&self) -> ReportView {
        match self {
            Report::Submitted => ReportView::Submitted,
            Report::Listed(pods) => ReportView::Listed(pod_views(pods@)),
            Report::Running => ReportView::Running,
            Report::TimedOut => ReportView::TimedOut,
            Report::Address(address) => ReportView::Address(
                match address {
                    Some(ip) => Some(ip@),
                    None => None,
                },
            ),
            Report::Failed(cause) => ReportView::Failed(cause@),
        }
    }
}

/// Whether a step is an end: nothing is asked of the cluster after it.
pub open spec fn is_final(step: StepView) -> bool {
    step is Ready || step is Failed
}

/// The failure that a report leads to where it does not answer the step.
pub open spec fn out_of_turn() -> StepView {
    StepView::Failed(HostErrorView::ProvisioningError("report out of turn"@))
}

/// The step that follows `step` once the cluster answered `report`.
///
/// A failure of the cluster ends provisioning with its cause. A listing
/// without a named pod that is not marked for deletion is tried again, up to
/// `MAX_DISCOVERY_ATTEMPTS` listings in all, and then ends in a timeout, as
/// does a pod that does not run in time. An end stays what it is.
pub open spec fn next_step(step: StepView, report: ReportView) -> StepView {
    if is_final(step) {
        step
    } else if let ReportView::Failed(cause) = report {
        StepView::Failed(HostErrorView::ProvisioningError(cause))
    } else {
        match (step, report) {
            (StepView::CreateJob { name }, ReportView::Submitted) => StepView::ListPods {
                selector: pod_selector(name),
                attempt: 0,
            },
            (StepView::ListPods { selector, attempt }, ReportView::Listed(pods)) => {
                let found = first_live(pods);
                if found is Some && found.unwrap().len() > 0 {
                    StepView::AwaitRunning { pod: found.unwrap(), timeout_secs: READY_TIMEOUT_SECS }
                } else if attempt + 1 < MAX_DISCOVERY_ATTEMPTS {
                    StepView::ListPods { selector, attempt: (attempt + 1) as u32 }
                } else {
                    StepView::Failed(HostErrorView::ProvisioningTimeout)
                }
            },
            (StepView::AwaitRunning { pod, timeout_secs }, ReportView::Running) => {
                StepView::ReadAddress { pod }
            },
            (StepView::AwaitRunning { pod, timeout_secs }, ReportView::TimedOut) => {
                StepView::Failed(HostErrorView::ProvisioningTimeout)
            },
            (StepView::ReadAddress { pod }, ReportView::Address(Some(ip))) => StepView::Ready {
                url: ip,
                port: BACKEND_PORT,
            },
            (StepView::ReadAddress { pod }, ReportView::Address(None)) => StepView::Failed(
                HostErrorView::ProvisioningError("pod has no address"@),
            ),
            _ => out_of_turn(),
        }
    }
}

/// The name of the first pod of a listing that is not marked for deletion.
pub fn pick_pod(pods: &Vec<PodSummary>) -> (found: Option<String>)
    ensures
        match found {
            Some(name) => first_live(pod_views(pods@)) == Some(name@),
            None => first_live(pod_views(pods@)) is None,
        },
{
    let mut i: usize = 0;
    assert(pod_views(pods@).skip(0) =~= pod_views(pods@));
    while i < pods.len()
        invariant
            i <= pods.len(),
            first_live(pod_views(pods@)) == first_live(pod_views(pods@).skip(i as int)),
        decreases pods.len() - i,
    {
        let ghost rest = pod_views(pods@).skip(i as int);
        assert(rest.len() > 0 && rest[0] == pods@[i as int]@);
        if !pods[i].terminating {
            return Some(pods[i].name.clone());
        }
        assert(rest.drop_first() =~= pod_views(pods@).skip(i + 1));
        i = i + 1;
    }
    assert(pod_views(pods@).skip(i as int).len() == 0);
    None
}

/// The job that runs one tenant's backend, as plain values.
pub struct JobManifest {
    pub api_version: String,
    pub kind: String,
    /// The job's name in the cluster.
    pub name: String,
    /// The name in the pod template.
    pub pod_name: String,
    pub container_name: String,
    pub image: String,
    pub args: Vec<String>,
    pub container_port: u16,
    pub env_name: String,
    pub env_value: String,
    pub restart_policy: String,
}

/// The arguments that the backend's container is started with.
pub open spec fn backend_args() -> Seq<Seq<char>> {
    seq![
        "main:app"@,
        "--port"@,
        "8080"@,
        "--host"@,
        "0.0.0.0"@,
        "--workers"@,
        "1"@,
    ]
}

/// The characters of each of `texts`.
pub open spec fn text_views(texts: Seq<String>) -> Seq<Seq<char>> {
    Seq::new(texts.len(), |i: int| texts[i]@)
}

/// The job for `username`: a single run of the backend image, named after
/// the tenant, that is never restarted.
pub fn job_manifest(username: &String) -> (job: JobManifest)
    ensures
        job.api_version@ == "batch/v1"@,
        job.kind@ == "Job"@,
        job.name@ == username@,
        job.pod_name@ == "instance-dynamic-pod"@,
        job.container_name@ == "scene-host"@,
        job.image@ == "ghcr.io/group-project-gut/lynx-scene-host-python:latest"@,
        text_views(job.args@) == backend_args(),
        job.container_port == BACKEND_PORT,
        job.env_name@ == "LYNX_SCENE_GENERATOR_URL"@,
        job.env_value@
            == "http://lynx-scene-generator-service.lynx-scene-generator:8080/get_scene"@,
        job.restart_policy@ == "Never"@,
{
    let mut args: Vec<String> = Vec::new();
    args.push("main:app".to_owned());
    args.push("--port".to_owned());
    args.push("8080".to_owned());
    args.push("--host".to_owned());
    args.push("0.0.0.0".to_owned());
    args.push("--workers".to_owned());
    args.push("1".to_owned());
    assert(text_views(args@) =~= backend_args());
    JobManifest {
        api_version: "batch/v1".to_owned(),
        kind: "Job".to_owned(),
        name: username.clone(),
        pod_name: "instance-dynamic-pod".to_owned(),
        container_name: "scene-host".to_owned(),
        image: "ghcr.io/group-project-gut/lynx-scene-host-python:latest".to_owned(),
        args,
        container_port: BACKEND_PORT,
        env_name: "LYNX_SCENE_GENERATOR_URL".to_owned(),
        env_value: "http://lynx-scene-generator-service.lynx-scene-generator:8080/get_scene".to_owned(),
        restart_policy: "Never".to_owned(),
    }
}

/// What the cluster answered to the deletion of a job.
pub enum DeleteReport {
    /// The deletion was accepted.
    Accepted,
    /// The cluster knows no such job.
    Missing,
    /// The cluster refused or failed; the text says why.
    Failed(String),
}

/// The deletion of a tenant's job. The cluster removes the job's pods on
/// its own, after it has accepted the deletion.
pub struct DeleteJob {
    /// The job's name in the cluster.
    pub name: String,
    /// Whether the pods are left to the cluster to remove.
    pub background: bool,
}

/// The orchestrator for backends that run as cluster jobs.
pub struct KubernetesHost {}

impl KubernetesHost {
    pub fn new() -> (host: KubernetesHost) {
        KubernetesHost {  }
    }

    /// Begins to provision a backend for `username`: the job is named
    /// after the tenant.
    pub fn start_instance(&self, username: String) -> (step: Step)
        ensures
            step@ == (StepView::CreateJob { name: username@ }),
    {
        Step::CreateJob { name: username }
    }

    /// Takes the cluster's answer to `step`.
    pub fn advance(&self, step: Step, report: Report) -> (next: Step)
        ensures
            next@ == next_step(step@, report@),
    {
        match step {
            Step::Ready(instance) => Step::Ready(instance),
            Step::Failed(e) => Step::Failed(e),
            Step::CreateJob { name } => match report {
                Report::Failed(cause) => Step::Failed(HostError::ProvisioningError(cause)),
                Report::Submitted => {
                    let selector = "job-name=".to_owned().concat(name.as_str());
                    Step::ListPods { selector, attempt: 0 }
                },
                _ => report_out_of_turn(),
            },
            Step::ListPods { selector, attempt } => match report {
                Report::Failed(cause) => Step::Failed(HostError::ProvisioningError(cause)),
                Report::Listed(pods) => {
                    let found = pick_pod(&pods);
                    match found {
                        Some(name) => {
                            if name.as_str().unicode_len() > 0 {
                                return Step::AwaitRunning {
                                    pod: name,
                                    timeout_secs: READY_TIMEOUT_SECS,
                                };
                            }
                        },
                        None => {},
                    }
                    if attempt < MAX_DISCOVERY_ATTEMPTS - 1 {
                        Step::ListPods { selector, attempt: attempt + 1 }
                    } else {
                        Step::Failed(HostError::ProvisioningTimeout)
                    }
                },
                _ => report_out_of_turn(),
            },
            Step::AwaitRunning { pod, timeout_secs } => match report {
                Report::Failed(cause) => Step::Failed(HostError::ProvisioningError(cause)),
                Report::Running => Step::ReadAddress { pod },
                Report::TimedOut => Step::Failed(HostError::ProvisioningTimeout),
                _ => report_out_of_turn(),
            },
            Step::ReadAddress { pod } => match report {
                Report::Failed(cause) => Step::Failed(HostError::ProvisioningError(cause)),
                Report::Address(Some(ip)) => Step::Ready(Instance::new(ip, BACKEND_PORT)),
                Report::Address(None) => Step::Failed(
                    HostError::ProvisioningError("pod has no address".to_owned()),
                ),
                _ => report_out_of_turn(),
            },
        }
    }

    /// The deletion that ends `username`'s backend.
    pub fn stop_instance(&self, username: String) -> (deletion: DeleteJob)
        ensures
            deletion.name@ == username@,
            deletion.background,
    {
        DeleteJob { name: username, background: true }
    }

    /// What the deletion of a job came to: a job that the cluster does not
    /// know is a tenant without a backend.
    pub fn deleted(&self, report: DeleteReport) -> (stopped: Result<(), HostError>)
        ensures
            match report {
                DeleteReport::Accepted => stopped is Ok,
                DeleteReport::Missing => stopped matches Err(e) && e is NotFound,
                DeleteReport::Failed(cause) => stopped matches Err(e) && e@
                    == HostErrorView::ProvisioningError(cause@),
            },
    {
        match report {
            DeleteReport::Accepted => Ok(()),
            DeleteReport::Missing => Err(HostError::NotFound),
            DeleteReport::Failed(cause) => Err(HostError::ProvisioningError(cause)),
        }
    }
}

/// The failure for a report that does not answer the step.
fn report_out_of_turn() -> (step: Step)
    ensures
        step@ == out_of_turn(),
{
    Step::Failed(HostError::ProvisioningError("report out of turn".to_owned()))
}

/// How many reports a step can still take, at most, before provisioning
/// has ended.
pub open spec fn remaining(step: StepView) -> nat {
    match step {
        StepView::CreateJob { name } => (MAX_DISCOVERY_ATTEMPTS + 3) as nat,
        StepView::ListPods { selector, attempt } => if attempt < MAX_DISCOVERY_ATTEMPTS {
            (MAX_DISCOVERY_ATTEMPTS - attempt + 2) as nat
        } else {
            3
        },
        StepView::AwaitRunning { pod, timeout_secs } => 2,
        StepView::ReadAddress { pod } => 1,
        StepView::Ready { url, port } => 0,
        StepView::Failed(e) => 0,
    }
}

/// The step that is reached from `step` once the cluster has given
/// `reports`, in this order.
pub open spec fn run(step: StepView, reports: Seq<ReportView>) -> StepView
    decreases reports.len(),
{
    if reports.len() == 0 {
        step
    } else {
        run(next_step(step, reports[0]), reports.drop_first())
    }
}

/// Provisioning cannot go on for ever: every report brings a step that is
/// not an end closer to one.
pub proof fn lemma_every_report_counts(step: StepView, report: ReportView)
    requires
        !is_final(step),
    ensures
        remaining(next_step(step, report)) < remaining(step),
{
}

/// Only an end has no report left to take.
pub proof fn lemma_end_takes_no_report(step: StepView)
    ensures
        is_final(step) <==> remaining(step) == 0,
{
}

/// After as many reports as a step can still take, provisioning has ended.
pub proof fn lemma_provisioning_ends(step: StepView, reports: Seq<ReportView>)
    requires
        reports.len() >= remaining(step),
    ensures
        is_final(run(step, reports)),
    decreases reports.len(),
{
    if reports.len() > 0 {
        if !is_final(step) {
            lemma_every_report_counts(step, reports[0]);
        }
        lemma_provisioning_ends(next_step(step, reports[0]), reports.drop_first());
    }
}

/// Whether a listing shows no named pod that is not marked for deletion.
pub open spec fn shows_no_pod(report: ReportView) -> bool {
    report matches ReportView::Listed(pods) && !(first_live(pods) matches Some(name) && name.len()
        > 0)
}

/// A backend whose pod never shows up ends in a timeout once the listings
/// are used up.
pub proof fn lemma_no_pod_times_out(selector: Seq<char>, attempt: u32, reports: Seq<ReportView>)
    requires
        attempt < MAX_DISCOVERY_ATTEMPTS,
        reports.len() == MAX_DISCOVERY_ATTEMPTS - attempt,
        forall|i: int| 0 <= i < reports.len() ==> shows_no_pod(#[trigger] reports[i]),
    ensures
        run(StepView::ListPods { selector, attempt }, reports) == StepView::Failed(
            HostErrorView::ProvisioningTimeout,
        ),
    decreases reports.len(),
{
    let step = StepView::ListPods { selector, attempt };
    let rest = reports.drop_first();
    assert(shows_no_pod(reports[0]));
    if attempt + 1 < MAX_DISCOVERY_ATTEMPTS {
        assert forall|i: int| 0 <= i < rest.len() implies shows_no_pod(#[trigger] rest[i]) by {
            assert(rest[i] == reports[i + 1]);
        }
        lemma_no_pod_times_out(selector, (attempt + 1) as u32, rest);
    } else {
        assert(rest.len() == 0);
        assert(run(next_step(step, reports[0]), rest) == next_step(step, reports[0]));
    }
}

/// A pod that does not run in time ends provisioning in a timeout.
pub proof fn lemma_unready_pod_times_out(pod: Seq<char>, timeout_secs: u64)
    ensures
        next_step(StepView::AwaitRunning { pod, timeout_secs }, ReportView::TimedOut)
            == StepView::Failed(HostErrorView::ProvisioningTimeout),
{
}

} // verus!
