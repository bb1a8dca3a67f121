//! The queue worker's decisions.
//!
//! The worker is a single consumer: it pops one payload at a time from the
//! backing store, decodes it, and drives the container runtime one call at
//! a time. `worker_step` decides what one pop result means; `job_begin` and
//! `job_next` form the per-job machine, from job and call outcomes to the
//! next runtime call and finally to a notification `(action, details)` on
//! success or an error on failure. A failed job produces no notification:
//! it is logged by the loop and otherwise silent.

use vstd::prelude::*;

use crate::codec::{dec_task, decode_payload, enc_task};
use crate::jobs::{expected_action, EnqueuedJob, Job, JobV, TaskV};
use crate::text::{dec_digits, push_dec, push_str, trim_slashes};

verus! {

// ---------------------------------------------------------------------------
// The pop decision.
// ---------------------------------------------------------------------------

/// What the backing store gave the worker on one iteration.
pub enum StoreEvent {
    /// Acquiring the store connection failed.
    ConnectFailed,
    /// The blocking pop timed out with nothing to do.
    PopTimeout,
    /// The pop handed a payload over; it is consumed either way.
    Popped(String),
}

/// What the worker does next.
pub enum WorkerStep {
    /// Wait a fixed delay, then try the store again.
    Backoff,
    /// Loop again immediately.
    Idle,
    /// The payload was malformed: drop it, publish nothing.
    Discard,
    /// Execute this job.
    Run(EnqueuedJob),
}

/// Decides one worker iteration: a lost connection backs off, a pop
/// timeout idles, a malformed payload is discarded without publication,
/// and only a well-formed payload runs its job.
pub fn worker_step(e: StoreEvent) -> (r: WorkerStep)
    ensures
        (e is ConnectFailed) ==> (r is Backoff),
        (e is PopTimeout) ==> (r is Idle),
        e matches StoreEvent::Popped(p) ==> match dec_task(p@) {
            Some(t) => r matches WorkerStep::Run(task) && task@ == t,
            None => r is Discard,
        },
{
    match e {
        StoreEvent::ConnectFailed => WorkerStep::Backoff,
        StoreEvent::PopTimeout => WorkerStep::Idle,
        StoreEvent::Popped(p) => match decode_payload(p.as_str()) {
            Some(task) => WorkerStep::Run(task),
            None => WorkerStep::Discard,
        },
    }
}

// ---------------------------------------------------------------------------
// The create plan: everything a RunImage creation hands the runtime.
// ---------------------------------------------------------------------------

/// The runtime options for creating a desktop container, as plain data.
pub struct CreatePlan {
    /// The container's name.
    pub name: String,
    /// The image to run.
    pub image: String,
    /// The host port bound to the container's SSH port (22/tcp), written
    /// in decimal.
    pub ssh_host_port: String,
    /// The environment: VNC password, resolution, default user and
    /// passwords.
    pub env: Vec<String>,
    /// Bind mounts; on a Linux host the host's local time is shared
    /// read-only.
    pub binds: Vec<String>,
    /// Reverse-proxy routing labels keyed by the container name.
    pub labels: Vec<(String, String)>,
    /// Whether the container runs privileged.
    pub privileged: bool,
    /// Whether to request every GPU device under the `nvidia` driver with
    /// the `gpu` capability.
    pub gpu_all_devices: bool,
}

/// Mathematical view of a create plan.
pub struct PlanV {
    pub name: Seq<char>,
    pub image: Seq<char>,
    pub ssh_host_port: Seq<char>,
    pub env: Seq<Seq<char>>,
    pub binds: Seq<Seq<char>>,
    pub labels: Seq<(Seq<char>, Seq<char>)>,
    pub privileged: bool,
    pub gpu_all_devices: bool,
}

impl View for CreatePlan {
    type V = PlanV;

    open spec fn view(&self) -> PlanV {
        PlanV {
            name: self.name@,
            image: self.image@,
            ssh_host_port: self.ssh_host_port@,
            env: self.env.deep_view(),
            binds: self.binds.deep_view(),
            labels: self.labels.deep_view(),
            privileged: self.privileged,
            gpu_all_devices: self.gpu_all_devices,
        }
    }
}

/// The environment a desktop container is created with.
pub open spec fn env_of(
    user: Seq<char>,
    password: Seq<char>,
    vnc_password: Seq<char>,
    root_password: Seq<char>,
) -> Seq<Seq<char>> {
    seq![
        "VNC_PW="@ + vnc_password,
        "VNC_RESOLUTION=1600x900"@,
        "DEFAULT_USER="@ + user,
        "DEFAULT_USER_PASSWORD="@ + password,
        "ROOT_PASSWORD="@ + root_password,
    ]
}

/// The bind mounts: the host's local time, shared read-only, on Linux.
pub open spec fn binds_of(host_is_linux: bool) -> Seq<Seq<char>> {
    if host_is_linux {
        seq!["/etc/localtime:/etc/localtime:ro"@]
    } else {
        Seq::empty()
    }
}

/// The reverse-proxy labels for a container named `name`: a path-prefix
/// routing rule under `/novnc/<name>/`, a strip-prefix middleware, and the
/// target port fixed at the VNC web port.
pub open spec fn labels_of(name: Seq<char>, network: Seq<char>) -> Seq<(Seq<char>, Seq<char>)> {
    seq![
        ("traefik.enable"@, "true"@),
        (
            "traefik.http.routers.d-gui-"@ + name + ".rule"@,
            "PathPrefix(`/novnc/"@ + name + "/`)"@,
        ),
        ("traefik.http.services.d-gui-"@ + name + ".loadbalancer.server.port"@, "6901"@),
        (
            "traefik.http.middlewares.d-gui-"@ + name + "-strip-prefix.stripprefix.prefixes"@,
            "/novnc/"@ + name + "/"@,
        ),
        (
            "traefik.http.routers.d-gui-"@ + name + ".middlewares"@,
            "d-gui-"@ + name + "-strip-prefix"@,
        ),
        ("traefik.docker.network"@, network),
    ]
}

/// Concatenates a fixed prefix, a value, and a fixed suffix.
fn affix(prefix: &str, value: &str, suffix: &str) -> (r: String)
    ensures
        r@ == prefix@ + value@ + suffix@,
{
    let mut out = String::new();
    push_str(prefix, &mut out);
    push_str(value, &mut out);
    push_str(suffix, &mut out);
    proof {
        assert(out@ =~= prefix@ + value@ + suffix@);
    }
    out
}

/// Builds the create options for a `RunImage` job: SSH port binding,
/// environment, optional local-time bind mount, routing labels, and the
/// optional GPU request, exactly as stated by `env_of`, `binds_of` and
/// `labels_of`.
pub fn build_create_plan(
    image_name: &str,
    ssh_port: u16,
    name: &str,
    user: &str,
    password: &str,
    vnc_password: &str,
    root_password: &str,
    privileged: bool,
    nvdocker: bool,
    docker_network: &str,
    host_is_linux: bool,
) -> (r: CreatePlan)
    ensures
        r@.name == name@,
        r@.image == image_name@,
        r@.ssh_host_port == dec_digits(ssh_port as nat),
        r@.env == env_of(user@, password@, vnc_password@, root_password@),
        r@.binds == binds_of(host_is_linux),
        r@.labels == labels_of(name@, docker_network@),
        r@.privileged == privileged,
        r@.gpu_all_devices == nvdocker,
{
    let mut port = String::new();
    push_dec(ssh_port as u64, &mut port);
    proof {
        assert(port@ =~= dec_digits(ssh_port as nat));
    }
    let mut env: Vec<String> = Vec::new();
    env.push(affix("VNC_PW=", vnc_password, ""));
    env.push(String::from_str("VNC_RESOLUTION=1600x900"));
    env.push(affix("DEFAULT_USER=", user, ""));
    env.push(affix("DEFAULT_USER_PASSWORD=", password, ""));
    env.push(affix("ROOT_PASSWORD=", root_password, ""));
    proof {
        assert forall|s: Seq<char>| s + ""@ =~= s by {
            reveal_strlit("");
        }
        assert(env.deep_view() =~= env_of(user@, password@, vnc_password@, root_password@));
    }
    let mut binds: Vec<String> = Vec::new();
    if host_is_linux {
        binds.push(String::from_str("/etc/localtime:/etc/localtime:ro"));
    }
    proof {
        assert(binds.deep_view() =~= binds_of(host_is_linux));
    }
    let mut labels: Vec<(String, String)> = Vec::new();
    labels.push((String::from_str("traefik.enable"), String::from_str("true")));
    labels.push(
        (
            affix("traefik.http.routers.d-gui-", name, ".rule"),
            affix("PathPrefix(`/novnc/", name, "/`)"),
        ),
    );
    labels.push(
        (
            affix("traefik.http.services.d-gui-", name, ".loadbalancer.server.port"),
            String::from_str("6901"),
        ),
    );
    labels.push(
        (
            affix("traefik.http.middlewares.d-gui-", name, "-strip-prefix.stripprefix.prefixes"),
            affix("/novnc/", name, "/"),
        ),
    );
    labels.push(
        (
            affix("traefik.http.routers.d-gui-", name, ".middlewares"),
            affix("d-gui-", name, "-strip-prefix"),
        ),
    );
    labels.push((String::from_str("traefik.docker.network"), docker_network.to_owned()));
    proof {
        assert(labels.deep_view() =~= labels_of(name@, docker_network@));
    }
    CreatePlan {
        name: name.to_owned(),
        image: image_name.to_owned(),
        ssh_host_port: port,
        env,
        binds,
        labels,
        privileged,
        gpu_all_devices: nvdocker,
    }
}

// ---------------------------------------------------------------------------
// The per-job machine: one runtime call at a time.
// ---------------------------------------------------------------------------

/// One call to the container runtime.
pub enum RuntimeCall {
    /// Create a container from the plan; answers `Created` with its id.
    Create { plan: CreatePlan },
    /// Start the container; answers `Done`.
    Start { id: String },
    /// Stop the container; answers `Done`.
    Stop { id: String },
    /// Remove the container; answers `Done`.
    Remove { id: String },
    /// Restart the container; answers `Done`.
    Restart { id: String },
    /// Inspect the container; answers `Inspected` with its name, if known.
    Inspect { id: String },
    /// Join the container to the named network; answers `Done`.
    JoinNetwork { id: String, network: String },
}

/// Mathematical view of a runtime call.
pub enum RuntimeCallV {
    Create { plan: PlanV },
    Start { id: Seq<char> },
    Stop { id: Seq<char> },
    Remove { id: Seq<char> },
    Restart { id: Seq<char> },
    Inspect { id: Seq<char> },
    JoinNetwork { id: Seq<char>, network: Seq<char> },
}

impl View for RuntimeCall {
    type V = RuntimeCallV;

    open spec fn view(&self) -> RuntimeCallV {
        match self {
            RuntimeCall::Create { plan } => RuntimeCallV::Create { plan: plan@ },
            RuntimeCall::Start { id } => RuntimeCallV::Start { id: id@ },
            RuntimeCall::Stop { id } => RuntimeCallV::Stop { id: id@ },
            RuntimeCall::Remove { id } => RuntimeCallV::Remove { id: id@ },
            RuntimeCall::Restart { id } => RuntimeCallV::Restart { id: id@ },
            RuntimeCall::Inspect { id } => RuntimeCallV::Inspect { id: id@ },
            RuntimeCall::JoinNetwork { id, network } => RuntimeCallV::JoinNetwork {
                id: id@,
                network: network@,
            },
        }
    }
}

/// How one runtime call went.
pub enum CallOutcome {
    /// Success without a payload.
    Done,
    /// A creation succeeded and produced this container id.
    Created { id: String },
    /// An inspection succeeded; the container's name, if the runtime
    /// reported one.
    Inspected { name: Option<String> },
    /// The call failed with this message.
    Failed { error: String },
}

/// Mathematical view of a call outcome.
pub enum CallOutcomeV {
    Done,
    Created { id: Seq<char> },
    Inspected { name: Option<Seq<char>> },
    Failed { error: Seq<char> },
}

impl View for CallOutcome {
    type V = CallOutcomeV;

    open spec fn view(&self) -> CallOutcomeV {
        match self {
            CallOutcome::Done => CallOutcomeV::Done,
            CallOutcome::Created { id } => CallOutcomeV::Created { id: id@ },
            CallOutcome::Inspected { name } => CallOutcomeV::Inspected {
                name: crate::console::opt_view(*name),
            },
            CallOutcome::Failed { error } => CallOutcomeV::Failed { error: error@ },
        }
    }
}

/// A start / stop / restart control operation.
#[derive(Clone, Copy, PartialEq, Eq, Structural)]
pub enum CtlOp {
    Start,
    Stop,
    Restart,
}

/// A job in flight: which answer it is waiting for, and what it still
/// needs to remember.
pub enum JobExec {
    /// RunImage: waiting for the creation.
    Creating { name: String, image: String, network: String },
    /// RunImage: created; waiting for the start.
    Starting { name: String, image: String, network: String, id: String },
    /// RunImage: started; waiting for the network join, whose failure
    /// does not fail the job (the container is already running).
    Joining { name: String, image: String },
    /// Start/Stop/Restart: waiting for the operation itself.
    Acting { op: CtlOp, id: String },
    /// Start/Stop/Restart: done; waiting for the inspection that names
    /// the container (it still exists to inspect).
    InspectingAfter { op: CtlOp, id: String },
    /// Remove: waiting for the inspection that must come first (the id
    /// ceases to be inspectable after removal).
    InspectingBefore { id: String },
    /// Remove: name resolved; waiting for the removal.
    Removing { name: String },
}

/// Mathematical view of a job in flight.
pub enum JobExecV {
    Creating { name: Seq<char>, image: Seq<char>, network: Seq<char> },
    Starting { name: Seq<char>, image: Seq<char>, network: Seq<char>, id: Seq<char> },
    Joining { name: Seq<char>, image: Seq<char> },
    Acting { op: CtlOp, id: Seq<char> },
    InspectingAfter { op: CtlOp, id: Seq<char> },
    InspectingBefore { id: Seq<char> },
    Removing { name: Seq<char> },
}

impl View for JobExec {
    type V = JobExecV;

    open spec fn view(&self) -> JobExecV {
        match self {
            JobExec::Creating { name, image, network } => JobExecV::Creating {
                name: name@,
                image: image@,
                network: network@,
            },
            JobExec::Starting { name, image, network, id } => JobExecV::Starting {
                name: name@,
                image: image@,
                network: network@,
                id: id@,
            },
            JobExec::Joining { name, image } => JobExecV::Joining { name: name@, image: image@ },
            JobExec::Acting { op, id } => JobExecV::Acting { op: *op, id: id@ },
            JobExec::InspectingAfter { op, id } => JobExecV::InspectingAfter {
                op: *op,
                id: id@,
            },
            JobExec::InspectingBefore { id } => JobExecV::InspectingBefore { id: id@ },
            JobExec::Removing { name } => JobExecV::Removing { name: name@ },
        }
    }
}

/// What the machine says after an answer: another call, a finished job
/// with its notification, or a failure (logged, never published).
pub enum JobStep {
    Next { state: JobExec, call: RuntimeCall },
    Finished { action: String, details: String },
    Failed { error: String },
}

/// Mathematical view of a machine step.
pub enum JobStepV {
    Next { state: JobExecV, call: RuntimeCallV },
    Finished { action: Seq<char>, details: Seq<char> },
    Failed { error: Seq<char> },
}

impl View for JobStep {
    type V = JobStepV;

    open spec fn view(&self) -> JobStepV {
        match self {
            JobStep::Next { state, call } => JobStepV::Next { state: state@, call: call@ },
            JobStep::Finished { action, details } => JobStepV::Finished {
                action: action@,
                details: details@,
            },
            JobStep::Failed { error } => JobStepV::Failed { error: error@ },
        }
    }
}

/// The notification action a control operation produces.
pub open spec fn action_of(op: CtlOp) -> Seq<char> {
    match op {
        CtlOp::Start => "STARTED"@,
        CtlOp::Stop => "STOPPED"@,
        CtlOp::Restart => "RESTARTED"@,
    }
}

/// The past participle a control operation's details use.
pub open spec fn op_word(op: CtlOp) -> Seq<char> {
    match op {
        CtlOp::Start => "started"@,
        CtlOp::Stop => "stopped"@,
        CtlOp::Restart => "restarted"@,
    }
}

/// The display name of a container: the inspected name with leading
/// slashes removed, or the id when no name was reported.
pub open spec fn display_name(name: Option<Seq<char>>, id: Seq<char>) -> Seq<char> {
    match name {
        Some(n) => trim_slashes(n),
        None => trim_slashes(id),
    }
}

/// The details of a successful creation.
pub open spec fn created_details(name: Seq<char>, image: Seq<char>) -> Seq<char> {
    "Container ["@ + name + "] ("@ + image + ") has been created"@
}

/// The details of a successful control operation.
pub open spec fn op_details(op: CtlOp, name: Seq<char>) -> Seq<char> {
    "Container ["@ + name + "] has been "@ + op_word(op)
}

/// The details of a successful removal.
pub open spec fn removed_details(name: Seq<char>) -> Seq<char> {
    "Container ["@ + name + "] has been removed"@
}

/// The message a mismatched runtime answer produces.
pub open spec fn mismatch_error() -> Seq<char> {
    "unexpected runtime answer"@
}

/// The first call of a job, and the state that waits for its answer.
pub open spec fn job_begin_v(job: JobV, host_is_linux: bool) -> (JobExecV, RuntimeCallV) {
    match job {
        JobV::RunImage {
            image_name,
            ssh_port,
            name,
            user,
            password,
            vnc_password,
            root_password,
            privileged,
            nvdocker,
            docker_network,
        } => (
            JobExecV::Creating { name, image: image_name, network: docker_network },
            RuntimeCallV::Create {
                plan: PlanV {
                    name,
                    image: image_name,
                    ssh_host_port: dec_digits(ssh_port as nat),
                    env: env_of(user, password, vnc_password, root_password),
                    binds: binds_of(host_is_linux),
                    labels: labels_of(name, docker_network),
                    privileged,
                    gpu_all_devices: nvdocker,
                },
            },
        ),
        JobV::StartContainer { id } => (
            JobExecV::Acting { op: CtlOp::Start, id },
            RuntimeCallV::Start { id },
        ),
        JobV::StopContainer { id } => (
            JobExecV::Acting { op: CtlOp::Stop, id },
            RuntimeCallV::Stop { id },
        ),
        JobV::RemoveContainer { id } => (
            JobExecV::InspectingBefore { id },
            RuntimeCallV::Inspect { id },
        ),
        JobV::RestartContainer { id } => (
            JobExecV::Acting { op: CtlOp::Restart, id },
            RuntimeCallV::Restart { id },
        ),
    }
}

/// One step of a job: what the answer to the pending call means.
/// A mismatched answer (one the pending call cannot produce) fails the
/// job. A network-join failure alone does not: the container already
/// runs, so the job still finishes as created.
pub open spec fn job_next_v(st: JobExecV, outcome: CallOutcomeV) -> JobStepV {
    match st {
        JobExecV::Creating { name, image, network } => match outcome {
            CallOutcomeV::Created { id } => JobStepV::Next {
                state: JobExecV::Starting { name, image, network, id },
                call: RuntimeCallV::Start { id },
            },
            CallOutcomeV::Failed { error } => JobStepV::Failed { error },
            _ => JobStepV::Failed { error: mismatch_error() },
        },
        JobExecV::Starting { name, image, network, id } => match outcome {
            CallOutcomeV::Done => JobStepV::Next {
                state: JobExecV::Joining { name, image },
                call: RuntimeCallV::JoinNetwork { id, network },
            },
            CallOutcomeV::Failed { error } => JobStepV::Failed { error },
            _ => JobStepV::Failed { error: mismatch_error() },
        },
        JobExecV::Joining { name, image } => JobStepV::Finished {
            action: "CREATED"@,
            details: created_details(name, image),
        },
        JobExecV::Acting { op, id } => match outcome {
            CallOutcomeV::Done => JobStepV::Next {
                state: JobExecV::InspectingAfter { op, id },
                call: RuntimeCallV::Inspect { id },
            },
            CallOutcomeV::Failed { error } => JobStepV::Failed { error },
            _ => JobStepV::Failed { error: mismatch_error() },
        },
        JobExecV::InspectingAfter { op, id } => match outcome {
            CallOutcomeV::Inspected { name } => JobStepV::Finished {
                action: action_of(op),
                details: op_details(op, display_name(name, id)),
            },
            CallOutcomeV::Failed { error } => JobStepV::Failed { error },
            _ => JobStepV::Failed { error: mismatch_error() },
        },
        JobExecV::InspectingBefore { id } => match outcome {
            CallOutcomeV::Inspected { name } => JobStepV::Next {
                state: JobExecV::Removing { name: display_name(name, id) },
                call: RuntimeCallV::Remove { id },
            },
            CallOutcomeV::Failed { error } => JobStepV::Failed { error },
            _ => JobStepV::Failed { error: mismatch_error() },
        },
        JobExecV::Removing { name } => match outcome {
            CallOutcomeV::Done => JobStepV::Finished {
                action: "REMOVED"@,
                details: removed_details(name),
            },
            CallOutcomeV::Failed { error } => JobStepV::Failed { error },
            _ => JobStepV::Failed { error: mismatch_error() },
        },
    }
}

/// The display name of a container, as executed.
fn display_name_exec(name: Option<String>, id: &str) -> (r: String)
    ensures
        r@ == display_name(crate::console::opt_view(name), id@),
{
    match name {
        Some(n) => crate::text::trim_leading_slashes(n.as_str()),
        None => crate::text::trim_leading_slashes(id),
    }
}

/// Begins a job: its first runtime call, and the state that waits for the
/// answer, exactly as `job_begin_v` says.
pub fn job_begin(job: Job, host_is_linux: bool) -> (r: (JobExec, RuntimeCall))
    ensures
        r.0@ == job_begin_v(job@, host_is_linux).0,
        r.1@ == job_begin_v(job@, host_is_linux).1,
{
    match job {
        Job::RunImage {
            image_name,
            ssh_port,
            name,
            user,
            password,
            vnc_password,
            root_password,
            privileged,
            nvdocker,
            docker_network,
        } => {
            let plan = build_create_plan(
                image_name.as_str(),
                ssh_port,
                name.as_str(),
                user.as_str(),
                password.as_str(),
                vnc_password.as_str(),
                root_password.as_str(),
                privileged,
                nvdocker,
                docker_network.as_str(),
                host_is_linux,
            );
            (
                JobExec::Creating { name, image: image_name, network: docker_network },
                RuntimeCall::Create { plan },
            )
        },
        Job::StartContainer { id } => {
            let call = RuntimeCall::Start { id: id.clone() };
            (JobExec::Acting { op: CtlOp::Start, id }, call)
        },
        Job::StopContainer { id } => {
            let call = RuntimeCall::Stop { id: id.clone() };
            (JobExec::Acting { op: CtlOp::Stop, id }, call)
        },
        Job::RemoveContainer { id } => {
            let call = RuntimeCall::Inspect { id: id.clone() };
            (JobExec::InspectingBefore { id }, call)
        },
        Job::RestartContainer { id } => {
            let call = RuntimeCall::Restart { id: id.clone() };
            (JobExec::Acting { op: CtlOp::Restart, id }, call)
        },
    }
}

/// Advances a job by one answered call, exactly as `job_next_v` says.
pub fn job_next(st: JobExec, outcome: CallOutcome) -> (r: JobStep)
    ensures
        r@ == job_next_v(st@, outcome@),
{
    match st {
        JobExec::Creating { name, image, network } => match outcome {
            CallOutcome::Created { id } => {
                let call = RuntimeCall::Start { id: id.clone() };
                JobStep::Next { state: JobExec::Starting { name, image, network, id }, call }
            },
            CallOutcome::Failed { error } => JobStep::Failed { error },
            _ => JobStep::Failed { error: String::from_str("unexpected runtime answer") },
        },
        JobExec::Starting { name, image, network, id } => match outcome {
            CallOutcome::Done => JobStep::Next {
                state: JobExec::Joining { name, image },
                call: RuntimeCall::JoinNetwork { id, network },
            },
            CallOutcome::Failed { error } => JobStep::Failed { error },
            _ => JobStep::Failed { error: String::from_str("unexpected runtime answer") },
        },
        JobExec::Joining { name, image } => {
            let details = created_details_exec(name.as_str(), image.as_str());
            JobStep::Finished { action: String::from_str("CREATED"), details }
        },
        JobExec::Acting { op, id } => match outcome {
            CallOutcome::Done => {
                let call = RuntimeCall::Inspect { id: id.clone() };
                JobStep::Next { state: JobExec::InspectingAfter { op, id }, call }
            },
            CallOutcome::Failed { error } => JobStep::Failed { error },
            _ => JobStep::Failed { error: String::from_str("unexpected runtime answer") },
        },
        JobExec::InspectingAfter { op, id } => match outcome {
            CallOutcome::Inspected { name } => {
                let shown = display_name_exec(name, id.as_str());
                let details = match op {
                    CtlOp::Start => affix("Container [", shown.as_str(), "] has been started"),
                    CtlOp::Stop => affix("Container [", shown.as_str(), "] has been stopped"),
                    CtlOp::Restart => affix(
                        "Container [",
                        shown.as_str(),
                        "] has been restarted",
                    ),
                };
                let action = match op {
                    CtlOp::Start => String::from_str("STARTED"),
                    CtlOp::Stop => String::from_str("STOPPED"),
                    CtlOp::Restart => String::from_str("RESTARTED"),
                };
                proof {
                    lemma_op_details(op, shown@);
                }
                JobStep::Finished { action, details }
            },
            CallOutcome::Failed { error } => JobStep::Failed { error },
            _ => JobStep::Failed { error: String::from_str("unexpected runtime answer") },
        },
        JobExec::InspectingBefore { id } => match outcome {
            CallOutcome::Inspected { name } => {
                let shown = display_name_exec(name, id.as_str());
                let call = RuntimeCall::Remove { id };
                JobStep::Next { state: JobExec::Removing { name: shown }, call }
            },
            CallOutcome::Failed { error } => JobStep::Failed { error },
            _ => JobStep::Failed { error: String::from_str("unexpected runtime answer") },
        },
        JobExec::Removing { name } => match outcome {
            CallOutcome::Done => {
                let details = affix("Container [", name.as_str(), "] has been removed");
                JobStep::Finished { action: String::from_str("REMOVED"), details }
            },
            CallOutcome::Failed { error } => JobStep::Failed { error },
            _ => JobStep::Failed { error: String::from_str("unexpected runtime answer") },
        },
    }
}

/// Builds the details of a successful creation.
fn created_details_exec(name: &str, image: &str) -> (r: String)
    ensures
        r@ == created_details(name@, image@),
{
    let mut out = String::new();
    push_str("Container [", &mut out);
    push_str(name, &mut out);
    push_str("] (", &mut out);
    push_str(image, &mut out);
    push_str(") has been created", &mut out);
    proof {
        assert(out@ =~= created_details(name@, image@));
    }
    out
}

proof fn lemma_op_details(op: CtlOp, name: Seq<char>)
    ensures
        op == CtlOp::Start ==> "Container ["@ + name + "] has been started"@ == op_details(
            op,
            name,
        ),
        op == CtlOp::Stop ==> "Container ["@ + name + "] has been stopped"@ == op_details(
            op,
            name,
        ),
        op == CtlOp::Restart ==> "Container ["@ + name + "] has been restarted"@ == op_details(
            op,
            name,
        ),
{
    reveal_strlit("] has been started");
    reveal_strlit("] has been stopped");
    reveal_strlit("] has been restarted");
    reveal_strlit("] has been ");
    reveal_strlit("started");
    reveal_strlit("stopped");
    reveal_strlit("restarted");
    assert("] has been started"@ =~= "] has been "@ + "started"@);
    assert("] has been stopped"@ =~= "] has been "@ + "stopped"@);
    assert("] has been restarted"@ =~= "] has been "@ + "restarted"@);
    assert(("Container ["@ + name + "] has been "@) + op_word(op) =~= "Container ["@ + name + (
    "] has been "@ + op_word(op)));
}

// ---------------------------------------------------------------------------
// Laws of a whole job run.
// ---------------------------------------------------------------------------

/// The terminal result of a job driven by a sequence of call answers:
/// the notification `(action, details)` on success, the error on failure,
/// or nothing if the answers ran out first.
pub open spec fn job_run_v(st: JobExecV, outcomes: Seq<CallOutcomeV>) -> Option<
    Result<(Seq<char>, Seq<char>), Seq<char>>,
>
    decreases outcomes.len(),
{
    if outcomes.len() == 0 {
        None
    } else {
        match job_next_v(st, outcomes[0]) {
            JobStepV::Next { state, call } => job_run_v(state, outcomes.skip(1)),
            JobStepV::Finished { action, details } => Some(Ok((action, details))),
            JobStepV::Failed { error } => Some(Err(error)),
        }
    }
}

/// The action a state will announce if its job finishes.
pub open spec fn state_action(st: JobExecV) -> Seq<char> {
    match st {
        JobExecV::Creating { .. } => "CREATED"@,
        JobExecV::Starting { .. } => "CREATED"@,
        JobExecV::Joining { .. } => "CREATED"@,
        JobExecV::Acting { op, .. } => action_of(op),
        JobExecV::InspectingAfter { op, .. } => action_of(op),
        JobExecV::InspectingBefore { .. } => "REMOVED"@,
        JobExecV::Removing { .. } => "REMOVED"@,
    }
}

proof fn lemma_job_run_action(st: JobExecV, outcomes: Seq<CallOutcomeV>)
    ensures
        match job_run_v(st, outcomes) {
            Some(res) => match res {
                Ok(fin) => fin.0 == state_action(st),
                Err(e) => true,
            },
            None => true,
        },
    decreases outcomes.len(),
{
    if outcomes.len() == 0 {
    } else {
        match job_next_v(st, outcomes[0]) {
            JobStepV::Next { state, call } => {
                assert(state_action(state) == state_action(st));
                lemma_job_run_action(state, outcomes.skip(1));
            },
            JobStepV::Finished { action, details } => {},
            JobStepV::Failed { error } => {},
        }
    }
}

/// One enqueue followed by one pop-and-execute yields exactly one of: a
/// notification whose action is the one the job calls for, or a silent
/// failure. The popped payload decodes to the very task that was
/// enqueued, and the run has a single terminal result — never both
/// outcomes, never a duplicate.
pub proof fn lemma_enqueue_pop_execute(
    t: TaskV,
    host_is_linux: bool,
    outcomes: Seq<CallOutcomeV>,
)
    ensures
        dec_task(enc_task(t)) == Some(t),
        match job_run_v(job_begin_v(t.job, host_is_linux).0, outcomes) {
            Some(res) => match res {
                Ok(fin) => fin.0 == expected_action(t.job),
                Err(e) => true,
            },
            None => true,
        },
{
    crate::codec::lemma_dec_enc_task(t);
    let st0 = job_begin_v(t.job, host_is_linux).0;
    assert(state_action(st0) == expected_action(t.job));
    lemma_job_run_action(st0, outcomes);
}

} // verus!
