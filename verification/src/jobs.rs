//! Lifecycle jobs: the closed set of container operations that the task
//! queue carries, their mathematical views, task-id generation, and the
//! mapping from control commands to jobs.

use vstd::prelude::*;

use crate::text::{hex_digits, push_hex};

verus! {

/// A single queued operation: create-and-run an image, or start / stop /
/// remove / restart an existing container.
#[derive(Clone)]
pub enum Job {
    RunImage {
        image_name: String,
        ssh_port: u16,
        name: String,
        user: String,
        password: String,
        vnc_password: String,
        root_password: String,
        privileged: bool,
        nvdocker: bool,
        docker_network: String,
    },
    StartContainer { id: String },
    StopContainer { id: String },
    RemoveContainer { id: String },
    RestartContainer { id: String },
}

/// Mathematical view of a `Job`: the same variants over character sequences.
pub enum JobV {
    RunImage {
        image_name: Seq<char>,
        ssh_port: u16,
        name: Seq<char>,
        user: Seq<char>,
        password: Seq<char>,
        vnc_password: Seq<char>,
        root_password: Seq<char>,
        privileged: bool,
        nvdocker: bool,
        docker_network: Seq<char>,
    },
    StartContainer { id: Seq<char> },
    StopContainer { id: Seq<char> },
    RemoveContainer { id: Seq<char> },
    RestartContainer { id: Seq<char> },
}

impl View for Job {
    type V = JobV;

    open spec fn view(&self) -> JobV {
        match self {
            Job::RunImage {
                image_name,
                ssh_port,
                name,
                user,
                password,
                vnc_password,
                root_password,
                privileged,
                nvdocker,
                docker_network,
            } => JobV::RunImage {
                image_name: image_name@,
                ssh_port: *ssh_port,
                name: name@,
                user: user@,
                password: password@,
                vnc_password: vnc_password@,
                root_password: root_password@,
                privileged: *privileged,
                nvdocker: *nvdocker,
                docker_network: docker_network@,
            },
            Job::StartContainer { id } => JobV::StartContainer { id: id@ },
            Job::StopContainer { id } => JobV::StopContainer { id: id@ },
            Job::RemoveContainer { id } => JobV::RemoveContainer { id: id@ },
            Job::RestartContainer { id } => JobV::RestartContainer { id: id@ },
        }
    }
}

/// A job together with the advisory task id handed back at enqueue time.
pub struct EnqueuedJob {
    pub task_id: String,
    pub job: Job,
}

/// Mathematical view of an `EnqueuedJob`.
pub struct TaskV {
    pub task_id: Seq<char>,
    pub job: JobV,
}

impl View for EnqueuedJob {
    type V = TaskV;

    open spec fn view(&self) -> TaskV {
        TaskV { task_id: self.task_id@, job: self.job@ }
    }
}

/// The notification action that a successful execution of `j` publishes.
pub open spec fn expected_action(j: JobV) -> Seq<char> {
    match j {
        JobV::RunImage { .. } => "CREATED"@,
        JobV::StartContainer { .. } => "STARTED"@,
        JobV::StopContainer { .. } => "STOPPED"@,
        JobV::RemoveContainer { .. } => "REMOVED"@,
        JobV::RestartContainer { .. } => "RESTARTED"@,
    }
}

/// A task id for the given enqueue instant (nanoseconds since the Unix
/// epoch): its lower-case hexadecimal representation.
pub fn new_task_id(now_nanos: u128) -> (r: String)
    ensures
        r@ == hex_digits(now_nanos as nat),
{
    let mut out = String::new();
    push_hex(now_nanos, &mut out);
    out
}

/// The job that a control command names, if any: `start`, `stop`, `remove`
/// and `restart` map to the matching variant over `id`; anything else is
/// refused.
pub fn job_for_cmd(cmd: &str, id: &str) -> (r: Option<Job>)
    ensures
        cmd@ == "start"@ ==> (r matches Some(j) && j@ == (JobV::StartContainer { id: id@ })),
        cmd@ == "stop"@ ==> (r matches Some(j) && j@ == (JobV::StopContainer { id: id@ })),
        cmd@ == "remove"@ ==> (r matches Some(j) && j@ == (JobV::RemoveContainer { id: id@ })),
        cmd@ == "restart"@ ==> (r matches Some(j) && j@ == (JobV::RestartContainer {
            id: id@,
        })),
        cmd@ != "start"@ && cmd@ != "stop"@ && cmd@ != "remove"@ && cmd@ != "restart"@
            ==> r is None,
{
    proof {
        reveal_strlit("start");
        reveal_strlit("stop");
        reveal_strlit("remove");
        reveal_strlit("restart");
        assert("start"@.len() == 5 && "stop"@.len() == 4 && "remove"@.len() == 6
            && "restart"@.len() == 7);
    }
    let owned = cmd.to_owned();
    if owned == String::from_str("start") {
        Some(Job::StartContainer { id: id.to_owned() })
    } else if owned == String::from_str("stop") {
        Some(Job::StopContainer { id: id.to_owned() })
    } else if owned == String::from_str("remove") {
        Some(Job::RemoveContainer { id: id.to_owned() })
    } else if owned == String::from_str("restart") {
        Some(Job::RestartContainer { id: id.to_owned() })
    } else {
        None
    }
}

} // verus!
