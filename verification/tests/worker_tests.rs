use dev_dock_manager_api::api::{default_count, validate_run_request, RunValidation};
use dev_dock_manager_api::codec::{encode_payload, notification_message};
use dev_dock_manager_api::containers::{
    console_meta, container_info, join_words, matching_tags, parse_ports, port_in_bindings,
    str_contains, InspectFacts,
};
use dev_dock_manager_api::jobs::{EnqueuedJob, Job};
use dev_dock_manager_api::jwt::{make_access_claims, make_refresh_claims};
use dev_dock_manager_api::sqlite_absolute_path;
use dev_dock_manager_api::users::{User, UserRow};
use dev_dock_manager_api::worker::{
    build_create_plan, job_begin, job_next, worker_step, CallOutcome, JobStep, RuntimeCall,
    StoreEvent, WorkerStep,
};

fn drive(job: Job, outcomes: Vec<CallOutcome>) -> JobStep {
    let (mut state, _first_call) = job_begin(job, true);
    let mut outcomes = outcomes.into_iter();
    loop {
        let outcome = outcomes.next().expect("machine asked for more answers");
        match job_next(state, outcome) {
            JobStep::Next { state: s, call: _ } => state = s,
            done => return done,
        }
    }
}

#[test]
fn run_image_success_publishes_created() {
    // End to end: enqueue, pop, decode, execute against answers that all
    // succeed, publish.
    let t = EnqueuedJob {
        task_id: "1f".to_string(),
        job: Job::RunImage {
            image_name: "gui-vnc".to_string(),
            ssh_port: 2222,
            name: "ab".to_string(),
            user: "u".to_string(),
            password: "p".to_string(),
            vnc_password: "v".to_string(),
            root_password: "r".to_string(),
            privileged: false,
            nvdocker: false,
            docker_network: "net".to_string(),
        },
    };
    let payload = encode_payload(&t);
    let task = match worker_step(StoreEvent::Popped(payload)) {
        WorkerStep::Run(task) => task,
        _ => panic!("a well-formed payload must run"),
    };
    let fin = drive(
        task.job,
        vec![
            CallOutcome::Created { id: "cid".to_string() },
            CallOutcome::Done,
            CallOutcome::Done,
        ],
    );
    match fin {
        JobStep::Finished { action, details } => {
            assert_eq!(action, "CREATED");
            assert_eq!(details, "Container [ab] (gui-vnc) has been created");
            let msg = notification_message(&action, &details);
            assert_eq!(
                msg,
                "{\"message\":{\"action\":\"CREATED\",\
                 \"details\":\"Container [ab] (gui-vnc) has been created\"}}"
            );
        }
        _ => panic!("expected success"),
    }
}

#[test]
fn run_image_survives_a_network_join_failure() {
    let job = Job::RunImage {
        image_name: "gui-vnc".to_string(),
        ssh_port: 2222,
        name: "ab".to_string(),
        user: "u".to_string(),
        password: "p".to_string(),
        vnc_password: "v".to_string(),
        root_password: "r".to_string(),
        privileged: false,
        nvdocker: false,
        docker_network: "net".to_string(),
    };
    let fin = drive(
        job,
        vec![
            CallOutcome::Created { id: "cid".to_string() },
            CallOutcome::Done,
            CallOutcome::Failed { error: "no such network".to_string() },
        ],
    );
    match fin {
        JobStep::Finished { action, .. } => assert_eq!(action, "CREATED"),
        _ => panic!("a join failure must not fail the job"),
    }
}

#[test]
fn run_image_create_failure_is_silent() {
    let job = Job::RunImage {
        image_name: "gui-vnc".to_string(),
        ssh_port: 2222,
        name: "ab".to_string(),
        user: "u".to_string(),
        password: "p".to_string(),
        vnc_password: "v".to_string(),
        root_password: "r".to_string(),
        privileged: false,
        nvdocker: false,
        docker_network: "net".to_string(),
    };
    let fin = drive(
        job,
        vec![CallOutcome::Failed { error: "image not found".to_string() }],
    );
    match fin {
        JobStep::Failed { error } => assert_eq!(error, "image not found"),
        _ => panic!("a create failure must fail the job"),
    }
}

#[test]
fn remove_inspects_before_removing() {
    let (state, call) = job_begin(Job::RemoveContainer { id: "c1".to_string() }, true);
    match call {
        RuntimeCall::Inspect { id } => assert_eq!(id, "c1"),
        _ => panic!("removal must inspect first"),
    }
    let step = job_next(
        state,
        CallOutcome::Inspected { name: Some("/ab".to_string()) },
    );
    let (state, call) = match step {
        JobStep::Next { state, call } => (state, call),
        _ => panic!("removal must continue after the inspection"),
    };
    match call {
        RuntimeCall::Remove { id } => assert_eq!(id, "c1"),
        _ => panic!("the removal itself must follow"),
    }
    match job_next(state, CallOutcome::Done) {
        JobStep::Finished { action, details } => {
            assert_eq!(action, "REMOVED");
            assert_eq!(details, "Container [ab] has been removed");
            assert!(details.contains("Container [ab] has been removed"));
        }
        _ => panic!("expected success"),
    }
}

#[test]
fn start_acts_then_inspects() {
    let (state, call) = job_begin(Job::StartContainer { id: "c1".to_string() }, true);
    assert!(matches!(call, RuntimeCall::Start { .. }));
    let step = job_next(state, CallOutcome::Done);
    let (state, call) = match step {
        JobStep::Next { state, call } => (state, call),
        _ => panic!("start must inspect afterwards"),
    };
    assert!(matches!(call, RuntimeCall::Inspect { .. }));
    match job_next(state, CallOutcome::Inspected { name: None }) {
        JobStep::Finished { action, details } => {
            assert_eq!(action, "STARTED");
            assert_eq!(details, "Container [c1] has been started");
        }
        _ => panic!("expected success"),
    }
}

#[test]
fn stop_and_restart_details() {
    let (state, _) = job_begin(Job::StopContainer { id: "c2".to_string() }, true);
    let step = job_next(state, CallOutcome::Done);
    let state = match step {
        JobStep::Next { state, .. } => state,
        _ => panic!("stop must inspect afterwards"),
    };
    match job_next(state, CallOutcome::Inspected { name: Some("/db".to_string()) }) {
        JobStep::Finished { action, details } => {
            assert_eq!(action, "STOPPED");
            assert_eq!(details, "Container [db] has been stopped");
        }
        _ => panic!("expected success"),
    }
    let (state, _) = job_begin(Job::RestartContainer { id: "c3".to_string() }, true);
    let state = match job_next(state, CallOutcome::Done) {
        JobStep::Next { state, .. } => state,
        _ => panic!("restart must inspect afterwards"),
    };
    match job_next(state, CallOutcome::Inspected { name: Some("web".to_string()) }) {
        JobStep::Finished { action, details } => {
            assert_eq!(action, "RESTARTED");
            assert_eq!(details, "Container [web] has been restarted");
        }
        _ => panic!("expected success"),
    }
}

#[test]
fn a_mismatched_runtime_answer_fails_the_job() {
    let (state, _) = job_begin(
        Job::RunImage {
            image_name: "gui-vnc".to_string(),
            ssh_port: 1,
            name: "ab".to_string(),
            user: "u".to_string(),
            password: "p".to_string(),
            vnc_password: "v".to_string(),
            root_password: "r".to_string(),
            privileged: false,
            nvdocker: false,
            docker_network: "net".to_string(),
        },
        false,
    );
    match job_next(state, CallOutcome::Done) {
        JobStep::Failed { error } => assert_eq!(error, "unexpected runtime answer"),
        _ => panic!("a creation cannot answer with a bare success"),
    }
}

#[test]
fn malformed_payload_is_discarded_without_publishing() {
    assert!(matches!(
        worker_step(StoreEvent::Popped("{\"oops\"".to_string())),
        WorkerStep::Discard
    ));
    assert!(matches!(
        worker_step(StoreEvent::ConnectFailed),
        WorkerStep::Backoff
    ));
    assert!(matches!(worker_step(StoreEvent::PopTimeout), WorkerStep::Idle));
}

#[test]
fn create_plan_carries_ports_env_labels_and_gpu() {
    let plan = build_create_plan(
        "gui-vnc", 2222, "ab", "alice", "pw", "vncpw", "rootpw", true, true, "d-gui-network",
        true,
    );
    assert_eq!(plan.name, "ab");
    assert_eq!(plan.image, "gui-vnc");
    assert_eq!(plan.ssh_host_port, "2222");
    assert_eq!(
        plan.env,
        vec![
            "VNC_PW=vncpw".to_string(),
            "VNC_RESOLUTION=1600x900".to_string(),
            "DEFAULT_USER=alice".to_string(),
            "DEFAULT_USER_PASSWORD=pw".to_string(),
            "ROOT_PASSWORD=rootpw".to_string(),
        ]
    );
    assert_eq!(plan.binds, vec!["/etc/localtime:/etc/localtime:ro".to_string()]);
    assert_eq!(plan.labels.len(), 6);
    assert_eq!(plan.labels[0], ("traefik.enable".to_string(), "true".to_string()));
    assert_eq!(
        plan.labels[1],
        (
            "traefik.http.routers.d-gui-ab.rule".to_string(),
            "PathPrefix(`/novnc/ab/`)".to_string()
        )
    );
    assert_eq!(
        plan.labels[2],
        (
            "traefik.http.services.d-gui-ab.loadbalancer.server.port".to_string(),
            "6901".to_string()
        )
    );
    assert_eq!(
        plan.labels[3],
        (
            "traefik.http.middlewares.d-gui-ab-strip-prefix.stripprefix.prefixes".to_string(),
            "/novnc/ab/".to_string()
        )
    );
    assert_eq!(
        plan.labels[4],
        (
            "traefik.http.routers.d-gui-ab.middlewares".to_string(),
            "d-gui-ab-strip-prefix".to_string()
        )
    );
    assert_eq!(
        plan.labels[5],
        ("traefik.docker.network".to_string(), "d-gui-network".to_string())
    );
    assert!(plan.privileged);
    assert!(plan.gpu_all_devices);
    let bare = build_create_plan(
        "gui-vnc", 22, "cd", "u", "p", "v", "r", false, false, "net", false,
    );
    assert!(bare.binds.is_empty());
    assert!(!bare.gpu_all_devices);
}

#[test]
fn run_request_validation() {
    match validate_run_request("my/app", "2222") {
        RunValidation::Accepted { name, ssh_port } => {
            assert_eq!(name, "my-app");
            assert_eq!(ssh_port, 2222);
        }
        _ => panic!("a sane request must be accepted"),
    }
    assert!(matches!(
        validate_run_request("a", "2222"),
        RunValidation::NameTooShort
    ));
    assert!(matches!(
        validate_run_request("", "2222"),
        RunValidation::NameTooShort
    ));
    assert!(matches!(
        validate_run_request("1ab", "2222"),
        RunValidation::NameBadStart
    ));
    assert!(matches!(
        validate_run_request("-ab", "2222"),
        RunValidation::NameBadStart
    ));
    assert!(matches!(
        validate_run_request("ab", "22x"),
        RunValidation::PortInvalid
    ));
    assert!(matches!(
        validate_run_request("ab", "99999"),
        RunValidation::PortInvalid
    ));
}

#[test]
fn default_count_is_thirty() {
    assert_eq!(default_count(), Some(30));
}

#[test]
fn parse_ports_maps_known_services() {
    let bindings = vec![
        ("5901/tcp".to_string(), vec!["5906".to_string()]),
        ("6901/tcp".to_string(), vec!["6906".to_string()]),
        ("22/tcp".to_string(), vec!["2222".to_string()]),
        ("8080/tcp".to_string(), vec!["8081".to_string()]),
        ("4444/tcp".to_string(), vec![]),
    ];
    let ports = parse_ports(&bindings);
    assert_eq!(
        ports,
        vec![
            ("vnc".to_string(), "5906".to_string()),
            ("novnc".to_string(), "6906".to_string()),
            ("ssh".to_string(), "2222".to_string()),
        ]
    );
    let none = parse_ports(&vec![("8080/tcp".to_string(), vec!["1".to_string()])]);
    assert!(none.is_empty());
    assert!(port_in_bindings(&ports, "2222"));
    assert!(!port_in_bindings(&ports, "2223"));
}

#[test]
fn container_info_filters_by_image_prefix() {
    let facts = InspectFacts {
        id: "0123456789abcdef".to_string(),
        summary_image: "sha256:zzz".to_string(),
        config_image: Some("gui-vnc:latest".to_string()),
        name: Some("/ab".to_string()),
        status: Some("running".to_string()),
        command: Some(vec!["/startup.sh".to_string()]),
        port_bindings: vec![("22/tcp".to_string(), vec!["2222".to_string()])],
        privileged: Some(true),
        device_drivers: vec!["nvidia".to_string()],
        size_rw: Some(7),
        size_root_fs: None,
    };
    let info = container_info(facts, "gui-vnc").expect("prefixed image must be listed");
    assert_eq!(info.id, "0123456789abcdef");
    assert_eq!(info.name, "ab");
    assert_eq!(info.status, "running");
    assert_eq!(info.short_id, "0123456789ab");
    assert_eq!(info.image_tag, "gui-vnc:latest");
    assert_eq!(info.ports, vec![("ssh".to_string(), "2222".to_string())]);
    assert!(info.privileged);
    assert!(info.nvdocker);
    assert_eq!(info.size_raw, 7);
    assert_eq!(info.size_fs, 0);
    let other = InspectFacts {
        id: "x".to_string(),
        summary_image: "postgres:16".to_string(),
        config_image: None,
        name: None,
        status: None,
        command: None,
        port_bindings: vec![],
        privileged: None,
        device_drivers: vec![],
        size_rw: None,
        size_root_fs: None,
    };
    assert!(container_info(other, "gui-vnc").is_none());
}

#[test]
fn console_meta_shows_the_display_name() {
    let meta = console_meta(
        "0123456789abcdef",
        "shell",
        Some("/ab".to_string()),
        Some("gui-vnc:latest".to_string()),
        Some("0123456789abcdef0000".to_string()),
        Some(vec!["/bin/sh".to_string(), "-c".to_string(), "run".to_string()]),
    );
    assert_eq!(meta.id, "0123456789abcdef");
    assert_eq!(meta.container_name, "ab");
    assert_eq!(meta.image, "gui-vnc:latest");
    assert_eq!(meta.short_id, "0123456789ab");
    assert_eq!(meta.command, Some("/bin/sh -c run".to_string()));
    assert_eq!(meta.action, "shell");
    let bare = console_meta("c1", "attach", None, None, None, None);
    assert_eq!(bare.container_name, "c1");
    assert_eq!(bare.image, "");
    assert_eq!(bare.short_id, "c1");
    assert_eq!(bare.command, None);
}

#[test]
fn image_tags_filtered_by_name() {
    assert!(str_contains("gui-vnc:latest", "gui-vnc"));
    assert!(str_contains("gui-vnc", "gui-vnc"));
    assert!(!str_contains("postgres:16", "gui-vnc"));
    assert!(str_contains("anything", ""));
    assert!(!str_contains("ab", "abc"));
    let tags = vec![
        "gui-vnc:latest".to_string(),
        "postgres:16".to_string(),
        "repo/gui-vnc:1.0".to_string(),
    ];
    assert_eq!(
        matching_tags(&tags, "gui-vnc"),
        vec!["gui-vnc:latest".to_string(), "repo/gui-vnc:1.0".to_string()]
    );
    assert!(matching_tags(&tags, "debian").is_empty());
}

#[test]
fn join_words_spaces() {
    assert_eq!(join_words(&vec![]), "");
    assert_eq!(join_words(&vec!["one".to_string()]), "one");
    assert_eq!(
        join_words(&vec!["a".to_string(), "b".to_string(), "c".to_string()]),
        "a b c"
    );
}

#[test]
fn sqlite_paths() {
    assert_eq!(
        sqlite_absolute_path("sqlite:///var/lib/app/db.sqlite3"),
        Some("/var/lib/app/db.sqlite3".to_string())
    );
    assert_eq!(
        sqlite_absolute_path("sqlite://var/db.sqlite3"),
        Some("var/db.sqlite3".to_string())
    );
    assert_eq!(
        sqlite_absolute_path("sqlite:db.sqlite3"),
        Some("/db.sqlite3".to_string())
    );
    assert_eq!(
        sqlite_absolute_path("sqlite:/abs/db.sqlite3"),
        Some("/abs/db.sqlite3".to_string())
    );
    assert_eq!(sqlite_absolute_path("sqlite::memory:"), None);
    assert_eq!(sqlite_absolute_path("postgres://x"), None);
    assert_eq!(sqlite_absolute_path("sqlite:"), None);
    // An empty triple-slash remainder falls through to the double-slash
    // shape, whose remainder is the bare slash.
    assert_eq!(sqlite_absolute_path("sqlite:///"), Some("/".to_string()));
}

#[test]
fn user_from_row_drops_the_hash() {
    let row = UserRow {
        id: 7,
        username: "alice".to_string(),
        password_hash: "h".to_string(),
        email: Some("a@example.org".to_string()),
        is_staff: 2,
    };
    let u = User::from(row);
    assert_eq!(u.id, 7);
    assert_eq!(u.username, "alice");
    assert_eq!(u.email, Some("a@example.org".to_string()));
    assert!(u.is_staff);
    let row = UserRow {
        id: 8,
        username: "bob".to_string(),
        password_hash: "h".to_string(),
        email: None,
        is_staff: 0,
    };
    assert!(!User::from(row).is_staff);
}

#[test]
fn claims_expiry_is_issue_plus_ttl() {
    let a = make_access_claims("alice", 7, 1_700_000_000, 3600);
    assert_eq!(a.sub, "alice");
    assert_eq!(a.user_id, 7);
    assert_eq!(a.iat, 1_700_000_000);
    assert_eq!(a.exp, 1_700_003_600);
    let r = make_refresh_claims("alice", 7, 1_700_000_000, 86400);
    assert_eq!(r.exp, 1_700_086_400);
}
