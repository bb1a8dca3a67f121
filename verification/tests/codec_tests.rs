use dev_dock_manager_api::codec::{
    decode_payload, encode_payload, notification_message, parse_u16_str, waiting_message,
};
use dev_dock_manager_api::jobs::{job_for_cmd, new_task_id, EnqueuedJob, Job};

fn run_image_job() -> Job {
    Job::RunImage {
        image_name: "gui-vnc".to_string(),
        ssh_port: 2222,
        name: "ab".to_string(),
        user: "alice".to_string(),
        password: "pw".to_string(),
        vnc_password: "vnc".to_string(),
        root_password: "root".to_string(),
        privileged: false,
        nvdocker: true,
        docker_network: "d-gui-network".to_string(),
    }
}

#[test]
fn encode_run_image_payload_exact() {
    let t = EnqueuedJob {
        task_id: "abc123".to_string(),
        job: run_image_job(),
    };
    let payload = encode_payload(&t);
    assert_eq!(
        payload,
        "{\"task_id\":\"abc123\",\"job\":{\"RunImage\":{\"image_name\":\"gui-vnc\",\
         \"ssh_port\":2222,\"name\":\"ab\",\"user\":\"alice\",\"password\":\"pw\",\
         \"vnc_password\":\"vnc\",\"root_password\":\"root\",\"privileged\":false,\
         \"nvdocker\":true,\"docker_network\":\"d-gui-network\"}}}"
    );
}

#[test]
fn encode_control_payload_exact() {
    let t = EnqueuedJob {
        task_id: "ff".to_string(),
        job: Job::StopContainer { id: "c9".to_string() },
    };
    let payload = encode_payload(&t);
    assert_eq!(
        payload,
        "{\"task_id\":\"ff\",\"job\":{\"StopContainer\":{\"id\":\"c9\"}}}"
    );
}

#[test]
fn round_trip_all_variants() {
    let jobs = vec![
        run_image_job(),
        Job::StartContainer { id: "c1".to_string() },
        Job::StopContainer { id: "c2".to_string() },
        Job::RemoveContainer { id: "c3".to_string() },
        Job::RestartContainer { id: "c4".to_string() },
    ];
    for job in jobs {
        let t = EnqueuedJob {
            task_id: "1a2b3c".to_string(),
            job,
        };
        let payload = encode_payload(&t);
        let back = decode_payload(&payload).expect("canonical payload must decode");
        assert_eq!(back.task_id, t.task_id);
        match (&back.job, &t.job) {
            (Job::StartContainer { id: a }, Job::StartContainer { id: b }) => assert_eq!(a, b),
            (Job::StopContainer { id: a }, Job::StopContainer { id: b }) => assert_eq!(a, b),
            (Job::RemoveContainer { id: a }, Job::RemoveContainer { id: b }) => assert_eq!(a, b),
            (Job::RestartContainer { id: a }, Job::RestartContainer { id: b }) => assert_eq!(a, b),
            (
                Job::RunImage {
                    image_name: a1,
                    ssh_port: a2,
                    name: a3,
                    user: a4,
                    password: a5,
                    vnc_password: a6,
                    root_password: a7,
                    privileged: a8,
                    nvdocker: a9,
                    docker_network: a10,
                },
                Job::RunImage {
                    image_name: b1,
                    ssh_port: b2,
                    name: b3,
                    user: b4,
                    password: b5,
                    vnc_password: b6,
                    root_password: b7,
                    privileged: b8,
                    nvdocker: b9,
                    docker_network: b10,
                },
            ) => {
                assert_eq!(a1, b1);
                assert_eq!(a2, b2);
                assert_eq!(a3, b3);
                assert_eq!(a4, b4);
                assert_eq!(a5, b5);
                assert_eq!(a6, b6);
                assert_eq!(a7, b7);
                assert_eq!(a8, b8);
                assert_eq!(a9, b9);
                assert_eq!(a10, b10);
            }
            _ => panic!("variant changed through the codec"),
        }
    }
}

#[test]
fn round_trip_with_escapes() {
    let t = EnqueuedJob {
        task_id: "00".to_string(),
        job: Job::RemoveContainer {
            id: "we\"ird\\name".to_string(),
        },
    };
    let payload = encode_payload(&t);
    let back = decode_payload(&payload).expect("escaped payload must decode");
    match back.job {
        Job::RemoveContainer { id } => assert_eq!(id, "we\"ird\\name"),
        _ => panic!("wrong variant"),
    }
}

#[test]
fn malformed_payloads_rejected() {
    assert!(decode_payload("").is_none());
    assert!(decode_payload("not json at all").is_none());
    assert!(decode_payload("{\"task_id\":\"x\"}").is_none());
    assert!(decode_payload("{\"task_id\":\"x\",\"job\":{\"Unknown\":{\"id\":\"a\"}}}").is_none());
    // A truncated but otherwise well-formed prefix.
    assert!(decode_payload("{\"task_id\":\"ff\",\"job\":{\"StopContainer\":{\"id\":\"c9\"}}").is_none());
    // Trailing bytes after the payload.
    assert!(decode_payload("{\"task_id\":\"ff\",\"job\":{\"StopContainer\":{\"id\":\"c9\"}}}x").is_none());
    // An escape the format does not know.
    assert!(decode_payload("{\"task_id\":\"a\\qb\",\"job\":{\"StopContainer\":{\"id\":\"c\"}}}").is_none());
    // A port that does not fit u16.
    assert!(decode_payload(
        "{\"task_id\":\"f\",\"job\":{\"RunImage\":{\"image_name\":\"i\",\"ssh_port\":70000,\
         \"name\":\"ab\",\"user\":\"u\",\"password\":\"p\",\"vnc_password\":\"v\",\
         \"root_password\":\"r\",\"privileged\":false,\"nvdocker\":false,\
         \"docker_network\":\"n\"}}}"
    )
    .is_none());
}

#[test]
fn task_id_is_lowercase_hex_of_the_instant() {
    assert_eq!(new_task_id(0), "0");
    assert_eq!(new_task_id(255), "ff");
    assert_eq!(new_task_id(0x1a2b3c4d5e6f), "1a2b3c4d5e6f");
    assert_eq!(new_task_id(1710000000000000000), "17bb23f0a5eb0000");
}

#[test]
fn job_for_cmd_maps_the_four_commands() {
    assert!(matches!(
        job_for_cmd("start", "c1"),
        Some(Job::StartContainer { .. })
    ));
    assert!(matches!(
        job_for_cmd("stop", "c1"),
        Some(Job::StopContainer { .. })
    ));
    assert!(matches!(
        job_for_cmd("remove", "c1"),
        Some(Job::RemoveContainer { .. })
    ));
    assert!(matches!(
        job_for_cmd("restart", "c1"),
        Some(Job::RestartContainer { .. })
    ));
    assert!(job_for_cmd("pause", "c1").is_none());
    assert!(job_for_cmd("", "c1").is_none());
}

#[test]
fn notification_message_exact() {
    let msg = notification_message("CREATED", "Container [ab] (gui-vnc) has been created");
    assert_eq!(
        msg,
        "{\"message\":{\"action\":\"CREATED\",\"details\":\"Container [ab] (gui-vnc) has been created\"}}"
    );
}

#[test]
fn waiting_message_truncates_the_id_to_eight() {
    let msg = waiting_message("0123456789abcdef", "stop");
    assert_eq!(
        msg,
        "{\"message\":{\"action\":\"WAITING\",\"data\":{\"cmd\":\"stop\",\
         \"container_id\":\"0123456789abcdef\"},\
         \"details\":\"Waiting [01234567] for the task to complete [stop]\"}}"
    );
}

#[test]
fn waiting_message_keeps_a_short_id_whole() {
    let msg = waiting_message("c1", "start");
    assert_eq!(
        msg,
        "{\"message\":{\"action\":\"WAITING\",\"data\":{\"cmd\":\"start\",\
         \"container_id\":\"c1\"},\
         \"details\":\"Waiting [c1] for the task to complete [start]\"}}"
    );
}

#[test]
fn parse_u16_str_cases() {
    assert_eq!(parse_u16_str("2222"), Some(2222));
    assert_eq!(parse_u16_str("0"), Some(0));
    assert_eq!(parse_u16_str("65535"), Some(65535));
    assert_eq!(parse_u16_str("65536"), None);
    assert_eq!(parse_u16_str(""), None);
    assert_eq!(parse_u16_str("12a"), None);
    assert_eq!(parse_u16_str("-1"), None);
}
