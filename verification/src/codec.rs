//! Wire codec for the queue and the notification bus.
//!
//! A queue payload is one JSON object, written in a fixed canonical shape:
//! `{"task_id":"<hex>","job":{"<Variant>":{...fields...}}}` with the fields
//! in declaration order, strings escaped (quote and backslash), numbers in
//! decimal and booleans as `true`/`false`. `enc_task` defines the format;
//! `dec_task` defines how a payload is read back, and rejects everything
//! that is not a canonical encoding. `lemma_dec_enc_task` proves that
//! decoding inverts encoding.
//!
//! Notification messages (`{"message":{"action":...,"details":...}}`) are
//! built here as well.

use vstd::prelude::*;

use crate::jobs::{EnqueuedJob, Job, JobV, TaskV};
use crate::text::{
    all_digits, dec_digits, dval, esc, is_digit, lemma_dec_digits_all, lemma_lval_dec_digits,
    lval, push_char, push_dec, push_escaped, push_str, str_to_chars,
};

verus! {

// ---------------------------------------------------------------------------
// The written format.
// ---------------------------------------------------------------------------

/// The written form of a boolean.
pub open spec fn blit(b: bool) -> Seq<char> {
    if b {
        "true"@
    } else {
        "false"@
    }
}

/// The written form of a job whose only field is `id`: the opening text
/// (up to and including the quote that opens the id value), the escaped id,
/// and the closing text.
pub open spec fn enc_id_job(open_text: Seq<char>, id: Seq<char>) -> Seq<char> {
    open_text + esc(id) + "\"}}"@
}

/// The written form of a job.
pub open spec fn enc_job(j: JobV) -> Seq<char> {
    match j {
        JobV::RunImage {
            image_name,
            ssh_port,
            name,
            user,
            password,
            vnc_password,
            root_password,
            privileged,
            nvdocker,
            docker_network,
        } => "{\"RunImage\":{\"image_name\":\""@ + esc(image_name) + "\",\"ssh_port\":"@
            + dec_digits(ssh_port as nat) + ",\"name\":\""@ + esc(name) + "\",\"user\":\""@ + esc(
            user,
        ) + "\",\"password\":\""@ + esc(password) + "\",\"vnc_password\":\""@ + esc(vnc_password)
            + "\",\"root_password\":\""@ + esc(root_password) + "\",\"privileged\":"@ + blit(
            privileged,
        ) + ",\"nvdocker\":"@ + blit(nvdocker) + ",\"docker_network\":\""@ + esc(docker_network)
            + "\"}}"@,
        JobV::StartContainer { id } => enc_id_job("{\"StartContainer\":{\"id\":\""@, id),
        JobV::StopContainer { id } => enc_id_job("{\"StopContainer\":{\"id\":\""@, id),
        JobV::RemoveContainer { id } => enc_id_job("{\"RemoveContainer\":{\"id\":\""@, id),
        JobV::RestartContainer { id } => enc_id_job("{\"RestartContainer\":{\"id\":\""@, id),
    }
}

/// The written form of a whole queue payload.
pub open spec fn enc_task(t: TaskV) -> Seq<char> {
    "{\"task_id\":\""@ + esc(t.task_id) + "\",\"job\":"@ + enc_job(t.job) + "}"@
}

// ---------------------------------------------------------------------------
// The verified encoder.
// ---------------------------------------------------------------------------

proof fn lemma_app3(a: Seq<char>, b: Seq<char>, c: Seq<char>)
    ensures
        (a + b) + c == a + (b + c),
{
    assert((a + b) + c =~= a + (b + c));
}

/// Appends the written form of a single-`id` job to `out`.
fn push_id_job(open_text: &str, id: &str, out: &mut String)
    ensures
        final(out)@ == old(out)@ + enc_id_job(open_text@, id@),
{
    push_str(open_text, out);
    push_escaped(id, out);
    push_str("\"}}", out);
    proof {
        lemma_app3(old(out)@, open_text@, esc(id@));
        lemma_app3(old(out)@, open_text@ + esc(id@), "\"}}"@);
    }
}

/// Appends the written form of `job` to `out`.
fn push_job(job: &Job, out: &mut String)
    ensures
        final(out)@ == old(out)@ + enc_job(job@),
{
    match job {
        Job::RunImage {
            image_name,
            ssh_port,
            name,
            user,
            password,
            vnc_password,
            root_password,
            privileged,
            nvdocker,
            docker_network,
        } => {
            let ghost o = out@;
            push_str("{\"RunImage\":{\"image_name\":\"", out);
            push_escaped(image_name.as_str(), out);
            proof {
                lemma_app3(o, "{\"RunImage\":{\"image_name\":\""@, esc(image_name@));
            }
            let ghost p1 = "{\"RunImage\":{\"image_name\":\""@ + esc(image_name@);
            push_str("\",\"ssh_port\":", out);
            push_dec(*ssh_port as u64, out);
            proof {
                lemma_app3(o, p1, "\",\"ssh_port\":"@);
                lemma_app3(o, p1 + "\",\"ssh_port\":"@, dec_digits(*ssh_port as nat));
            }
            let ghost p2 = p1 + "\",\"ssh_port\":"@ + dec_digits(*ssh_port as nat);
            push_str(",\"name\":\"", out);
            push_escaped(name.as_str(), out);
            proof {
                lemma_app3(o, p2, ",\"name\":\""@);
                lemma_app3(o, p2 + ",\"name\":\""@, esc(name@));
            }
            let ghost p3 = p2 + ",\"name\":\""@ + esc(name@);
            push_str("\",\"user\":\"", out);
            push_escaped(user.as_str(), out);
            proof {
                lemma_app3(o, p3, "\",\"user\":\""@);
                lemma_app3(o, p3 + "\",\"user\":\""@, esc(user@));
            }
            let ghost p4 = p3 + "\",\"user\":\""@ + esc(user@);
            push_str("\",\"password\":\"", out);
            push_escaped(password.as_str(), out);
            proof {
                lemma_app3(o, p4, "\",\"password\":\""@);
                lemma_app3(o, p4 + "\",\"password\":\""@, esc(password@));
            }
            let ghost p5 = p4 + "\",\"password\":\""@ + esc(password@);
            push_str("\",\"vnc_password\":\"", out);
            push_escaped(vnc_password.as_str(), out);
            proof {
                lemma_app3(o, p5, "\",\"vnc_password\":\""@);
                lemma_app3(o, p5 + "\",\"vnc_password\":\""@, esc(vnc_password@));
            }
            let ghost p6 = p5 + "\",\"vnc_password\":\""@ + esc(vnc_password@);
            push_str("\",\"root_password\":\"", out);
            push_escaped(root_password.as_str(), out);
            proof {
                lemma_app3(o, p6, "\",\"root_password\":\""@);
                lemma_app3(o, p6 + "\",\"root_password\":\""@, esc(root_password@));
            }
            let ghost p7 = p6 + "\",\"root_password\":\""@ + esc(root_password@);
            push_str("\",\"privileged\":", out);
            if *privileged {
                push_str("true", out);
            } else {
                push_str("false", out);
            }
            proof {
                lemma_app3(o, p7, "\",\"privileged\":"@);
                lemma_app3(o, p7 + "\",\"privileged\":"@, blit(*privileged));
            }
            let ghost p8 = p7 + "\",\"privileged\":"@ + blit(*privileged);
            push_str(",\"nvdocker\":", out);
            if *nvdocker {
                push_str("true", out);
            } else {
                push_str("false", out);
            }
            proof {
                lemma_app3(o, p8, ",\"nvdocker\":"@);
                lemma_app3(o, p8 + ",\"nvdocker\":"@, blit(*nvdocker));
            }
            let ghost p9 = p8 + ",\"nvdocker\":"@ + blit(*nvdocker);
            push_str(",\"docker_network\":\"", out);
            push_escaped(docker_network.as_str(), out);
            push_str("\"}}", out);
            proof {
                lemma_app3(o, p9, ",\"docker_network\":\""@);
                lemma_app3(o, p9 + ",\"docker_network\":\""@, esc(docker_network@));
                lemma_app3(o, p9 + ",\"docker_network\":\""@ + esc(docker_network@), "\"}}"@);
            }
        },
        Job::StartContainer { id } => {
            push_id_job("{\"StartContainer\":{\"id\":\"", id.as_str(), out);
        },
        Job::StopContainer { id } => {
            push_id_job("{\"StopContainer\":{\"id\":\"", id.as_str(), out);
        },
        Job::RemoveContainer { id } => {
            push_id_job("{\"RemoveContainer\":{\"id\":\"", id.as_str(), out);
        },
        Job::RestartContainer { id } => {
            push_id_job("{\"RestartContainer\":{\"id\":\"", id.as_str(), out);
        },
    }
}

/// Writes the queue payload for an enqueued job: the canonical JSON text
/// that `dec_task` reads back.
pub fn encode_payload(t: &EnqueuedJob) -> (r: String)
    ensures
        r@ == enc_task(t@),
{
    let mut out = String::new();
    let ghost o = out@;
    push_str("{\"task_id\":\"", &mut out);
    push_escaped(t.task_id.as_str(), &mut out);
    proof {
        lemma_app3(o, "{\"task_id\":\""@, esc(t.task_id@));
    }
    let ghost p1 = "{\"task_id\":\""@ + esc(t.task_id@);
    push_str("\",\"job\":", &mut out);
    proof {
        lemma_app3(o, p1, "\",\"job\":"@);
    }
    let ghost p2 = p1 + "\",\"job\":"@;
    push_job(&t.job, &mut out);
    push_str("}", &mut out);
    proof {
        lemma_app3(o, p2, enc_job(t.job@));
        lemma_app3(o, p2 + enc_job(t.job@), "}"@);
        assert(o + enc_task(t@) =~= enc_task(t@));
    }
    out
}

// ---------------------------------------------------------------------------
// The reader: what a payload means.
// ---------------------------------------------------------------------------

/// Strips the exact literal `lit` from the front of `s`.
pub open spec fn dec_lit(s: Seq<char>, lit: Seq<char>) -> Option<Seq<char>> {
    if s.len() >= lit.len() && s.take(lit.len() as int) == lit {
        Some(s.skip(lit.len() as int))
    } else {
        None
    }
}

/// Reads an escaped string value up to, and not including, its closing
/// quote: the unescaped content, and the remainder starting at the quote.
/// Rejects a missing closing quote and any unknown escape.
pub open spec fn dec_value_str(s: Seq<char>) -> Option<(Seq<char>, Seq<char>)>
    decreases s.len(),
{
    if s.len() == 0 {
        None
    } else if s[0] == '"' {
        Some((Seq::empty(), s))
    } else if s[0] == '\\' {
        if s.len() >= 2 && (s[1] == '"' || s[1] == '\\') {
            match dec_value_str(s.skip(2)) {
                Some((c, r)) => Some((seq![s[1]] + c, r)),
                None => None,
            }
        } else {
            None
        }
    } else {
        match dec_value_str(s.skip(1)) {
            Some((c, r)) => Some((seq![s[0]] + c, r)),
            None => None,
        }
    }
}

/// Reads a maximal run of digits onto the accumulator.
pub open spec fn dec_nat_loop(s: Seq<char>, acc: nat) -> (nat, Seq<char>)
    decreases s.len(),
{
    if s.len() > 0 && is_digit(s[0]) {
        dec_nat_loop(s.skip(1), acc * 10 + dval(s[0]))
    } else {
        (acc, s)
    }
}

/// Reads a decimal number that fits a `u16`; rejects anything else.
pub open spec fn dec_u16(s: Seq<char>) -> Option<(u16, Seq<char>)> {
    if s.len() > 0 && is_digit(s[0]) {
        let (n, r) = dec_nat_loop(s, 0);
        if n <= 65535 {
            Some((n as u16, r))
        } else {
            None
        }
    } else {
        None
    }
}

/// Reads `true` or `false`.
pub open spec fn dec_boolean(s: Seq<char>) -> Option<(bool, Seq<char>)> {
    match dec_lit(s, "true"@) {
        Some(r) => Some((true, r)),
        None => match dec_lit(s, "false"@) {
            Some(r) => Some((false, r)),
            None => None,
        },
    }
}

/// Reads the tail of a single-`id` job: the id value and the closing text.
pub open spec fn dec_id_rest(s: Seq<char>) -> Option<(Seq<char>, Seq<char>)> {
    match dec_value_str(s) {
        Some((id, r)) => match dec_lit(r, "\"}}"@) {
            Some(r2) => Some((id, r2)),
            None => None,
        },
        None => None,
    }
}

/// Reads the tail of a `RunImage` job, field by field in canonical order.
pub open spec fn dec_run_rest(s: Seq<char>) -> Option<(JobV, Seq<char>)> {
    match dec_value_str(s) {
        None => None,
        Some((image_name, r)) => match dec_lit(r, "\",\"ssh_port\":"@) {
            None => None,
            Some(r) => match dec_u16(r) {
                None => None,
                Some((ssh_port, r)) => match dec_lit(r, ",\"name\":\""@) {
                    None => None,
                    Some(r) => match dec_value_str(r) {
                        None => None,
                        Some((name, r)) => match dec_lit(r, "\",\"user\":\""@) {
                            None => None,
                            Some(r) => match dec_value_str(r) {
                                None => None,
                                Some((user, r)) => dec_run_rest2(
                                    r,
                                    image_name,
                                    ssh_port,
                                    name,
                                    user,
                                ),
                            },
                        },
                    },
                },
            },
        },
    }
}

/// Continues `dec_run_rest` from the `password` field on.
pub open spec fn dec_run_rest2(
    s: Seq<char>,
    image_name: Seq<char>,
    ssh_port: u16,
    name: Seq<char>,
    user: Seq<char>,
) -> Option<(JobV, Seq<char>)> {
    match dec_lit(s, "\",\"password\":\""@) {
        None => None,
        Some(r) => match dec_value_str(r) {
            None => None,
            Some((password, r)) => match dec_lit(r, "\",\"vnc_password\":\""@) {
                None => None,
                Some(r) => match dec_value_str(r) {
                    None => None,
                    Some((vnc_password, r)) => match dec_lit(r, "\",\"root_password\":\""@) {
                        None => None,
                        Some(r) => match dec_value_str(r) {
                            None => None,
                            Some((root_password, r)) => dec_run_rest3(
                                r,
                                image_name,
                                ssh_port,
                                name,
                                user,
                                password,
                                vnc_password,
                                root_password,
                            ),
                        },
                    },
                },
            },
        },
    }
}

/// Continues `dec_run_rest` from the `privileged` field on.
pub open spec fn dec_run_rest3(
    s: Seq<char>,
    image_name: Seq<char>,
    ssh_port: u16,
    name: Seq<char>,
    user: Seq<char>,
    password: Seq<char>,
    vnc_password: Seq<char>,
    root_password: Seq<char>,
) -> Option<(JobV, Seq<char>)> {
    match dec_lit(s, "\",\"privileged\":"@) {
        None => None,
        Some(r) => match dec_boolean(r) {
            None => None,
            Some((privileged, r)) => match dec_lit(r, ",\"nvdocker\":"@) {
                None => None,
                Some(r) => match dec_boolean(r) {
                    None => None,
                    Some((nvdocker, r)) => match dec_lit(r, ",\"docker_network\":\""@) {
                        None => None,
                        Some(r) => match dec_value_str(r) {
                            None => None,
                            Some((docker_network, r)) => match dec_lit(r, "\"}}"@) {
                                None => None,
                                Some(r) => Some(
                                    (
                                        JobV::RunImage {
                                            image_name,
                                            ssh_port,
                                            name,
                                            user,
                                            password,
                                            vnc_password,
                                            root_password,
                                            privileged,
                                            nvdocker,
                                            docker_network,
                                        },
                                        r,
                                    ),
                                ),
                            },
                        },
                    },
                },
            },
        },
    }
}

/// Reads a job: dispatches on the variant's opening text.
pub open spec fn dec_job(s: Seq<char>) -> Option<(JobV, Seq<char>)> {
    match dec_lit(s, "{\"RunImage\":{\"image_name\":\""@) {
        Some(r) => dec_run_rest(r),
        None => match dec_lit(s, "{\"StartContainer\":{\"id\":\""@) {
            Some(r) => match dec_id_rest(r) {
                Some((id, r2)) => Some((JobV::StartContainer { id }, r2)),
                None => None,
            },
            None => match dec_lit(s, "{\"StopContainer\":{\"id\":\""@) {
                Some(r) => match dec_id_rest(r) {
                    Some((id, r2)) => Some((JobV::StopContainer { id }, r2)),
                    None => None,
                },
                None => match dec_lit(s, "{\"RemoveContainer\":{\"id\":\""@) {
                    Some(r) => match dec_id_rest(r) {
                        Some((id, r2)) => Some((JobV::RemoveContainer { id }, r2)),
                        None => None,
                    },
                    None => match dec_lit(s, "{\"RestartContainer\":{\"id\":\""@) {
                        Some(r) => match dec_id_rest(r) {
                            Some((id, r2)) => Some((JobV::RestartContainer { id }, r2)),
                            None => None,
                        },
                        None => None,
                    },
                },
            },
        },
    }
}

/// Reads a whole queue payload; the payload must end with the closing brace.
pub open spec fn dec_task(s: Seq<char>) -> Option<TaskV> {
    match dec_lit(s, "{\"task_id\":\""@) {
        None => None,
        Some(r) => match dec_value_str(r) {
            None => None,
            Some((task_id, r)) => match dec_lit(r, "\",\"job\":"@) {
                None => None,
                Some(r) => match dec_job(r) {
                    None => None,
                    Some((job, r)) => match dec_lit(r, "}"@) {
                        None => None,
                        Some(r) => if r.len() == 0 {
                            Some(TaskV { task_id, job })
                        } else {
                            None
                        },
                    },
                },
            },
        },
    }
}

// ---------------------------------------------------------------------------
// Notification messages.
// ---------------------------------------------------------------------------

/// The notification published after a job succeeds, as written to the bus.
pub open spec fn notif_msg(action: Seq<char>, details: Seq<char>) -> Seq<char> {
    "{\"message\":{\"action\":\""@ + esc(action) + "\",\"details\":\""@ + esc(details) + "\"}}"@
}

/// Builds the bus message that carries a job's outcome.
pub fn notification_message(action: &str, details: &str) -> (r: String)
    ensures
        r@ == notif_msg(action@, details@),
{
    let mut out = String::new();
    let ghost o = out@;
    push_str("{\"message\":{\"action\":\"", &mut out);
    push_escaped(action, &mut out);
    proof {
        lemma_app3(o, "{\"message\":{\"action\":\""@, esc(action@));
    }
    let ghost p1 = "{\"message\":{\"action\":\""@ + esc(action@);
    push_str("\",\"details\":\"", &mut out);
    push_escaped(details, &mut out);
    push_str("\"}}", &mut out);
    proof {
        lemma_app3(o, p1, "\",\"details\":\""@);
        lemma_app3(o, p1 + "\",\"details\":\""@, esc(details@));
        lemma_app3(o, p1 + "\",\"details\":\""@ + esc(details@), "\"}}"@);
        assert(o + notif_msg(action@, details@) =~= notif_msg(action@, details@));
    }
    out
}

/// The `WAITING` notice published when a control job is accepted: the
/// details name the first eight characters of the container id and the
/// command, and the `data` member repeats both in full.
pub open spec fn waiting_msg(id: Seq<char>, cmd: Seq<char>) -> Seq<char> {
    "{\"message\":{\"action\":\"WAITING\",\"data\":{\"cmd\":\""@ + esc(cmd)
        + "\",\"container_id\":\""@ + esc(id) + "\"},\"details\":\"Waiting ["@ + esc(
        crate::text::prefix_of(id, 8),
    ) + "] for the task to complete ["@ + esc(cmd) + "]\"}}"@
}

/// Builds the `WAITING` bus message for a control command on a container.
pub fn waiting_message(id: &str, cmd: &str) -> (r: String)
    ensures
        r@ == waiting_msg(id@, cmd@),
{
    let mut out = String::new();
    let ghost o = out@;
    push_str("{\"message\":{\"action\":\"WAITING\",\"data\":{\"cmd\":\"", &mut out);
    push_escaped(cmd, &mut out);
    proof {
        lemma_app3(
            o,
            "{\"message\":{\"action\":\"WAITING\",\"data\":{\"cmd\":\""@,
            esc(cmd@),
        );
    }
    let ghost p1 = "{\"message\":{\"action\":\"WAITING\",\"data\":{\"cmd\":\""@ + esc(cmd@);
    push_str("\",\"container_id\":\"", &mut out);
    push_escaped(id, &mut out);
    proof {
        lemma_app3(o, p1, "\",\"container_id\":\""@);
        lemma_app3(o, p1 + "\",\"container_id\":\""@, esc(id@));
    }
    let ghost p2 = p1 + "\",\"container_id\":\""@ + esc(id@);
    let short = crate::text::str_prefix(id, 8);
    push_str("\"},\"details\":\"Waiting [", &mut out);
    push_escaped(short.as_str(), &mut out);
    proof {
        lemma_app3(o, p2, "\"},\"details\":\"Waiting ["@);
        lemma_app3(
            o,
            p2 + "\"},\"details\":\"Waiting ["@,
            esc(crate::text::prefix_of(id@, 8)),
        );
    }
    let ghost p3 = p2 + "\"},\"details\":\"Waiting ["@ + esc(crate::text::prefix_of(id@, 8));
    push_str("] for the task to complete [", &mut out);
    push_escaped(cmd, &mut out);
    push_str("]\"}}", &mut out);
    proof {
        lemma_app3(o, p3, "] for the task to complete ["@);
        lemma_app3(o, p3 + "] for the task to complete ["@, esc(cmd@));
        lemma_app3(o, p3 + "] for the task to complete ["@ + esc(cmd@), "]\"}}"@);
        assert(o + waiting_msg(id@, cmd@) =~= waiting_msg(id@, cmd@));
    }
    out
}

// ---------------------------------------------------------------------------
// The verified decoder.
// ---------------------------------------------------------------------------

/// Consumes the literal `lit` at position `i`, if it is there.
fn p_lit(v: &Vec<char>, i: usize, lit: &str) -> (r: Option<usize>)
    requires
        i <= v@.len(),
    ensures
        match r {
            Some(j) => i <= j <= v@.len() && dec_lit(v@.skip(i as int), lit@) == Some(
                v@.skip(j as int),
            ),
            None => dec_lit(v@.skip(i as int), lit@) is None,
        },
{
    let n = lit.unicode_len();
    if v.len() - i < n {
        proof {
            assert(v@.skip(i as int).len() < lit@.len());
        }
        return None;
    }
    let vlen = v.len();
    let mut k: usize = 0;
    while k < n
        invariant
            vlen == v@.len(),
            i + n <= vlen,
            k <= n,
            n == lit@.len(),
            forall|t: int| 0 <= t < k ==> v@[i + t] == lit@[t],
        decreases n - k,
    {
        let idx: usize = i + k;
        if v[idx] != lit.get_char(k) {
            proof {
                let s = v@.skip(i as int);
                assert(s.take(n as int)[k as int] == v@[i + k]);
                assert(s.take(n as int) != lit@);
            }
            return None;
        }
        k = k + 1;
    }
    proof {
        let s = v@.skip(i as int);
        assert(s.take(n as int) =~= lit@);
        assert(s.skip(n as int) =~= v@.skip(i + n));
    }
    Some(i + n)
}

/// Reads an escaped string value at position `i`, up to its closing quote.
fn p_value_str(v: &Vec<char>, i: usize) -> (r: Option<(String, usize)>)
    requires
        i <= v@.len(),
    ensures
        match r {
            Some((s, j)) => i <= j <= v@.len() && dec_value_str(v@.skip(i as int)) == Some(
                (s@, v@.skip(j as int)),
            ),
            None => dec_value_str(v@.skip(i as int)) is None,
        },
{
    let mut out = String::new();
    let mut k: usize = i;
    loop
        invariant
            i <= k <= v@.len(),
            dec_value_str(v@.skip(i as int)) == (match dec_value_str(v@.skip(k as int)) {
                Some((c, r)) => Some((out@ + c, r)),
                None => None::<(Seq<char>, Seq<char>)>,
            }),
        decreases v@.len() - k,
    {
        if k >= v.len() {
            proof {
                assert(v@.skip(k as int).len() == 0);
            }
            return None;
        }
        let c = v[k];
        proof {
            assert(v@.skip(k as int)[0] == v@[k as int]);
        }
        if c == '"' {
            proof {
                assert(dec_value_str(v@.skip(k as int)) == Some(
                    (Seq::<char>::empty(), v@.skip(k as int)),
                ));
                assert(out@ + Seq::<char>::empty() =~= out@);
            }
            return Some((out, k));
        } else if c == '\\' {
            if k + 1 >= v.len() {
                proof {
                    assert(v@.skip(k as int).len() < 2);
                }
                return None;
            }
            let c2 = v[k + 1];
            proof {
                assert(v@.skip(k as int)[1] == v@[k + 1]);
                assert(v@.skip(k as int).skip(2) =~= v@.skip(k + 2));
            }
            if c2 == '"' || c2 == '\\' {
                let ghost old_out = out@;
                push_char(&mut out, c2);
                proof {
                    if let Some((c3, r3)) = dec_value_str(v@.skip(k + 2)) {
                        assert(old_out + (seq![c2] + c3) =~= out@ + c3);
                    }
                }
                k = k + 2;
            } else {
                return None;
            }
        } else {
            proof {
                assert(v@.skip(k as int).skip(1) =~= v@.skip(k + 1));
            }
            let ghost old_out = out@;
            push_char(&mut out, c);
            proof {
                if let Some((c3, r3)) = dec_value_str(v@.skip(k + 1)) {
                    assert(old_out + (seq![c] + c3) =~= out@ + c3);
                }
            }
            k = k + 1;
        }
    }
}

/// Classifies a character as a decimal digit.
fn char_digit(c: char) -> (r: Option<u8>)
    ensures
        match r {
            Some(d) => is_digit(c) && d < 10 && d as nat == dval(c),
            None => !is_digit(c),
        },
{
    match c {
        '0' => Some(0),
        '1' => Some(1),
        '2' => Some(2),
        '3' => Some(3),
        '4' => Some(4),
        '5' => Some(5),
        '6' => Some(6),
        '7' => Some(7),
        '8' => Some(8),
        '9' => Some(9),
        _ => None,
    }
}

proof fn lemma_dec_nat_loop_mono(s: Seq<char>, acc: nat)
    ensures
        dec_nat_loop(s, acc).0 >= acc,
    decreases s.len(),
{
    if s.len() > 0 && is_digit(s[0]) {
        lemma_dec_nat_loop_mono(s.skip(1), acc * 10 + dval(s[0]));
    }
}

/// Reads a decimal `u16` at position `i`.
fn p_u16(v: &Vec<char>, i: usize) -> (r: Option<(u16, usize)>)
    requires
        i <= v@.len(),
    ensures
        match r {
            Some((n, j)) => i <= j <= v@.len() && dec_u16(v@.skip(i as int)) == Some(
                (n, v@.skip(j as int)),
            ),
            None => dec_u16(v@.skip(i as int)) is None,
        },
{
    if i >= v.len() {
        proof {
            assert(v@.skip(i as int).len() == 0);
        }
        return None;
    }
    proof {
        assert(v@.skip(i as int)[0] == v@[i as int]);
    }
    if char_digit(v[i]).is_none() {
        return None;
    }
    let mut acc: u32 = 0;
    let mut k: usize = i;
    loop
        invariant
            i <= k <= v@.len(),
            acc <= 65535,
            dec_nat_loop(v@.skip(i as int), 0) == dec_nat_loop(v@.skip(k as int), acc as nat),
            v@.skip(i as int).len() > 0 && is_digit(v@.skip(i as int)[0]),
        decreases v@.len() - k,
    {
        if k >= v.len() {
            proof {
                assert(v@.skip(k as int).len() == 0);
                assert(dec_nat_loop(v@.skip(k as int), acc as nat) == (acc as nat, v@.skip(
                    k as int,
                )));
            }
            return Some((acc as u16, k));
        }
        proof {
            assert(v@.skip(k as int)[0] == v@[k as int]);
            assert(v@.skip(k as int).skip(1) =~= v@.skip(k + 1));
        }
        match char_digit(v[k]) {
            None => {
                proof {
                    assert(dec_nat_loop(v@.skip(k as int), acc as nat) == (
                        acc as nat,
                        v@.skip(k as int),
                    ));
                }
                return Some((acc as u16, k));
            },
            Some(d) => {
                let next: u32 = acc * 10 + (d as u32);
                if next > 65535 {
                    proof {
                        lemma_dec_nat_loop_mono(v@.skip(k + 1), next as nat);
                        assert(dec_nat_loop(v@.skip(i as int), 0).0 > 65535);
                    }
                    return None;
                }
                acc = next;
                k = k + 1;
            },
        }
    }
}

/// Reads `true` or `false` at position `i`.
fn p_boolean(v: &Vec<char>, i: usize) -> (r: Option<(bool, usize)>)
    requires
        i <= v@.len(),
    ensures
        match r {
            Some((b, j)) => i <= j <= v@.len() && dec_boolean(v@.skip(i as int)) == Some(
                (b, v@.skip(j as int)),
            ),
            None => dec_boolean(v@.skip(i as int)) is None,
        },
{
    match p_lit(v, i, "true") {
        Some(j) => Some((true, j)),
        None => match p_lit(v, i, "false") {
            Some(j) => Some((false, j)),
            None => None,
        },
    }
}

/// Reads the tail of a single-`id` job at position `i`.
fn p_id_rest(v: &Vec<char>, i: usize) -> (r: Option<(String, usize)>)
    requires
        i <= v@.len(),
    ensures
        match r {
            Some((id, j)) => i <= j <= v@.len() && dec_id_rest(v@.skip(i as int)) == Some(
                (id@, v@.skip(j as int)),
            ),
            None => dec_id_rest(v@.skip(i as int)) is None,
        },
{
    match p_value_str(v, i) {
        None => None,
        Some((id, j)) => match p_lit(v, j, "\"}}") {
            None => None,
            Some(j2) => Some((id, j2)),
        },
    }
}

/// Reads the tail of a `RunImage` job at position `i`.
fn p_run_rest(v: &Vec<char>, i: usize) -> (r: Option<(Job, usize)>)
    requires
        i <= v@.len(),
    ensures
        match r {
            Some((job, j)) => i <= j <= v@.len() && dec_run_rest(v@.skip(i as int)) == Some(
                (job@, v@.skip(j as int)),
            ),
            None => dec_run_rest(v@.skip(i as int)) is None,
        },
{
    let (image_name, j) = match p_value_str(v, i) {
        None => {
            return None;
        },
        Some(x) => x,
    };
    let j = match p_lit(v, j, "\",\"ssh_port\":") {
        None => {
            return None;
        },
        Some(x) => x,
    };
    let (ssh_port, j) = match p_u16(v, j) {
        None => {
            return None;
        },
        Some(x) => x,
    };
    let j = match p_lit(v, j, ",\"name\":\"") {
        None => {
            return None;
        },
        Some(x) => x,
    };
    let (name, j) = match p_value_str(v, j) {
        None => {
            return None;
        },
        Some(x) => x,
    };
    let j = match p_lit(v, j, "\",\"user\":\"") {
        None => {
            return None;
        },
        Some(x) => x,
    };
    let (user, j) = match p_value_str(v, j) {
        None => {
            return None;
        },
        Some(x) => x,
    };
    let j = match p_lit(v, j, "\",\"password\":\"") {
        None => {
            return None;
        },
        Some(x) => x,
    };
    let (password, j) = match p_value_str(v, j) {
        None => {
            return None;
        },
        Some(x) => x,
    };
    let j = match p_lit(v, j, "\",\"vnc_password\":\"") {
        None => {
            return None;
        },
        Some(x) => x,
    };
    let (vnc_password, j) = match p_value_str(v, j) {
        None => {
            return None;
        },
        Some(x) => x,
    };
    let j = match p_lit(v, j, "\",\"root_password\":\"") {
        None => {
            return None;
        },
        Some(x) => x,
    };
    let (root_password, j) = match p_value_str(v, j) {
        None => {
            return None;
        },
        Some(x) => x,
    };
    let j = match p_lit(v, j, "\",\"privileged\":") {
        None => {
            return None;
        },
        Some(x) => x,
    };
    let (privileged, j) = match p_boolean(v, j) {
        None => {
            return None;
        },
        Some(x) => x,
    };
    let j = match p_lit(v, j, ",\"nvdocker\":") {
        None => {
            return None;
        },
        Some(x) => x,
    };
    let (nvdocker, j) = match p_boolean(v, j) {
        None => {
            return None;
        },
        Some(x) => x,
    };
    let j = match p_lit(v, j, ",\"docker_network\":\"") {
        None => {
            return None;
        },
        Some(x) => x,
    };
    let (docker_network, j) = match p_value_str(v, j) {
        None => {
            return None;
        },
        Some(x) => x,
    };
    let j = match p_lit(v, j, "\"}}") {
        None => {
            return None;
        },
        Some(x) => x,
    };
    Some(
        (
            Job::RunImage {
                image_name,
                ssh_port,
                name,
                user,
                password,
                vnc_password,
                root_password,
                privileged,
                nvdocker,
                docker_network,
            },
            j,
        ),
    )
}

/// Reads a job at position `i`.
fn p_job(v: &Vec<char>, i: usize) -> (r: Option<(Job, usize)>)
    requires
        i <= v@.len(),
    ensures
        match r {
            Some((job, j)) => i <= j <= v@.len() && dec_job(v@.skip(i as int)) == Some(
                (job@, v@.skip(j as int)),
            ),
            None => dec_job(v@.skip(i as int)) is None,
        },
{
    if let Some(j) = p_lit(v, i, "{\"RunImage\":{\"image_name\":\"") {
        return p_run_rest(v, j);
    }
    if let Some(j) = p_lit(v, i, "{\"StartContainer\":{\"id\":\"") {
        return match p_id_rest(v, j) {
            Some((id, j2)) => Some((Job::StartContainer { id }, j2)),
            None => None,
        };
    }
    if let Some(j) = p_lit(v, i, "{\"StopContainer\":{\"id\":\"") {
        return match p_id_rest(v, j) {
            Some((id, j2)) => Some((Job::StopContainer { id }, j2)),
            None => None,
        };
    }
    if let Some(j) = p_lit(v, i, "{\"RemoveContainer\":{\"id\":\"") {
        return match p_id_rest(v, j) {
            Some((id, j2)) => Some((Job::RemoveContainer { id }, j2)),
            None => None,
        };
    }
    if let Some(j) = p_lit(v, i, "{\"RestartContainer\":{\"id\":\"") {
        return match p_id_rest(v, j) {
            Some((id, j2)) => Some((Job::RestartContainer { id }, j2)),
            None => None,
        };
    }
    None
}

/// Reads a whole string as a decimal `u16`: digits only, the full text,
/// nothing else.
pub fn parse_u16_str(s: &str) -> (r: Option<u16>)
    ensures
        r == (match dec_u16(s@) {
            Some(pr) => if pr.1.len() == 0 {
                Some(pr.0)
            } else {
                None::<u16>
            },
            None => None::<u16>,
        }),
{
    let v = str_to_chars(s);
    proof {
        assert(v@.skip(0) =~= s@);
    }
    match p_u16(&v, 0) {
        Some((n, j)) => {
            if j == v.len() {
                proof {
                    assert(v@.skip(j as int).len() == 0);
                }
                Some(n)
            } else {
                proof {
                    assert(v@.skip(j as int).len() > 0);
                }
                None
            }
        },
        None => None,
    }
}

/// Reads a queue payload back into a task. Returns the task a canonical
/// payload denotes; rejects, with `None`, every other text.
pub fn decode_payload(s: &str) -> (r: Option<EnqueuedJob>)
    ensures
        match r {
            Some(t) => dec_task(s@) == Some(t@),
            None => dec_task(s@) is None,
        },
{
    let v = str_to_chars(s);
    proof {
        assert(v@.skip(0) =~= s@);
    }
    let j = match p_lit(&v, 0, "{\"task_id\":\"") {
        None => {
            return None;
        },
        Some(x) => x,
    };
    let (task_id, j) = match p_value_str(&v, j) {
        None => {
            return None;
        },
        Some(x) => x,
    };
    let j = match p_lit(&v, j, "\",\"job\":") {
        None => {
            return None;
        },
        Some(x) => x,
    };
    let (job, j) = match p_job(&v, j) {
        None => {
            return None;
        },
        Some(x) => x,
    };
    let j = match p_lit(&v, j, "}") {
        None => {
            return None;
        },
        Some(x) => x,
    };
    if j < v.len() {
        proof {
            assert(v@.skip(j as int).len() > 0);
        }
        return None;
    }
    proof {
        assert(v@.skip(j as int).len() == 0);
    }
    Some(EnqueuedJob { task_id, job })
}

// ---------------------------------------------------------------------------
// Decoding inverts encoding.
// ---------------------------------------------------------------------------

proof fn lemma_dec_lit(lit: Seq<char>, rest: Seq<char>)
    ensures
        dec_lit(lit + rest, lit) == Some(rest),
{
    assert((lit + rest).take(lit.len() as int) =~= lit);
    assert((lit + rest).skip(lit.len() as int) =~= rest);
}

proof fn lemma_dec_value_str(x: Seq<char>, rest: Seq<char>)
    requires
        rest.len() > 0,
        rest[0] == '"',
    ensures
        dec_value_str(esc(x) + rest) == Some((x, rest)),
    decreases x.len(),
{
    let s = esc(x) + rest;
    if x.len() == 0 {
        assert(s =~= rest);
        assert(dec_value_str(s) == Some((Seq::<char>::empty(), s)));
        assert(Seq::<char>::empty() =~= x);
    } else {
        let x0 = x[0];
        let xr = x.skip(1);
        assert(esc(x) == crate::text::esc_char(x0) + esc(xr));
        lemma_dec_value_str(xr, rest);
        if x0 == '"' || x0 == '\\' {
            assert(s[0] == '\\');
            assert(s[1] == x0);
            assert(s.len() >= 2);
            assert(s.skip(2) =~= esc(xr) + rest);
            assert(dec_value_str(s) == Some((seq![x0] + xr, rest)));
            assert(seq![x0] + xr =~= x);
        } else {
            assert(s[0] == x0);
            assert(s.skip(1) =~= esc(xr) + rest);
            assert(dec_value_str(s) == Some((seq![x0] + xr, rest)));
            assert(seq![x0] + xr =~= x);
        }
    }
}

proof fn lemma_dec_nat_digits(ds: Seq<char>, rest: Seq<char>, acc: nat)
    requires
        all_digits(ds),
        rest.len() == 0 || !is_digit(rest[0]),
    ensures
        dec_nat_loop(ds + rest, acc) == (lval(ds, acc), rest),
    decreases ds.len(),
{
    let s = ds + rest;
    if ds.len() == 0 {
        assert(s =~= rest);
        assert(lval(ds, acc) == acc);
    } else {
        assert(s[0] == ds[0]);
        assert(is_digit(ds[0]));
        assert(s.skip(1) =~= ds.skip(1) + rest);
        lemma_dec_nat_digits(ds.skip(1), rest, acc * 10 + dval(ds[0]));
    }
}

proof fn lemma_dec_u16(n: u16, rest: Seq<char>)
    requires
        rest.len() == 0 || !is_digit(rest[0]),
    ensures
        dec_u16(dec_digits(n as nat) + rest) == Some((n, rest)),
{
    let ds = dec_digits(n as nat);
    lemma_dec_digits_all(n as nat);
    lemma_lval_dec_digits(n as nat);
    let s = ds + rest;
    assert(s[0] == ds[0]);
    assert(is_digit(ds[0]));
    lemma_dec_nat_digits(ds, rest, 0);
}

proof fn lemma_dec_boolean(b: bool, rest: Seq<char>)
    ensures
        dec_boolean(blit(b) + rest) == Some((b, rest)),
{
    reveal_strlit("true");
    reveal_strlit("false");
    if b {
        lemma_dec_lit("true"@, rest);
    } else {
        let s = "false"@ + rest;
        assert(s[0] == 'f');
        if s.len() >= "true"@.len() {
            assert(s.take("true"@.len() as int)[0] == 'f');
            assert("true"@[0] == 't');
        }
        assert(dec_lit(s, "true"@) is None);
        lemma_dec_lit("false"@, rest);
    }
}

proof fn lemma_dec_id_rest(id: Seq<char>, rest: Seq<char>)
    ensures
        dec_id_rest(esc(id) + ("\"}}"@ + rest)) == Some((id, rest)),
{
    reveal_strlit("\"}}");
    let r1 = "\"}}"@ + rest;
    assert(r1[0] == '"');
    lemma_dec_value_str(id, r1);
    lemma_dec_lit("\"}}"@, rest);
}

proof fn lemma_not_lit(s: Seq<char>, lit: Seq<char>, i: int)
    requires
        0 <= i < lit.len(),
        i < s.len(),
        s[i] != lit[i],
    ensures
        dec_lit(s, lit) is None,
{
    if s.len() >= lit.len() {
        assert(s.take(lit.len() as int)[i] == s[i]);
    }
}

/// Reassociates one single-`id` encoding and runs the reader over it.
proof fn lemma_id_shape(open_text: Seq<char>, id: Seq<char>, rest: Seq<char>)
    ensures
        enc_id_job(open_text, id) + rest == open_text + (esc(id) + ("\"}}"@ + rest)),
        dec_lit(enc_id_job(open_text, id) + rest, open_text) == Some(
            esc(id) + ("\"}}"@ + rest),
        ),
{
    let s1 = "\"}}"@ + rest;
    let s0 = esc(id) + s1;
    lemma_app3(open_text + esc(id), "\"}}"@, rest);
    lemma_app3(open_text, esc(id), s1);
    lemma_dec_lit(open_text, s0);
}

/// The right-nested remainder of a `RunImage` encoding from `privileged` on.
spec fn run_tail3(privileged: bool, nvdocker: bool, docker_network: Seq<char>, rest: Seq<
    char,
>) -> Seq<char> {
    "\",\"privileged\":"@ + (blit(privileged) + (",\"nvdocker\":"@ + (blit(nvdocker) + (
    ",\"docker_network\":\""@ + (esc(docker_network) + ("\"}}"@ + rest))))))
}

/// The right-nested remainder of a `RunImage` encoding from `password` on.
spec fn run_tail2(
    password: Seq<char>,
    vnc_password: Seq<char>,
    root_password: Seq<char>,
    privileged: bool,
    nvdocker: bool,
    docker_network: Seq<char>,
    rest: Seq<char>,
) -> Seq<char> {
    "\",\"password\":\""@ + (esc(password) + ("\",\"vnc_password\":\""@ + (esc(vnc_password) + (
    "\",\"root_password\":\""@ + (esc(root_password) + run_tail3(
        privileged,
        nvdocker,
        docker_network,
        rest,
    ))))))
}

/// The right-nested remainder of a `RunImage` encoding after the opening text.
spec fn run_tail1(
    image_name: Seq<char>,
    ssh_port: u16,
    name: Seq<char>,
    user: Seq<char>,
    password: Seq<char>,
    vnc_password: Seq<char>,
    root_password: Seq<char>,
    privileged: bool,
    nvdocker: bool,
    docker_network: Seq<char>,
    rest: Seq<char>,
) -> Seq<char> {
    esc(image_name) + ("\",\"ssh_port\":"@ + (dec_digits(ssh_port as nat) + (",\"name\":\""@ + (
    esc(name) + ("\",\"user\":\""@ + (esc(user) + run_tail2(
        password,
        vnc_password,
        root_password,
        privileged,
        nvdocker,
        docker_network,
        rest,
    )))))))
}

#[verifier::spinoff_prover]
proof fn lemma_run3(
    image_name: Seq<char>,
    ssh_port: u16,
    name: Seq<char>,
    user: Seq<char>,
    password: Seq<char>,
    vnc_password: Seq<char>,
    root_password: Seq<char>,
    privileged: bool,
    nvdocker: bool,
    docker_network: Seq<char>,
    rest: Seq<char>,
)
    ensures
        dec_run_rest3(
            run_tail3(privileged, nvdocker, docker_network, rest),
            image_name,
            ssh_port,
            name,
            user,
            password,
            vnc_password,
            root_password,
        ) == Some(
            (
                JobV::RunImage {
                    image_name,
                    ssh_port,
                    name,
                    user,
                    password,
                    vnc_password,
                    root_password,
                    privileged,
                    nvdocker,
                    docker_network,
                },
                rest,
            ),
        ),
{
    reveal_strlit("\",\"privileged\":");
    reveal_strlit(",\"nvdocker\":");
    reveal_strlit(",\"docker_network\":\"");
    reveal_strlit("\"}}");
    let s21 = "\"}}"@ + rest;
    let s20 = esc(docker_network) + s21;
    let s19 = ",\"docker_network\":\""@ + s20;
    let s18 = blit(nvdocker) + s19;
    let s17 = ",\"nvdocker\":"@ + s18;
    let s16 = blit(privileged) + s17;
    lemma_dec_lit("\",\"privileged\":"@, s16);
    lemma_dec_boolean(privileged, s17);
    lemma_dec_lit(",\"nvdocker\":"@, s18);
    lemma_dec_boolean(nvdocker, s19);
    lemma_dec_lit(",\"docker_network\":\""@, s20);
    assert(s21[0] == '"');
    lemma_dec_value_str(docker_network, s21);
    lemma_dec_lit("\"}}"@, rest);
}

#[verifier::spinoff_prover]
proof fn lemma_run2(
    image_name: Seq<char>,
    ssh_port: u16,
    name: Seq<char>,
    user: Seq<char>,
    password: Seq<char>,
    vnc_password: Seq<char>,
    root_password: Seq<char>,
    privileged: bool,
    nvdocker: bool,
    docker_network: Seq<char>,
    rest: Seq<char>,
)
    ensures
        dec_run_rest2(
            run_tail2(
                password,
                vnc_password,
                root_password,
                privileged,
                nvdocker,
                docker_network,
                rest,
            ),
            image_name,
            ssh_port,
            name,
            user,
        ) == Some(
            (
                JobV::RunImage {
                    image_name,
                    ssh_port,
                    name,
                    user,
                    password,
                    vnc_password,
                    root_password,
                    privileged,
                    nvdocker,
                    docker_network,
                },
                rest,
            ),
        ),
{
    reveal_strlit("\",\"password\":\"");
    reveal_strlit("\",\"vnc_password\":\"");
    reveal_strlit("\",\"root_password\":\"");
    reveal_strlit("\",\"privileged\":");
    let s15 = run_tail3(privileged, nvdocker, docker_network, rest);
    let s14 = esc(root_password) + s15;
    let s13 = "\",\"root_password\":\""@ + s14;
    let s12 = esc(vnc_password) + s13;
    let s11 = "\",\"vnc_password\":\""@ + s12;
    let s10 = esc(password) + s11;
    lemma_dec_lit("\",\"password\":\""@, s10);
    assert(s11[0] == '"');
    lemma_dec_value_str(password, s11);
    lemma_dec_lit("\",\"vnc_password\":\""@, s12);
    assert(s13[0] == '"');
    lemma_dec_value_str(vnc_password, s13);
    lemma_dec_lit("\",\"root_password\":\""@, s14);
    assert(s15[0] == '"');
    lemma_dec_value_str(root_password, s15);
    lemma_run3(
        image_name,
        ssh_port,
        name,
        user,
        password,
        vnc_password,
        root_password,
        privileged,
        nvdocker,
        docker_network,
        rest,
    );
}

#[verifier::spinoff_prover]
proof fn lemma_run1(
    image_name: Seq<char>,
    ssh_port: u16,
    name: Seq<char>,
    user: Seq<char>,
    password: Seq<char>,
    vnc_password: Seq<char>,
    root_password: Seq<char>,
    privileged: bool,
    nvdocker: bool,
    docker_network: Seq<char>,
    rest: Seq<char>,
)
    ensures
        dec_run_rest(
            run_tail1(
                image_name,
                ssh_port,
                name,
                user,
                password,
                vnc_password,
                root_password,
                privileged,
                nvdocker,
                docker_network,
                rest,
            ),
        ) == Some(
            (
                JobV::RunImage {
                    image_name,
                    ssh_port,
                    name,
                    user,
                    password,
                    vnc_password,
                    root_password,
                    privileged,
                    nvdocker,
                    docker_network,
                },
                rest,
            ),
        ),
{
    reveal_strlit("\",\"ssh_port\":");
    reveal_strlit(",\"name\":\"");
    reveal_strlit("\",\"user\":\"");
    reveal_strlit("\",\"password\":\"");
    let s9 = run_tail2(
        password,
        vnc_password,
        root_password,
        privileged,
        nvdocker,
        docker_network,
        rest,
    );
    let s8 = esc(user) + s9;
    let s7 = "\",\"user\":\""@ + s8;
    let s6 = esc(name) + s7;
    let s5 = ",\"name\":\""@ + s6;
    let s4 = dec_digits(ssh_port as nat) + s5;
    let s3 = "\",\"ssh_port\":"@ + s4;
    assert(s3[0] == '"');
    lemma_dec_value_str(image_name, s3);
    lemma_dec_lit("\",\"ssh_port\":"@, s4);
    assert(s5[0] == ',');
    lemma_dec_u16(ssh_port, s5);
    lemma_dec_lit(",\"name\":\""@, s6);
    assert(s7[0] == '"');
    lemma_dec_value_str(name, s7);
    lemma_dec_lit("\",\"user\":\""@, s8);
    assert(s9[0] == '"');
    lemma_dec_value_str(user, s9);
    lemma_run2(
        image_name,
        ssh_port,
        name,
        user,
        password,
        vnc_password,
        root_password,
        privileged,
        nvdocker,
        docker_network,
        rest,
    );
}

#[verifier::spinoff_prover]
proof fn lemma_run_assoc(
    image_name: Seq<char>,
    ssh_port: u16,
    name: Seq<char>,
    user: Seq<char>,
    password: Seq<char>,
    vnc_password: Seq<char>,
    root_password: Seq<char>,
    privileged: bool,
    nvdocker: bool,
    docker_network: Seq<char>,
    rest: Seq<char>,
)
    ensures
        enc_job(
            JobV::RunImage {
                image_name,
                ssh_port,
                name,
                user,
                password,
                vnc_password,
                root_password,
                privileged,
                nvdocker,
                docker_network,
            },
        ) + rest == "{\"RunImage\":{\"image_name\":\""@ + run_tail1(
            image_name,
            ssh_port,
            name,
            user,
            password,
            vnc_password,
            root_password,
            privileged,
            nvdocker,
            docker_network,
            rest,
        ),
{
    let t1 = "{\"RunImage\":{\"image_name\":\""@;
    let t2 = esc(image_name);
    let t3 = "\",\"ssh_port\":"@;
    let t4 = dec_digits(ssh_port as nat);
    let t5 = ",\"name\":\""@;
    let t6 = esc(name);
    let t7 = "\",\"user\":\""@;
    let t8 = esc(user);
    let t9 = "\",\"password\":\""@;
    let t10 = esc(password);
    let t11 = "\",\"vnc_password\":\""@;
    let t12 = esc(vnc_password);
    let t13 = "\",\"root_password\":\""@;
    let t14 = esc(root_password);
    let t15 = "\",\"privileged\":"@;
    let t16 = blit(privileged);
    let t17 = ",\"nvdocker\":"@;
    let t18 = blit(nvdocker);
    let t19 = ",\"docker_network\":\""@;
    let t20 = esc(docker_network);
    let t21 = "\"}}"@;
    let l2 = t1 + t2;
    let l3 = l2 + t3;
    let l4 = l3 + t4;
    let l5 = l4 + t5;
    let l6 = l5 + t6;
    let l7 = l6 + t7;
    let l8 = l7 + t8;
    let l9 = l8 + t9;
    let l10 = l9 + t10;
    let l11 = l10 + t11;
    let l12 = l11 + t12;
    let l13 = l12 + t13;
    let l14 = l13 + t14;
    let l15 = l14 + t15;
    let l16 = l15 + t16;
    let l17 = l16 + t17;
    let l18 = l17 + t18;
    let l19 = l18 + t19;
    let l20 = l19 + t20;
    let s21 = t21 + rest;
    let s20 = t20 + s21;
    let s19 = t19 + s20;
    let s18 = t18 + s19;
    let s17 = t17 + s18;
    let s16 = t16 + s17;
    let s15 = t15 + s16;
    let s14 = t14 + s15;
    let s13 = t13 + s14;
    let s12 = t12 + s13;
    let s11 = t11 + s12;
    let s10 = t10 + s11;
    let s9 = t9 + s10;
    let s8 = t8 + s9;
    let s7 = t7 + s8;
    let s6 = t6 + s7;
    let s5 = t5 + s6;
    let s4 = t4 + s5;
    let s3 = t3 + s4;
    lemma_app3(l20, t21, rest);
    lemma_app3(l19, t20, s21);
    lemma_app3(l18, t19, s20);
    lemma_app3(l17, t18, s19);
    lemma_app3(l16, t17, s18);
    lemma_app3(l15, t16, s17);
    lemma_app3(l14, t15, s16);
    lemma_app3(l13, t14, s15);
    lemma_app3(l12, t13, s14);
    lemma_app3(l11, t12, s13);
    lemma_app3(l10, t11, s12);
    lemma_app3(l9, t10, s11);
    lemma_app3(l8, t9, s10);
    lemma_app3(l7, t8, s9);
    lemma_app3(l6, t7, s8);
    lemma_app3(l5, t6, s7);
    lemma_app3(l4, t5, s6);
    lemma_app3(l3, t4, s5);
    lemma_app3(l2, t3, s4);
    lemma_app3(t1, t2, s3);
}

#[verifier::spinoff_prover]
proof fn lemma_dec_enc_run(
    image_name: Seq<char>,
    ssh_port: u16,
    name: Seq<char>,
    user: Seq<char>,
    password: Seq<char>,
    vnc_password: Seq<char>,
    root_password: Seq<char>,
    privileged: bool,
    nvdocker: bool,
    docker_network: Seq<char>,
    rest: Seq<char>,
)
    ensures
        dec_job(
            enc_job(
                JobV::RunImage {
                    image_name,
                    ssh_port,
                    name,
                    user,
                    password,
                    vnc_password,
                    root_password,
                    privileged,
                    nvdocker,
                    docker_network,
                },
            ) + rest,
        ) == Some(
            (
                JobV::RunImage {
                    image_name,
                    ssh_port,
                    name,
                    user,
                    password,
                    vnc_password,
                    root_password,
                    privileged,
                    nvdocker,
                    docker_network,
                },
                rest,
            ),
        ),
{
    let j = JobV::RunImage {
        image_name,
        ssh_port,
        name,
        user,
        password,
        vnc_password,
        root_password,
        privileged,
        nvdocker,
        docker_network,
    };
    let tail = run_tail1(
        image_name,
        ssh_port,
        name,
        user,
        password,
        vnc_password,
        root_password,
        privileged,
        nvdocker,
        docker_network,
        rest,
    );
    lemma_run_assoc(
        image_name,
        ssh_port,
        name,
        user,
        password,
        vnc_password,
        root_password,
        privileged,
        nvdocker,
        docker_network,
        rest,
    );
    lemma_dec_lit("{\"RunImage\":{\"image_name\":\""@, tail);
    lemma_run1(
        image_name,
        ssh_port,
        name,
        user,
        password,
        vnc_password,
        root_password,
        privileged,
        nvdocker,
        docker_network,
        rest,
    );
    assert(dec_job(enc_job(j) + rest) == Some((j, rest)));
}

/// Reading back a written job yields that job and leaves the rest.
pub proof fn lemma_dec_enc_job(j: JobV, rest: Seq<char>)
    ensures
        dec_job(enc_job(j) + rest) == Some((j, rest)),
{
    reveal_strlit("{\"RunImage\":{\"image_name\":\"");
    reveal_strlit("{\"StartContainer\":{\"id\":\"");
    reveal_strlit("{\"StopContainer\":{\"id\":\"");
    reveal_strlit("{\"RemoveContainer\":{\"id\":\"");
    reveal_strlit("{\"RestartContainer\":{\"id\":\"");
    let run_c = "{\"RunImage\":{\"image_name\":\""@;
    let start_c = "{\"StartContainer\":{\"id\":\""@;
    let stop_c = "{\"StopContainer\":{\"id\":\""@;
    let remove_c = "{\"RemoveContainer\":{\"id\":\""@;
    let restart_c = "{\"RestartContainer\":{\"id\":\""@;
    match j {
        JobV::RunImage {
            image_name,
            ssh_port,
            name,
            user,
            password,
            vnc_password,
            root_password,
            privileged,
            nvdocker,
            docker_network,
        } => {
            lemma_dec_enc_run(
                image_name,
                ssh_port,
                name,
                user,
                password,
                vnc_password,
                root_password,
                privileged,
                nvdocker,
                docker_network,
                rest,
            );
        },
        JobV::StartContainer { id } => {
            let s = enc_job(j) + rest;
            lemma_id_shape(start_c, id, rest);
            assert(s[2] == 'S');
            lemma_not_lit(s, run_c, 2);
            lemma_dec_id_rest(id, rest);
        },
        JobV::StopContainer { id } => {
            let s = enc_job(j) + rest;
            lemma_id_shape(stop_c, id, rest);
            assert(s[2] == 'S');
            assert(s[4] == 'o');
            lemma_not_lit(s, run_c, 2);
            lemma_not_lit(s, start_c, 4);
            lemma_dec_id_rest(id, rest);
        },
        JobV::RemoveContainer { id } => {
            let s = enc_job(j) + rest;
            lemma_id_shape(remove_c, id, rest);
            assert(s[2] == 'R');
            assert(s[3] == 'e');
            lemma_not_lit(s, run_c, 3);
            lemma_not_lit(s, start_c, 2);
            lemma_not_lit(s, stop_c, 2);
            lemma_dec_id_rest(id, rest);
        },
        JobV::RestartContainer { id } => {
            let s = enc_job(j) + rest;
            lemma_id_shape(restart_c, id, rest);
            assert(s[3] == 'e');
            assert(s[4] == 's');
            lemma_not_lit(s, run_c, 3);
            lemma_not_lit(s, start_c, 2);
            lemma_not_lit(s, stop_c, 2);
            lemma_not_lit(s, remove_c, 4);
            lemma_dec_id_rest(id, rest);
        },
    }
}

/// Reading back a written payload yields exactly the task that was written:
/// the codec loses nothing and invents nothing.
pub proof fn lemma_dec_enc_task(t: TaskV)
    ensures
        dec_task(enc_task(t)) == Some(t),
{
    reveal_strlit("{\"task_id\":\"");
    reveal_strlit("\",\"job\":");
    reveal_strlit("}");
    let u1 = "{\"task_id\":\""@;
    let u2 = esc(t.task_id);
    let u3 = "\",\"job\":"@;
    let u4 = enc_job(t.job);
    let u5 = "}"@;
    let s4 = u4 + u5;
    let s3 = u3 + s4;
    let s2 = u2 + s3;
    lemma_app3(((u1 + u2) + u3), u4, u5);
    lemma_app3((u1 + u2), u3, s4);
    lemma_app3(u1, u2, s3);
    assert(enc_task(t) == u1 + s2);
    lemma_dec_lit(u1, s2);
    assert(s3[0] == '"');
    lemma_dec_value_str(t.task_id, s3);
    lemma_dec_lit(u3, s4);
    lemma_dec_enc_job(t.job, u5);
    assert(u5 =~= u5 + Seq::<char>::empty());
    lemma_dec_lit(u5, Seq::<char>::empty());
    assert(dec_lit(u5, u5) == Some(Seq::<char>::empty()));
    assert(dec_task(enc_task(t)) == Some(TaskV { task_id: t.task_id, job: t.job }));
    assert(TaskV { task_id: t.task_id, job: t.job } == t);
}

} // verus!
