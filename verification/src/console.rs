//! Per-connection console session state machine.
//!
//! A connection starts unauthenticated; the first frame must carry a
//! non-empty token, which is checked outside (credential verification and
//! user lookup are collaborators). Once authenticated, a `shell` or
//! `attach` control message opens exactly one session against a running
//! container; `pty_input` relays bytes to the session's stdin, `pty_resize`
//! resizes a shell's terminal, and any teardown path ends in `Terminated`
//! with the session's cleanup issued at most once.
//!
//! `console_step_v` is the machine's definition; `console_step` is its
//! executable form. The surrounding connection loop performs the returned
//! actions and feeds their outcomes back as events.

use vstd::prelude::*;

use crate::text::{push_char, push_str};

verus! {

/// How a session talks to the container: an interactive exec running a
/// shell, or a raw attach to the main process's streams.
#[derive(Clone, Copy, PartialEq, Eq, Structural)]
pub enum SessionMode {
    Shell,
    Attach,
}

/// The `size` member of a `pty_resize` payload; absent fields fall back to
/// 24 rows by 80 columns.
#[derive(Clone, Copy, PartialEq, Eq, Structural)]
pub struct PtySize {
    pub rows: Option<u64>,
    pub cols: Option<u64>,
}

/// A parsed inbound control frame: whichever of the known members were
/// present, as plain values.
pub struct ConsoleMsg {
    pub token: Option<String>,
    pub action: Option<String>,
    pub payload_id: Option<String>,
    pub payload_input: Option<String>,
    pub payload_size: Option<PtySize>,
}

/// Mathematical view of a control frame.
pub struct ConsoleMsgV {
    pub token: Option<Seq<char>>,
    pub action: Option<Seq<char>>,
    pub payload_id: Option<Seq<char>>,
    pub payload_input: Option<Seq<char>>,
    pub payload_size: Option<PtySize>,
}

/// The view of an optional owned string.
pub open spec fn opt_view(o: Option<String>) -> Option<Seq<char>> {
    match o {
        Some(s) => Some(s@),
        None => None,
    }
}

impl View for ConsoleMsg {
    type V = ConsoleMsgV;

    open spec fn view(&self) -> ConsoleMsgV {
        ConsoleMsgV {
            token: opt_view(self.token),
            action: opt_view(self.action),
            payload_id: opt_view(self.payload_id),
            payload_input: opt_view(self.payload_input),
            payload_size: self.payload_size,
        }
    }
}

/// An open session: the container, the mode, and (for a shell) the exec id
/// and the sentinel file that records the inner shell's process id.
pub struct SessionRec {
    pub container_id: String,
    pub mode: SessionMode,
    pub exec_id: Option<String>,
    pub pid_path: Option<String>,
}

/// Mathematical view of a session.
pub struct SessionV {
    pub container_id: Seq<char>,
    pub mode: SessionMode,
    pub exec_id: Option<Seq<char>>,
    pub pid_path: Option<Seq<char>>,
}

impl View for SessionRec {
    type V = SessionV;

    open spec fn view(&self) -> SessionV {
        SessionV {
            container_id: self.container_id@,
            mode: self.mode,
            exec_id: opt_view(self.exec_id),
            pid_path: opt_view(self.pid_path),
        }
    }
}

/// The connection's state.
pub enum ConsoleState {
    /// No frame received yet; not authenticated.
    Connected,
    /// First frame held while its token is checked outside.
    AuthPending { pending: ConsoleMsg },
    /// Authenticated, no session open.
    Authed,
    /// A session start was requested; waiting for its outcome. `prev` is
    /// the session this one replaces, if any.
    StartPending { mode: SessionMode, container_id: String, prev: Option<SessionRec> },
    /// A session is open.
    Active { session: SessionRec },
    /// The connection is finished; nothing further happens.
    Terminated,
}

/// Mathematical view of the connection's state.
pub enum ConsoleStateV {
    Connected,
    AuthPending { pending: ConsoleMsgV },
    Authed,
    StartPending { mode: SessionMode, container_id: Seq<char>, prev: Option<SessionV> },
    Active { session: SessionV },
    Terminated,
}

impl View for ConsoleState {
    type V = ConsoleStateV;

    open spec fn view(&self) -> ConsoleStateV {
        match self {
            ConsoleState::Connected => ConsoleStateV::Connected,
            ConsoleState::AuthPending { pending } => ConsoleStateV::AuthPending {
                pending: pending@,
            },
            ConsoleState::Authed => ConsoleStateV::Authed,
            ConsoleState::StartPending { mode, container_id, prev } => {
                ConsoleStateV::StartPending {
                    mode: *mode,
                    container_id: container_id@,
                    prev: match prev {
                        Some(s) => Some(s@),
                        None => None,
                    },
                }
            },
            ConsoleState::Active { session } => ConsoleStateV::Active { session: session@ },
            ConsoleState::Terminated => ConsoleStateV::Terminated,
        }
    }
}

/// What happened on the connection or around it.
pub enum ConsoleEvent {
    /// A decodable text frame arrived, already parsed.
    Frame(ConsoleMsg),
    /// The outcome of a `CheckAuth` action: token valid and user known.
    AuthResult(bool),
    /// A requested session was opened; a shell start carries the exec id
    /// and the sentinel path, an attach start carries neither.
    SessionStarted { exec_id: Option<String>, pid_path: Option<String> },
    /// A requested session could not be opened (container not running, or
    /// the runtime refused).
    SessionFailed,
    /// The session's output stream ended or failed.
    StreamEnded,
    /// The transport closed, or the receive loop ended for any reason.
    Disconnected,
}

/// Mathematical view of an event.
pub enum ConsoleEventV {
    Frame(ConsoleMsgV),
    AuthResult(bool),
    SessionStarted { exec_id: Option<Seq<char>>, pid_path: Option<Seq<char>> },
    SessionFailed,
    StreamEnded,
    Disconnected,
}

impl View for ConsoleEvent {
    type V = ConsoleEventV;

    open spec fn view(&self) -> ConsoleEventV {
        match self {
            ConsoleEvent::Frame(m) => ConsoleEventV::Frame(m@),
            ConsoleEvent::AuthResult(b) => ConsoleEventV::AuthResult(*b),
            ConsoleEvent::SessionStarted { exec_id, pid_path } => ConsoleEventV::SessionStarted {
                exec_id: opt_view(*exec_id),
                pid_path: opt_view(*pid_path),
            },
            ConsoleEvent::SessionFailed => ConsoleEventV::SessionFailed,
            ConsoleEvent::StreamEnded => ConsoleEventV::StreamEnded,
            ConsoleEvent::Disconnected => ConsoleEventV::Disconnected,
        }
    }
}

/// What the connection loop must do next.
pub enum ConsoleAction {
    /// Verify the token and look its user up; answer with `AuthResult`.
    CheckAuth { token: String },
    /// Close the connection with a policy-violation close frame.
    CloseUnauthorized,
    /// If the container runs, create and start an interactive shell exec
    /// in it and spawn the output forwarder; answer with `SessionStarted`
    /// or `SessionFailed`.
    StartShell { container_id: String },
    /// If the container runs, attach to its main process's streams and
    /// spawn the output forwarder; answer with `SessionStarted` or
    /// `SessionFailed`.
    StartAttach { container_id: String },
    /// Write these bytes to the session's stdin and flush.
    WriteStdin { input: String },
    /// Resize the exec's terminal.
    Resize { exec_id: String, rows: u16, cols: u16 },
    /// Close the connection with a normal close frame.
    SendClose,
    /// Best effort: kill the process named by the sentinel file and remove
    /// the file; every error is ignored.
    Cleanup { container_id: String, pid_path: String },
}

/// Mathematical view of an action.
pub enum ConsoleActionV {
    CheckAuth { token: Seq<char> },
    CloseUnauthorized,
    StartShell { container_id: Seq<char> },
    StartAttach { container_id: Seq<char> },
    WriteStdin { input: Seq<char> },
    Resize { exec_id: Seq<char>, rows: u16, cols: u16 },
    SendClose,
    Cleanup { container_id: Seq<char>, pid_path: Seq<char> },
}

impl View for ConsoleAction {
    type V = ConsoleActionV;

    open spec fn view(&self) -> ConsoleActionV {
        match self {
            ConsoleAction::CheckAuth { token } => ConsoleActionV::CheckAuth { token: token@ },
            ConsoleAction::CloseUnauthorized => ConsoleActionV::CloseUnauthorized,
            ConsoleAction::StartShell { container_id } => ConsoleActionV::StartShell {
                container_id: container_id@,
            },
            ConsoleAction::StartAttach { container_id } => ConsoleActionV::StartAttach {
                container_id: container_id@,
            },
            ConsoleAction::WriteStdin { input } => ConsoleActionV::WriteStdin { input: input@ },
            ConsoleAction::Resize { exec_id, rows, cols } => ConsoleActionV::Resize {
                exec_id: exec_id@,
                rows: *rows,
                cols: *cols,
            },
            ConsoleAction::SendClose => ConsoleActionV::SendClose,
            ConsoleAction::Cleanup { container_id, pid_path } => ConsoleActionV::Cleanup {
                container_id: container_id@,
                pid_path: pid_path@,
            },
        }
    }
}

impl DeepView for ConsoleAction {
    type V = ConsoleActionV;

    open spec fn deep_view(&self) -> ConsoleActionV {
        self.view()
    }
}

// ---------------------------------------------------------------------------
// The machine.
// ---------------------------------------------------------------------------

/// The session an authenticated state holds, if any.
pub open spec fn session_of(s: ConsoleStateV) -> Option<SessionV> {
    match s {
        ConsoleStateV::Active { session } => Some(session),
        _ => None,
    }
}

/// The cleanup a session requires on teardown: one best-effort kill of the
/// sentinel process for a shell session, nothing for an attach session.
pub open spec fn cleanup_of(s: Option<SessionV>) -> Seq<ConsoleActionV> {
    match s {
        Some(sess) => match sess.pid_path {
            Some(p) => seq![
                ConsoleActionV::Cleanup { container_id: sess.container_id, pid_path: p },
            ],
            None => Seq::empty(),
        },
        None => Seq::empty(),
    }
}

/// Teardown after a handling error: the receive loop ends, the session (if
/// any) is cleaned up, and the connection is finished.
pub open spec fn fail_v(s: ConsoleStateV) -> (ConsoleStateV, Seq<ConsoleActionV>) {
    (ConsoleStateV::Terminated, cleanup_of(session_of(s)))
}

/// The rows a resize asks for; 24 when absent, truncated as written.
pub open spec fn rows_of(sz: PtySize) -> u16 {
    match sz.rows {
        Some(r) => (r % 65536) as u16,
        None => 24,
    }
}

/// The columns a resize asks for; 80 when absent, truncated as written.
pub open spec fn cols_of(sz: PtySize) -> u16 {
    match sz.cols {
        Some(c) => (c % 65536) as u16,
        None => 80,
    }
}

/// Handles one control frame in an authenticated state `base` (with or
/// without an open session):
/// - `shell`/`attach` with an `Id` request a new session, keeping the old
///   one aside; without an `Id` they tear the connection down;
/// - `pty_input` writes to the open session's stdin, is ignored without a
///   session, and tears down when the `input` member is missing;
/// - `pty_resize` resizes an open shell session, is ignored without one,
///   and tears down when the `size` member is missing;
/// - any other action is ignored.
pub open spec fn dispatch_v(base: ConsoleStateV, m: ConsoleMsgV) -> (
    ConsoleStateV,
    Seq<ConsoleActionV>,
) {
    match m.action {
        None => (base, Seq::empty()),
        Some(a) => if a == "shell"@ {
            match m.payload_id {
                Some(id) => (
                    ConsoleStateV::StartPending {
                        mode: SessionMode::Shell,
                        container_id: id,
                        prev: session_of(base),
                    },
                    seq![ConsoleActionV::StartShell { container_id: id }],
                ),
                None => fail_v(base),
            }
        } else if a == "attach"@ {
            match m.payload_id {
                Some(id) => (
                    ConsoleStateV::StartPending {
                        mode: SessionMode::Attach,
                        container_id: id,
                        prev: session_of(base),
                    },
                    seq![ConsoleActionV::StartAttach { container_id: id }],
                ),
                None => fail_v(base),
            }
        } else if a == "pty_input"@ {
            match m.payload_input {
                None => fail_v(base),
                Some(input) => match session_of(base) {
                    Some(_) => (base, seq![ConsoleActionV::WriteStdin { input }]),
                    None => (base, Seq::empty()),
                },
            }
        } else if a == "pty_resize"@ {
            match m.payload_size {
                None => fail_v(base),
                Some(sz) => match session_of(base) {
                    Some(sess) => match sess.exec_id {
                        Some(e) => (
                            base,
                            seq![
                                ConsoleActionV::Resize {
                                    exec_id: e,
                                    rows: rows_of(sz),
                                    cols: cols_of(sz),
                                },
                            ],
                        ),
                        None => (base, Seq::empty()),
                    },
                    None => (base, Seq::empty()),
                },
            }
        } else {
            (base, Seq::empty())
        },
    }
}

/// One step of the connection machine: from a state and an event to the
/// next state and the actions the loop must perform, in order.
pub open spec fn console_step_v(s: ConsoleStateV, e: ConsoleEventV) -> (
    ConsoleStateV,
    Seq<ConsoleActionV>,
) {
    match s {
        ConsoleStateV::Connected => match e {
            ConsoleEventV::Frame(m) => match m.token {
                Some(t) => if t.len() > 0 {
                    (
                        ConsoleStateV::AuthPending { pending: m },
                        seq![ConsoleActionV::CheckAuth { token: t }],
                    )
                } else {
                    (ConsoleStateV::Terminated, seq![ConsoleActionV::CloseUnauthorized])
                },
                None => (ConsoleStateV::Terminated, seq![ConsoleActionV::CloseUnauthorized]),
            },
            ConsoleEventV::Disconnected => (ConsoleStateV::Terminated, Seq::empty()),
            _ => (s, Seq::empty()),
        },
        ConsoleStateV::AuthPending { pending } => match e {
            ConsoleEventV::AuthResult(ok) => if ok {
                dispatch_v(ConsoleStateV::Authed, pending)
            } else {
                (ConsoleStateV::Terminated, seq![ConsoleActionV::CloseUnauthorized])
            },
            ConsoleEventV::Disconnected => (ConsoleStateV::Terminated, Seq::empty()),
            _ => (s, Seq::empty()),
        },
        ConsoleStateV::Authed => match e {
            ConsoleEventV::Frame(m) => dispatch_v(ConsoleStateV::Authed, m),
            ConsoleEventV::Disconnected => (ConsoleStateV::Terminated, Seq::empty()),
            _ => (s, Seq::empty()),
        },
        ConsoleStateV::StartPending { mode, container_id, prev } => match e {
            ConsoleEventV::SessionStarted { exec_id, pid_path } => (
                ConsoleStateV::Active {
                    session: SessionV { container_id, mode, exec_id, pid_path },
                },
                Seq::empty(),
            ),
            ConsoleEventV::SessionFailed => (ConsoleStateV::Terminated, cleanup_of(prev)),
            ConsoleEventV::Disconnected => (ConsoleStateV::Terminated, cleanup_of(prev)),
            ConsoleEventV::StreamEnded => (s, seq![ConsoleActionV::SendClose]),
            _ => (s, Seq::empty()),
        },
        ConsoleStateV::Active { session } => match e {
            ConsoleEventV::Frame(m) => dispatch_v(s, m),
            ConsoleEventV::StreamEnded => (s, seq![ConsoleActionV::SendClose]),
            ConsoleEventV::Disconnected => (
                ConsoleStateV::Terminated,
                cleanup_of(Some(session)),
            ),
            _ => (s, Seq::empty()),
        },
        ConsoleStateV::Terminated => (ConsoleStateV::Terminated, Seq::empty()),
    }
}

// ---------------------------------------------------------------------------
// The executable machine.
// ---------------------------------------------------------------------------

/// Takes the open session out of a state, if it holds one.
fn take_session(base: ConsoleState) -> (r: Option<SessionRec>)
    ensures
        match r {
            Some(s) => session_of(base@) == Some(s@),
            None => session_of(base@) is None,
        },
{
    match base {
        ConsoleState::Active { session } => Some(session),
        _ => None,
    }
}

/// The cleanup actions a session requires on teardown.
fn cleanup_actions(s: Option<SessionRec>) -> (r: Vec<ConsoleAction>)
    ensures
        r.deep_view() == cleanup_of(
            match s {
                Some(sess) => Some(sess@),
                None => None,
            },
        ),
{
    let mut out: Vec<ConsoleAction> = Vec::new();
    match s {
        Some(sess) => match sess.pid_path {
            Some(p) => {
                out.push(
                    ConsoleAction::Cleanup { container_id: sess.container_id, pid_path: p },
                );
                proof {
                    assert(out.deep_view() =~= cleanup_of(Some(sess@)));
                }
            },
            None => {
                proof {
                    assert(out.deep_view() =~= Seq::<ConsoleActionV>::empty());
                }
            },
        },
        None => {
            proof {
                assert(out.deep_view() =~= Seq::<ConsoleActionV>::empty());
            }
        },
    }
    out
}

/// Tears the connection down after a handling error.
fn fail_step(base: ConsoleState) -> (r: (ConsoleState, Vec<ConsoleAction>))
    ensures
        r.0@ == fail_v(base@).0,
        r.1.deep_view() == fail_v(base@).1,
{
    let acts = cleanup_actions(take_session(base));
    (ConsoleState::Terminated, acts)
}

/// Handles one control frame in an authenticated state.
fn dispatch(base: ConsoleState, m: ConsoleMsg) -> (r: (ConsoleState, Vec<ConsoleAction>))
    ensures
        r.0@ == dispatch_v(base@, m@).0,
        r.1.deep_view() == dispatch_v(base@, m@).1,
{
    proof {
        reveal_strlit("shell");
        reveal_strlit("attach");
        reveal_strlit("pty_input");
        reveal_strlit("pty_resize");
        assert("shell"@.len() == 5 && "attach"@.len() == 6 && "pty_input"@.len() == 9
            && "pty_resize"@.len() == 10);
    }
    let action = match m.action {
        Some(a) => a,
        None => {
            let empty: Vec<ConsoleAction> = Vec::new();
            proof {
                assert(empty.deep_view() =~= Seq::<ConsoleActionV>::empty());
            }
            return (base, empty);
        },
    };
    if action == String::from_str("shell") {
        match m.payload_id {
            Some(id) => {
                let prev = take_session(base);
                let mut acts: Vec<ConsoleAction> = Vec::new();
                acts.push(ConsoleAction::StartShell { container_id: id.clone() });
                proof {
                    assert(acts.deep_view() =~= seq![
                        ConsoleActionV::StartShell { container_id: id@ },
                    ]);
                }
                (
                    ConsoleState::StartPending {
                        mode: SessionMode::Shell,
                        container_id: id,
                        prev,
                    },
                    acts,
                )
            },
            None => fail_step(base),
        }
    } else if action == String::from_str("attach") {
        match m.payload_id {
            Some(id) => {
                let prev = take_session(base);
                let mut acts: Vec<ConsoleAction> = Vec::new();
                acts.push(ConsoleAction::StartAttach { container_id: id.clone() });
                proof {
                    assert(acts.deep_view() =~= seq![
                        ConsoleActionV::StartAttach { container_id: id@ },
                    ]);
                }
                (
                    ConsoleState::StartPending {
                        mode: SessionMode::Attach,
                        container_id: id,
                        prev,
                    },
                    acts,
                )
            },
            None => fail_step(base),
        }
    } else if action == String::from_str("pty_input") {
        match m.payload_input {
            None => fail_step(base),
            Some(input) => {
                let has_session = matches!(&base, ConsoleState::Active { .. });
                let mut acts: Vec<ConsoleAction> = Vec::new();
                if has_session {
                    acts.push(ConsoleAction::WriteStdin { input });
                    proof {
                        assert(acts.deep_view() =~= dispatch_v(base@, m@).1);
                    }
                } else {
                    proof {
                        assert(acts.deep_view() =~= Seq::<ConsoleActionV>::empty());
                    }
                }
                (base, acts)
            },
        }
    } else if action == String::from_str("pty_resize") {
        match m.payload_size {
            None => fail_step(base),
            Some(sz) => {
                let exec_id: Option<String> = match &base {
                    ConsoleState::Active { session } => match &session.exec_id {
                        Some(e) => Some(e.clone()),
                        None => None,
                    },
                    _ => None,
                };
                let mut acts: Vec<ConsoleAction> = Vec::new();
                match exec_id {
                    Some(e) => {
                        let rows: u16 = match sz.rows {
                            Some(r) => (r % 65536) as u16,
                            None => 24,
                        };
                        let cols: u16 = match sz.cols {
                            Some(c) => (c % 65536) as u16,
                            None => 80,
                        };
                        acts.push(ConsoleAction::Resize { exec_id: e, rows, cols });
                        proof {
                            assert(acts.deep_view() =~= dispatch_v(base@, m@).1);
                        }
                    },
                    None => {
                        proof {
                            assert(acts.deep_view() =~= Seq::<ConsoleActionV>::empty());
                        }
                    },
                }
                (base, acts)
            },
        }
    } else {
        let empty: Vec<ConsoleAction> = Vec::new();
        proof {
            assert(empty.deep_view() =~= Seq::<ConsoleActionV>::empty());
        }
        (base, empty)
    }
}

/// One step of the connection machine, as run by the connection loop: the
/// next state and the actions to perform, exactly as `console_step_v` says.
pub fn console_step(state: ConsoleState, event: ConsoleEvent) -> (r: (
    ConsoleState,
    Vec<ConsoleAction>,
))
    ensures
        r.0@ == console_step_v(state@, event@).0,
        r.1.deep_view() == console_step_v(state@, event@).1,
{
    let ghost sv = state@;
    let ghost ev = event@;
    match state {
        ConsoleState::Connected => match event {
            ConsoleEvent::Frame(m) => {
                let token_ok: Option<String> = match &m.token {
                    Some(t) => if t.as_str().unicode_len() > 0 {
                        Some(t.clone())
                    } else {
                        None
                    },
                    None => None,
                };
                match token_ok {
                    Some(t) => {
                        let mut acts: Vec<ConsoleAction> = Vec::new();
                        acts.push(ConsoleAction::CheckAuth { token: t });
                        proof {
                            assert(acts.deep_view() =~= console_step_v(sv, ev).1);
                        }
                        (ConsoleState::AuthPending { pending: m }, acts)
                    },
                    None => {
                        let mut acts: Vec<ConsoleAction> = Vec::new();
                        acts.push(ConsoleAction::CloseUnauthorized);
                        proof {
                            assert(acts.deep_view() =~= seq![ConsoleActionV::CloseUnauthorized]);
                        }
                        (ConsoleState::Terminated, acts)
                    },
                }
            },
            ConsoleEvent::Disconnected => {
                let empty: Vec<ConsoleAction> = Vec::new();
                proof {
                    assert(empty.deep_view() =~= Seq::<ConsoleActionV>::empty());
                }
                (ConsoleState::Terminated, empty)
            },
            _ => {
                let empty: Vec<ConsoleAction> = Vec::new();
                proof {
                    assert(empty.deep_view() =~= Seq::<ConsoleActionV>::empty());
                }
                (ConsoleState::Connected, empty)
            },
        },
        ConsoleState::AuthPending { pending } => match event {
            ConsoleEvent::AuthResult(ok) => if ok {
                dispatch(ConsoleState::Authed, pending)
            } else {
                let mut acts: Vec<ConsoleAction> = Vec::new();
                acts.push(ConsoleAction::CloseUnauthorized);
                proof {
                    assert(acts.deep_view() =~= seq![ConsoleActionV::CloseUnauthorized]);
                }
                (ConsoleState::Terminated, acts)
            },
            ConsoleEvent::Disconnected => {
                let empty: Vec<ConsoleAction> = Vec::new();
                proof {
                    assert(empty.deep_view() =~= Seq::<ConsoleActionV>::empty());
                }
                (ConsoleState::Terminated, empty)
            },
            _ => {
                let empty: Vec<ConsoleAction> = Vec::new();
                proof {
                    assert(empty.deep_view() =~= Seq::<ConsoleActionV>::empty());
                }
                (ConsoleState::AuthPending { pending }, empty)
            },
        },
        ConsoleState::Authed => match event {
            ConsoleEvent::Frame(m) => dispatch(ConsoleState::Authed, m),
            ConsoleEvent::Disconnected => {
                let empty: Vec<ConsoleAction> = Vec::new();
                proof {
                    assert(empty.deep_view() =~= Seq::<ConsoleActionV>::empty());
                }
                (ConsoleState::Terminated, empty)
            },
            _ => {
                let empty: Vec<ConsoleAction> = Vec::new();
                proof {
                    assert(empty.deep_view() =~= Seq::<ConsoleActionV>::empty());
                }
                (ConsoleState::Authed, empty)
            },
        },
        ConsoleState::StartPending { mode, container_id, prev } => match event {
            ConsoleEvent::SessionStarted { exec_id, pid_path } => {
                let empty: Vec<ConsoleAction> = Vec::new();
                proof {
                    assert(empty.deep_view() =~= Seq::<ConsoleActionV>::empty());
                }
                (
                    ConsoleState::Active {
                        session: SessionRec { container_id, mode, exec_id, pid_path },
                    },
                    empty,
                )
            },
            ConsoleEvent::SessionFailed => {
                let acts = cleanup_actions(prev);
                (ConsoleState::Terminated, acts)
            },
            ConsoleEvent::Disconnected => {
                let acts = cleanup_actions(prev);
                (ConsoleState::Terminated, acts)
            },
            ConsoleEvent::StreamEnded => {
                let mut acts: Vec<ConsoleAction> = Vec::new();
                acts.push(ConsoleAction::SendClose);
                proof {
                    assert(acts.deep_view() =~= seq![ConsoleActionV::SendClose]);
                }
                (ConsoleState::StartPending { mode, container_id, prev }, acts)
            },
            _ => {
                let empty: Vec<ConsoleAction> = Vec::new();
                proof {
                    assert(empty.deep_view() =~= Seq::<ConsoleActionV>::empty());
                }
                (ConsoleState::StartPending { mode, container_id, prev }, empty)
            },
        },
        ConsoleState::Active { session } => match event {
            ConsoleEvent::Frame(m) => dispatch(ConsoleState::Active { session }, m),
            ConsoleEvent::StreamEnded => {
                let mut acts: Vec<ConsoleAction> = Vec::new();
                acts.push(ConsoleAction::SendClose);
                proof {
                    assert(acts.deep_view() =~= seq![ConsoleActionV::SendClose]);
                }
                (ConsoleState::Active { session }, acts)
            },
            ConsoleEvent::Disconnected => {
                let acts = cleanup_actions(Some(session));
                (ConsoleState::Terminated, acts)
            },
            _ => {
                let empty: Vec<ConsoleAction> = Vec::new();
                proof {
                    assert(empty.deep_view() =~= Seq::<ConsoleActionV>::empty());
                }
                (ConsoleState::Active { session }, empty)
            },
        },
        ConsoleState::Terminated => {
            let empty: Vec<ConsoleAction> = Vec::new();
            proof {
                assert(empty.deep_view() =~= Seq::<ConsoleActionV>::empty());
            }
            (ConsoleState::Terminated, empty)
        },
    }
}

// ---------------------------------------------------------------------------
// Runs and their laws.
// ---------------------------------------------------------------------------

/// A run of the machine: the state after all events, and every action
/// issued along the way, in order.
pub open spec fn console_run_v(s: ConsoleStateV, events: Seq<ConsoleEventV>) -> (
    ConsoleStateV,
    Seq<ConsoleActionV>,
)
    decreases events.len(),
{
    if events.len() == 0 {
        (s, Seq::empty())
    } else {
        let first = console_step_v(s, events[0]);
        let rest = console_run_v(first.0, events.skip(1));
        (rest.0, first.1 + rest.1)
    }
}

/// A first frame whose token is missing or empty closes the connection as
/// unauthorized and does nothing else: no credential check, no session
/// request, whatever else the frame carries — even an embedded `shell` or
/// `attach` payload.
pub proof fn lemma_unauthenticated_first_frame(m: ConsoleMsgV)
    requires
        match m.token {
            Some(t) => t.len() == 0,
            None => true,
        },
    ensures
        console_step_v(ConsoleStateV::Connected, ConsoleEventV::Frame(m)) == (
            ConsoleStateV::Terminated,
            seq![ConsoleActionV::CloseUnauthorized],
        ),
{
}

/// The bytes a sequence of actions writes to the session's stdin, in order.
pub open spec fn stdin_of(a: Seq<ConsoleActionV>) -> Seq<char>
    decreases a.len(),
{
    if a.len() == 0 {
        Seq::empty()
    } else {
        (match a[0] {
            ConsoleActionV::WriteStdin { input } => input,
            _ => Seq::empty(),
        }) + stdin_of(a.skip(1))
    }
}

/// An event that is a well-formed `pty_input` or `pty_resize` frame.
pub open spec fn pty_frame(e: ConsoleEventV) -> bool {
    match e {
        ConsoleEventV::Frame(m) => match m.action {
            Some(a) => (a == "pty_input"@ && m.payload_input is Some) || (a == "pty_resize"@
                && m.payload_size is Some),
            None => false,
        },
        _ => false,
    }
}

/// The bytes a sequence of events offers through `pty_input` frames.
pub open spec fn inputs_of(events: Seq<ConsoleEventV>) -> Seq<char>
    decreases events.len(),
{
    if events.len() == 0 {
        Seq::empty()
    } else {
        (match events[0] {
            ConsoleEventV::Frame(m) => match m.action {
                Some(a) => if a == "pty_input"@ {
                    match m.payload_input {
                        Some(i) => i,
                        None => Seq::empty(),
                    }
                } else {
                    Seq::empty()
                },
                None => Seq::empty(),
            },
            _ => Seq::empty(),
        }) + inputs_of(events.skip(1))
    }
}

proof fn lemma_stdin_concat(a: Seq<ConsoleActionV>, b: Seq<ConsoleActionV>)
    ensures
        stdin_of(a + b) == stdin_of(a) + stdin_of(b),
    decreases a.len(),
{
    if a.len() == 0 {
        assert(a + b =~= b);
        assert(stdin_of(a) + stdin_of(b) =~= stdin_of(b));
    } else {
        assert((a + b)[0] == a[0]);
        assert((a + b).skip(1) =~= a.skip(1) + b);
        lemma_stdin_concat(a.skip(1), b);
        assert(stdin_of(a + b) =~= stdin_of(a) + stdin_of(b));
    }
}

/// Over an open session, a run of pty traffic writes exactly the offered
/// input bytes, in order, to the session's stdin — interleaved resize
/// requests neither add nor drop a byte — and leaves the session as it
/// was.
pub proof fn lemma_pty_stream(sess: SessionV, events: Seq<ConsoleEventV>)
    requires
        forall|i: int| 0 <= i < events.len() ==> pty_frame(#[trigger] events[i]),
    ensures
        console_run_v((ConsoleStateV::Active { session: sess }), events).0 == (
        ConsoleStateV::Active { session: sess }),
        stdin_of(console_run_v((ConsoleStateV::Active { session: sess }), events).1)
            == inputs_of(events),
    decreases events.len(),
{
    reveal_strlit("shell");
    reveal_strlit("attach");
    reveal_strlit("pty_input");
    reveal_strlit("pty_resize");
    assert("shell"@.len() == 5 && "attach"@.len() == 6 && "pty_input"@.len() == 9
        && "pty_resize"@.len() == 10);
    let s0 = ConsoleStateV::Active { session: sess };
    if events.len() == 0 {
        assert(stdin_of(Seq::<ConsoleActionV>::empty()) =~= Seq::<char>::empty());
        assert(inputs_of(events) =~= Seq::<char>::empty());
    } else {
        assert(pty_frame(events[0]));
        let first = console_step_v(s0, events[0]);
        assert(stdin_of(Seq::<ConsoleActionV>::empty()) == Seq::<char>::empty());
        match events[0] {
            ConsoleEventV::Frame(m) => {
                match m.action {
                    Some(a) => {
                        if a == "pty_input"@ {
                            match m.payload_input {
                                Some(input) => {
                                    assert(first == (
                                        s0,
                                        seq![ConsoleActionV::WriteStdin { input }],
                                    ));
                                    assert(seq![ConsoleActionV::WriteStdin { input }].skip(1)
                                        =~= Seq::<ConsoleActionV>::empty());
                                    assert(stdin_of(first.1) =~= input);
                                },
                                None => {
                                    assert(false);
                                },
                            }
                        } else {
                            assert(a == "pty_resize"@);
                            assert(first.0 == s0);
                            match m.payload_size {
                                Some(sz) => {
                                    match sess.exec_id {
                                        Some(e2) => {
                                            let rz = ConsoleActionV::Resize {
                                                exec_id: e2,
                                                rows: rows_of(sz),
                                                cols: cols_of(sz),
                                            };
                                            assert(first.1 == seq![rz]);
                                            assert(seq![rz].skip(1) =~= Seq::<
                                                ConsoleActionV,
                                            >::empty());
                                            assert(stdin_of(first.1) =~= Seq::<char>::empty());
                                        },
                                        None => {
                                            assert(stdin_of(first.1) =~= Seq::<char>::empty());
                                        },
                                    }
                                },
                                None => {
                                    assert(false);
                                },
                            }
                        }
                    },
                    None => {
                        assert(false);
                    },
                }
            },
            _ => {
                assert(false);
            },
        }
        assert(first.0 == s0);
        assert(forall|i: int|
            0 <= i < events.skip(1).len() ==> pty_frame(#[trigger] events.skip(1)[i]));
        lemma_pty_stream(sess, events.skip(1));
        let rest = console_run_v(s0, events.skip(1));
        lemma_stdin_concat(first.1, rest.1);
        assert(stdin_of(first.1) + stdin_of(rest.1) == inputs_of(events));
    }
}

/// The number of cleanup actions in a sequence.
pub open spec fn cleanup_count(a: Seq<ConsoleActionV>) -> nat
    decreases a.len(),
{
    if a.len() == 0 {
        0
    } else {
        (match a[0] {
            ConsoleActionV::Cleanup { .. } => 1nat,
            _ => 0nat,
        }) + cleanup_count(a.skip(1))
    }
}

proof fn lemma_cleanup_count_concat(a: Seq<ConsoleActionV>, b: Seq<ConsoleActionV>)
    ensures
        cleanup_count(a + b) == cleanup_count(a) + cleanup_count(b),
    decreases a.len(),
{
    if a.len() == 0 {
        assert(a + b =~= b);
    } else {
        assert((a + b)[0] == a[0]);
        assert((a + b).skip(1) =~= a.skip(1) + b);
        lemma_cleanup_count_concat(a.skip(1), b);
    }
}

proof fn lemma_step_cleanup(s: ConsoleStateV, e: ConsoleEventV)
    ensures
        cleanup_count(console_step_v(s, e).1) <= 1,
        console_step_v(s, e).0 != ConsoleStateV::Terminated ==> cleanup_count(
            console_step_v(s, e).1,
        ) == 0,
        s == ConsoleStateV::Terminated ==> console_step_v(s, e) == (
            ConsoleStateV::Terminated,
            Seq::<ConsoleActionV>::empty(),
        ),
{
    let r = console_step_v(s, e);
    assert(cleanup_count(Seq::<ConsoleActionV>::empty()) == 0);
    assert forall|a: ConsoleActionV| cleanup_count(seq![a]) <= 1 by {
        assert(seq![a].skip(1) =~= Seq::<ConsoleActionV>::empty());
        assert(cleanup_count(Seq::<ConsoleActionV>::empty()) == 0);
        assert(cleanup_count(seq![a]) == (match seq![a][0] {
            ConsoleActionV::Cleanup { .. } => 1nat,
            _ => 0nat,
        }) + cleanup_count(seq![a].skip(1)));
    }
    assert forall|a: ConsoleActionV|
        !(a matches ConsoleActionV::Cleanup { .. }) implies cleanup_count(seq![a]) == 0 by {
        assert(seq![a].skip(1) =~= Seq::<ConsoleActionV>::empty());
        assert(cleanup_count(Seq::<ConsoleActionV>::empty()) == 0);
        assert(cleanup_count(seq![a]) == (match seq![a][0] {
            ConsoleActionV::Cleanup { .. } => 1nat,
            _ => 0nat,
        }) + cleanup_count(seq![a].skip(1)));
    }
    assert forall|x: Option<SessionV>| cleanup_count(cleanup_of(x)) <= 1 by {
        match x {
            Some(sess) => match sess.pid_path {
                Some(p) => {
                    let one = cleanup_of(x);
                    assert(one.skip(1) =~= Seq::<ConsoleActionV>::empty());
                    assert(cleanup_count(Seq::<ConsoleActionV>::empty()) == 0);
                    assert(cleanup_count(one) == (match one[0] {
                        ConsoleActionV::Cleanup { .. } => 1nat,
                        _ => 0nat,
                    }) + cleanup_count(one.skip(1)));
                },
                None => {},
            },
            None => {},
        }
    }
}

/// A session's cleanup runs at most once over the whole life of a
/// connection, whatever happens on it.
pub proof fn lemma_cleanup_at_most_once(events: Seq<ConsoleEventV>)
    ensures
        cleanup_count(console_run_v(ConsoleStateV::Connected, events).1) <= 1,
{
    lemma_cleanup_run(ConsoleStateV::Connected, events);
}

proof fn lemma_cleanup_run(s: ConsoleStateV, events: Seq<ConsoleEventV>)
    ensures
        cleanup_count(console_run_v(s, events).1) <= 1,
        console_run_v(s, events).0 != ConsoleStateV::Terminated ==> cleanup_count(
            console_run_v(s, events).1,
        ) == 0,
        s == ConsoleStateV::Terminated ==> cleanup_count(console_run_v(s, events).1) == 0
            && console_run_v(s, events).0 == ConsoleStateV::Terminated,
    decreases events.len(),
{
    if events.len() == 0 {
    } else {
        let first = console_step_v(s, events[0]);
        lemma_step_cleanup(s, events[0]);
        lemma_cleanup_run(first.0, events.skip(1));
        let rest = console_run_v(first.0, events.skip(1));
        lemma_cleanup_count_concat(first.1, rest.1);
        if s == ConsoleStateV::Terminated {
            assert(first == (ConsoleStateV::Terminated, Seq::<ConsoleActionV>::empty()));
        }
    }
}

/// When a shell session's remote stream ends, the connection is closed
/// with a normal close frame; the following disconnect then runs the
/// session's cleanup, exactly once.
pub proof fn lemma_stream_end_teardown(sess: SessionV, p: Seq<char>)
    requires
        sess.pid_path == Some(p),
    ensures
        console_step_v(ConsoleStateV::Active { session: sess }, ConsoleEventV::StreamEnded) == (
            ConsoleStateV::Active { session: sess },
            seq![ConsoleActionV::SendClose],
        ),
        console_step_v(ConsoleStateV::Active { session: sess }, ConsoleEventV::Disconnected) == (
            ConsoleStateV::Terminated,
            seq![ConsoleActionV::Cleanup { container_id: sess.container_id, pid_path: p }],
        ),
        cleanup_count(
            console_run_v(
                ConsoleStateV::Active { session: sess },
                seq![ConsoleEventV::StreamEnded, ConsoleEventV::Disconnected],
            ).1,
        ) == 1,
{
    let s0 = ConsoleStateV::Active { session: sess };
    let evs = seq![ConsoleEventV::StreamEnded, ConsoleEventV::Disconnected];
    let evs1 = evs.skip(1);
    assert(evs1 =~= seq![ConsoleEventV::Disconnected]);
    assert(evs1.skip(1) =~= Seq::<ConsoleEventV>::empty());
    let clean = ConsoleActionV::Cleanup { container_id: sess.container_id, pid_path: p };
    assert(console_step_v(s0, ConsoleEventV::Disconnected) == (
        ConsoleStateV::Terminated,
        seq![clean],
    ));
    assert(console_run_v(ConsoleStateV::Terminated, evs1.skip(1)) == (
        ConsoleStateV::Terminated,
        Seq::<ConsoleActionV>::empty(),
    ));
    assert(console_run_v(s0, evs1).1 == seq![clean] + Seq::<ConsoleActionV>::empty());
    assert(console_step_v(s0, ConsoleEventV::StreamEnded) == (
        s0,
        seq![ConsoleActionV::SendClose],
    ));
    let acts = console_run_v(s0, evs).1;
    assert(acts == seq![ConsoleActionV::SendClose] + (seq![clean] + Seq::<
        ConsoleActionV,
    >::empty()));
    assert(acts =~= seq![ConsoleActionV::SendClose, clean]);
    assert(acts.skip(1) =~= seq![clean]);
    assert(acts.skip(1).skip(1) =~= Seq::<ConsoleActionV>::empty());
    assert(cleanup_count(acts.skip(1).skip(1)) == 0);
    assert(cleanup_count(acts.skip(1)) == 1);
    assert(cleanup_count(acts) == 1);
}

/// Issuing the same resize twice produces two resize calls with identical
/// arguments and no other effect: the session is unchanged both times.
pub proof fn lemma_resize_idempotent(sess: SessionV, e: Seq<char>, m: ConsoleMsgV, sz: PtySize)
    requires
        sess.exec_id == Some(e),
        m.action == Some("pty_resize"@),
        m.payload_size == Some(sz),
    ensures
        console_run_v(
            ConsoleStateV::Active { session: sess },
            seq![ConsoleEventV::Frame(m), ConsoleEventV::Frame(m)],
        ) == (
            ConsoleStateV::Active { session: sess },
            seq![
                ConsoleActionV::Resize { exec_id: e, rows: rows_of(sz), cols: cols_of(sz) },
                ConsoleActionV::Resize { exec_id: e, rows: rows_of(sz), cols: cols_of(sz) },
            ],
        ),
{
    reveal_strlit("shell");
    reveal_strlit("attach");
    reveal_strlit("pty_input");
    reveal_strlit("pty_resize");
    assert("shell"@.len() == 5 && "attach"@.len() == 6 && "pty_input"@.len() == 9
        && "pty_resize"@.len() == 10);
    let s0 = ConsoleStateV::Active { session: sess };
    let evs = seq![ConsoleEventV::Frame(m), ConsoleEventV::Frame(m)];
    let rz = ConsoleActionV::Resize { exec_id: e, rows: rows_of(sz), cols: cols_of(sz) };
    let evs1 = evs.skip(1);
    assert(evs1 =~= seq![ConsoleEventV::Frame(m)]);
    assert(evs1.skip(1) =~= Seq::<ConsoleEventV>::empty());
    assert(console_step_v(s0, ConsoleEventV::Frame(m)) == (s0, seq![rz]));
    assert(console_run_v(s0, evs1.skip(1)) == (s0, Seq::<ConsoleActionV>::empty()));
    assert(console_run_v(s0, evs1).1 == seq![rz] + Seq::<ConsoleActionV>::empty());
    assert(console_run_v(s0, evs).1 == seq![rz] + (seq![rz] + Seq::<ConsoleActionV>::empty()));
    assert(console_run_v(s0, evs).1 =~= seq![rz, rz]);
    assert(console_run_v(s0, evs).0 == s0);
}

// ---------------------------------------------------------------------------
// Session resources: the sentinel file and the commands around it.
// ---------------------------------------------------------------------------

/// The sentinel path for a session with unique part `u`.
pub open spec fn sentinel_path_of(u: Seq<char>) -> Seq<char> {
    "/tmp/_process_"@ + u + ".pid"@
}

/// The shell command an interactive exec runs: it records its own process
/// id in the sentinel file, then becomes the interactive shell.
pub open spec fn shell_cmd_of(pid_path: Seq<char>) -> Seq<char> {
    "echo $$ > "@ + pid_path + "; exec /bin/bash"@
}

/// The best-effort cleanup command: kill the process the sentinel file
/// names, then remove the file, ignoring every error.
pub open spec fn kill_cmd_of(pid_path: Seq<char>) -> Seq<char> {
    "kill $(( $(cat "@ + pid_path + " 2>/dev/null) )) 2>/dev/null; rm -f "@ + pid_path
}

/// Relies on uuid::Uuid::new_v4 and its hyphenated text form: a random
/// version-4 uuid written as 36 characters.
#[verifier::external_body]
fn fresh_uuid() -> (r: String)
    ensures
        r@.len() == 36,
{
    uuid::Uuid::new_v4().to_string()
}

/// A fresh sentinel path for a new shell session.
pub fn new_sentinel_path() -> (r: String)
    ensures
        exists|u: Seq<char>| u.len() == 36 && r@ == sentinel_path_of(u),
{
    let u = fresh_uuid();
    let mut out = String::new();
    push_str("/tmp/_process_", &mut out);
    push_str(u.as_str(), &mut out);
    push_str(".pid", &mut out);
    proof {
        assert(out@ =~= sentinel_path_of(u@));
    }
    out
}

/// Builds the command line for a session's interactive shell exec.
pub fn shell_command(pid_path: &str) -> (r: String)
    ensures
        r@ == shell_cmd_of(pid_path@),
{
    let mut out = String::new();
    push_str("echo $$ > ", &mut out);
    push_str(pid_path, &mut out);
    push_str("; exec /bin/bash", &mut out);
    proof {
        assert(out@ =~= shell_cmd_of(pid_path@));
    }
    out
}

/// Builds the command line for a session's cleanup exec.
pub fn kill_command(pid_path: &str) -> (r: String)
    ensures
        r@ == kill_cmd_of(pid_path@),
{
    let mut out = String::new();
    push_str("kill $(( $(cat ", &mut out);
    push_str(pid_path, &mut out);
    push_str(" 2>/dev/null) )) 2>/dev/null; rm -f ", &mut out);
    push_str(pid_path, &mut out);
    proof {
        assert(out@ =~= kill_cmd_of(pid_path@));
    }
    out
}

} // verus!
