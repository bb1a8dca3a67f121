use dev_dock_manager_api::console::{
    console_step, kill_command, new_sentinel_path, shell_command, ConsoleAction, ConsoleEvent,
    ConsoleMsg, ConsoleState, PtySize, SessionMode, SessionRec,
};

fn frame(
    token: Option<&str>,
    action: Option<&str>,
    id: Option<&str>,
    input: Option<&str>,
    size: Option<PtySize>,
) -> ConsoleMsg {
    ConsoleMsg {
        token: token.map(|s| s.to_string()),
        action: action.map(|s| s.to_string()),
        payload_id: id.map(|s| s.to_string()),
        payload_input: input.map(|s| s.to_string()),
        payload_size: size,
    }
}

fn shell_session() -> SessionRec {
    SessionRec {
        container_id: "c1".to_string(),
        mode: SessionMode::Shell,
        exec_id: Some("e1".to_string()),
        pid_path: Some("/tmp/_process_x.pid".to_string()),
    }
}

#[test]
fn first_frame_without_token_closes_unauthorized() {
    // The same frame embeds a shell payload; it must not be processed.
    let m = frame(None, Some("shell"), Some("c1"), None, None);
    let (state, actions) = console_step(ConsoleState::Connected, ConsoleEvent::Frame(m));
    assert!(matches!(state, ConsoleState::Terminated));
    assert_eq!(actions.len(), 1);
    assert!(matches!(actions[0], ConsoleAction::CloseUnauthorized));
}

#[test]
fn first_frame_with_empty_token_closes_unauthorized() {
    let m = frame(Some(""), Some("attach"), Some("c1"), None, None);
    let (state, actions) = console_step(ConsoleState::Connected, ConsoleEvent::Frame(m));
    assert!(matches!(state, ConsoleState::Terminated));
    assert_eq!(actions.len(), 1);
    assert!(matches!(actions[0], ConsoleAction::CloseUnauthorized));
}

#[test]
fn valid_token_is_checked_then_the_embedded_action_runs() {
    let m = frame(Some("tok123"), Some("shell"), Some("c1"), None, None);
    let (state, actions) = console_step(ConsoleState::Connected, ConsoleEvent::Frame(m));
    assert!(matches!(state, ConsoleState::AuthPending { .. }));
    assert_eq!(actions.len(), 1);
    match &actions[0] {
        ConsoleAction::CheckAuth { token } => assert_eq!(token, "tok123"),
        _ => panic!("expected a credential check first"),
    }
    let (state, actions) = console_step(state, ConsoleEvent::AuthResult(true));
    assert!(matches!(state, ConsoleState::StartPending { .. }));
    assert_eq!(actions.len(), 1);
    match &actions[0] {
        ConsoleAction::StartShell { container_id } => assert_eq!(container_id, "c1"),
        _ => panic!("expected the shell start"),
    }
}

#[test]
fn rejected_token_closes_unauthorized() {
    let m = frame(Some("bad"), None, None, None, None);
    let (state, _) = console_step(ConsoleState::Connected, ConsoleEvent::Frame(m));
    let (state, actions) = console_step(state, ConsoleEvent::AuthResult(false));
    assert!(matches!(state, ConsoleState::Terminated));
    assert_eq!(actions.len(), 1);
    assert!(matches!(actions[0], ConsoleAction::CloseUnauthorized));
}

#[test]
fn pty_input_bytes_reach_stdin_in_order_despite_resizes() {
    let mut state = ConsoleState::Active {
        session: shell_session(),
    };
    let traffic = vec![
        ("ls -l\n", None),
        ("", Some(PtySize { rows: Some(40), cols: Some(120) })),
        ("echo hi\n", None),
        ("", Some(PtySize { rows: Some(40), cols: Some(120) })),
        ("exit\n", None),
    ];
    let mut written = String::new();
    for (input, size) in traffic {
        let m = if let Some(sz) = size {
            frame(None, Some("pty_resize"), None, None, Some(sz))
        } else {
            frame(None, Some("pty_input"), None, Some(input), None)
        };
        let (next, actions) = console_step(state, ConsoleEvent::Frame(m));
        state = next;
        for a in actions {
            if let ConsoleAction::WriteStdin { input } = a {
                written.push_str(&input);
            }
        }
    }
    assert_eq!(written, "ls -l\necho hi\nexit\n");
    assert!(matches!(state, ConsoleState::Active { .. }));
}

#[test]
fn stream_end_closes_normally_and_cleanup_runs_once() {
    let state = ConsoleState::Active {
        session: shell_session(),
    };
    let (state, actions) = console_step(state, ConsoleEvent::StreamEnded);
    assert_eq!(actions.len(), 1);
    assert!(matches!(actions[0], ConsoleAction::SendClose));
    let (state, actions) = console_step(state, ConsoleEvent::Disconnected);
    assert!(matches!(state, ConsoleState::Terminated));
    assert_eq!(actions.len(), 1);
    match &actions[0] {
        ConsoleAction::Cleanup {
            container_id,
            pid_path,
        } => {
            assert_eq!(container_id, "c1");
            assert_eq!(pid_path, "/tmp/_process_x.pid");
        }
        _ => panic!("expected the cleanup"),
    }
    // After termination nothing further happens: no second cleanup.
    let (state, actions) = console_step(state, ConsoleEvent::Disconnected);
    assert!(matches!(state, ConsoleState::Terminated));
    assert!(actions.is_empty());
}

#[test]
fn attach_teardown_needs_no_cleanup() {
    let state = ConsoleState::Active {
        session: SessionRec {
            container_id: "c2".to_string(),
            mode: SessionMode::Attach,
            exec_id: None,
            pid_path: None,
        },
    };
    let (state, actions) = console_step(state, ConsoleEvent::Disconnected);
    assert!(matches!(state, ConsoleState::Terminated));
    assert!(actions.is_empty());
}

#[test]
fn resize_twice_issues_two_identical_calls() {
    let sz = PtySize { rows: Some(50), cols: Some(132) };
    let mut state = ConsoleState::Active {
        session: shell_session(),
    };
    let mut seen: Vec<(String, u16, u16)> = Vec::new();
    for _ in 0..2 {
        let m = frame(None, Some("pty_resize"), None, None, Some(sz));
        let (next, actions) = console_step(state, ConsoleEvent::Frame(m));
        state = next;
        assert_eq!(actions.len(), 1);
        match &actions[0] {
            ConsoleAction::Resize { exec_id, rows, cols } => {
                seen.push((exec_id.clone(), *rows, *cols));
            }
            _ => panic!("expected a resize"),
        }
    }
    assert_eq!(seen.len(), 2);
    assert_eq!(seen[0], ("e1".to_string(), 50, 132));
    assert_eq!(seen[1], ("e1".to_string(), 50, 132));
    assert!(matches!(state, ConsoleState::Active { .. }));
}

#[test]
fn resize_defaults_to_eighty_by_twentyfour() {
    let m = frame(
        None,
        Some("pty_resize"),
        None,
        None,
        Some(PtySize { rows: None, cols: None }),
    );
    let state = ConsoleState::Active {
        session: shell_session(),
    };
    let (_, actions) = console_step(state, ConsoleEvent::Frame(m));
    match &actions[0] {
        ConsoleAction::Resize { rows, cols, .. } => {
            assert_eq!(*rows, 24);
            assert_eq!(*cols, 80);
        }
        _ => panic!("expected a resize"),
    }
}

#[test]
fn resize_without_size_member_tears_down() {
    let m = frame(None, Some("pty_resize"), None, None, None);
    let state = ConsoleState::Active {
        session: shell_session(),
    };
    let (state, actions) = console_step(state, ConsoleEvent::Frame(m));
    assert!(matches!(state, ConsoleState::Terminated));
    assert_eq!(actions.len(), 1);
    assert!(matches!(actions[0], ConsoleAction::Cleanup { .. }));
}

#[test]
fn shell_without_id_tears_down() {
    let m = frame(None, Some("shell"), None, None, None);
    let (state, actions) = console_step(ConsoleState::Authed, ConsoleEvent::Frame(m));
    assert!(matches!(state, ConsoleState::Terminated));
    assert!(actions.is_empty());
}

#[test]
fn unknown_actions_are_ignored() {
    let m = frame(None, Some("ping"), None, None, None);
    let (state, actions) = console_step(ConsoleState::Authed, ConsoleEvent::Frame(m));
    assert!(matches!(state, ConsoleState::Authed));
    assert!(actions.is_empty());
}

#[test]
fn pty_input_without_session_is_ignored() {
    let m = frame(None, Some("pty_input"), None, Some("x"), None);
    let (state, actions) = console_step(ConsoleState::Authed, ConsoleEvent::Frame(m));
    assert!(matches!(state, ConsoleState::Authed));
    assert!(actions.is_empty());
}

#[test]
fn session_failure_ends_the_connection() {
    let m = frame(None, Some("attach"), Some("c7"), None, None);
    let (state, actions) = console_step(ConsoleState::Authed, ConsoleEvent::Frame(m));
    assert!(matches!(state, ConsoleState::StartPending { .. }));
    match &actions[0] {
        ConsoleAction::StartAttach { container_id } => assert_eq!(container_id, "c7"),
        _ => panic!("expected the attach start"),
    }
    let (state, actions) = console_step(state, ConsoleEvent::SessionFailed);
    assert!(matches!(state, ConsoleState::Terminated));
    assert!(actions.is_empty());
}

#[test]
fn sentinel_path_has_the_expected_shape() {
    let p = new_sentinel_path();
    assert_eq!(p.chars().count(), 54);
    assert!(p.starts_with("/tmp/_process_"));
    assert!(p.ends_with(".pid"));
    // Two sessions never share a sentinel.
    let q = new_sentinel_path();
    assert_ne!(p, q);
}

#[test]
fn shell_and_kill_commands_embed_the_sentinel() {
    assert_eq!(
        shell_command("/tmp/_process_a.pid"),
        "echo $$ > /tmp/_process_a.pid; exec /bin/bash"
    );
    assert_eq!(
        kill_command("/tmp/_process_a.pid"),
        "kill $(( $(cat /tmp/_process_a.pid 2>/dev/null) )) 2>/dev/null; rm -f /tmp/_process_a.pid"
    );
}
