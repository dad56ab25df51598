use nexus_ssh::mux::{LocalOp, MuxAction, MuxInput, Multiplexer};
use nexus_ssh::registry::TerminalManager;
use nexus_ssh::session::{latency_ms, terminal_config, TerminalSession, DEFAULT_COLS, DEFAULT_ROWS};
use nexus_ssh::ssh::{
    default_timeout, output_for, AuthMethod, ChannelMessage, ExecCollector, SshConfig, SshError,
    TerminalOutput,
};
use nexus_ssh::terminal::{TerminalError, TerminalEvent};
use nexus_ssh::transport::{
    ConnectEvent, ConnectFlow, ConnectStep, HostKeyVerdict, KnownHost, KnownHosts, SshClient,
};

fn password_config(host: &str, password: &str, timeout: u64) -> SshConfig {
    SshConfig {
        host: host.to_string(),
        port: 22,
        username: "admin".to_string(),
        auth_method: AuthMethod::Password(password.to_string()),
        timeout_seconds: timeout,
    }
}

fn collect(msgs: Vec<ChannelMessage>) -> (String, String, i32) {
    let mut c = ExecCollector::new();
    for m in msgs {
        if c.feed(m) {
            break;
        }
    }
    let out = c.finish();
    (out.stdout, out.stderr, out.exit_code)
}

#[test]
fn execute_echo_ping_reports_exit_zero_and_output() {
    let (stdout, stderr, code) = collect(vec![
        ChannelMessage::Other,
        ChannelMessage::Data(b"ping\n".to_vec()),
        ChannelMessage::ExitStatus(0),
        ChannelMessage::Eof,
    ]);
    assert_eq!(code, 0);
    assert!(stdout.contains("ping"));
    assert_eq!(stdout, "ping\n");
    assert_eq!(stderr, "");
}

#[test]
fn execute_collects_stderr_and_ignores_other_streams() {
    let (stdout, stderr, code) = collect(vec![
        ChannelMessage::Data(b"a".to_vec()),
        ChannelMessage::ExtendedData { ext: 1, data: b"err".to_vec() },
        ChannelMessage::ExtendedData { ext: 2, data: b"zzz".to_vec() },
        ChannelMessage::Data(b"b".to_vec()),
        ChannelMessage::ExitStatus(3),
    ]);
    assert_eq!(stdout, "ab");
    assert_eq!(stderr, "err");
    assert_eq!(code, 3);
}

#[test]
fn execute_defaults_exit_code_when_eof_comes_first() {
    let mut c = ExecCollector::new();
    assert!(!c.feed(ChannelMessage::Data(b"x".to_vec())));
    assert!(c.feed(ChannelMessage::Eof));
    assert!(c.feed(ChannelMessage::ExitStatus(7)));
    assert!(c.feed(ChannelMessage::Data(b"late".to_vec())));
    let out = c.finish();
    assert_eq!(out.exit_code, 0);
    assert_eq!(out.stdout, "x");
}

#[test]
fn execute_stream_end_completes_command() {
    let (stdout, _, code) = collect(vec![ChannelMessage::Closed, ChannelMessage::Data(b"no".to_vec())]);
    assert_eq!(stdout, "");
    assert_eq!(code, 0);
}

#[test]
fn execute_large_exit_status_wraps_to_signed() {
    let (_, _, code) = collect(vec![ChannelMessage::ExitStatus(u32::MAX)]);
    assert_eq!(code, -1);
}

#[test]
fn invalid_utf8_is_replaced() {
    let (stdout, _, _) = collect(vec![ChannelMessage::Data(vec![b'o', 0xff, b'k']), ChannelMessage::Eof]);
    assert_eq!(stdout, "o\u{fffd}k");
}

#[test]
fn output_sink_gets_stdout_and_stderr_only() {
    match output_for(ChannelMessage::Data(b"hi".to_vec())) {
        Some(TerminalOutput::Stdout(s)) => assert_eq!(s, "hi"),
        _ => panic!("expected stdout"),
    }
    match output_for(ChannelMessage::ExtendedData { ext: 1, data: b"oops".to_vec() }) {
        Some(TerminalOutput::Stderr(s)) => assert_eq!(s, "oops"),
        _ => panic!("expected stderr"),
    }
    assert!(output_for(ChannelMessage::ExtendedData { ext: 5, data: b"x".to_vec() }).is_none());
    assert!(output_for(ChannelMessage::ExitStatus(0)).is_none());
}

#[test]
fn rejected_password_gives_authentication_failed_and_session_stays_unconnected() {
    let (mut flow, step) = ConnectFlow::start(password_config("example.org", "wrong", 30));
    match step {
        ConnectStep::Handshake { host, port, timeout_seconds, inactivity_seconds } => {
            assert_eq!(host, "example.org");
            assert_eq!(port, 22);
            assert_eq!(timeout_seconds, 30);
            assert_eq!(inactivity_seconds, 60);
        }
        _ => panic!("handshake first"),
    }
    match flow.next(ConnectEvent::HandshakeDone) {
        ConnectStep::SendPassword { username, password } => {
            assert_eq!(username, "admin");
            assert_eq!(password, "wrong");
        }
        _ => panic!("password next"),
    }
    let end = flow.next(ConnectEvent::AuthAnswered(false));
    let err = match end {
        ConnectStep::Finished(Err(e)) => e,
        _ => panic!("must fail"),
    };
    assert!(matches!(err, SshError::AuthenticationFailed));

    let mut session: TerminalSession<(), ()> = TerminalSession::new_with_id(1, 2, "example".to_string());
    let (r, prev) = session.finish_connect(Err(nexus_ssh::session::connect_failure(&err)));
    match r {
        Err(TerminalError::AuthenticationFailed) => {}
        _ => panic!("connect must fail with the authentication kind"),
    }
    assert!(prev.is_none());
    assert!(!session.is_connected());
    assert!(!session.info().connected);
}

#[test]
fn handshake_timeout_is_timeout_not_connection_failed() {
    let (mut flow, _) = ConnectFlow::start(password_config("10.255.255.1", "pw", 0));
    match flow.next(ConnectEvent::TimedOut) {
        ConnectStep::Finished(Err(SshError::Timeout)) => {}
        _ => panic!("expected timeout"),
    }
}

#[test]
fn session_connect_keeps_timeout_kind() {
    let (mut flow, _) = ConnectFlow::start(password_config("10.255.255.1", "pw", 0));
    let err = match flow.next(ConnectEvent::TimedOut) {
        ConnectStep::Finished(Err(e)) => e,
        _ => panic!("expected failure"),
    };
    let mut session: TerminalSession<(), ()> = TerminalSession::new_with_id(3, 3, "h".to_string());
    let (r, _) = session.finish_connect(Err(nexus_ssh::session::connect_failure(&err)));
    assert!(matches!(r, Err(TerminalError::Timeout)));
    assert!(!session.is_connected());
    match nexus_ssh::session::connect_failure(&SshError::ConnectionFailed("refused".to_string())) {
        TerminalError::ConnectionFailed(m) => assert_eq!(m, "Connection failed: refused"),
        _ => panic!("other failures keep the connection kind"),
    }
}

#[test]
fn handshake_failure_is_connection_failed() {
    let (mut flow, _) = ConnectFlow::start(password_config("nowhere", "pw", 5));
    match flow.next(ConnectEvent::HandshakeFailed("refused".to_string())) {
        ConnectStep::Finished(Err(SshError::ConnectionFailed(m))) => assert_eq!(m, "refused"),
        _ => panic!("expected connection failure"),
    }
}

#[test]
fn authentication_outlasting_timeout_is_timeout() {
    let (mut flow, _) = ConnectFlow::start(password_config("h", "pw", 1));
    flow.next(ConnectEvent::HandshakeDone);
    assert!(matches!(flow.next(ConnectEvent::TimedOut), ConnectStep::Finished(Err(SshError::Timeout))));
}

#[test]
fn accepted_password_finishes_ok() {
    let (mut flow, _) = ConnectFlow::start(password_config("h", "right", 5));
    flow.next(ConnectEvent::HandshakeDone);
    assert!(matches!(flow.next(ConnectEvent::AuthAnswered(true)), ConnectStep::Finished(Ok(()))));
    match flow.next(ConnectEvent::AuthAnswered(true)) {
        ConnectStep::Finished(Err(SshError::ConnectionFailed(m))) => {
            assert_eq!(m, "unexpected event during connection setup")
        }
        _ => panic!("a finished attempt takes no more events"),
    }
}

#[test]
fn private_key_flow_loads_key_then_offers_it() {
    let config = SshConfig {
        host: "h".to_string(),
        port: 2222,
        username: "root".to_string(),
        auth_method: AuthMethod::PrivateKey {
            key_path: "/keys/id".to_string(),
            passphrase: Some("secret".to_string()),
        },
        timeout_seconds: u64::MAX,
    };
    let (mut flow, step) = ConnectFlow::start(config);
    match step {
        ConnectStep::Handshake { inactivity_seconds, .. } => assert_eq!(inactivity_seconds, u64::MAX),
        _ => panic!("handshake first"),
    }
    match flow.next(ConnectEvent::HandshakeDone) {
        ConnectStep::LoadKey { key_path, passphrase } => {
            assert_eq!(key_path, "/keys/id");
            assert_eq!(passphrase.as_deref(), Some("secret"));
        }
        _ => panic!("key load next"),
    }
    match flow.next(ConnectEvent::KeyLoaded) {
        ConnectStep::SendPublicKey { username } => assert_eq!(username, "root"),
        _ => panic!("key offer next"),
    }
    assert!(matches!(
        flow.next(ConnectEvent::AuthAnswered(false)),
        ConnectStep::Finished(Err(SshError::AuthenticationFailed))
    ));
}

#[test]
fn undecodable_key_is_key_error() {
    let config = SshConfig {
        host: "h".to_string(),
        port: 22,
        username: "u".to_string(),
        auth_method: AuthMethod::PrivateKey { key_path: "k".to_string(), passphrase: None },
        timeout_seconds: 1,
    };
    let (mut flow, _) = ConnectFlow::start(config);
    flow.next(ConnectEvent::HandshakeDone);
    match flow.next(ConnectEvent::KeyFailed("bad key".to_string())) {
        ConnectStep::Finished(Err(SshError::KeyError(m))) => assert_eq!(m, "bad key"),
        _ => panic!("expected key error"),
    }
}

#[test]
fn agent_method_is_refused_explicitly() {
    let config = SshConfig {
        host: "h".to_string(),
        port: 22,
        username: "u".to_string(),
        auth_method: AuthMethod::Agent,
        timeout_seconds: 1,
    };
    let (mut flow, _) = ConnectFlow::start(config);
    match flow.next(ConnectEvent::HandshakeDone) {
        ConnectStep::Finished(Err(e)) => {
            assert_eq!(e.message(), "Unsupported authentication method: agent")
        }
        _ => panic!("agent must be refused"),
    }
}

#[test]
fn rejected_host_key_fails_closed() {
    let (mut flow, _) = ConnectFlow::start(password_config("h", "pw", 1));
    assert!(matches!(
        flow.next(ConnectEvent::HostKeyRejected),
        ConnectStep::Finished(Err(SshError::AuthenticationFailed))
    ));
}

#[test]
fn known_hosts_verdicts() {
    let mut known = KnownHosts::new();
    known.add(KnownHost { host: "a".to_string(), port: 22, fingerprint: "SHA256:one".to_string() });
    known.add(KnownHost { host: "a".to_string(), port: 22, fingerprint: "SHA256:two".to_string() });
    let a = "a".to_string();
    assert!(matches!(known.verdict(&a, 22, &"SHA256:two".to_string()), HostKeyVerdict::Trusted));
    assert!(matches!(known.verdict(&a, 22, &"SHA256:bad".to_string()), HostKeyVerdict::Mismatch));
    assert!(matches!(known.verdict(&a, 23, &"SHA256:one".to_string()), HostKeyVerdict::Unknown));
    assert!(HostKeyVerdict::Trusted.accepts(false));
    assert!(!HostKeyVerdict::Mismatch.accepts(true));
    assert!(HostKeyVerdict::Unknown.accepts(true));
    assert!(!HostKeyVerdict::Unknown.accepts(false));
}

#[test]
fn shell_session_stream_scenario() {
    let (mut mux, first) = Multiplexer::start();
    let mut events = vec![first];
    let mut writes: Vec<Vec<u8>> = Vec::new();
    let inputs = vec![
        MuxInput::Local(LocalOp::Input(b"ls\n".to_vec())),
        MuxInput::Remote(ChannelMessage::Data(b"ls\n".to_vec())),
        MuxInput::Remote(ChannelMessage::Data(b"file.txt\n".to_vec())),
        MuxInput::Remote(ChannelMessage::ExitStatus(0)),
        MuxInput::Remote(ChannelMessage::Eof),
        MuxInput::Remote(ChannelMessage::Data(b"after".to_vec())),
        MuxInput::LocalClosed,
    ];
    for inp in inputs {
        match mux.step(inp) {
            MuxAction::Write(b) => writes.push(b),
            MuxAction::Emit(e) => events.push(e),
            MuxAction::Finish(e) => events.push(e),
            MuxAction::Resize(_, _) | MuxAction::Idle => {}
        }
    }
    assert_eq!(writes, vec![b"ls\n".to_vec()]);
    let connected = events.iter().filter(|e| matches!(e, TerminalEvent::Connected)).count();
    let data = events.iter().filter(|e| matches!(e, TerminalEvent::Data(_))).count();
    let ends = events.iter().filter(|e| matches!(e, TerminalEvent::Disconnected)).count();
    assert_eq!(connected, 1);
    assert!(data >= 1);
    assert_eq!(ends, 1);
    assert!(matches!(events[0], TerminalEvent::Connected));
    assert!(matches!(events.last(), Some(TerminalEvent::Disconnected)));
    match &events[1] {
        TerminalEvent::Data(t) => assert_eq!(t, "ls\n"),
        _ => panic!("echo first"),
    }
    assert!(!mux.is_running());
}

#[test]
fn chunks_written_before_resize_reach_remote_first() {
    let (mut mux, _) = Multiplexer::start();
    let mut order: Vec<String> = Vec::new();
    for i in 0..5u8 {
        if let MuxAction::Write(b) = mux.step(MuxInput::Local(LocalOp::Input(vec![b'a' + i]))) {
            order.push(String::from_utf8(b).unwrap());
        }
    }
    if let MuxAction::Resize(c, r) = mux.step(MuxInput::Local(LocalOp::Resize(120, 40))) {
        order.push(format!("{}x{}", c, r));
    }
    assert_eq!(order, vec!["a", "b", "c", "d", "e", "120x40"]);
}

#[test]
fn stderr_becomes_data_and_write_failure_stops_once() {
    let (mut mux, _) = Multiplexer::start();
    match mux.step(MuxInput::Remote(ChannelMessage::ExtendedData { ext: 1, data: b"warn".to_vec() })) {
        MuxAction::Emit(TerminalEvent::Data(t)) => assert_eq!(t, "warn"),
        _ => panic!("stderr is shown"),
    }
    assert!(matches!(
        mux.step(MuxInput::Remote(ChannelMessage::ExtendedData { ext: 2, data: b"x".to_vec() })),
        MuxAction::Idle
    ));
    assert!(matches!(mux.step(MuxInput::WriteFailed), MuxAction::Finish(TerminalEvent::Disconnected)));
    assert!(matches!(mux.step(MuxInput::WriteFailed), MuxAction::Idle));
    assert!(matches!(mux.step(MuxInput::Local(LocalOp::Resize(1, 1))), MuxAction::Idle));
}

#[test]
fn disconnect_twice_is_a_no_op_the_second_time() {
    let mut session: TerminalSession<u8, u8> = TerminalSession::new(7, "host".to_string());
    let mut client = SshClient::new_with_id(session.id(), password_config("h", "p", 1));
    assert!(client.attach(5).is_none());
    let (r, prev) = session.finish_connect(Ok((client, 9)));
    assert!(r.is_ok());
    assert!(prev.is_none());
    assert!(session.is_connected());
    assert!(session.info().connected);

    let first = session.disconnect();
    let mut closed = first.expect("first disconnect hands out the client");
    assert_eq!(closed.disconnect(), Some(5));
    assert!(!closed.is_connected());
    assert!(!session.is_connected());
    assert!(session.disconnect().is_none());
    assert!(!session.is_connected());
}

#[test]
fn write_without_loop_is_not_connected() {
    let mut session: TerminalSession<u8, u8> = TerminalSession::new_with_id(1, 1, "h".to_string());
    assert!(matches!(session.write(b"x".to_vec()), Err(TerminalError::NotConnected)));
    assert!(matches!(session.resize(100, 30), Err(TerminalError::NotConnected)));
    assert_eq!(session.geometry(), (100, 30));
    let client = SshClient::new_with_id(1, password_config("h", "p", 1));
    session.finish_connect(Ok((client, 3)));
    match session.write(b"ls".to_vec()) {
        Ok((q, LocalOp::Input(b))) => {
            assert_eq!(*q, 3);
            assert_eq!(b, b"ls".to_vec());
        }
        _ => panic!("queued"),
    }
    match session.resize(90, 20) {
        Ok((_, LocalOp::Resize(c, r))) => assert_eq!((c, r), (90, 20)),
        _ => panic!("resize queued"),
    }
    session.loop_stopped();
    assert!(matches!(session.write(b"x".to_vec()), Err(TerminalError::NotConnected)));
}

#[test]
fn new_session_has_default_geometry() {
    let s: TerminalSession<(), ()> = TerminalSession::new(3, "box".to_string());
    let info = s.info();
    assert_eq!((info.cols, info.rows), (DEFAULT_COLS, DEFAULT_ROWS));
    assert_eq!((info.cols, info.rows), (80, 24));
    assert_eq!(info.host_id, 3);
    assert_eq!(info.host_name, "box");
    assert!(!info.connected);
}

#[test]
fn second_checkout_of_same_id_is_not_found() {
    let mut reg: TerminalManager<(), ()> = TerminalManager::new();
    let id: u128 = 0x67e5_5044_10b1_426f_9247_bb68_0e5f_e0c8;
    let info = reg.create_session_with_id(id, 9, "srv".to_string());
    assert_eq!(info.id, id);
    let first = reg.checkout(id);
    assert!(first.is_ok());
    match reg.checkout(id) {
        Err(TerminalError::SessionNotFound(m)) => {
            assert_eq!(m, "67e55044-10b1-426f-9247-bb680e5fe0c8")
        }
        _ => panic!("the session is out"),
    }
    assert!(reg.get_session(id).is_none());
    reg.insert_session(id, first.ok().unwrap());
    assert!(reg.get_session(id).is_some());
    assert!(reg.checkout(id).is_ok());
}

#[test]
fn registry_lists_creates_and_closes() {
    let mut reg: TerminalManager<(), ()> = TerminalManager::new();
    assert!(reg.get_sessions().is_empty());
    let a = reg.create_session(1, "a".to_string());
    let b = reg.create_session(2, "b".to_string());
    assert_ne!(a.id, b.id);
    assert_eq!(reg.get_sessions().len(), 2);
    reg.ensure_session(5, "five".to_string());
    reg.ensure_session(5, "other".to_string());
    let five = reg.get_session(5).unwrap();
    assert_eq!(five.host_name, "five");
    assert_eq!(five.host_id, 5);
    assert_eq!(reg.get_sessions().len(), 3);
    assert!(reg.close_session(a.id).is_some());
    assert!(reg.close_session(a.id).is_none());
    assert_eq!(reg.get_sessions().len(), 2);
    assert!(reg.contains(b.id));
}

#[test]
fn terminal_config_from_parts() {
    let c = terminal_config("h".to_string(), 22, "u".to_string(), "password", None, None, None).ok().unwrap();
    assert_eq!(c.timeout_seconds, default_timeout());
    assert_eq!(c.timeout_seconds, 30);
    match c.auth_method {
        AuthMethod::Password(p) => assert_eq!(p, ""),
        _ => panic!("password"),
    }
    let k = terminal_config(
        "h".to_string(),
        22,
        "u".to_string(),
        "private_key",
        None,
        Some("/k".to_string()),
        Some("pp".to_string()),
    )
    .ok()
    .unwrap();
    match k.auth_method {
        AuthMethod::PrivateKey { key_path, passphrase } => {
            assert_eq!(key_path, "/k");
            assert_eq!(passphrase, Some("pp".to_string()));
        }
        _ => panic!("key"),
    }
    assert!(matches!(
        terminal_config("h".to_string(), 22, "u".to_string(), "agent", None, None, None).ok().unwrap().auth_method,
        AuthMethod::Agent
    ));
    match terminal_config("h".to_string(), 22, "u".to_string(), "kerberos", None, None, None) {
        Err(TerminalError::ConnectionFailed(m)) => assert_eq!(m, "Invalid auth type"),
        _ => panic!("unknown tag refused"),
    }
}

#[test]
fn error_messages() {
    assert_eq!(SshError::NotConnected.message(), "Not connected to server");
    assert_eq!(SshError::Timeout.message(), "Timeout");
    assert_eq!(SshError::ChannelError("refused".to_string()).message(), "Channel error: refused");
    assert_eq!(SshError::Russh("eof".to_string()).message(), "SSH error: eof");
    assert_eq!(TerminalError::NotConnected.message(), "Not connected");
    assert_eq!(
        TerminalError::SessionNotFound("x".to_string()).message(),
        "Session not found: x"
    );
    match nexus_ssh::session::shell_failure(&SshError::ChannelError("no pty".to_string())) {
        TerminalError::Ssh(m) => assert_eq!(m, "Channel error: no pty"),
        _ => panic!("shell failure"),
    }
}

#[test]
fn latency_is_whole_milliseconds_saturating() {
    assert_eq!(latency_ms(0), 0);
    assert_eq!(latency_ms(42), 42);
    assert_eq!(latency_ms(u32::MAX as u128 + 5), u32::MAX);
}

#[test]
fn default_registry_is_empty_and_checkout_fails() {
    let mut reg: TerminalManager<(), ()> = TerminalManager::default();
    assert!(reg.get_sessions().is_empty());
    assert!(matches!(reg.checkout(1), Err(TerminalError::SessionNotFound(_))));
}

#[test]
fn session_connection_access_needs_a_live_connection() {
    let mut session: TerminalSession<u8, u8> = TerminalSession::new_with_id(4, 4, "h".to_string());
    assert!(matches!(session.connection_mut(), Err(TerminalError::NotConnected)));
    let mut ssh = SshClient::new(password_config("h", "p", 1));
    assert!(matches!(ssh.handle_mut(), Err(SshError::NotConnected)));
    assert!(!ssh.is_connected());
    assert!(ssh.conclude(Ok(1)).is_ok());
    session.finish_connect(Ok((ssh, 2)));
    match session.connection_mut() {
        Ok(handle) => *handle = 9,
        Err(_) => panic!("connection present"),
    }
    assert!(session.info().connected);
    let mut out = session.disconnect().unwrap();
    assert_eq!(out.disconnect(), Some(9));
}

#[test]
fn failed_connect_leaves_client_unconnected() {
    let mut ssh: SshClient<u8> = SshClient::new(password_config("h", "p", 1));
    assert!(matches!(ssh.conclude(Err(SshError::Timeout)), Err(SshError::Timeout)));
    assert!(!ssh.is_connected());
    ssh.attach(3);
    assert!(matches!(ssh.conclude(Err(SshError::AuthenticationFailed)), Err(SshError::AuthenticationFailed)));
    assert_eq!(ssh.disconnect(), Some(3));
}

#[test]
fn busy_session_is_not_recreated_or_taken_twice() {
    let mut reg: TerminalManager<(), ()> = TerminalManager::new();
    reg.ensure_session(7, "first".to_string());
    let taken = reg.checkout(7).ok().unwrap();
    assert!(reg.is_busy(7));
    reg.ensure_session(7, "second".to_string());
    assert!(reg.get_session(7).is_none());
    assert!(matches!(reg.checkout(7), Err(TerminalError::SessionNotFound(_))));
    assert_eq!(taken.info().host_name, "first");
    reg.insert_session(7, taken);
    assert!(!reg.is_busy(7));
    assert_eq!(reg.get_session(7).unwrap().host_name, "first");
    assert!(reg.checkout(7).is_ok());
}

#[test]
fn created_ids_are_distinct() {
    let mut reg: TerminalManager<(), ()> = TerminalManager::new();
    let mut ids = Vec::new();
    for i in 0..20u128 {
        ids.push(reg.create_session(i, format!("h{}", i)).id);
    }
    let infos = reg.get_sessions();
    assert_eq!(infos.len(), 20);
    for id in &ids {
        assert_eq!(ids.iter().filter(|x| *x == id).count(), 1);
        assert!(infos.iter().any(|info| info.id == *id));
    }
}

#[test]
fn session_id_text_is_hyphenated_lower_hex() {
    assert_eq!(nexus_ssh::registry::id_text(0), "00000000-0000-0000-0000-000000000000");
    assert_eq!(nexus_ssh::registry::id_text(u128::MAX), "ffffffff-ffff-ffff-ffff-ffffffffffff");
    let v: u128 = 0x67e5_5044_10b1_426f_9247_bb68_0e5f_e0c8;
    assert_eq!(nexus_ssh::registry::id_text(v), "67e55044-10b1-426f-9247-bb680e5fe0c8");
}
