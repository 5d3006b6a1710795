use devlg::Action;
use devlg::AuthFailure;
use devlg::AuthType;
use devlg::ConnectFailure;
use devlg::ConnectionDescriptor;
use devlg::Coordinator;
use devlg::Credential;
use devlg::Event;
use devlg::RelayEnd;
use devlg::Session;
use devlg::SessionError;
use devlg::Ssh2Connector;
use devlg::TermAttrs;

fn password_descriptor() -> ConnectionDescriptor {
    ConnectionDescriptor {
        host: "h".to_string(),
        port: 22,
        user: "u".to_string(),
        credential: Credential::Password { secret: "pw".to_string() },
    }
}

fn sample_attrs() -> TermAttrs {
    TermAttrs { iflag: 0x1234, oflag: 0x5678, cflag: 0x9ABC, lflag: 0xDEF0 }
}

/// Drives the machine through a successful connect, up to the point
/// where the relay loop starts, and hands back the snapshot that raw
/// mode captured.
fn connect_up_to_relay(m: &mut Coordinator) -> TermAttrs {
    match m.next_action().unwrap() {
        Action::OpenTransport { host, port } => {
            assert_eq!(host, "h");
            assert_eq!(port, 22);
        }
        other => panic!("unexpected action: {:?}", other),
    }
    m.step(Event::TransportOpened);
    match m.next_action().unwrap() {
        Action::AuthPassword { user, secret } => {
            assert_eq!(user, "u");
            assert_eq!(secret, "pw");
        }
        other => panic!("unexpected action: {:?}", other),
    }
    m.step(Event::AuthSucceeded);
    assert_eq!(m.next_action().unwrap(), Action::CheckAuthenticated);
    m.step(Event::AuthFlag { authenticated: true });
    assert_eq!(m.next_action().unwrap(), Action::OpenChannel);
    m.step(Event::ChannelOpened);
    match m.next_action().unwrap() {
        Action::RequestPty { term, cols, rows, width_px, height_px } => {
            assert_eq!(term, "xterm-256color");
            assert_eq!((cols, rows, width_px, height_px), (80, 24, 0, 0));
        }
        other => panic!("unexpected action: {:?}", other),
    }
    m.step(Event::PtyGranted);
    assert_eq!(m.next_action().unwrap(), Action::RequestShell);
    m.step(Event::ShellStarted);
    assert_eq!(m.next_action().unwrap(), Action::EnterRawMode);
    let saved = sample_attrs();
    m.step(Event::RawEntered { saved });
    saved
}

/// Drives the fixed teardown and checks that the terminal is restored
/// with exactly the captured attributes.
fn expect_teardown_with_restore(m: &mut Coordinator, saved: TermAttrs) {
    assert_eq!(m.next_action().unwrap(), Action::CloseChannel);
    m.step(Event::ChannelClosed);
    assert_eq!(m.next_action().unwrap(), Action::Disconnect);
    m.step(Event::Disconnected);
    match m.next_action().unwrap() {
        Action::RestoreTerminal { attrs } => assert_eq!(attrs, saved),
        other => panic!("unexpected action: {:?}", other),
    }
    m.step(Event::TerminalRestored);
    assert!(m.is_done());
}

#[test]
fn scenario_password_login_then_immediate_eof() {
    let mut m = Coordinator::new(password_descriptor());
    let saved = connect_up_to_relay(&mut m);
    assert_eq!(m.next_action().unwrap(), Action::PollRemote);
    m.step(Event::RemoteEof);
    expect_teardown_with_restore(&mut m, saved);
    assert_eq!(m.result(), Ok(()));
    assert_eq!(m.relay_outcome(), Some(RelayEnd::RemoteClosed));
}

#[test]
fn scenario_unreadable_key_leaves_terminal_alone() {
    let session = Session::new(
        "box".to_string(),
        "h".to_string(),
        "u".to_string(),
        22,
        AuthType::Key,
        Some("/no/such/key".to_string()),
        None,
        None,
    );
    let mut m = Ssh2Connector.start(&session).unwrap();
    let mut actions: Vec<Action> = Vec::new();
    actions.push(m.next_action().unwrap());
    m.step(Event::TransportOpened);
    match m.next_action().unwrap() {
        Action::AuthKey { user, path } => {
            assert_eq!(user, "u");
            assert_eq!(path, "/no/such/key");
            actions.push(Action::AuthKey { user, path });
        }
        other => panic!("unexpected action: {:?}", other),
    }
    m.step(Event::AuthKeyUnreadable);
    actions.push(m.next_action().unwrap());
    m.step(Event::Disconnected);
    assert!(m.is_done());
    assert_eq!(m.result(), Err(ConnectFailure::Auth(AuthFailure::KeyUnreadable)));
    for a in &actions {
        assert!(!matches!(a, Action::EnterRawMode));
        assert!(!matches!(a, Action::RestoreTerminal { .. }));
    }
}

#[test]
fn scenario_echoed_input_reaches_local_output() {
    let mut m = Coordinator::new(password_descriptor());
    let saved = connect_up_to_relay(&mut m);

    m.push_local(b"ls\n".to_vec());
    match m.next_action().unwrap() {
        Action::WriteRemote { data } => assert_eq!(data, b"ls\n".to_vec()),
        other => panic!("unexpected action: {:?}", other),
    }
    m.step(Event::RemoteWriteOk);
    assert_eq!(m.next_action().unwrap(), Action::PollRemote);
    m.step(Event::RemoteData { data: b"ls\n".to_vec() });
    let mut local_output: Vec<u8> = Vec::new();
    match m.next_action().unwrap() {
        Action::WriteLocal { data } => local_output.extend_from_slice(&data),
        other => panic!("unexpected action: {:?}", other),
    }
    m.step(Event::LocalWriteOk);
    assert_eq!(m.next_action().unwrap(), Action::Pause);
    m.step(Event::Paused);
    assert_eq!(m.next_action().unwrap(), Action::PollRemote);
    m.step(Event::RemoteEof);
    expect_teardown_with_restore(&mut m, saved);
    assert_eq!(local_output, b"ls\n".to_vec());
    assert_eq!(m.result(), Ok(()));
}

#[test]
fn relay_chunks_come_out_in_order_without_duplication() {
    let mut m = Coordinator::new(password_descriptor());
    let saved = connect_up_to_relay(&mut m);

    let mut local_output: Vec<u8> = Vec::new();
    for chunk in [b"he".to_vec(), b"llo".to_vec()] {
        assert_eq!(m.next_action().unwrap(), Action::PollRemote);
        m.step(Event::RemoteData { data: chunk });
        match m.next_action().unwrap() {
            Action::WriteLocal { data } => local_output.extend_from_slice(&data),
            other => panic!("unexpected action: {:?}", other),
        }
        m.step(Event::LocalWriteOk);
        assert_eq!(m.next_action().unwrap(), Action::Pause);
        m.step(Event::Paused);
    }
    assert_eq!(local_output, b"hello".to_vec());
    assert_eq!(m.next_action().unwrap(), Action::PollRemote);
    m.step(Event::RemoteEof);
    expect_teardown_with_restore(&mut m, saved);
}

#[test]
fn single_zero_byte_read_ends_the_loop_quickly() {
    let mut m = Coordinator::new(password_descriptor());
    let saved = connect_up_to_relay(&mut m);
    let mut polls: u32 = 0;
    loop {
        match m.next_action().unwrap() {
            Action::PollRemote => {
                polls += 1;
                m.step(Event::RemoteEof);
            }
            Action::CloseChannel => break,
            other => panic!("unexpected action: {:?}", other),
        }
        assert!(polls <= 3, "relay loop did not end within three poll rounds");
    }
    assert_eq!(polls, 1);
    m.step(Event::ChannelClosed);
    assert_eq!(m.next_action().unwrap(), Action::Disconnect);
    m.step(Event::Disconnected);
    match m.next_action().unwrap() {
        Action::RestoreTerminal { attrs } => assert_eq!(attrs, saved),
        other => panic!("unexpected action: {:?}", other),
    }
    m.step(Event::TerminalRestored);
    assert!(m.is_done());
}

#[test]
fn burst_of_one_thousand_chunks_arrives_in_order() {
    let mut m = Coordinator::new(password_descriptor());
    let saved = connect_up_to_relay(&mut m);

    let mut expected: Vec<u8> = Vec::new();
    for i in 0..1000u32 {
        let byte = (i % 251) as u8;
        expected.push(byte);
        m.push_local(vec![byte]);
    }
    let mut sent: Vec<u8> = Vec::new();
    loop {
        match m.next_action().unwrap() {
            Action::WriteRemote { data } => {
                sent.extend_from_slice(&data);
                m.step(Event::RemoteWriteOk);
            }
            Action::PollRemote => break,
            other => panic!("unexpected action: {:?}", other),
        }
    }
    assert_eq!(sent, expected);
    m.step(Event::RemoteEof);
    expect_teardown_with_restore(&mut m, saved);
}

#[test]
fn every_late_failure_still_restores_the_terminal() {
    let failures = [
        Event::RemoteReadFailed,
        Event::RemoteEof,
    ];
    for failure in failures {
        let mut m = Coordinator::new(password_descriptor());
        let saved = connect_up_to_relay(&mut m);
        assert_eq!(m.next_action().unwrap(), Action::PollRemote);
        m.step(failure);
        expect_teardown_with_restore(&mut m, saved);
        assert_eq!(m.result(), Ok(()));
    }

    // A write to the remote end that fails hard.
    let mut m = Coordinator::new(password_descriptor());
    let saved = connect_up_to_relay(&mut m);
    m.push_local(b"x".to_vec());
    match m.next_action().unwrap() {
        Action::WriteRemote { .. } => {}
        other => panic!("unexpected action: {:?}", other),
    }
    m.step(Event::RemoteWriteFailed);
    expect_teardown_with_restore(&mut m, saved);
    assert_eq!(m.relay_outcome(), Some(RelayEnd::RemoteWriteFailed));

    // A write to the local terminal that fails hard.
    let mut m = Coordinator::new(password_descriptor());
    let saved = connect_up_to_relay(&mut m);
    assert_eq!(m.next_action().unwrap(), Action::PollRemote);
    m.step(Event::RemoteData { data: b"out".to_vec() });
    match m.next_action().unwrap() {
        Action::WriteLocal { .. } => {}
        other => panic!("unexpected action: {:?}", other),
    }
    m.step(Event::LocalWriteFailed);
    expect_teardown_with_restore(&mut m, saved);
    assert_eq!(m.relay_outcome(), Some(RelayEnd::LocalWriteFailed));

    // A failed raw-mode entry: teardown runs, but there is nothing to
    // restore.
    let mut m = Coordinator::new(password_descriptor());
    m.step(Event::TransportOpened);
    m.step(Event::AuthSucceeded);
    m.step(Event::AuthFlag { authenticated: true });
    m.step(Event::ChannelOpened);
    m.step(Event::PtyGranted);
    m.step(Event::ShellStarted);
    m.step(Event::RawFailed);
    assert_eq!(m.next_action().unwrap(), Action::CloseChannel);
    m.step(Event::ChannelClosed);
    assert_eq!(m.next_action().unwrap(), Action::Disconnect);
    m.step(Event::Disconnected);
    assert!(m.is_done());
    assert_eq!(m.result(), Err(ConnectFailure::Terminal));
}

#[test]
fn credential_kind_decides_the_authentication_path() {
    let mut pw = Coordinator::new(password_descriptor());
    pw.step(Event::TransportOpened);
    assert!(matches!(pw.next_action().unwrap(), Action::AuthPassword { .. }));

    let mut key = Coordinator::new(ConnectionDescriptor {
        host: "h".to_string(),
        port: 22,
        user: "u".to_string(),
        credential: Credential::PublicKey { path: "/k".to_string() },
    });
    key.step(Event::TransportOpened);
    assert!(matches!(key.next_action().unwrap(), Action::AuthKey { .. }));
}

#[test]
fn rejected_authentication_fails_without_touching_the_terminal() {
    let mut m = Coordinator::new(password_descriptor());
    m.step(Event::TransportOpened);
    m.step(Event::AuthRejected);
    assert_eq!(m.next_action().unwrap(), Action::Disconnect);
    m.step(Event::Disconnected);
    assert!(m.is_done());
    assert_eq!(m.result(), Err(ConnectFailure::Auth(AuthFailure::Rejected)));
}

#[test]
fn stale_authentication_flag_is_refused() {
    let mut m = Coordinator::new(password_descriptor());
    m.step(Event::TransportOpened);
    m.step(Event::AuthSucceeded);
    m.step(Event::AuthFlag { authenticated: false });
    assert_eq!(m.next_action().unwrap(), Action::Disconnect);
    m.step(Event::Disconnected);
    assert!(m.is_done());
    assert_eq!(m.result(), Err(ConnectFailure::Auth(AuthFailure::NotAuthenticated)));
}

#[test]
fn failed_transport_reports_a_network_failure() {
    let mut m = Coordinator::new(password_descriptor());
    m.step(Event::TransportFailed);
    assert!(m.is_done());
    assert_eq!(m.result(), Err(ConnectFailure::Network));
}

#[test]
fn descriptor_requires_credential_material() {
    let missing_pw = Session {
        name: "n".to_string(),
        host: "h".to_string(),
        user: "u".to_string(),
        port: 22,
        auth_type: AuthType::Password,
        private_key_path: None,
        password: None,
        tags: Vec::new(),
    };
    assert_eq!(
        ConnectionDescriptor::from_session(&missing_pw).unwrap_err(),
        SessionError::PasswordRequired
    );

    let missing_key = Session {
        name: "n".to_string(),
        host: "h".to_string(),
        user: "u".to_string(),
        port: 22,
        auth_type: AuthType::Key,
        private_key_path: None,
        password: None,
        tags: Vec::new(),
    };
    assert_eq!(
        ConnectionDescriptor::from_session(&missing_key).unwrap_err(),
        SessionError::KeyPathRequired
    );
}

#[test]
fn blocked_remote_write_keeps_the_chunk_for_later() {
    let mut m = Coordinator::new(password_descriptor());
    let saved = connect_up_to_relay(&mut m);
    m.push_local(b"abc".to_vec());
    match m.next_action().unwrap() {
        Action::WriteRemote { data } => assert_eq!(data, b"abc".to_vec()),
        other => panic!("unexpected action: {:?}", other),
    }
    m.step(Event::RemoteWriteBlocked);
    assert_eq!(m.next_action().unwrap(), Action::PollRemote);
    m.step(Event::RemoteIdle);
    assert_eq!(m.next_action().unwrap(), Action::Pause);
    m.step(Event::Paused);
    match m.next_action().unwrap() {
        Action::WriteRemote { data } => assert_eq!(data, b"abc".to_vec()),
        other => panic!("unexpected action: {:?}", other),
    }
    m.step(Event::RemoteWriteOk);
    assert_eq!(m.next_action().unwrap(), Action::PollRemote);
    m.step(Event::RemoteEof);
    expect_teardown_with_restore(&mut m, saved);
}

#[test]
fn failed_channel_open_tears_down_without_restore() {
    let mut m = Coordinator::new(password_descriptor());
    m.step(Event::TransportOpened);
    m.step(Event::AuthSucceeded);
    m.step(Event::AuthFlag { authenticated: true });
    m.step(Event::ChannelFailed);
    assert_eq!(m.next_action().unwrap(), Action::Disconnect);
    m.step(Event::Disconnected);
    assert!(m.is_done());
    assert_eq!(m.result(), Err(ConnectFailure::Channel));
}

#[test]
fn failed_pty_request_closes_the_channel_first() {
    let mut m = Coordinator::new(password_descriptor());
    m.step(Event::TransportOpened);
    m.step(Event::AuthSucceeded);
    m.step(Event::AuthFlag { authenticated: true });
    m.step(Event::ChannelOpened);
    m.step(Event::PtyFailed);
    assert_eq!(m.next_action().unwrap(), Action::CloseChannel);
    m.step(Event::ChannelClosed);
    assert_eq!(m.next_action().unwrap(), Action::Disconnect);
    m.step(Event::Disconnected);
    assert!(m.is_done());
    assert_eq!(m.result(), Err(ConnectFailure::Channel));
}
