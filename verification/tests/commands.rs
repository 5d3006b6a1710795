use devlg::AuthType;
use devlg::Config;
use devlg::CpError;
use devlg::Session;
use devlg::SshCmdError;
use devlg::TagError;

fn key_session() -> Session {
    Session::new(
        "test".to_string(),
        "example.com".to_string(),
        "user".to_string(),
        22,
        AuthType::Key,
        Some("~/.ssh/id_rsa".to_string()),
        None,
        Some(vec!["production".to_string(), "web".to_string()]),
    )
}

fn password_session() -> Session {
    Session::new(
        "pwbox".to_string(),
        "example.com".to_string(),
        "user".to_string(),
        2222,
        AuthType::Password,
        None,
        Some("s3cret".to_string()),
        None,
    )
}

#[test]
fn trim_removes_surrounding_whitespace() {
    assert_eq!(devlg::trim_str("  hello \t"), "hello");
    assert_eq!(devlg::trim_str("hello"), "hello");
    assert_eq!(devlg::trim_str("   "), "");
    assert_eq!(devlg::trim_str(""), "");
    assert_eq!(devlg::trim_str("\u{00A0}x\u{3000}"), "x");
}

#[test]
fn ports_are_written_in_decimal() {
    assert_eq!(devlg::u16_to_dec(0), "0");
    assert_eq!(devlg::u16_to_dec(22), "22");
    assert_eq!(devlg::u16_to_dec(8080), "8080");
    assert_eq!(devlg::u16_to_dec(65535), "65535");
}

#[test]
fn substring_search_matches_str_contains() {
    assert!(devlg::contains_substr("example.com", "ample"));
    assert!(devlg::contains_substr("example.com", ""));
    assert!(!devlg::contains_substr("example.com", "examples"));
    assert!(!devlg::contains_substr("ab", "abc"));
}

#[test]
fn parse_tags_splits_trims_and_dedups() {
    let tags = devlg::parse_tags(Some(&" a, b ;c,a,,  ".to_string()));
    assert_eq!(tags, vec!["a".to_string(), "b".to_string(), "c".to_string()]);
    assert!(devlg::parse_tags(None).is_empty());
    assert!(devlg::parse_tags(Some(&"".to_string())).is_empty());
    assert!(devlg::parse_tags(Some(&" ; , ".to_string())).is_empty());
}

#[test]
fn tag_edits_add_remove_list() {
    let current = vec!["a".to_string(), "b".to_string()];
    let added = devlg::updated_tags(&current, "add", Some(&"b, c".to_string()))
        .unwrap()
        .unwrap();
    assert_eq!(added, vec!["a".to_string(), "b".to_string(), "c".to_string()]);

    let removed = devlg::updated_tags(&current, "REMOVE", Some(&"a".to_string()))
        .unwrap()
        .unwrap();
    assert_eq!(removed, vec!["b".to_string()]);

    assert!(devlg::updated_tags(&current, "list", None).unwrap().is_none());
    assert_eq!(
        devlg::updated_tags(&current, "add", None).unwrap_err(),
        TagError::TagsRequired
    );
    assert_eq!(
        devlg::updated_tags(&current, "rename", Some(&"x".to_string())).unwrap_err(),
        TagError::InvalidAction
    );
}

#[test]
fn session_label_shows_target_and_tags() {
    assert_eq!(
        devlg::session_label(&key_session()),
        "test (user@example.com:22) [production, web]"
    );
    assert_eq!(devlg::session_label(&password_session()), "pwbox (user@example.com:2222)");
}

#[test]
fn tag_filter_keeps_sessions_sharing_a_tag() {
    let sessions = vec![key_session(), password_session()];
    let filter = vec!["web".to_string(), "zzz".to_string()];
    let hits = devlg::sessions_with_any_tag(&sessions, &filter);
    assert_eq!(hits.len(), 1);
    assert_eq!(hits[0].name, "test");
    let no_hits = devlg::sessions_with_any_tag(&sessions, &vec!["zzz".to_string()]);
    assert!(no_hits.is_empty());
}

#[test]
fn parse_path_splits_at_first_colon() {
    let (name, path) = devlg::parse_path("srv:/tmp/x".to_string());
    assert_eq!(name.as_deref(), Some("srv"));
    assert_eq!(path, "/tmp/x");

    let (name2, path2) = devlg::parse_path("plain/file".to_string());
    assert!(name2.is_none());
    assert_eq!(path2, "plain/file");

    let (name3, path3) = devlg::parse_path("a:b:c".to_string());
    assert_eq!(name3.as_deref(), Some("a"));
    assert_eq!(path3, "b:c");
}

#[test]
fn scp_uri_names_user_host_port_and_path() {
    assert_eq!(
        devlg::generate_scp_uri(&key_session(), "/tmp/f"),
        "scp://user@example.com:22//tmp/f"
    );
}

#[test]
fn copy_plan_requires_exactly_one_remote_end() {
    let s = key_session();
    let paths = vec!["x".to_string()];
    assert_eq!(
        devlg::plan_copy(Some(&s), Some(&s), &paths, "y", false).unwrap_err(),
        devlg::CopyError::BothRemote
    );
    assert_eq!(
        devlg::plan_copy(None, None, &paths, "y", false).unwrap_err(),
        devlg::CopyError::NoSession
    );

    let plan = devlg::plan_copy(Some(&s), None, &paths, "y", true).unwrap();
    assert_eq!(plan.sources, vec!["scp://user@example.com:22/x".to_string()]);
    assert_eq!(plan.destination, "y");
    assert_eq!(plan.master.name, "test");
    assert!(plan.recursive);

    let plan2 = devlg::plan_copy(None, Some(&s), &paths, "y", false).unwrap();
    assert_eq!(plan2.sources, vec!["x".to_string()]);
    assert_eq!(plan2.destination, "scp://user@example.com:22/y");
}

#[test]
fn handle_cp_checks_paths_and_names() {
    let mut config = Config::new();
    config.add_session(key_session()).unwrap();

    assert_eq!(
        devlg::handle_cp(&config, vec!["one".to_string()], None, None, false).unwrap_err(),
        CpError::NeedTwoPaths
    );
    assert_eq!(
        devlg::handle_cp(
            &config,
            vec!["a".to_string(), "b".to_string()],
            None,
            None,
            false
        )
        .unwrap_err(),
        CpError::NoSession
    );
    let plan = devlg::handle_cp(
        &config,
        vec!["a".to_string(), "b".to_string()],
        Some("test".to_string()),
        None,
        false,
    )
    .unwrap();
    assert_eq!(plan.sources, vec!["scp://user@example.com:22/a".to_string()]);
    assert_eq!(plan.destination, "b");

    let unknown = devlg::handle_cp(
        &config,
        vec!["a".to_string(), "b".to_string()],
        Some("missing".to_string()),
        None,
        false,
    );
    assert_eq!(unknown.unwrap_err(), CpError::NoSession);
}

#[test]
fn login_command_uses_key_flags() {
    let cmd = devlg::connect_ssh_args(&key_session()).unwrap();
    assert_eq!(cmd.program, "ssh");
    assert_eq!(
        cmd.args,
        vec![
            "-p".to_string(),
            "22".to_string(),
            "-l".to_string(),
            "user".to_string(),
            "-o".to_string(),
            "StrictHostKeyChecking=accept-new".to_string(),
            "-i".to_string(),
            "~/.ssh/id_rsa".to_string(),
            "example.com".to_string(),
        ]
    );
}

#[test]
fn login_command_uses_password_helper() {
    let cmd = devlg::connect_ssh_args(&password_session()).unwrap();
    assert_eq!(cmd.program, "sshpass");
    assert_eq!(
        cmd.args,
        vec![
            "-p".to_string(),
            "s3cret".to_string(),
            "ssh".to_string(),
            "-p".to_string(),
            "2222".to_string(),
            "-l".to_string(),
            "user".to_string(),
            "-o".to_string(),
            "StrictHostKeyChecking=accept-new".to_string(),
            "example.com".to_string(),
        ]
    );
}

#[test]
fn login_command_needs_a_password_when_required() {
    let mut s = password_session();
    s.password = None;
    assert_eq!(devlg::connect_ssh_args(&s).unwrap_err(), SshCmdError::PasswordMissing);
    assert_eq!(
        devlg::SystemSshConnector.connect_args(&s).unwrap_err(),
        SshCmdError::PasswordMissing
    );
}

#[test]
fn master_commands_use_the_control_path() {
    let s = key_session();
    assert_eq!(devlg::control_path_for(&s), "~/.ssh/test");

    let create = devlg::master_create_args(&s).unwrap();
    assert_eq!(create.program, "ssh");
    assert_eq!(
        create.args,
        vec![
            "-M".to_string(),
            "-fN".to_string(),
            "-o".to_string(),
            "StrictHostKeyChecking=accept-new".to_string(),
            "-o".to_string(),
            "ExitOnForwardFailure=yes".to_string(),
            "-o".to_string(),
            "ControlPath=~/.ssh/test".to_string(),
            "-p".to_string(),
            "22".to_string(),
            "-l".to_string(),
            "user".to_string(),
            "-i".to_string(),
            "~/.ssh/id_rsa".to_string(),
            "example.com".to_string(),
        ]
    );

    let close = devlg::master_close_args(&s);
    assert_eq!(close.program, "ssh");
    assert_eq!(
        close.args,
        vec![
            "-S".to_string(),
            "~/.ssh/test".to_string(),
            "-O".to_string(),
            "exit".to_string(),
            "user@example.com:22".to_string(),
        ]
    );
}

#[test]
fn system_connector_omits_host_check_option() {
    let cmd = devlg::SystemSshConnector.connect_args(&key_session()).unwrap();
    assert_eq!(
        cmd.args,
        vec![
            "-p".to_string(),
            "22".to_string(),
            "-l".to_string(),
            "user".to_string(),
            "-i".to_string(),
            "~/.ssh/id_rsa".to_string(),
            "example.com".to_string(),
        ]
    );
}

#[test]
fn raw_mode_clears_the_expected_flags() {
    let snap = devlg::TermAttrs {
        iflag: 0xFFFF_FFFF,
        oflag: 0xFFFF_FFFF,
        cflag: 0xFFFF_FFFF,
        lflag: 0xFFFF_FFFF,
    };
    let raw = devlg::raw_mode(&snap);
    assert_eq!(raw.iflag & (0o1 | 0o2 | 0o10 | 0o40 | 0o100 | 0o200 | 0o400 | 0o2000), 0);
    assert_eq!(raw.oflag & 0o1, 0);
    assert_eq!(raw.lflag & (0o10 | 0o100 | 0o2 | 0o1 | 0o100000), 0);
    assert_eq!(raw.cflag & 0o60, 0o60);
    assert_eq!(raw.cflag & 0o400, 0);

    let untouched = devlg::TermAttrs { iflag: 0, oflag: 0, cflag: 0, lflag: 0 };
    let raw2 = devlg::raw_mode(&untouched);
    assert_eq!(raw2.iflag, 0);
    assert_eq!(raw2.oflag, 0);
    assert_eq!(raw2.cflag, 0o60);
    assert_eq!(raw2.lflag, 0);
}

#[test]
fn commands_carry_session_params() {
    let cmd = devlg::Commands::Modify {
        name: "test".to_string(),
        host: Some("h".to_string()),
        user: None,
        port: None,
        auth_type: Some("key".to_string()),
        key_path: None,
        password: None,
        tags: None,
    };
    let params = cmd.session_params().unwrap();
    assert_eq!(params.name.as_deref(), Some("test"));
    assert_eq!(params.host.as_deref(), Some("h"));
    assert!(devlg::Commands::Version.session_params().is_none());
}
