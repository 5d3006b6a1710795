use devlg::AuthType;
use devlg::Config;
use devlg::ConfigError;
use devlg::ConfigManager;
use devlg::Session;
use devlg::SessionBuilder;
use devlg::SessionError;
use devlg::SessionParams;
use devlg::Template;

fn sample_session() -> Session {
    Session::new(
        "test".to_string(),
        "example.com".to_string(),
        "user".to_string(),
        22,
        AuthType::Key,
        Some("~/.ssh/id_rsa".to_string()),
        None,
        Some(vec!["production".to_string(), "web".to_string()]),
    )
}

#[test]
fn test_session_validation() {
    let valid_session = SessionBuilder::new()
        .name("test".to_string())
        .host("example.com".to_string())
        .user("user".to_string())
        .port(22)
        .auth_type(AuthType::Key)
        .private_key_path(Some("~/.ssh/id_rsa".to_string()))
        .password(None)
        .tags(Some(vec!["production".to_string(), "web".to_string()]))
        .build()
        .unwrap();
    assert!(valid_session.validate().is_ok());
}

#[test]
fn builder_reports_missing_fields_in_order() {
    assert_eq!(SessionBuilder::new().build().unwrap_err(), SessionError::NameRequired);
    assert_eq!(
        SessionBuilder::new().name("n".to_string()).build().unwrap_err(),
        SessionError::HostRequired
    );
    assert_eq!(
        SessionBuilder::new().name("n".to_string()).host("h".to_string()).build().unwrap_err(),
        SessionError::UserRequired
    );
    assert_eq!(
        SessionBuilder::new()
            .name("n".to_string())
            .host("h".to_string())
            .user("u".to_string())
            .build()
            .unwrap_err(),
        SessionError::AuthTypeRequired
    );
}

#[test]
fn builder_rejects_invalid_records() {
    let base = || {
        SessionBuilder::new()
            .name("n".to_string())
            .host("h".to_string())
            .user("u".to_string())
            .auth_type(AuthType::Key)
            .private_key_path(Some("k".to_string()))
    };
    assert_eq!(
        base().name("".to_string()).build().unwrap_err(),
        SessionError::EmptyName
    );
    assert_eq!(
        base().host("".to_string()).build().unwrap_err(),
        SessionError::EmptyHost
    );
    assert_eq!(
        base().user("".to_string()).build().unwrap_err(),
        SessionError::EmptyUser
    );
    assert_eq!(base().port(0).build().unwrap_err(), SessionError::ZeroPort);
    assert_eq!(
        base().private_key_path(None).build().unwrap_err(),
        SessionError::KeyPathRequired
    );
    assert_eq!(
        base().auth_type(AuthType::Password).private_key_path(None).build().unwrap_err(),
        SessionError::PasswordRequired
    );
}

#[test]
fn builder_defaults_port_to_22() {
    let s = SessionBuilder::new()
        .name("n".to_string())
        .host("h".to_string())
        .user("u".to_string())
        .auth_type(AuthType::Password)
        .password(Some("pw".to_string()))
        .build()
        .unwrap();
    assert_eq!(s.port, 22);
    assert!(s.tags.is_empty());
}

#[test]
fn empty_template_holds_defaults() {
    let s = Session::empty_template();
    assert_eq!(s.name, "");
    assert_eq!(s.host, "");
    assert_eq!(s.user, "");
    assert_eq!(s.port, 22);
    assert_eq!(s.auth_type, AuthType::Key);
    assert!(s.private_key_path.is_none());
    assert!(s.password.is_none());
    assert!(s.tags.is_empty());
    assert!(s.validate().is_err());
}

#[test]
fn auth_type_names_round_trip() {
    assert_eq!(AuthType::from_name("key"), Some(AuthType::Key));
    assert_eq!(AuthType::from_name("password"), Some(AuthType::Password));
    assert_eq!(AuthType::from_name("other"), None);
    assert_eq!(AuthType::Key.as_name(), "key");
    assert_eq!(AuthType::Password.as_name(), "password");
}

#[test]
fn config_session_operations() {
    let mut config = Config::new();
    assert!(config.sessions.is_empty());

    config.add_session(sample_session()).unwrap();
    assert_eq!(config.sessions.len(), 1);
    assert_eq!(
        config.add_session(sample_session()).unwrap_err(),
        ConfigError::SessionExists
    );

    let found = config.get_session("test").unwrap();
    assert_eq!(found.name, "test");
    assert_eq!(found.host, "example.com");
    assert_eq!(found.user, "user");
    assert_eq!(found.port, 22);
    assert!(config.get_session("missing").is_none());

    let modified = Session::new(
        "test".to_string(),
        "new.example.com".to_string(),
        "newuser".to_string(),
        2222,
        AuthType::Password,
        None,
        Some("password123".to_string()),
        Some(vec!["staging".to_string()]),
    );
    config.update_session(modified).unwrap();
    let updated = config.get_session("test").unwrap();
    assert_eq!(updated.host, "new.example.com");
    assert_eq!(updated.user, "newuser");
    assert_eq!(updated.port, 2222);

    let orphan = Session::new(
        "other".to_string(),
        "h".to_string(),
        "u".to_string(),
        22,
        AuthType::Key,
        Some("k".to_string()),
        None,
        None,
    );
    assert_eq!(config.update_session(orphan).unwrap_err(), ConfigError::SessionNotFound);

    config.remove_session("test").unwrap();
    assert!(config.sessions.is_empty());
    assert_eq!(config.remove_session("test").unwrap_err(), ConfigError::SessionNotFound);
}

#[test]
fn config_template_operations() {
    let mut config = Config::new();
    config.add_session(sample_session()).unwrap();

    assert_eq!(
        config
            .add_template(Template { name: "t".to_string(), session: "missing".to_string() })
            .unwrap_err(),
        ConfigError::SessionNotFound
    );

    config.add_template(Template { name: "t".to_string(), session: "test".to_string() }).unwrap();
    assert_eq!(
        config
            .add_template(Template { name: "t".to_string(), session: "test".to_string() })
            .unwrap_err(),
        ConfigError::TemplateExists
    );

    let t = config.get_template("t").unwrap();
    assert_eq!(t.session, "test");
    assert!(config.get_template("missing").is_none());
    assert_eq!(config.list_templates().len(), 1);

    config.remove_template("t").unwrap();
    assert!(config.list_templates().is_empty());
    assert_eq!(config.remove_template("t").unwrap_err(), ConfigError::TemplateNotFound);
}

#[test]
fn config_search_by_query_and_tag() {
    let mut config = Config::new();
    config.add_session(sample_session()).unwrap();
    let other = Session::new(
        "alpha".to_string(),
        "inner.test.net".to_string(),
        "root".to_string(),
        22,
        AuthType::Key,
        Some("k".to_string()),
        None,
        Some(vec!["web".to_string()]),
    );
    config.add_session(other).unwrap();

    let by_name = config.search_sessions("test", "");
    assert_eq!(by_name.len(), 2);
    let by_tag = config.search_sessions("", "production");
    assert_eq!(by_tag.len(), 1);
    assert_eq!(by_tag[0].name, "test");
    let none = config.search_sessions("zzz", "");
    assert!(none.is_empty());
}

#[test]
fn config_manager_keeps_given_path() {
    let manager = ConfigManager::new(Some("/tmp/devlg-test.toml".to_string()));
    assert_eq!(manager.get_config_path(), "/tmp/devlg-test.toml");
    assert!(manager.config.sessions.is_empty());
    assert!(manager.config.templates.is_empty());
}

#[test]
fn config_manager_defaults_under_home() {
    let manager = ConfigManager::new(None);
    assert!(manager.get_config_path().ends_with("/.config/devlg.toml"));
}

#[test]
fn params_build_new_session() {
    let params = SessionParams::new(
        Some("n".to_string()),
        Some("h".to_string()),
        Some("u".to_string()),
        Some(2022),
        Some("password".to_string()),
        None,
        Some("pw".to_string()),
        Some("a, b".to_string()),
    );
    let s = params.build_session().unwrap();
    assert_eq!(s.name, "n");
    assert_eq!(s.host, "h");
    assert_eq!(s.user, "u");
    assert_eq!(s.port, 2022);
    assert_eq!(s.auth_type, AuthType::Password);
    assert_eq!(s.password.as_deref(), Some("pw"));
    assert_eq!(s.tags, vec!["a".to_string(), "b".to_string()]);
}

#[test]
fn params_reject_unknown_auth_kind() {
    let params = SessionParams::new(
        Some("n".to_string()),
        Some("h".to_string()),
        Some("u".to_string()),
        Some(22),
        Some("token".to_string()),
        None,
        None,
        None,
    );
    assert_eq!(params.build_session().unwrap_err(), devlg::ParamsError::InvalidAuthType);
}

#[test]
fn params_modify_keeps_unset_fields() {
    let base = sample_session();
    let params = SessionParams::new(
        Some("test".to_string()),
        Some("h2".to_string()),
        None,
        None,
        Some("key".to_string()),
        None,
        None,
        None,
    );
    let s = params.apply_to(&base).unwrap();
    assert_eq!(s.name, "test");
    assert_eq!(s.host, "h2");
    assert_eq!(s.user, "user");
    assert_eq!(s.port, 22);
    assert_eq!(s.private_key_path.as_deref(), Some("~/.ssh/id_rsa"));
    assert_eq!(s.tags, vec!["production".to_string(), "web".to_string()]);
}

#[test]
fn merged_password_prefers_typed_text() {
    assert_eq!(
        devlg::merged_password("new".to_string(), Some("old".to_string())),
        Some("new".to_string())
    );
    assert_eq!(
        devlg::merged_password("".to_string(), Some("old".to_string())),
        Some("old".to_string())
    );
    assert_eq!(devlg::merged_password("".to_string(), None), None);
}

#[test]
fn addition_and_modification_builders_collect_fields() {
    let a = devlg::SessionAddition::new()
        .with_name(Some("n".to_string()))
        .with_host(Some("h".to_string()))
        .with_user(Some("u".to_string()))
        .with_port(Some(22))
        .with_auth_type(Some("key".to_string()))
        .with_key_path(Some("k".to_string()))
        .with_password(None)
        .with_tags(None);
    let s = a.params().build_session().unwrap();
    assert_eq!(s.name, "n");
    assert_eq!(s.auth_type, AuthType::Key);

    let base = sample_session();
    let m = devlg::SessionModification::new()
        .with_port(Some(2222))
        .with_auth_type(Some("key".to_string()));
    let s2 = m.params("test".to_string()).apply_to(&base).unwrap();
    assert_eq!(s2.port, 2222);
    assert_eq!(s2.host, "example.com");
}

#[test]
fn delete_by_tag_removes_every_carrier() {
    let mut config = Config::new();
    config.add_session(sample_session()).unwrap();
    let plain = Session::new(
        "plain".to_string(),
        "h".to_string(),
        "u".to_string(),
        22,
        AuthType::Key,
        Some("k".to_string()),
        None,
        None,
    );
    config.add_session(plain).unwrap();
    let removed = config.remove_sessions_with_tag("web");
    assert_eq!(removed, vec!["test".to_string()]);
    assert_eq!(config.sessions.len(), 1);
    assert_eq!(config.sessions[0].name, "plain");
    assert!(config.remove_sessions_with_tag("web").is_empty());
}
