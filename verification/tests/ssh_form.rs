use remote_projects::connection::{SshConnection, SshConnectionOptions, SshPortForwardOption};
use remote_projects::settings::RemoteSettingsContent;
use remote_projects::ssh_config::parse_ssh_config_entries;
use remote_projects::ssh_form::{
    apply_saved_connection, build_ssh_connection_from_form, create_ssh_server,
    delete_saved_password, identity_and_jump, parse_port_forward_spec, parse_port_forwards,
    save_password_to_keychain, show_forward, show_forwards, split_user_host,
    ssh_keychain_url_from_form, start_proxy_timeout_secs, use_saved_password,
    use_ssh_config_defaults, CommandLineAction, CreateRemoteServerFormErrors, KeychainAnswer, PasswordKeychainStatus, PasswordState,
    ServerForm,
};

fn form(host: &str) -> ServerForm {
    ServerForm {
        host: host.into(),
        username: String::new(),
        port: String::new(),
        nickname: String::new(),
        password: String::new(),
        identity_file: String::new(),
        jump_host: String::new(),
        port_forwards: String::new(),
    }
}

fn no_errors() -> CreateRemoteServerFormErrors {
    CreateRemoteServerFormErrors { host: None, port: None, port_forwards: vec![] }
}

#[test]
fn port_forwards_are_read() {
    let full = parse_port_forward_spec("lh:1:rh:2").unwrap();
    assert_eq!(
        full,
        SshPortForwardOption {
            local_host: Some("lh".into()),
            local_port: 1,
            remote_host: Some("rh".into()),
            remote_port: 2,
        }
    );
    let short = parse_port_forward_spec("1:rh:2").unwrap();
    assert_eq!(short.local_host, None);
    assert_eq!(short.remote_host.as_deref(), Some("rh"));
    assert!(parse_port_forward_spec("1").is_err());
    assert!(parse_port_forward_spec("a:rh:2").is_err());
}

#[test]
fn lists_of_port_forwards_are_read() {
    let (list, errors) = parse_port_forwards("-L 1:a:2, 3:b:4;\n5:c:6\nbad");
    assert_eq!(list.len(), 3);
    assert_eq!(list[1].local_port, 3);
    assert_eq!(list[2].remote_host.as_deref(), Some("c"));
    assert_eq!(errors.len(), 1);
    assert!(parse_port_forwards(" ,; ").0.is_empty());
}

#[test]
fn shown_port_forwards_are_read_back() {
    let (list, errors) = parse_port_forwards("x:1:a:2, y:3:b:4");
    assert!(errors.is_empty());
    assert_eq!(show_forward(&list[0]), "x:1:a:2");
    assert_eq!(show_forwards(&list), "x:1:a:2, y:3:b:4");
    assert_eq!(parse_port_forwards(&show_forwards(&list)), (list, vec![]));
}

#[test]
fn users_are_parted_from_hosts() {
    assert_eq!(split_user_host("u@h"), Some(("u".to_string(), "h".to_string())));
    assert_eq!(split_user_host(" a@b@h "), Some(("a@b".to_string(), "h".to_string())));
    assert_eq!(split_user_host("@h"), None);
    assert_eq!(split_user_host("u@"), None);
    assert_eq!(split_user_host("h"), None);
}

#[test]
fn forms_become_options() {
    let options = build_ssh_connection_from_form(&ServerForm {
        port: " 2200 ".into(),
        identity_file: "~/.ssh/id".into(),
        jump_host: "jump".into(),
        password: "secret".into(),
        port_forwards: "1:a:2".into(),
        ..form(" u@h ")
    })
    .unwrap();
    assert_eq!(options.host, "h");
    assert_eq!(options.username.as_deref(), Some("u"));
    assert_eq!(options.port, Some(2200));
    assert_eq!(options.nickname.as_deref(), Some("u@h:2200"));
    assert_eq!(options.password.as_deref(), Some("secret"));
    assert_eq!(
        options.args,
        Some(["-i", "~/.ssh/id", "-J", "jump"].map(String::from).to_vec())
    );
    assert_eq!(options.port_forwards.unwrap().len(), 1);
    let given = build_ssh_connection_from_form(&ServerForm {
        username: "me".into(),
        nickname: " nick ".into(),
        ..form("u@h")
    })
    .unwrap();
    assert_eq!(given.host, "u@h");
    assert_eq!(given.username.as_deref(), Some("me"));
    assert_eq!(given.nickname.as_deref(), Some("nick"));
    assert_eq!(given.args, None);
    assert_eq!(given.port_forwards, None);
}

#[test]
fn wrong_forms_are_refused() {
    let errors = build_ssh_connection_from_form(&ServerForm {
        port: "0".into(),
        port_forwards: "x".into(),
        ..form("  ")
    })
    .unwrap_err();
    assert_eq!(errors.host.as_deref(), Some("Host is required"));
    assert_eq!(errors.port.as_deref(), Some("Port must be between 1 and 65535"));
    assert_eq!(errors.port_forwards.len(), 1);
    assert!(!errors.is_empty());
    let errors = build_ssh_connection_from_form(&ServerForm { port: "ssh".into(), ..form("h") })
        .unwrap_err();
    assert_eq!(errors.port.as_deref(), Some("Port must be a number"));
    assert_eq!(errors.host, None);
    assert!(no_errors().is_empty());
}

#[test]
fn arguments_give_back_identity_and_jump() {
    let args = ["-i", "id", "-J", "jump"].map(String::from).to_vec();
    assert_eq!(identity_and_jump(&args), (Some("id".to_string()), Some("jump".to_string())));
    assert_eq!(identity_and_jump(&vec!["-v".to_string()]), (None, None));
}

#[test]
fn saved_forms_are_read_back() {
    let first = ServerForm {
        port: "2200".into(),
        identity_file: "id".into(),
        jump_host: "jump".into(),
        port_forwards: "x:1:a:2".into(),
        ..form("u@h")
    };
    let options = build_ssh_connection_from_form(&first).unwrap();
    let mut settings = RemoteSettingsContent {
        ssh_connections: None,
        wsl_connections: None,
        dev_container_connections: None,
        read_ssh_config: None,
    };
    settings.save_ssh_connection_options(options.clone());
    let saved: SshConnection = settings.ssh_connections.unwrap()[0].clone();
    let filled = apply_saved_connection(&saved);
    assert!(filled.show_advanced);
    let again = build_ssh_connection_from_form(&ServerForm {
        host: filled.host,
        username: filled.username,
        port: filled.port,
        nickname: filled.nickname,
        password: String::new(),
        identity_file: filled.identity_file,
        jump_host: filled.jump_host,
        port_forwards: filled.port_forwards,
    })
    .unwrap();
    assert_eq!(again, options);
}

#[test]
fn configuration_fills_empty_fields_only() {
    let entries = parse_ssh_config_entries("Host h\nUser config\nPort 2200\n");
    let mut filled = ServerForm { username: "mine".into(), ..form(" h ") };
    let mut errors = CreateRemoteServerFormErrors {
        host: Some("Host is required".into()),
        port: Some("Port must be a number".into()),
        port_forwards: vec![],
    };
    assert!(use_ssh_config_defaults(&mut filled, &mut errors, &entries));
    assert_eq!(filled.username, "mine");
    assert_eq!(filled.port, "2200");
    assert_eq!(errors, no_errors());
    let mut other = form("unknown");
    assert!(!use_ssh_config_defaults(&mut other, &mut no_errors(), &entries));
    assert_eq!(other, form("unknown"));
}

#[test]
fn command_lines_are_taken_or_refused() {
    assert_eq!(create_ssh_server("", Err("unused".into())), CommandLineAction::Ignore);
    match create_ssh_server("ssh", Err("no host".into())) {
        CommandLineAction::Reject(message) => assert!(message.contains("no host")),
        _ => panic!("a wrong command is refused"),
    }
    let parsed = SshConnectionOptions { host: "h".into(), ..Default::default() };
    match create_ssh_server("ssh h", Ok(parsed)) {
        CommandLineAction::Connect(options) => {
            assert_eq!(options.host, "h");
            assert_eq!(options.nickname.as_deref(), Some("h"));
        }
        _ => panic!("a right command connects"),
    }
}

#[test]
fn starting_takes_longer_where_the_server_is_built() {
    let quick = start_proxy_timeout_secs(false, Some("off"));
    let slow = start_proxy_timeout_secs(false, None);
    assert!(quick < slow);
    assert_eq!(start_proxy_timeout_secs(true, Some("off")), slow);
    assert_eq!(start_proxy_timeout_secs(false, Some("yes")), slow);
}

#[test]
fn keychain_addresses_name_user_host_and_port() {
    let filled = ServerForm { username: "u".into(), port: "2200".into(), ..form("h") };
    assert_eq!(
        ssh_keychain_url_from_form(&filled),
        Some(("ssh://u@h:2200".to_string(), "u".to_string()))
    );
    assert_eq!(ssh_keychain_url_from_form(&form("")), None);
    assert_eq!(
        ssh_keychain_url_from_form(&ServerForm { port: "x".into(), ..filled.clone() }),
        Some(("ssh://u@h".to_string(), "u".to_string()))
    );
    assert_eq!(
        ssh_keychain_url_from_form(&ServerForm { port: String::new(), ..filled.clone() }),
        None
    );
    assert_eq!(use_saved_password(&filled), Ok("ssh://u@h:2200".to_string()));
    assert!(use_saved_password(&form("")).is_err());
    assert!(save_password_to_keychain(&filled).is_err());
    assert!(save_password_to_keychain(&ServerForm { password: "p".into(), ..filled.clone() })
        .is_ok());
    assert_eq!(delete_saved_password(&filled), Ok("ssh://u@h:2200".to_string()));
}

#[test]
fn saved_passwords_are_read_once() {
    let filled = ServerForm { username: "u".into(), port: "22".into(), ..form("h") };
    let mut state = PasswordState::new();
    let read = state.maybe_refresh_password_state(&filled).unwrap();
    assert_eq!(state.status, PasswordKeychainStatus::Loading);
    assert!(state.maybe_refresh_password_state(&filled).is_none());
    let password = state.password_read(&read, KeychainAnswer::Found(b"p\xc3\xa4ss".to_vec()), &filled);
    assert_eq!(state.status, PasswordKeychainStatus::Saved);
    assert_eq!(password.as_deref(), Some("p\u{e4}ss"));
    assert!(state.maybe_refresh_password_state(&filled).is_none());
    let mut other = PasswordState::new();
    let read = other.maybe_refresh_password_state(&filled).unwrap();
    assert_eq!(other.password_read(&read, KeychainAnswer::Missing, &filled), None);
    assert_eq!(other.status, PasswordKeychainStatus::NotSaved);
}

#[test]
fn unreadable_passwords_are_errors() {
    let filled = ServerForm { username: "u".into(), port: "22".into(), ..form("h") };
    let mut state = PasswordState::new();
    let read = state.maybe_refresh_password_state(&filled).unwrap();
    let password = state.password_read(&read, KeychainAnswer::Found(vec![0xff]), &filled);
    assert_eq!(password, None);
    let mut state = PasswordState::new();
    let read = state.maybe_refresh_password_state(&filled).unwrap();
    state.password_read(&read, KeychainAnswer::Failed, &filled);
    assert_eq!(state.status, PasswordKeychainStatus::Error);
    state.toggle_password_visibility();
    assert!(state.visible);
    state.password_saved("ssh://u@h", true);
    assert_eq!(state.status, PasswordKeychainStatus::Saved);
    state.password_deleted("ssh://u@h", true);
    assert_eq!(state.status, PasswordKeychainStatus::NotSaved);
    let (_, password) =
        state.saved_password_read("ssh://u@h", KeychainAnswer::Found(b"abc".to_vec()));
    assert_eq!(password.as_deref(), Some("abc"));
}
