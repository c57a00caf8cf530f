use remote_projects::connection::{RemoteProject, SshConnection, SshConnectionOptions};
use remote_projects::create_page::{render_create_remote_server, LowerPart};
use remote_projects::create_state::{
    AfterConnect, ConnectOutcome, CreateRemoteServer, QuickPickTab,
};
use remote_projects::settings::{RemoteSettings, RemoteSettingsContent};
use remote_projects::ssh_config::{parse_ssh_config_entries, SshConfigEntries};
use remote_projects::ssh_form::{
    CreateRemoteServerInputMode, KeychainAnswer, PasswordKeychainStatus,
};

fn server(host: &str) -> SshConnection {
    SshConnection { host: host.into(), ..Default::default() }
}

fn settings(hosts: usize) -> RemoteSettings {
    RemoteSettings {
        ssh_connections: (0..hosts).map(|i| server(&format!("h{i:02}"))).collect(),
        wsl_connections: vec![],
        dev_container_connections: vec![],
        read_ssh_config: true,
    }
}

fn content() -> RemoteSettingsContent {
    RemoteSettingsContent {
        ssh_connections: Some(vec![server("a")]),
        wsl_connections: None,
        dev_container_connections: None,
        read_ssh_config: None,
    }
}

fn troubled() -> CreateRemoteServer {
    let mut state = CreateRemoteServer::new();
    state.address_error = Some("wrong".into());
    state.has_prompt = true;
    state.creating = true;
    state
}

fn is_settled(state: &CreateRemoteServer) -> bool {
    state.address_error.is_none() && !state.has_prompt && !state.creating
}

#[test]
fn the_usual_port_is_filled_in_before_the_keychain_is_asked() {
    let mut state = CreateRemoteServer::new();
    state.form.host = "h".into();
    state.form.username = "u".into();
    let entries = SshConfigEntries::new();
    let (page, read) = render_create_remote_server(&mut state, &settings(0), &vec![], &entries);
    assert_eq!(state.form.port, "22");
    assert!(page.password.can_delete && page.password.can_use_saved);
    assert!(!page.password.can_save);
    assert_eq!(page.password.status, "Stored in the system keychain.");
    assert!(!page.can_delete_all);
    let read = read.unwrap();
    assert!(read.auto_fill);
    assert_eq!(state.password.status, PasswordKeychainStatus::Loading);
    let (page, again) = render_create_remote_server(&mut state, &settings(1), &vec![], &entries);
    assert!(again.is_none());
    assert_eq!(page.password.status, "Checking keychain...");
    assert!(page.can_delete_all);
    state.password_read(&read, KeychainAnswer::Found(b"p\xc3\xa4ss".to_vec()));
    assert_eq!(state.form.password, "p\u{e4}ss");
    assert_eq!(state.password.status, PasswordKeychainStatus::Saved);
    let other = CreateRemoteServer { form: state.form.clone(), ..CreateRemoteServer::new() };
    let mut kept = CreateRemoteServer { form: other.form.clone(), ..other };
    kept.form.port = "2200".into();
    render_create_remote_server(&mut kept, &settings(0), &vec![], &entries);
    assert_eq!(kept.form.port, "2200");
}

#[test]
fn showing_the_page_settles_it_where_the_keychain_is_asked() {
    let mut state = troubled();
    state.form.host = "h".into();
    state.form.username = "u".into();
    let entries = SshConfigEntries::new();
    let (page, read) = render_create_remote_server(&mut state, &settings(0), &vec![], &entries);
    assert_eq!(page.lower, LowerPart::Prompt);
    assert!(read.is_some());
    assert!(is_settled(&state));
    let mut bare = troubled();
    let (page, read) = render_create_remote_server(&mut bare, &settings(0), &vec![], &entries);
    assert!(read.is_none() && !page.buttons_enabled);
    assert!(bare.has_prompt && bare.creating);
}

#[test]
fn answers_of_the_keychain_settle_the_page() {
    let mut state = troubled();
    state.toggle_password_visibility();
    assert!(state.password.visible && is_settled(&state));
    let mut state = troubled();
    assert_eq!(state.password_saved("ssh://u@h", false), "Failed to save password.");
    assert_eq!(state.password.status, PasswordKeychainStatus::Error);
    assert!(is_settled(&state));
    let mut state = troubled();
    assert_eq!(state.password_deleted("ssh://u@h", true), "Saved password deleted.");
    assert!(is_settled(&state));
    let mut state = troubled();
    assert_eq!(
        state.saved_password_read("ssh://u@h", KeychainAnswer::Found(b"abc".to_vec())),
        "Password loaded from keychain."
    );
    assert_eq!(state.form.password, "abc");
    assert_eq!(state.password.autoload_url.as_deref(), Some("ssh://u@h"));
    assert!(is_settled(&state));
    let mut state = CreateRemoteServer::new();
    assert_eq!(
        state.saved_password_read("ssh://u@h", KeychainAnswer::Found(vec![0xff])),
        "Saved password is not valid UTF-8."
    );
    assert_eq!(state.form.password, "");
}

#[test]
fn saved_servers_fill_the_form() {
    let mut state = troubled();
    state.form.password = "secret".into();
    state.form_errors.host = Some("Host is required".into());
    let saved = SshConnection {
        username: Some("u".into()),
        port: Some(2200),
        args: vec!["-i".into(), "/key".into()],
        projects: vec![RemoteProject { paths: vec!["/p".into()] }],
        ..server("h")
    };
    state.set_input_mode(CreateRemoteServerInputMode::Command);
    state.apply_saved_connection(&saved);
    assert_eq!(state.input_mode, CreateRemoteServerInputMode::Form);
    assert_eq!(state.form.host, "h");
    assert_eq!(state.form.port, "2200");
    assert_eq!(state.form.identity_file, "/key");
    assert_eq!(state.form.password, "secret");
    assert!(state.show_advanced);
    assert_eq!(state.form_errors.host, None);
    assert_eq!(state.address_error, None);
    assert!(state.has_prompt && state.creating);
    state.toggle_advanced();
    assert!(!state.show_advanced);
}

#[test]
fn defaults_of_the_configuration_settle_the_page() {
    let entries = parse_ssh_config_entries("Host x\nUser me\nPort 2200\n");
    let mut state = troubled();
    state.use_ssh_config_defaults(&entries);
    assert!(state.has_prompt);
    state.form.host = " x ".into();
    state.form_errors.port = Some("Port must be a number".into());
    state.use_ssh_config_defaults(&entries);
    assert_eq!(state.form.username, "me");
    assert_eq!(state.form.port, "2200");
    assert_eq!(state.form_errors.port, None);
    assert!(is_settled(&state));
}

#[test]
fn earlier_entries_are_chosen() {
    let mut state = troubled();
    state.form_errors.host = Some("Host is required".into());
    state.form_errors.port = Some("Port must be a number".into());
    state.choose_username("u");
    assert_eq!(state.form.username, "u");
    assert!(state.address_error.is_none() && state.form_errors.host.is_some());
    state.choose_host("h");
    assert_eq!(state.form.host, "h");
    assert!(state.form_errors.host.is_none() && state.form_errors.port.is_some());
    state.choose_port("2200");
    assert_eq!(state.form.port, "2200");
    assert!(state.form_errors.port.is_none() && state.has_prompt);
}

#[test]
fn quick_picks_are_turned_and_searched() {
    let mut state = CreateRemoteServer::new();
    let entries = SshConfigEntries::new();
    let (page, _) = render_create_remote_server(&mut state, &settings(12), &vec![], &entries);
    let pager = match page.lower {
        LowerPart::Pick(QuickPickTab::SavedConnections, pick) => pick.pager,
        _ => panic!("saved connections are offered"),
    };
    assert_eq!(pager.label.as_deref(), Some("Page 1 of 3"));
    assert!(pager.can_go_on && !pager.can_go_back && !pager.can_clear_search);
    state.turn_saved_connections(pager.page, true);
    assert_eq!(state.saved_connections_page, 1);
    let (page, _) = render_create_remote_server(&mut state, &settings(12), &vec![], &entries);
    match page.lower {
        LowerPart::Pick(_, pick) => {
            assert_eq!(pick.rows[0].title, "h05");
            assert!(pick.pager.can_go_back);
        }
        _ => panic!("saved connections are offered"),
    }
    state.search_saved_connections("H1");
    assert_eq!(state.saved_connections_page, 0);
    let (page, _) = render_create_remote_server(&mut state, &settings(12), &vec![], &entries);
    match page.lower {
        LowerPart::Pick(_, pick) => {
            assert_eq!(pick.total, 2);
            assert!(pick.pager.can_clear_search);
        }
        _ => panic!("saved connections are offered"),
    }
    state.turn_saved_connections(0, false);
    assert_eq!(state.saved_connections_page, 0);
    state.clear_saved_connections_search();
    assert_eq!(state.saved_connections_search, "");
    state.set_quick_pick_tab(QuickPickTab::SshConfig);
    state.turn_ssh_config_hosts(0, true);
    assert_eq!(state.ssh_config_hosts_page, 1);
    state.search_ssh_config_hosts("x");
    assert_eq!(state.ssh_config_hosts_page, 0);
    state.turn_ssh_config_hosts(4, false);
    state.clear_ssh_config_search();
    assert_eq!((state.ssh_config_hosts_page, state.ssh_config_search.as_str()), (0, ""));
}

#[test]
fn picks_go_where_a_server_is_entered() {
    let mut state = troubled();
    state.pick_ssh_config_host("x");
    assert_eq!(state.form.host, "x");
    assert!(is_settled(&state));
    state.set_input_mode(CreateRemoteServerInputMode::Command);
    state.pick_ssh_config_host("y");
    assert_eq!(state.address, "ssh y");
    assert_eq!(state.form.host, "x");
    state.pick_saved_connection(&SshConnection { port: Some(2200), ..server("z") });
    assert_eq!(state.address, "ssh -p 2200 z");
    state.set_input_mode(CreateRemoteServerInputMode::Form);
    state.pick_saved_connection(&server("z"));
    assert_eq!(state.form.host, "z");
}

#[test]
fn connecting_takes_the_page_through_its_states() {
    let mut state = CreateRemoteServer::new();
    assert_eq!(state.connect(Err("unused".into())), None);
    assert!(state.form_errors.host.is_some());
    state.form.host = "h".into();
    let options = state.connect(Err("unused".into())).unwrap();
    assert_eq!(options.host, "h");
    assert!(state.has_prompt && state.creating && state.form_errors.host.is_none());
    assert_eq!(state.connect(Err("unused".into())), None);
    let mut settings = content();
    let before = settings.clone();
    assert_eq!(state.save(Err("unused".into()), &mut settings), None);
    let begun = state.clone();
    state.toggle_advanced();
    state.form.username = "typed".into();
    let end = ConnectOutcome::TimedOut;
    match state.connection_ended(&begun, end, options.clone(), &mut settings) {
        AfterConnect::RestoreAndTell { title, .. } => assert_eq!(title, "Failed to connect"),
        _ => panic!("a late connection is told of"),
    }
    assert!(is_settled(&state));
    assert!(!state.show_advanced);
    assert_eq!(state.form.username, "typed");
    assert_eq!(settings, before);
    state.connect(Err("unused".into()));
    let begun = state.clone();
    let end = ConnectOutcome::NotConnected;
    assert_eq!(
        state.connection_ended(&begun, end, options.clone(), &mut settings),
        AfterConnect::Restore
    );
    let end = ConnectOutcome::Connected;
    assert_eq!(
        state.connection_ended(&begun, end, options, &mut settings),
        AfterConnect::PickFolder(2)
    );
    let list = settings.ssh_connections.unwrap();
    assert_eq!(list.iter().map(|c| c.host.as_str()).collect::<Vec<_>>(), vec!["h", "a", "h"]);
}

#[test]
fn command_lines_are_connected_to_or_refused() {
    let mut state = CreateRemoteServer::new();
    state.set_command_text("  ");
    assert_eq!(state.connect(Err("unused".into())), None);
    assert_eq!(state.address_error, None);
    let mut settings = content();
    assert_eq!(state.save(Err("unused".into()), &mut settings), None);
    assert_eq!(state.address_error.as_deref(), Some("Enter an SSH command to save."));
    state.set_command_text("ssh h");
    assert_eq!(state.connect(Err("no".into())), None);
    assert_eq!(state.address_error.as_deref(), Some("could not parse: no"));
    let parsed = SshConnectionOptions { host: "h".into(), ..Default::default() };
    assert_eq!(settings, content());
    assert_eq!(
        state.save(Ok(parsed.clone()), &mut settings).as_deref(),
        Some("Saved SSH connection.")
    );
    assert_eq!(settings.ssh_connections, Some(vec![server("h"), server("a")]));
    let named = state.connect(Ok(parsed)).unwrap();
    assert_eq!(named.nickname.as_deref(), Some("h"));
    assert!(state.creating);
}
