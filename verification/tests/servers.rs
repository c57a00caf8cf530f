use remote_projects::connection::{
    Connection, DevContainerConnection, RemoteConnectionOptions, RemoteProject, SshConnection,
    SshConnectionOptions, WslConnection, WslConnectionOptions,
};
use remote_projects::create_page::{
    config_host_command, connection_detail, connection_search_text, dedup_connections,
    history_of, page_range, password_controls, pick_config_hosts, pick_saved_connections,
    render_create_remote_server, ssh_config_detail, ssh_config_hint, LowerPart,
};
use remote_projects::create_state::{save_action, CreateRemoteServer, QuickPickTab, SaveAction};
use remote_projects::dev_container::DevContainerProbe;
use remote_projects::docker_exec::PathStyle;
use remote_projects::modal::{
    active_dev_container_client, cancel, confirm, connect_wsl_distro, create_remote_project,
    dev_container_name_to_edit, initial_tab, nickname_to_edit, open_remote_project_from_paths,
    polls_dev_containers, project_connected, retained_connection_for, ssh_config_switch,
    wsl_distro_connected, ActiveClient, CancelAction, ConfigSwitch, ConfirmAction, DistroEnd,
    KeptConnection, Mode, ProjectNext, ProjectStart,
};
use remote_projects::remote_entries::{
    default_servers, devcontainer_tooltip, entry_search_text, matches_search_query,
    normalized_search_query, query_finds, should_rebuild, EntryIcon, RemoteEntry, RemoteEntryKey,
    RemoteProjectsTab,
};
use remote_projects::servers_page::{
    add_dev_container, address_copied_message, delete_all_connections_answered,
    delete_all_connections_prompt, delete_connection_answered, delete_connection_prompt, first_visible_key, navigation,
    offered_tabs, opens_folder, page_label, remove_distro_answered, remove_distro_prompt,
    remove_server_answered, remove_server_prompt, render_default,
    render_remote_details, render_view_options, replaces_window, selected_tab_index, show_servers,
    tab_label,
    total_pages, view_options_heading, view_server_options, visible_servers, window_hint, NavItem, PageState,
    ServerAction, ViewServerOptions,
};
use remote_projects::settings::{RemoteSettings, RemoteSettingsContent, ServerIndex};
use remote_projects::ssh_config::{parse_ssh_config_entries, SshConfigEntries};
use remote_projects::ssh_form::{
    CreateRemoteServerFormErrors, CreateRemoteServerInputMode, PasswordKeychainStatus, ServerForm,
};

fn server(host: &str) -> SshConnection {
    SshConnection { host: host.into(), ..Default::default() }
}

fn entry(host: &str, index: usize) -> RemoteEntry {
    RemoteEntry::Project {
        connection: Connection::Ssh(server(host)),
        index: ServerIndex::Ssh(index),
    }
}

fn container(id: &str) -> DevContainerConnection {
    DevContainerConnection {
        name: format!("name of {id}"),
        remote_user: "dev".into(),
        container_id: id.into(),
        use_podman: false,
        config_path: None,
        projects: vec![RemoteProject { paths: vec!["/work".into()] }],
        host_projects: vec![],
        last_host_project: None,
        host: None,
        remote_env: vec![],
    }
}

fn distro(name: &str) -> WslConnection {
    WslConnection { distro_name: name.into(), user: None, projects: vec![] }
}

fn settings() -> RemoteSettings {
    RemoteSettings {
        ssh_connections: vec![server("a"), server("b")],
        wsl_connections: vec![distro("Arch")],
        dev_container_connections: vec![container("c1")],
        read_ssh_config: true,
    }
}

fn page_state() -> PageState {
    PageState {
        tab: RemoteProjectsTab::Ssh,
        ssh_page: 0,
        dev_container_page: 0,
        wsl_page: 0,
        selected: None,
    }
}

fn strings(list: &[&str]) -> Vec<String> {
    list.iter().map(|s| s.to_string()).collect()
}

#[test]
fn entries_are_listed_from_settings_and_configuration() {
    let list = default_servers(&settings(), &strings(&["b", "x"]));
    assert!(list.contains(&entry("a", 0)));
    assert!(list.contains(&entry("b", 1)));
    assert!(list.contains(&RemoteEntry::SshConfig { host: "x".into() }));
    assert!(!list.contains(&RemoteEntry::SshConfig { host: "b".into() }));
    assert_eq!(list.len(), 5);
    assert!(!should_rebuild(&list, &settings(), &strings(&["b", "x"])));
    assert!(should_rebuild(&list, &settings(), &strings(&["b", "x", "y"])));
    let mut changed = settings();
    changed.ssh_connections.pop();
    assert!(should_rebuild(&list, &changed, &strings(&["b", "x"])));
}

#[test]
fn keys_match_their_entries() {
    let list = default_servers(&settings(), &strings(&["x"]));
    for (i, one) in list.iter().enumerate() {
        let key = RemoteEntryKey::from_entry(one);
        for (k, other) in list.iter().enumerate() {
            assert_eq!(key.matches(other), i == k);
        }
    }
}

#[test]
fn entries_have_tabs_and_labels() {
    let config = RemoteEntry::SshConfig { host: "x".into() };
    assert_eq!(config.tab(), RemoteProjectsTab::Ssh);
    assert!(!config.is_from_zed());
    let saved = entry("a", 0);
    assert!(saved.is_from_zed());
    assert!(saved.matches_tab(RemoteProjectsTab::Ssh));
    assert!(!saved.matches_tab(RemoteProjectsTab::Wsl));
    assert!(saved.can_configure());
    let (icon, title, _) = saved.server_row_labels();
    assert_eq!((icon, title.as_str()), (EntryIcon::Server, "a"));
    let wsl = RemoteEntry::Project {
        connection: Connection::Wsl(distro("Arch")),
        index: ServerIndex::Wsl(0),
    };
    assert_eq!(wsl.tab(), RemoteProjectsTab::Wsl);
    let (title, _, is_wsl, is_container) = wsl.header_info();
    assert_eq!((title.as_str(), is_wsl, is_container), ("Arch", true, false));
    let boxed = RemoteEntry::Project {
        connection: Connection::DevContainer(container("c1")),
        index: ServerIndex::DevContainer(0),
    };
    assert_eq!(boxed.tab(), RemoteProjectsTab::DevContainers);
    assert!(devcontainer_tooltip(&boxed, DevContainerProbe::Running).contains("c1"));
    assert!(matches!(config.connection(), Connection::Ssh(_)));
    assert!(!RemoteProjectsTab::Ssh.empty_message().is_empty());
}

#[test]
fn search_ignores_case() {
    let entries = parse_ssh_config_entries("Host x\nHostName Deep.Example\nUser Me\n");
    let config = RemoteEntry::SshConfig { host: "x".into() };
    assert_eq!(normalized_search_query("  DEEP "), "deep");
    assert!(matches_search_query(&config, "deep", &entries));
    assert!(matches_search_query(&config, "", &entries));
    assert!(!matches_search_query(&config, "nowhere", &entries));
    assert!(entry_search_text(&config, &entries).contains("Deep.Example"));
    assert!(query_finds("", "anything"));
    assert!(query_finds("b", "abc"));
    let upper = RemoteEntry::SshConfig { host: "GR\u{dc}N".into() };
    assert!(matches_search_query(&upper, "gr\u{fc}n", &SshConfigEntries::new()));
}

#[test]
fn pages_part_the_servers() {
    let servers: Vec<RemoteEntry> =
        (0..45).map(|i| entry(&format!("h{i:02}"), i)).collect();
    let entries = SshConfigEntries::new();
    let size = {
        let page = show_servers(&mut page_state(), &servers, "", &entries);
        page.paged.len()
    };
    assert_eq!(total_pages(45), (45 + size - 1) / size);
    assert_eq!(total_pages(0), 0);
    let mut all = vec![];
    for number in 0..total_pages(45) {
        let mut state = PageState { ssh_page: number, ..page_state() };
        let page = show_servers(&mut state, &servers, "", &entries);
        assert_eq!(page.current_page, number);
        all.extend(page.paged);
    }
    assert_eq!(all, (0..45).collect::<Vec<_>>());
    let mut far = PageState { ssh_page: 99, ..page_state() };
    let page = show_servers(&mut far, &servers, "", &entries);
    assert_eq!(page.current_page, page.total_pages - 1);
    assert_eq!(page_label(0, 3), "Page 1 of 3");
}

#[test]
fn turning_the_page_shows_its_first_server() {
    let servers: Vec<RemoteEntry> =
        (0..45).map(|i| entry(&format!("h{i:02}"), i)).collect();
    let entries = SshConfigEntries::new();
    let mut state = page_state();
    let page = show_servers(&mut state, &servers, "", &entries);
    assert!(page.prev_page_key.is_none());
    let key = page.next_page_key.unwrap();
    state.set_page(RemoteProjectsTab::Ssh, 1);
    state.selected = Some(key.clone());
    let next = show_servers(&mut state, &servers, "", &entries);
    assert_eq!(next.current_page, 1);
    assert!(key.matches(&servers[next.paged[0]]));
    assert_eq!(next.selected, Some(next.paged[0]));
    assert_eq!(state.page(RemoteProjectsTab::Ssh), 1);
    state.clear_search(RemoteProjectsTab::Ssh);
    assert_eq!(state.page(RemoteProjectsTab::Ssh), 0);
}

#[test]
fn tabs_show_their_own_servers() {
    let list = default_servers(&settings(), &strings(&["x"]));
    let entries = SshConfigEntries::new();
    let ssh = visible_servers(&list, RemoteProjectsTab::Ssh, "", &entries);
    assert_eq!(ssh.len(), 3);
    let wsl = visible_servers(&list, RemoteProjectsTab::Wsl, "", &entries);
    assert_eq!(wsl.len(), 1);
    assert!(tab_label(&list, RemoteProjectsTab::Ssh).contains('3'));
    assert!(first_visible_key(&list, RemoteProjectsTab::Ssh, "a", &entries).is_some());
    assert!(first_visible_key(&list, RemoteProjectsTab::Ssh, "zzz", &entries).is_none());
    assert_eq!(offered_tabs(true).len(), 3);
    assert_eq!(offered_tabs(false).len(), 2);
    assert_eq!(selected_tab_index(RemoteProjectsTab::Ssh, true), 0);
    let mut state = page_state();
    assert!(!state.select_tab(RemoteProjectsTab::Wsl, None));
    assert_eq!(state.tab, RemoteProjectsTab::Wsl);
    assert!(state.select_tab(RemoteProjectsTab::DevContainers, None));
}

#[test]
fn keyboard_visits_rows_and_buttons() {
    let items = navigation(RemoteProjectsTab::Ssh, false, false, &vec![4, 7], None);
    assert_eq!(items[0], NavItem::AddServer);
    assert!(items.contains(&NavItem::Row(4)));
    assert!(items.contains(&NavItem::Row(7)));
    let selected = entry("a", 0);
    let items = navigation(RemoteProjectsTab::Ssh, false, false, &vec![0], Some(&selected));
    assert!(items.contains(&NavItem::OpenFolder));
}

#[test]
fn details_offer_what_can_be_done() {
    let boxed = RemoteEntry::Project {
        connection: Connection::DevContainer(container("c1")),
        index: ServerIndex::DevContainer(0),
    };
    let page = render_remote_details(&boxed, DevContainerProbe::Running);
    assert!(page.is_devcontainer);
    assert_eq!(page.projects.len(), 1);
    let running = render_view_options(
        &ViewServerOptions::DevContainer(container("c1"), 0),
        DevContainerProbe::Running,
    );
    assert!(running.contains(&ServerAction::StopAndDisconnect));
    let stopped = render_view_options(
        &ViewServerOptions::DevContainer(container("c1"), 0),
        DevContainerProbe::Stopped,
    );
    assert!(stopped.contains(&ServerAction::StartAndConnect));
    let ssh = render_view_options(
        &ViewServerOptions::Ssh(
            SshConnectionOptions { host: "h".into(), ..Default::default() },
            0,
        ),
        DevContainerProbe::Unknown,
    );
    assert!(ssh.contains(&ServerAction::AddNickname));
    assert!(ssh.contains(&ServerAction::RemoveServer));
    assert_eq!(ServerAction::GoBack.label(), "Go Back");
    let wsl = RemoteConnectionOptions::Wsl(WslConnectionOptions {
        distro_name: "Arch".into(),
        user: None,
    });
    assert!(matches!(
        view_server_options(ServerIndex::Wsl(2), wsl.clone(), &vec![]),
        Some(ViewServerOptions::Wsl(_, 2))
    ));
    assert_eq!(view_server_options(ServerIndex::Ssh(0), wsl, &vec![]), None);
}

#[test]
fn prompts_name_their_subject() {
    assert!(remove_server_prompt("h").contains("h"));
    assert!(remove_distro_prompt("Arch").contains("Arch"));
    assert!(address_copied_message("h").contains("h"));
    let options = SshConnectionOptions { host: "host9".into(), ..Default::default() };
    assert!(delete_connection_prompt(&options).contains("host9"));
    assert!(window_hint("enter", "ctrl-enter", true).contains("enter"));
    assert_ne!(replaces_window(true, true), replaces_window(true, false));
}

#[test]
fn duplicates_are_listed_once() {
    let list = vec![server("a"), server("b"), server("a")];
    let once = dedup_connections(&list);
    assert_eq!(once.len(), 2);
    assert_eq!(history_of(&strings(&["b", "c", "a", "b"])), strings(&["b", "c", "a"]));
}

#[test]
fn configuration_is_hinted_at() {
    let entries = parse_ssh_config_entries("Host x\nHostName deep\nUser me\nPort 2200\n");
    assert!(ssh_config_hint(true, "x", &entries).is_some());
    assert!(ssh_config_hint(false, "x", &entries).is_none());
    assert!(ssh_config_hint(true, "y", &entries).is_none());
    assert!(ssh_config_detail("x", &entries).contains("deep"));
    assert_eq!(config_host_command("x"), "ssh x");
    assert!(connection_search_text(&server("host9")).contains("host9"));
    assert!(connection_detail(&server("host9")).contains("host9"));
}

#[test]
fn quick_picks_are_paged() {
    let hosts: Vec<String> = (0..30).map(|i| format!("h{i:02}")).collect();
    let pick = pick_config_hosts(&hosts, &vec![server("h00")], "", &SshConfigEntries::new(), 0);
    assert_eq!(pick.rows[0].title, "h01");
    assert_eq!(pick.total, 29);
    let found = pick_config_hosts(&hosts, &vec![], "h07", &SshConfigEntries::new(), 5);
    assert_eq!(found.rows.len(), 1);
    assert_eq!(found.pager.page, 0);
    let nothing = pick_saved_connections(&vec![], "", 0);
    assert!(nothing.message.is_some());
    let saved = pick_saved_connections(&vec![server("b"), server("a")], "a", 0);
    assert_eq!(saved.rows.len(), 1);
    assert_eq!(page_range(30, 1), (1, 5, 10));
    assert_eq!(page_range(12, 9), (2, 10, 12));
}

#[test]
fn forms_are_saved_or_refused() {
    let mut state = CreateRemoteServer::new();
    assert!(matches!(save_action(&state, Err("unused".into())), SaveAction::RejectForm(_)));
    state.form.host = "h".into();
    match save_action(&state, Err("unused".into())) {
        SaveAction::Save(options) => assert_eq!(options.host, "h"),
        _ => panic!("a right form is saved"),
    }
    state.set_command_text("ssh u@h");
    assert_eq!(state.address, "ssh u@h");
    state.input_mode = CreateRemoteServerInputMode::Command;
    assert!(matches!(
        save_action(&state, Err("no host".into())),
        SaveAction::RejectCommand(_)
    ));
    state.reject_form(CreateRemoteServerFormErrors {
        host: Some("Host is required".into()),
        port: None,
        port_forwards: vec![],
    });
    assert_eq!(state.form_errors.host.as_deref(), Some("Host is required"));
}

#[test]
fn create_pages_keep_what_was_typed() {
    let mut state = CreateRemoteServer::new();
    state.fill_usual_port();
    assert_eq!(state.form.port, "22");
    state.use_ssh_config_host("x");
    let again = state.rebuild_with(Some("failed".into()), false, true, None);
    assert_eq!(again.form, state.form);
    assert_eq!(again.address_error.as_deref(), Some("failed"));
    assert!(again.creating);
    assert_eq!(state.snapshot().form, state.form);
    let mut again = again;
    let (page, _) = render_create_remote_server(
        &mut again,
        &settings(),
        &strings(&["x"]),
        &SshConfigEntries::new(),
    );
    assert_eq!(page.host_history, strings(&["a", "b"]));
    match page.lower {
        LowerPart::AddressError(message) => assert!(message.contains("failed")),
        _ => panic!("an error is shown"),
    }
    let (fresh, _) = render_create_remote_server(
        &mut CreateRemoteServer::new(),
        &settings(),
        &strings(&["x"]),
        &SshConfigEntries::new(),
    );
    assert!(matches!(
        fresh.lower,
        LowerPart::Pick(QuickPickTab::SshConfig | QuickPickTab::SavedConnections, _)
    ));
}

#[test]
fn password_buttons_follow_the_state() {
    let mut state = CreateRemoteServer::new();
    assert!(!password_controls(&state).can_save);
    state.form = ServerForm {
        host: "h".into(),
        username: "u".into(),
        port: "22".into(),
        password: "p".into(),
        ..state.form.clone()
    };
    state.password.status = PasswordKeychainStatus::Saved;
    let controls = password_controls(&state);
    assert!(controls.can_save && !controls.can_use_saved && controls.can_delete);
    assert_eq!(controls.status, "Saved in keychain.");
    state.form.password = String::new();
    let controls = password_controls(&state);
    assert!(!controls.can_save && controls.can_use_saved);
}

#[test]
fn modes_decide_on_keys() {
    assert_eq!(confirm(Mode::Default), ConfirmAction::Nothing);
    assert_eq!(confirm(Mode::EditNickname(3)), ConfirmAction::SaveNickname(3));
    assert_eq!(
        confirm(Mode::CreateRemoteServer {
            has_prompt: false,
            input_mode: CreateRemoteServerInputMode::Command
        }),
        ConfirmAction::CreateFromCommand
    );
    assert_eq!(cancel(Mode::Default), CancelAction::Dismiss);
    assert_eq!(cancel(Mode::EditNickname(0)), CancelAction::ShowServers);
    assert_eq!(initial_tab(Mode::Default), RemoteProjectsTab::Ssh);
    assert!(polls_dev_containers(Mode::Default, RemoteProjectsTab::DevContainers));
    assert!(!polls_dev_containers(Mode::Default, RemoteProjectsTab::Ssh));
    assert_eq!(ssh_config_switch(true, true), ConfigSwitch::Keep);
    assert_eq!(ssh_config_switch(false, true), ConfigSwitch::StartWatching);
    assert_eq!(ssh_config_switch(true, false), ConfigSwitch::StopAndForget);
    assert_eq!(nickname_to_edit(&vec![server("a")], 7), None);
    assert_eq!(
        dev_container_name_to_edit(&vec![container("c1")], 0).as_deref(),
        Some("name of c1")
    );
}

#[test]
fn lost_connections_are_not_used() {
    let options = RemoteConnectionOptions::from(Connection::from(container("c1")));
    let lost = KeptConnection { options: options.clone(), disconnected: true };
    let alive = KeptConnection { options: options.clone(), disconnected: false };
    assert_eq!(retained_connection_for(&vec![lost.clone()], &options), None);
    assert_eq!(retained_connection_for(&vec![lost.clone(), alive.clone()], &options), Some(1));
    assert_eq!(
        active_dev_container_client(&container("c1"), Some(&options), true, &vec![]),
        ActiveClient::Project
    );
    assert_eq!(
        active_dev_container_client(&container("c1"), None, false, &vec![alive]),
        ActiveClient::Kept(0)
    );
    assert_eq!(
        active_dev_container_client(&container("c1"), None, false, &vec![lost]),
        ActiveClient::Nothing
    );
}

#[test]
fn projects_begin_with_a_connection() {
    let options = RemoteConnectionOptions::from(Connection::from(container("c1")));
    let lost = KeptConnection { options: options.clone(), disconnected: true };
    let alive = KeptConnection { options: options.clone(), disconnected: false };
    assert_eq!(create_remote_project(&vec![lost.clone()], &options), ProjectStart::Connect);
    assert_eq!(create_remote_project(&vec![lost, alive], &options), ProjectStart::UseKept(1));
    assert_eq!(project_connected(false, Some("/h"), PathStyle::Posix), ProjectNext::ShowServers);
    assert_eq!(
        project_connected(true, Some("/h"), PathStyle::Posix),
        ProjectNext::PickFolder("/h".into())
    );
    assert_eq!(
        project_connected(true, None, PathStyle::Windows),
        ProjectNext::PickFolder("C:\\".into())
    );
    assert_eq!(open_remote_project_from_paths(vec![], true), None);
    assert_eq!(
        open_remote_project_from_paths(strings(&["/p"]), true),
        Some((strings(&["/p"]), false))
    );
}

#[test]
fn distributions_are_added_once_connected() {
    let options = connect_wsl_distro("Arch".into());
    assert_eq!(options, WslConnectionOptions { distro_name: "Arch".into(), user: None });
    assert_eq!(wsl_distro_connected(options.clone(), false), DistroEnd::PickAgain);
    assert_eq!(wsl_distro_connected(options.clone(), true), DistroEnd::Add(options));
}

#[test]
fn identity_files_are_picked() {
    let mut state = CreateRemoteServer::new();
    state.pick_identity_file(None);
    assert_eq!(state.form.identity_file, "");
    state.pick_identity_file(Some(strings(&["/a", "/b"])));
    assert_eq!(state.form.identity_file, "/a");
    state.has_prompt = true;
    state.pick_identity_file(Some(strings(&["/c"])));
    assert_eq!(state.form.identity_file, "/a");
}

#[test]
fn stale_lists_are_made_anew() {
    let mut state = page_state();
    let mut servers = vec![];
    let hosts = strings(&["a", "x"]);
    let entries = SshConfigEntries::new();
    let page = render_default(&mut state, &mut servers, &settings(), &hosts, "", &entries);
    assert_eq!(servers, default_servers(&settings(), &hosts));
    assert!(!should_rebuild(&servers, &settings(), &hosts));
    assert_eq!(page.selected, Some(page.visible[0]));
    let before = servers.clone();
    render_default(&mut state, &mut servers, &settings(), &hosts, " NOWHERE ", &entries);
    assert_eq!(servers, before);
}

#[test]
fn containers_are_made_from_an_open_project() {
    assert_eq!(add_dev_container(true), None);
    let question = add_dev_container(false).unwrap();
    assert_eq!(question.title, "Open a project to create a dev container");
    assert_eq!(question.answers, strings(&["Open Folder...", "Cancel"]));
    assert!(opens_folder(Some(0)));
    assert!(!opens_folder(Some(1)));
    assert!(!opens_folder(None));
}

#[test]
fn saved_connections_are_deleted_on_demand() {
    let mut content = RemoteSettingsContent {
        ssh_connections: Some(vec![server("a"), server("b"), server("c")]),
        wsl_connections: None,
        dev_container_connections: None,
        read_ssh_config: None,
    };
    assert_eq!(delete_connection_answered(&mut content, &server("b"), Some(1)), None);
    assert_eq!(content.ssh_connections.as_ref().unwrap().len(), 3);
    assert_eq!(
        delete_connection_answered(&mut content, &server("b"), Some(0)).as_deref(),
        Some("Saved connection deleted.")
    );
    assert_eq!(content.ssh_connections, Some(vec![server("a"), server("c")]));
    assert_eq!(delete_all_connections_prompt().title, "Delete all saved connections?");
    assert_eq!(delete_all_connections_answered(&mut content, None), None);
    assert_eq!(
        delete_all_connections_answered(&mut content, Some(0)).as_deref(),
        Some("All saved connections deleted.")
    );
    assert_eq!(content.ssh_connections, Some(vec![]));
}

#[test]
fn options_are_headed() {
    let ssh = view_options_heading(&ViewServerOptions::Ssh(
        SshConnectionOptions {
            host: "h".into(),
            username: Some("u".into()),
            port: Some(2200),
            nickname: Some("nick".into()),
            ..Default::default()
        },
        0,
    ));
    assert_eq!((ssh.title.as_str(), ssh.nickname.as_deref()), ("h", Some("nick")));
    assert!(!ssh.is_wsl && !ssh.is_devcontainer);
    let wsl = view_options_heading(&ViewServerOptions::Wsl(
        WslConnectionOptions { distro_name: "Arch".into(), user: Some("me".into()) },
        0,
    ));
    assert_eq!((wsl.title.as_str(), wsl.nickname), ("Arch", None));
    assert!(wsl.is_wsl && !wsl.is_devcontainer);
    let dev = view_options_heading(&ViewServerOptions::DevContainer(container("c1"), 0));
    assert_eq!((dev.title.as_str(), dev.nickname), ("name of c1", None));
    assert!(!dev.is_wsl && dev.is_devcontainer);
}

#[test]
fn servers_are_removed_on_demand() {
    let before = RemoteSettingsContent {
        ssh_connections: Some(vec![server("a"), server("b")]),
        wsl_connections: Some(vec![distro("Arch"), distro("Debian")]),
        dev_container_connections: None,
        read_ssh_config: None,
    };
    let mut content = before.clone();
    assert!(!remove_server_answered(&mut content, 0, Some(1)));
    assert!(!remove_distro_answered(&mut content, 1, None));
    assert_eq!(content, before);
    assert!(remove_server_answered(&mut content, 0, Some(0)));
    assert!(remove_distro_answered(&mut content, 1, Some(0)));
    assert_eq!(content.ssh_connections, Some(vec![server("b")]));
    assert_eq!(content.wsl_connections, Some(vec![distro("Arch")]));
}
