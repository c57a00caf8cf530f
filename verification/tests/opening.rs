use remote_projects::connection::{
    Connection, DevContainerConnection, DevContainerHost, DockerConnectionOptions,
    RemoteConnectionOptions, RemoteProject, SshConnectionOptions, WslConnectionOptions,
};
use remote_projects::docker_exec::DockerExecConnection;
use remote_projects::open_project::{
    determine_paths_with_positions, failure_end, navigate_to_positions, needs_existence_check,
    open_failure, open_remote_project, path_exists, path_exists_call, FailureEnd, OpenEvent,
    OpenFailure, OpenStep, OpenedItem, PathWithPosition,
};
use remote_projects::overlay::{
    on_project_event, overlay_buttons, overlay_message, return_devcontainer_to_host,
    ContainerReturn, DisconnectAction, Host, ProjectEvent,
};
use remote_projects::process::{kill_next, KillStep};
use remote_projects::settings_sync::{
    render_settings_sync_setup_page, SettingsSyncSettingsContent, SyncPage, SyncSnapshot,
};

fn container(host: Option<DevContainerHost>) -> DevContainerConnection {
    DevContainerConnection {
        name: "box".into(),
        remote_user: "dev".into(),
        container_id: "c1".into(),
        use_podman: false,
        config_path: None,
        projects: vec![],
        host_projects: vec![RemoteProject { paths: vec!["/host".into()] }],
        last_host_project: None,
        host,
        remote_env: vec![],
    }
}

fn docker(host: Option<DevContainerHost>) -> RemoteConnectionOptions {
    RemoteConnectionOptions::from(Connection::from(container(host)))
}

fn docker_options(host: Option<DevContainerHost>) -> DockerConnectionOptions {
    match docker(host) {
        RemoteConnectionOptions::Docker(options) => options,
        _ => panic!("a container is reached through docker"),
    }
}

fn ssh() -> RemoteConnectionOptions {
    RemoteConnectionOptions::Ssh(SshConnectionOptions { host: "h".into(), ..Default::default() })
}

#[test]
fn failures_are_sorted() {
    assert_eq!(
        open_failure(&docker(None), "anything", true, false),
        OpenFailure::Suppress
    );
    assert!(matches!(
        open_failure(&docker(None), "No such container: c1", false, false),
        OpenFailure::Missing(_, _)
    ));
    assert!(matches!(open_failure(&ssh(), "refused", false, false), OpenFailure::Ask(_)));
    assert!(matches!(open_failure(&ssh(), "refused", true, false), OpenFailure::Ask(_)));
    assert_eq!(failure_end(&OpenFailure::Ask("x".into()), true), FailureEnd::Retry);
    assert_eq!(failure_end(&OpenFailure::Ask("x".into()), false), FailureEnd::GiveUp);
    assert_eq!(failure_end(&OpenFailure::Suppress, true), FailureEnd::Ended);
}

#[test]
fn existing_windows_are_reused() {
    let first = open_remote_project(OpenStep::Find, OpenEvent::Existing { alive: true }, false);
    assert_eq!(first.next, OpenStep::OpenInExisting);
    assert!(!first.close_window);
    let done = open_remote_project(OpenStep::OpenInExisting, OpenEvent::Succeeded, false);
    assert_eq!(done.next, OpenStep::Done);
    assert!(!done.close_window);
}

#[test]
fn dead_connections_are_made_anew() {
    let first = open_remote_project(OpenStep::Find, OpenEvent::Existing { alive: false }, false);
    assert_eq!(first.next, OpenStep::PrepareWindow);
    let first = open_remote_project(OpenStep::Find, OpenEvent::NotFound, false);
    assert_eq!(first.next, OpenStep::PrepareWindow);
}

#[test]
fn opening_goes_step_by_step() {
    let mut step = OpenStep::PrepareWindow;
    let mut seen = vec![step];
    while step != OpenStep::Done {
        step = open_remote_project(step, OpenEvent::Succeeded, true).next;
        seen.push(step);
    }
    assert_eq!(
        seen,
        vec![
            OpenStep::PrepareWindow,
            OpenStep::ShowPrompt,
            OpenStep::Connect,
            OpenStep::OpenItems,
            OpenStep::Register,
            OpenStep::Done
        ]
    );
    let failed =
        open_remote_project(OpenStep::Connect, OpenEvent::Failed(FailureEnd::GiveUp), true);
    assert!(failed.close_window);
    let kept =
        open_remote_project(OpenStep::Connect, OpenEvent::Failed(FailureEnd::GiveUp), false);
    assert!(!kept.close_window);
    let retry =
        open_remote_project(OpenStep::Connect, OpenEvent::Failed(FailureEnd::Retry), true);
    assert_eq!(retry.next, OpenStep::ShowPrompt);
}

fn at(path: &str, row: Option<u32>, column: Option<u32>) -> PathWithPosition {
    PathWithPosition { path: path.into(), row, column }
}

#[test]
fn positions_are_cut_from_paths() {
    let paths = vec!["/a:3:4".to_string(), "/b:7".to_string(), "/c".to_string()];
    let parsed = vec![
        Some(at("/a", Some(3), Some(4))),
        Some(at("/b", Some(7), None)),
        Some(at("/c", None, None)),
    ];
    assert!(needs_existence_check(&parsed[0]));
    assert!(!needs_existence_check(&parsed[2]));
    let (found, positions) =
        determine_paths_with_positions(&paths, &parsed, &vec![false, true, false]);
    assert_eq!(found, vec!["/a".to_string(), "/b:7".to_string(), "/c".to_string()]);
    assert_eq!(positions[0], at("/a", Some(3), Some(4)));
    assert_eq!(positions[1], at("/b:7", None, None));
    let items = vec![OpenedItem::Editor, OpenedItem::Editor, OpenedItem::Other];
    let targets = navigate_to_positions(&items, &positions);
    assert_eq!(targets.len(), 1);
    assert_eq!((targets[0].item, targets[0].row, targets[0].column), (0, 2, 3));
}

#[test]
fn paths_are_looked_for_where_they_are() {
    let (program, args) = path_exists_call("/a b");
    assert_eq!(program, "test");
    assert_eq!(args, vec!["-e".to_string(), "/a b".to_string()]);
    let connection = DockerExecConnection::new(docker_options(None));
    let template = path_exists(&connection, "/a", false);
    assert_eq!(template.program, "docker");
    assert_eq!(template.args.last().map(String::as_str), Some("/a"));
}

#[test]
fn lost_containers_lead_back_to_their_host() {
    let saved = vec![container(None)];
    assert_eq!(
        return_devcontainer_to_host(&docker_options(None), &saved),
        ContainerReturn::OpenLocal(vec!["/host".to_string()])
    );
    let wsl = Some(DevContainerHost::Wsl { distro_name: "Arch".into(), user: None });
    assert_eq!(
        return_devcontainer_to_host(&docker_options(wsl.clone()), &vec![container(wsl)]),
        ContainerReturn::OpenRemote(
            RemoteConnectionOptions::Wsl(WslConnectionOptions {
                distro_name: "Arch".into(),
                user: None
            }),
            vec!["/host".to_string()]
        )
    );
    assert_eq!(
        return_devcontainer_to_host(&docker_options(None), &vec![]),
        ContainerReturn::NotRecorded
    );
}

#[test]
fn disconnection_is_shown_or_acted_on() {
    assert_eq!(
        on_project_event(ProjectEvent::Other, Some(ssh()), &vec![]),
        DisconnectAction::Ignore
    );
    assert_eq!(
        on_project_event(ProjectEvent::DisconnectedFromHost, None, &vec![]),
        DisconnectAction::Show(Host::CollabGuestProject)
    );
    let lost = ProjectEvent::DisconnectedFromRemote { server_not_running: true };
    assert_eq!(
        on_project_event(lost, Some(ssh()), &vec![]),
        DisconnectAction::Show(Host::RemoteServerProject(ssh(), true))
    );
    let host = Host::RemoteServerProject(ssh(), true);
    assert!(overlay_buttons(&host).can_reconnect);
    assert!(!overlay_buttons(&Host::CollabGuestProject).can_reconnect);
    assert!(overlay_message(&host, "server9", true).contains("server9"));
}

#[test]
fn killing_goes_from_job_to_tree_to_process() {
    let mut step = KillStep::CheckExited;
    let mut seen = vec![step];
    while step != KillStep::Done {
        step = kill_next(step, false, true);
        seen.push(step);
    }
    assert!(seen.contains(&KillStep::TerminateJob));
    assert!(seen.contains(&KillStep::KillTree));
    assert_eq!(seen[seen.len() - 2], KillStep::KillDirectly);
    assert_eq!(kill_next(KillStep::CheckExited, true, true), KillStep::Done);
}

#[test]
fn sync_settings_have_defaults() {
    let content = SettingsSyncSettingsContent::default();
    let resolved = content.resolved();
    assert!(!resolved.enabled);
    assert!(resolved.sync_windows && resolved.sync_macos && resolved.sync_linux);
    assert!(resolved.include_settings && resolved.include_keymap);
    let own = SettingsSyncSettingsContent {
        repo_name: Some("mine".into()),
        enabled: Some(true),
        ..SettingsSyncSettingsContent::default()
    };
    assert_eq!(own.resolved().repo_name, "mine");
    assert!(own.resolved().enabled);
}

#[test]
fn sync_pages_tell_the_state() {
    assert!(matches!(render_settings_sync_setup_page(None), SyncPage::Unavailable(_)));
    let snapshot = SyncSnapshot {
        app_github_login: Some("me".into()),
        sync_owner_login: None,
        token_available: true,
        repo_name: "mine".into(),
        enabled: true,
        auto_sync_on_change: false,
        is_syncing: false,
        last_action: None,
        last_success_at: None,
        synced_files: vec![],
        last_message: None,
        last_error: Some("offline".into()),
    };
    match render_settings_sync_setup_page(Some(&snapshot)) {
        SyncPage::Status { account, history, .. } => {
            assert!(account.iter().any(|line| line.contains("me")));
            assert!(history.iter().any(|line| line.contains("offline")));
        }
        _ => panic!("a snapshot is shown"),
    }
}
