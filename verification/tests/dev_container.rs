use remote_projects::config_picker::{
    config_matches, folders_picked, picker_heading, start_with_configs, starting_folder,
    ConfigChoice, ConfigPicker, ConfigStart, DevContainerConfig, PickOutcome,
};
use remote_projects::connection::{
    Connection, DevContainerConnection, DevContainerHost, RemoteConnectionOptions, RemoteProject,
    SshConnectionOptions, WslConnectionOptions,
};
use remote_projects::dev_container::{
    build_shell_command, container_action_args, container_action_not_run,
    container_action_outcome, container_command, container_engine_of,
    devcontainer_config_binding_path, devcontainer_display_config_path,
    devcontainer_host_project_root, format_devcontainer_host, is_docker_unavailable_output,
    is_missing_container_output, join_shell_command, normalize_host_starting_dir, output_message,
    probe_dev_container, probe_of_failure, project_unc_path_to_posix, wrap_bashrc, ContainerAction, DevContainerProbe, HostFolder,
};
use remote_projects::dev_container_build::{
    devcontainer_error_hints, open_dev_container, render_create_dev_container,
    CreateRemoteDevContainer, DevContainerBuildState, DevContainerBuildStatus,
    DevContainerBuildStep, DevContainerCreationProgress, DevContainerLogLine,
    DevContainerLogStream, DevContainerProgressEvent, DevContainerStepStatus, SetupPage,
};
use remote_projects::dev_container_status::{
    dev_container_removed, dev_container_started, dev_container_stopped, no_host_folder_message,
    remove_dev_container_now, AfterRemoval,
    recent_project_paths, refresh_message, return_to_host_folder, summarize_refresh, AfterStart,
    DevContainerRefresh, DevContainerStatuses, HostReturn,
    ProbeResult, RefreshStart,
};
use remote_projects::docker_exec::PathStyle;
use remote_projects::output::CommandOutput;
use remote_projects::shell::try_quote;
use remote_projects::settings::{DevContainerKey, RemoteSettingsContent, ServerIndex};

fn container(id: &str) -> DevContainerConnection {
    DevContainerConnection {
        name: format!("name of {id}"),
        remote_user: "dev".into(),
        container_id: id.into(),
        use_podman: false,
        config_path: None,
        projects: vec![],
        host_projects: vec![],
        last_host_project: None,
        host: None,
        remote_env: vec![],
    }
}

fn wsl() -> Option<DevContainerHost> {
    Some(DevContainerHost::Wsl { distro_name: "Arch".into(), user: None })
}

fn project(path: &str) -> RemoteProject {
    RemoteProject { paths: vec![path.to_string()] }
}

fn output(success: bool, stdout: &str, stderr: &str) -> CommandOutput {
    CommandOutput { success, stdout: stdout.into(), stderr: stderr.into() }
}

fn key(id: &str) -> DevContainerKey {
    DevContainerKey::from_connection(&container(id))
}

#[test]
fn hosts_of_containers_are_shown() {
    assert_eq!(format_devcontainer_host(&None), "Local");
    assert!(format_devcontainer_host(&wsl()).contains("Arch"));
    let ssh = Some(DevContainerHost::Ssh {
        host: "h".into(),
        username: Some("u".into()),
        port: None,
        args: vec![],
    });
    assert!(format_devcontainer_host(&ssh).contains("u@h"));
}

#[test]
fn configuration_paths_are_shown_below_the_project() {
    let mut connection = container("c1");
    assert_eq!(devcontainer_host_project_root(&connection), None);
    assert_eq!(devcontainer_display_config_path(&connection), None);
    connection.host_projects = vec![project(r"C:\work\"), project("/other")];
    connection.config_path = Some(r"C:\work\.devcontainer\devcontainer.json".into());
    assert_eq!(devcontainer_host_project_root(&connection).as_deref(), Some(r"C:\work\"));
    assert_eq!(
        devcontainer_display_config_path(&connection).as_deref(),
        Some(".devcontainer/devcontainer.json")
    );
    connection.config_path = Some(r"elsewhere\devcontainer.json".into());
    assert_eq!(
        devcontainer_display_config_path(&connection).as_deref(),
        Some(r"elsewhere\devcontainer.json")
    );
    assert_eq!(devcontainer_config_binding_path(None), None);
    assert_eq!(devcontainer_config_binding_path(Some(r"a\b")).as_deref(), Some("a/b"));
}

#[test]
fn host_folders_are_normalised() {
    assert_eq!(normalize_host_starting_dir(&None, None, true), HostFolder::Missing);
    assert_eq!(
        normalize_host_starting_dir(&None, Some("/x".into()), true),
        HostFolder::Known("/x".to_string())
    );
    for path in [r"\\wsl$\\Arch\home\me", "//wsl.localhost/Arch/home/me", r"\\?\//wsl$/Arch/home/me"] {
        assert_eq!(project_unc_path_to_posix(path, "Arch").as_deref(), Some("/home/me"));
    }
    assert_eq!(
        normalize_host_starting_dir(&wsl(), Some(r"\\wsl$\\Arch\home\me".into()), true),
        HostFolder::Known("/home/me".to_string())
    );
    assert_eq!(
        normalize_host_starting_dir(&wsl(), Some("/home/me".into()), true),
        HostFolder::Known("/home/me".to_string())
    );
    assert_eq!(
        normalize_host_starting_dir(&wsl(), Some(r"C:\x".into()), true),
        HostFolder::AskWsl(r"C:\x".to_string())
    );
    assert_eq!(
        normalize_host_starting_dir(&wsl(), Some(r"C:\x".into()), false),
        HostFolder::Known(r"C:\x".to_string())
    );
    assert_eq!(project_unc_path_to_posix("//wsl$/Other/home", "Arch"), None);
}

#[test]
fn engines_and_their_arguments() {
    assert_eq!(container_engine_of(&container("c1")), "docker");
    assert_eq!(
        container_engine_of(&DevContainerConnection { use_podman: true, ..container("c1") }),
        "podman"
    );
    for (action, expected) in [
        (ContainerAction::Stop, "stop"),
        (ContainerAction::Start, "start"),
        (ContainerAction::Remove, "rm"),
        (ContainerAction::Inspect, "inspect"),
    ] {
        let args = container_action_args(action, "c1");
        assert_eq!(args[0], expected);
        assert_eq!(args.last().map(String::as_str), Some("c1"));
    }
}

#[test]
fn shell_commands_use_quoted_forms() {
    let args = vec!["a b".to_string(), "c".to_string()];
    let quoted = vec![Some("'a b'".to_string()), None];
    assert_eq!(join_shell_command("ls", Some("ls"), &args, &quoted), "ls 'a b' c");
    assert_eq!(build_shell_command("ls", &args), "ls 'a b' c");
    assert_eq!(build_shell_command("ls", &vec!["x\0y".to_string()]), "ls x\0y");
    assert!(wrap_bashrc("ls").ends_with("; ls"));
}

#[test]
fn containers_are_reached_where_they_are() {
    let (program, args) = container_command(&container("c1"), ContainerAction::Stop);
    assert_eq!(program, "docker");
    assert_eq!(args, vec!["stop".to_string(), "c1".to_string()]);
    let there = DevContainerConnection { host: wsl(), ..container("c1") };
    let (program, args) = container_command(&there, ContainerAction::Remove);
    assert_eq!(program, "wsl.exe");
    assert_eq!(args[..5], ["--distribution", "Arch", "--", "sh", "-lc"]);
    assert_eq!(args[5], wrap_bashrc("docker rm -f c1"));
    let over_ssh = DevContainerConnection {
        host: Some(DevContainerHost::Ssh {
            host: "h".into(),
            username: Some("u".into()),
            port: Some(2200),
            args: vec!["-v".into()],
        }),
        use_podman: true,
        ..container("c1")
    };
    let (program, args) = container_command(&over_ssh, ContainerAction::Inspect);
    assert_eq!(program, "ssh");
    assert_eq!(args[..6], ["-v", "-p", "2200", "-q", "-T", "u@h"]);
    let script = wrap_bashrc("podman inspect --format '{{.State.Status}}' c1");
    assert_eq!(args[6], format!("sh -lc {}", try_quote(&script).unwrap()));
    assert_ne!(try_quote(&script), Some(script));
}

#[test]
fn printed_bytes_become_text() {
    let read = CommandOutput::read(true, b"gr\xc3\xbcn", b"a\xffb");
    assert!(read.success);
    assert_eq!(read.stdout, "gr\u{fc}n");
    assert_eq!(read.stderr, "a\u{fffd}b");
}

#[test]
fn probes_tell_the_state() {
    assert_eq!(
        probe_dev_container(Some(output(true, " Running\n", "")), "c1"),
        DevContainerProbe::Running
    );
    assert_eq!(
        probe_dev_container(Some(output(true, "exited\n", "")), "c1"),
        DevContainerProbe::Stopped
    );
    assert_eq!(
        probe_dev_container(Some(output(false, "", "Error: No such object: c1")), "c1"),
        DevContainerProbe::Missing
    );
    assert_eq!(
        probe_dev_container(
            Some(output(false, "", "Cannot connect to the Docker daemon")),
            "c1"
        ),
        DevContainerProbe::DockerUnavailable
    );
    assert_eq!(
        probe_dev_container(Some(output(false, "", "strange")), "c1"),
        DevContainerProbe::Unknown
    );
    assert_eq!(probe_dev_container(None, "c1"), DevContainerProbe::DockerUnavailable);
    assert!(is_missing_container_output("no such container: c1", "c1"));
    assert!(is_docker_unavailable_output("is the docker daemon running?"));
    assert_eq!(probe_of_failure("strange", "c1"), DevContainerProbe::Unknown);
    assert_eq!(output_message("out", "err "), "err out");
}

#[test]
fn container_actions_report() {
    let connection = container("c1");
    assert_eq!(
        container_action_outcome(&connection, ContainerAction::Stop, &output(true, "", ""), "0"),
        Ok(())
    );
    let failed = container_action_outcome(
        &connection,
        ContainerAction::Stop,
        &output(false, "", "denied"),
        "exit status: 1",
    )
    .unwrap_err();
    assert!(failed.contains("denied"));
    assert!(container_action_not_run(&connection, "no docker").contains("no docker"));
}

#[test]
fn hints_are_given_once() {
    let hints = devcontainer_error_hints("docker info failed: devcontainer CLI");
    let mut once = hints.clone();
    once.dedup();
    assert_eq!(hints, once);
    assert_eq!(hints.len(), 10);
    assert!(devcontainer_error_hints("fine").is_empty());
}

#[test]
fn builds_go_step_by_step() {
    let mut build = DevContainerBuildState::new();
    assert_eq!(build.status, DevContainerBuildStatus::Running);
    build.start_step(DevContainerBuildStep::CheckDocker);
    assert_eq!(build.environment, DevContainerStepStatus::Running);
    build.complete_step(DevContainerBuildStep::CheckDocker);
    build.start_step(DevContainerBuildStep::CheckDevcontainerCli);
    build.complete_step(DevContainerBuildStep::CheckDevcontainerCli);
    assert_eq!(build.environment, DevContainerStepStatus::Completed);
    build.start_step(DevContainerBuildStep::DevcontainerUp);
    assert_eq!(build.build, DevContainerStepStatus::Running);
    build.fail_step(DevContainerBuildStep::DevcontainerUp);
    assert_eq!(build.build, DevContainerStepStatus::Failed);
    assert_eq!(build.status, DevContainerBuildStatus::Failed);
    build.append_log_line(DevContainerLogLine {
        stream: DevContainerLogStream::Stderr,
        line: "oops".into(),
    });
    assert!(build.log_contents.contains("oops"));
}

#[test]
fn creation_follows_the_events() {
    let mut creation = CreateRemoteDevContainer::new(DevContainerCreationProgress::Creating);
    creation.handle_devcontainer_progress_event(DevContainerProgressEvent::StepStarted(
        DevContainerBuildStep::CheckDocker,
    ));
    creation.handle_devcontainer_progress_event(DevContainerProgressEvent::StepFailed(
        DevContainerBuildStep::CheckDocker,
        "no docker".into(),
    ));
    match &creation.progress {
        DevContainerCreationProgress::Error(message) => assert!(message.contains("no docker")),
        _ => panic!("a failed step ends the creation"),
    }
    match render_create_dev_container(&creation) {
        SetupPage::Steps { error, rows, log, .. } => {
            assert!(log.contains("no docker"));
            assert_eq!(log, creation.build_state.as_ref().unwrap().log_contents);
            assert!(error.is_some());
            assert_eq!(rows.len(), 3);
        }
        _ => panic!("a build shows its steps"),
    }
    let choosing = CreateRemoteDevContainer::new(DevContainerCreationProgress::SelectingConfig);
    assert_eq!(render_create_dev_container(&choosing), SetupPage::SelectConfig);
}

#[test]
fn opened_containers_are_remembered() {
    let mut settings = RemoteSettingsContent {
        ssh_connections: None,
        wsl_connections: None,
        dev_container_connections: None,
        read_ssh_config: None,
    };
    let (options, paths) = open_dev_container(
        &mut settings,
        container("c1"),
        "/work".into(),
        Some("/host".into()),
        None,
    );
    assert_eq!(paths, vec!["/work".to_string()]);
    assert_eq!(options, RemoteConnectionOptions::from(Connection::from(container("c1"))));
    let saved = settings.dev_container_connections.unwrap();
    assert_eq!(saved[0].projects, vec![project("/work")]);
    assert_eq!(saved[0].last_host_project, Some(project("/host")));
}

#[test]
fn statuses_are_kept_by_key() {
    let mut statuses = DevContainerStatuses::new();
    assert!(statuses.is_empty());
    assert_eq!(statuses.probe(&key("a")), DevContainerProbe::Unknown);
    statuses.set(key("a"), DevContainerProbe::Running);
    statuses.set(key("b"), DevContainerProbe::Stopped);
    statuses.set(key("a"), DevContainerProbe::Missing);
    assert_eq!(statuses.probe(&key("a")), DevContainerProbe::Missing);
    assert_eq!(statuses.probe(&key("b")), DevContainerProbe::Stopped);
    statuses.clear();
    assert!(statuses.is_empty());
}

#[test]
fn refreshing_removes_just_the_missing() {
    let mut state = DevContainerRefresh::new();
    assert!(matches!(
        state.refresh_dev_container_connections(&vec![], true),
        RefreshStart::Empty(Some(_))
    ));
    assert_eq!(
        state.refresh_dev_container_connections(&vec![], false),
        RefreshStart::Empty(None)
    );
    assert_eq!(
        state.refresh_dev_container_connections(&vec![container("a")], true),
        RefreshStart::Probe
    );
    assert!(state.in_flight);
    assert_eq!(
        state.refresh_dev_container_connections(&vec![container("a")], true),
        RefreshStart::Busy
    );
    assert!(state.in_flight);
    let results = vec![
        ProbeResult { connection: container("a"), probe: DevContainerProbe::Running },
        ProbeResult { connection: container("b"), probe: DevContainerProbe::Missing },
        ProbeResult { connection: container("c"), probe: DevContainerProbe::Unknown },
        ProbeResult { connection: container("d"), probe: DevContainerProbe::DockerUnavailable },
    ];
    let summary = summarize_refresh(&results);
    assert_eq!(summary.missing, vec![key("b")]);
    assert_eq!(summary.unknown, 1);
    assert_eq!(summary.docker_unavailable, 1);
    assert_eq!(summary.statuses.probe(&key("a")), DevContainerProbe::Running);
    assert!(refresh_message(1, 0, 0).contains('1'));
    assert!(refresh_message(0, 0, 0) != refresh_message(0, 0, 2));
    let mut settings = RemoteSettingsContent {
        ssh_connections: None,
        wsl_connections: None,
        dev_container_connections: Some(vec![
            container("a"),
            container("b"),
            container("c"),
            container("d"),
        ]),
        read_ssh_config: None,
    };
    let message = state.finish_refresh(&results, &mut settings, true);
    assert_eq!(
        message.as_deref(),
        Some(
            "Removed 1 stale dev container(s). 1 could not be verified. Docker unavailable for 1."
        )
    );
    assert!(!state.in_flight);
    assert_eq!(state.statuses.probe(&key("b")), DevContainerProbe::Missing);
    assert_eq!(state.statuses.probe(&key("d")), DevContainerProbe::DockerUnavailable);
    assert_eq!(
        settings.dev_container_connections,
        Some(vec![container("a"), container("c"), container("d")])
    );
    assert_eq!(
        state.refresh_dev_container_connections(&vec![container("a")], false),
        RefreshStart::Probe
    );
    assert_eq!(state.finish_refresh(&vec![], &mut settings, false), None);
    assert!(state.statuses.is_empty());
}

#[test]
fn stopped_and_started_containers_are_told_of() {
    let mut statuses = DevContainerStatuses::new();
    let connection = container("c1");
    let message =
        dev_container_stopped(&mut statuses, &connection, "box", &Ok(()), false);
    assert!(message.contains("box"));
    assert_eq!(statuses.probe(&key("c1")), DevContainerProbe::Stopped);
    let (_, after) = dev_container_started(
        &mut statuses,
        &connection,
        "box",
        &Ok(()),
        Some(vec!["/work".into()]),
    );
    assert_eq!(statuses.probe(&key("c1")), DevContainerProbe::Running);
    assert_eq!(after, AfterStart::OpenPaths(vec!["/work".to_string()]));
    let (message, after) =
        dev_container_started(&mut statuses, &connection, "box", &Err("no".into()), None);
    assert!(message.contains("no"));
    assert_eq!(after, AfterStart::Nothing);
    assert!(dev_container_removed("box", &Ok(()), false).contains("box"));
}

#[test]
fn host_folders_are_returned_to() {
    let mut connection = container("c1");
    assert_eq!(recent_project_paths(&connection), None);
    assert_eq!(return_to_host_folder(&connection, &vec![]), HostReturn::PickLocal);
    let saved = DevContainerConnection {
        host_projects: vec![project("/host"), project("/second")],
        ..container("c1")
    };
    assert_eq!(
        return_to_host_folder(&connection, &vec![saved.clone()]),
        HostReturn::OpenLocal(vec!["/host".to_string()])
    );
    connection.host_projects = saved.host_projects;
    let there = DevContainerConnection { host: wsl(), ..connection.clone() };
    assert_eq!(
        return_to_host_folder(&there, &vec![]),
        HostReturn::OpenRemote(
            RemoteConnectionOptions::Wsl(WslConnectionOptions {
                distro_name: "Arch".into(),
                user: None
            }),
            vec!["/host".to_string()]
        )
    );
    let nowhere = DevContainerConnection { host_projects: vec![], ..there };
    assert_eq!(return_to_host_folder(&nowhere, &vec![]), HostReturn::NotRecorded);
    assert!(!no_host_folder_message().is_empty());
}

fn config(name: &str, path: &str) -> DevContainerConfig {
    DevContainerConfig { name: name.into(), config_path: path.into() }
}

#[test]
fn configurations_are_picked() {
    assert_eq!(start_with_configs(vec![]), ConfigStart::Open(None));
    let one = config("rust", ".devcontainer/rust/devcontainer.json");
    let two = config("go", ".devcontainer/go/devcontainer.json");
    assert_eq!(start_with_configs(vec![one.clone()]), ConfigStart::Open(Some(one.clone())));
    match start_with_configs(vec![one.clone(), two.clone()]) {
        ConfigStart::Choose(mut asked) => {
            assert_eq!(asked.selected_index, 0);
            assert_eq!(asked.candidates, vec![one.clone(), two.clone()]);
            assert_eq!(asked.confirm(false), ConfigChoice::Open(Some(one.clone())));
            asked.update_matches("go");
            assert_eq!(asked.matching_candidates, vec![two.clone()]);
        }
        _ => panic!("several configurations are chosen from"),
    }
    let mut picker = ConfigPicker::new(vec![one.clone(), two.clone()]);
    picker.update_matches("GO");
    assert_eq!(picker.match_count(), 1);
    assert_eq!(picker.selected(), Some(two.clone()));
    assert_eq!(picker.confirm(false), ConfigChoice::Open(Some(two.clone())));
    picker.update_matches("nothing");
    assert_eq!(picker.match_count(), 0);
    picker.update_matches("");
    assert_eq!(picker.match_count(), 2);
    assert!(config_matches("Rust", "x", "ust"));
    assert!(config_matches("x", "a/rust", "rust"));
    assert!(!config_matches("x", "y", "rust"));
}

#[test]
fn pickers_are_headed() {
    let ssh = RemoteConnectionOptions::Ssh(SshConnectionOptions {
        host: "h".into(),
        nickname: Some("nick".into()),
        ..Default::default()
    });
    let heading = picker_heading(&ssh);
    assert_eq!(heading.title, "h");
    assert_eq!(heading.nickname.as_deref(), Some("nick"));
    assert!(!heading.is_wsl && !heading.is_devcontainer);
    assert_eq!(starting_folder(Some("/home/me"), PathStyle::Posix), "/home/me");
    let mut settings = RemoteSettingsContent {
        ssh_connections: None,
        wsl_connections: None,
        dev_container_connections: Some(vec![container("c1")]),
        read_ssh_config: None,
    };
    assert_eq!(
        folders_picked(&mut settings, ServerIndex::DevContainer(0), None),
        PickOutcome::ShowServers
    );
    assert_eq!(
        folders_picked(&mut settings, ServerIndex::DevContainer(0), Some(vec!["/p".into()])),
        PickOutcome::Open(vec!["/p".to_string()])
    );
    assert_eq!(settings.dev_container_connections.unwrap()[0].projects, vec![project("/p")]);
}

#[test]
fn steps_are_selected_upwards() {
    let mut build = DevContainerBuildState::new();
    build.selected_step = 2;
    build.select_previous_step();
    assert_eq!(build.selected_step, 1);
    build.select_previous_step();
    build.select_previous_step();
    assert_eq!(build.selected_step, 0);
    let creation = CreateRemoteDevContainer::new(DevContainerCreationProgress::SelectingConfig)
        .with_progress(DevContainerCreationProgress::Creating);
    assert_eq!(creation.progress, DevContainerCreationProgress::Creating);
}

#[test]
fn longer_errors_keep_their_hints() {
    let short = "Docker CLI not found";
    let long = format!("while starting: {short}; No valid dev container definition");
    let hints = devcontainer_error_hints(&long);
    assert!(!devcontainer_error_hints(short).is_empty());
    for hint in devcontainer_error_hints(short) {
        assert!(hints.contains(&hint));
    }
    assert!(hints.len() > devcontainer_error_hints(short).len());
}

#[test]
fn removed_containers_leave_the_settings() {
    let before = RemoteSettingsContent {
        ssh_connections: None,
        wsl_connections: None,
        dev_container_connections: Some(vec![container("a"), container("b"), container("c")]),
        read_ssh_config: None,
    };
    let mut settings = before.clone();
    let failed = Err("no docker".to_string());
    assert_eq!(
        remove_dev_container_now(&mut settings, 1, "box", &failed, true),
        ("Failed to remove `box`: no docker".to_string(), AfterRemoval::Stay)
    );
    assert_eq!(settings, before);
    assert_eq!(
        remove_dev_container_now(&mut settings, 1, "box", &Ok(()), true),
        (
            "Removed dev container `box` and disconnected.".to_string(),
            AfterRemoval::ShowServers
        )
    );
    assert_eq!(settings.dev_container_connections, Some(vec![container("a"), container("c")]));
    assert_eq!(dev_container_removed("box", &Ok(()), false), "Removed dev container `box`.");
}
