use remote_projects::connection::{
    Connection, DevContainerConnection, DevContainerHost, DockerConnectionOptions, DockerHost,
    RemoteConnectionOptions, RemoteProject, SshConnection, SshConnectionOptions, WslConnection,
    WslConnectionOptions,
};
use remote_projects::projects::{insert_project, remove_project, sort_projects};
use remote_projects::settings::{
    dev_container_key_from_remote_options, holds_key, host_project_paths,
    host_project_paths_from_settings, is_missing_dev_container_error,
    missing_dev_container_message,
    should_suppress_dev_container_error_during_host_return, upsert_dev_container_connection,
    DevContainerKey, RemoteSettings, RemoteSettingsContent, ServerIndex,
};

fn project(path: &str) -> RemoteProject {
    RemoteProject { paths: vec![path.to_string()] }
}

fn server(host: &str, user: Option<&str>) -> SshConnection {
    SshConnection {
        host: host.into(),
        username: user.map(String::from),
        ..Default::default()
    }
}

fn container(id: &str) -> DevContainerConnection {
    DevContainerConnection {
        name: format!("name of {id}"),
        remote_user: "dev".into(),
        container_id: id.into(),
        use_podman: false,
        config_path: None,
        projects: vec![],
        host_projects: vec![],
        last_host_project: None,
        host: None,
        remote_env: vec![],
    }
}

fn empty() -> RemoteSettingsContent {
    RemoteSettingsContent {
        ssh_connections: None,
        wsl_connections: None,
        dev_container_connections: None,
        read_ssh_config: Some(true),
    }
}

fn docker_options(id: &str) -> DockerConnectionOptions {
    match RemoteConnectionOptions::from(Connection::from(container(id))) {
        RemoteConnectionOptions::Docker(options) => options,
        _ => panic!("a container is reached through docker"),
    }
}

#[test]
fn projects_ascend_and_stand_once() {
    let mut list = vec![];
    for path in ["/b", "/a", "/c", "/a"] {
        insert_project(&mut list, project(path));
    }
    assert_eq!(list, vec![project("/a"), project("/b"), project("/c")]);
    remove_project(&mut list, &project("/b"));
    assert_eq!(list, vec![project("/a"), project("/c")]);
    remove_project(&mut list, &project("/x"));
    assert_eq!(list.len(), 2);
}

#[test]
fn saved_options_fill_what_is_missing() {
    let mut content = empty();
    content.ssh_connections = Some(vec![
        SshConnection {
            port: Some(2200),
            nickname: Some("nick".into()),
            args: vec!["-v".into()],
            upload_binary_over_ssh: Some(true),
            ..server("h", Some("u"))
        },
    ]);
    let settings = RemoteSettings::from_settings(&content);
    let options = settings.connection_options_for("h".into(), Some(2200), Some("u".into()));
    assert_eq!(options.nickname.as_deref(), Some("nick"));
    assert_eq!(options.args, Some(vec!["-v".to_string()]));
    assert!(options.upload_binary_over_ssh);
    let other = settings.connection_options_for("h".into(), None, Some("u".into()));
    assert_eq!(other.nickname, None);
}

#[test]
fn settings_hold_what_was_written() {
    let mut content = empty();
    content.wsl_connections = Some(vec![WslConnection {
        distro_name: "Arch".into(),
        user: None,
        projects: vec![],
    }]);
    let settings = RemoteSettings::from_settings(&content);
    assert!(settings.read_ssh_config);
    assert!(settings.ssh_connections().is_empty());
    assert_eq!(settings.wsl_connections().len(), 1);
    assert!(settings.dev_container_connections().is_empty());
}

#[test]
fn saving_keeps_one_entry() {
    let mut content = empty();
    let options = SshConnectionOptions {
        host: "h".into(),
        username: Some("u".into()),
        nickname: Some("one".into()),
        ..Default::default()
    };
    content.save_ssh_connection_options(options.clone());
    content.save_ssh_connection_options(SshConnectionOptions {
        nickname: Some("two".into()),
        ..options.clone()
    });
    let list = content.ssh_connections.clone().unwrap();
    assert_eq!(list.len(), 1);
    assert_eq!(list[0].nickname.as_deref(), Some("two"));
    content.remove_saved_connection(&list[0]);
    assert_eq!(content.ssh_connections, Some(vec![]));
    content.add_ssh_server(options);
    content.remove_all_saved_connections();
    assert!(content.ssh_connections.unwrap_or_default().is_empty());
}

#[test]
fn added_servers_stand_at_their_place() {
    let mut content = empty();
    let options = |host: &str| SshConnectionOptions { host: host.into(), ..Default::default() };
    assert_eq!(content.add_ssh_server_with_index(options("a")), 0);
    assert_eq!(content.add_ssh_server_with_index(options("b")), 1);
    assert_eq!(content.create_host_from_ssh_config("c"), 2);
    let list = content.ssh_connections.clone().unwrap();
    assert_eq!(list[1].host, "b");
    assert_eq!(list[2].host, "c");
    content.delete_ssh_server(1);
    let hosts: Vec<_> =
        content.ssh_connections.unwrap().into_iter().map(|c| c.host).collect();
    assert_eq!(hosts, vec!["a", "c"]);
}

#[test]
fn names_are_set_and_taken_away() {
    let mut content = empty();
    content.ssh_connections = Some(vec![server("h", None)]);
    content.set_nickname(0, "nick");
    assert_eq!(content.ssh_connections.as_ref().unwrap()[0].nickname.as_deref(), Some("nick"));
    content.set_nickname(0, "");
    assert_eq!(content.ssh_connections.as_ref().unwrap()[0].nickname, None);
    content.dev_container_connections = Some(vec![container("c1")]);
    content.rename_dev_container(0, "renamed");
    assert_eq!(content.dev_container_connections.as_ref().unwrap()[0].name, "renamed");
    content.rename_dev_container(9, "nobody");
    assert_eq!(content.dev_container_connections.as_ref().unwrap().len(), 1);
}

#[test]
fn projects_are_added_to_their_server() {
    let mut content = empty();
    content.ssh_connections = Some(vec![server("a", None), server("b", None)]);
    content.wsl_connections =
        Some(vec![WslConnection { distro_name: "Arch".into(), user: None, projects: vec![] }]);
    content.dev_container_connections = Some(vec![container("c1")]);
    for index in [ServerIndex::Ssh(1), ServerIndex::Wsl(0), ServerIndex::DevContainer(0)] {
        content.add_remote_project(index, project("/p"));
    }
    let ssh = content.ssh_connections.clone().unwrap();
    assert!(ssh[0].projects.is_empty());
    assert_eq!(ssh[1].projects, vec![project("/p")]);
    assert_eq!(content.wsl_connections.as_ref().unwrap()[0].projects, vec![project("/p")]);
    assert_eq!(
        content.dev_container_connections.as_ref().unwrap()[0].projects,
        vec![project("/p")]
    );
    content.delete_remote_project(ServerIndex::Ssh(1), &project("/p"));
    assert!(content.ssh_connections.as_ref().unwrap()[1].projects.is_empty());
    content.delete_wsl_distro(0);
    assert_eq!(content.wsl_connections, Some(vec![]));
    content.delete_dev_container_server(0);
    assert_eq!(content.dev_container_connections, Some(vec![]));
}

#[test]
fn opened_containers_are_saved_with_their_projects() {
    let mut list = vec![container("other")];
    upsert_dev_container_connection(
        &mut list,
        container("c1"),
        "/work".into(),
        Some("/host/work".into()),
        Some("/host/work/.devcontainer".into()),
    );
    upsert_dev_container_connection(&mut list, container("c1"), "/two".into(), None, None);
    assert_eq!(list.len(), 2);
    assert_eq!(list[1], container("other"));
    assert_eq!(list[0].projects, vec![project("/two"), project("/work")]);
    assert_eq!(list[0].host_projects, vec![project("/host/work")]);
    assert_eq!(list[0].last_host_project, Some(project("/host/work")));
    assert_eq!(list[0].config_path.as_deref(), Some("/host/work/.devcontainer"));
    assert_eq!(host_project_paths(&list[0]), Some(vec!["/host/work".to_string()]));
    let key = DevContainerKey::from_connection(&list[0]);
    assert_eq!(
        host_project_paths_from_settings(&list, &key),
        Some(vec!["/host/work".to_string()])
    );
    assert_eq!(host_project_paths(&list[1]), None);
}

#[test]
fn keys_are_those_of_the_options() {
    let key = DevContainerKey::from_connection(&container("c1"));
    assert_eq!(
        dev_container_key_from_remote_options(&RemoteConnectionOptions::Docker(docker_options("c1"))),
        Some(key.clone())
    );
    assert_eq!(
        dev_container_key_from_remote_options(&RemoteConnectionOptions::Wsl(
            WslConnectionOptions { distro_name: "Arch".into(), user: None }
        )),
        None
    );
    let elsewhere = DevContainerKey {
        host: Some(DevContainerHost::Wsl { distro_name: "Arch".into(), user: None }),
        ..key.clone()
    };
    assert!(holds_key(&vec![elsewhere.clone(), key.clone()], &key));
    assert!(!holds_key(&vec![elsewhere], &key));
}

#[test]
fn pruning_removes_just_the_missing() {
    let mut content = empty();
    content.dev_container_connections =
        Some(vec![container("a"), container("b"), container("c")]);
    content.prune_dev_container_connections(&vec![
        DevContainerKey::from_connection(&container("b")),
        DevContainerKey::from_connection(&container("x")),
    ]);
    assert_eq!(
        content.dev_container_connections,
        Some(vec![container("a"), container("c")])
    );
    content.prune_missing_dev_container_connection(&docker_options("a"));
    assert_eq!(content.dev_container_connections, Some(vec![container("c")]));
}

#[test]
fn missing_containers_are_recognised() {
    let options = RemoteConnectionOptions::Docker(docker_options("c1"));
    assert!(is_missing_dev_container_error(&options, "Error: No such container: c1").is_some());
    assert!(is_missing_dev_container_error(&options, "timed out").is_none());
    let ssh = RemoteConnectionOptions::Ssh(SshConnectionOptions {
        host: "h".into(),
        ..Default::default()
    });
    assert!(is_missing_dev_container_error(&ssh, "No such container: c1").is_none());
    assert!(should_suppress_dev_container_error_during_host_return(&options, true).is_some());
    assert!(should_suppress_dev_container_error_during_host_return(&options, false).is_none());
    let message = missing_dev_container_message(&docker_options("c1"), "No such container: c1");
    assert!(message.contains("c1"));
}

#[test]
fn saved_containers_are_kept_apart_by_their_host() {
    let mut list = vec![container("c1")];
    let elsewhere = DevContainerConnection {
        host: Some(DevContainerHost::Wsl { distro_name: "Arch".into(), user: None }),
        ..container("c1")
    };
    upsert_dev_container_connection(&mut list, elsewhere, "/work".into(), None, None);
    assert_eq!(list.len(), 2);
    assert_eq!(docker_options("c1").host, DockerHost::Local);
}

#[test]
fn projects_are_put_in_order() {
    let mixed = vec![project("/b"), project("/a"), project("/b")];
    assert_eq!(sort_projects(&mixed), vec![project("/a"), project("/b")]);
    let mut list = vec![project("/b"), project("/a")];
    insert_project(&mut list, project("/a"));
    assert_eq!(list, vec![project("/a"), project("/b")]);
    let mut content = empty();
    content.ssh_connections =
        Some(vec![SshConnection { projects: mixed.clone(), ..server("h", None) }]);
    content.wsl_connections = Some(vec![WslConnection {
        distro_name: "Arch".into(),
        user: None,
        projects: mixed.clone(),
    }]);
    content.dev_container_connections =
        Some(vec![DevContainerConnection { host_projects: mixed, ..container("c1") }]);
    let settings = RemoteSettings::from_settings(&content);
    let sorted = vec![project("/a"), project("/b")];
    assert_eq!(settings.ssh_connections[0].projects, sorted);
    assert_eq!(settings.wsl_connections[0].projects, sorted);
    assert_eq!(settings.dev_container_connections[0].host_projects, sorted);
    content.sort_projects();
    assert_eq!(content.ssh_connections.as_ref().unwrap()[0].projects, sorted);
    let again = content.clone();
    content.sort_projects();
    assert_eq!(content, again);
}

#[test]
fn containers_are_saved_once() {
    let mut content = empty();
    let save = |content: &mut RemoteSettingsContent| {
        content.save_dev_container_connection(
            container("c1"),
            "/work".into(),
            Some("/host".into()),
            None,
        )
    };
    save(&mut content);
    let once = content.clone();
    save(&mut content);
    assert_eq!(content, once);
}

#[test]
fn connected_servers_are_saved_and_appended() {
    let mut content = empty();
    content.ssh_connections = Some(vec![server("a", None), server("h", Some("u"))]);
    let options = SshConnectionOptions {
        host: "h".into(),
        username: Some("u".into()),
        nickname: Some("nick".into()),
        args: Some(vec!["-v".into()]),
        ..Default::default()
    };
    assert_eq!(content.save_connected_server(options), 2);
    let list = content.ssh_connections.unwrap();
    assert_eq!(list.len(), 3);
    assert_eq!(list[0].nickname.as_deref(), Some("nick"));
    assert_eq!(list[1], server("a", None));
    assert_eq!(list[2].host, "h");
    assert_eq!(list[2].nickname, None);
    assert_eq!(list[2].args, vec!["-v".to_string()]);
}
