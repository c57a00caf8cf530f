use remote_projects::connection::{
    default_ssh_nickname, devcontainer_host_from_docker_host, docker_host_from_devcontainer_host,
    host_connection_options, ssh_command_string, Connection, DevContainerConnection,
    DevContainerHost, DockerConnectionOptions, DockerHost, RemoteConnectionOptions, RemoteProject,
    SshConnection, SshConnectionOptions, WslConnection, WslConnectionOptions,
};

fn ssh() -> SshConnection {
    SshConnection {
        host: "h".into(),
        username: Some("u".into()),
        port: Some(2200),
        args: vec!["-J".into(), "jump".into()],
        nickname: Some("nick".into()),
        upload_binary_over_ssh: Some(true),
        connection_timeout: Some(9),
        ..Default::default()
    }
}

#[test]
fn defaults_are_empty() {
    let options = SshConnectionOptions::default();
    assert_eq!(options.host, "");
    assert_eq!(options.args, None);
    assert!(!options.upload_binary_over_ssh);
    let docker = DockerConnectionOptions::default();
    assert_eq!(docker.host, DockerHost::Local);
    assert!(!docker.use_podman);
}

#[test]
fn saved_servers_become_options() {
    let options = SshConnectionOptions::from(ssh());
    assert_eq!(options.host, "h");
    assert_eq!(options.username.as_deref(), Some("u"));
    assert_eq!(options.port, Some(2200));
    assert_eq!(options.args, Some(vec!["-J".to_string(), "jump".to_string()]));
    assert_eq!(options.nickname.as_deref(), Some("nick"));
    assert!(options.upload_binary_over_ssh);
    assert_eq!(options.connection_timeout, Some(9));
    assert_eq!(options.password, None);
    let wsl = WslConnection { distro_name: "Arch".into(), user: None, projects: vec![] };
    assert_eq!(
        RemoteConnectionOptions::from(Connection::from(wsl)),
        RemoteConnectionOptions::Wsl(WslConnectionOptions {
            distro_name: "Arch".into(),
            user: None
        })
    );
}

fn container(host: Option<DevContainerHost>) -> DevContainerConnection {
    DevContainerConnection {
        name: "box".into(),
        remote_user: "dev".into(),
        container_id: "c1".into(),
        use_podman: true,
        config_path: None,
        projects: vec![],
        host_projects: vec![RemoteProject { paths: vec!["/p".into()] }],
        last_host_project: None,
        host,
        remote_env: vec![],
    }
}

#[test]
fn containers_become_docker_options() {
    match RemoteConnectionOptions::from(Connection::from(container(None))) {
        RemoteConnectionOptions::Docker(options) => {
            assert_eq!(options.name, "box");
            assert_eq!(options.container_id, "c1");
            assert_eq!(options.remote_user, "dev");
            assert!(options.use_podman);
            assert!(!options.upload_binary_over_docker_exec);
            assert_eq!(options.host, DockerHost::Local);
        }
        _ => panic!("a container is reached through docker"),
    }
}

#[test]
fn container_hosts_come_back() {
    let hosts = vec![
        None,
        Some(DevContainerHost::Ssh {
            host: "h".into(),
            username: None,
            port: Some(22),
            args: vec!["-v".into()],
        }),
        Some(DevContainerHost::Wsl { distro_name: "Arch".into(), user: Some("me".into()) }),
    ];
    for host in hosts {
        let there = docker_host_from_devcontainer_host(host.clone());
        assert_eq!(devcontainer_host_from_docker_host(&there), host);
        assert_eq!(host_connection_options(host.as_ref()).is_some(), host.is_some());
    }
}

#[test]
fn destinations_are_written() {
    let mut options = SshConnectionOptions::from(ssh());
    options.connection_timeout = None;
    assert_eq!(options.ssh_destination(), "u@h");
    assert_eq!(options.connection_string(), "u@h:2200");
    assert_eq!(
        options.additional_args(),
        vec!["-J".to_string(), "jump".to_string(), "-p".to_string(), "2200".to_string()]
    );
    options.port = None;
    options.username = None;
    assert_eq!(options.connection_string(), "h");
}

#[test]
fn commands_of_saved_servers_are_shown() {
    let plain = SshConnection { connection_timeout: None, ..ssh() };
    assert_eq!(ssh_command_string(&plain), "ssh -J jump -p 2200 u@h");
    let slow = ssh_command_string(&ssh());
    assert!(slow.starts_with("ssh -J jump ") && slow.ends_with(" u@h"));
    assert!(slow.contains(" -p 2200 "));
    let plain = SshConnection { host: "h".into(), ..Default::default() };
    assert_eq!(ssh_command_string(&plain), "ssh h");
}

#[test]
fn names_are_made_up_where_none_is_given() {
    assert_eq!(default_ssh_nickname("h", Some("u"), Some(2200)).as_deref(), Some("u@h:2200"));
    assert_eq!(default_ssh_nickname("h", None, Some(22)).as_deref(), Some("h"));
    assert_eq!(default_ssh_nickname("h", Some(""), None).as_deref(), Some("h"));
    assert_eq!(default_ssh_nickname("", Some("u"), None), None);
}
