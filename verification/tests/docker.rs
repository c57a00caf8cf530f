use remote_projects::connection::{
    DockerConnectionOptions, DockerHost, EnvVar, SshConnectionOptions, WslConnectionOptions,
};
use remote_projects::docker::{
    format_local_path_for_docker_host, format_local_path_for_wsl_host,
    host_docker_command_template, host_docker_command_template_bridged, new_host_docker_command,
    should_fallback_to_container_default_user, should_fallback_to_container_default_user_message,
    windows_path_to_wsl_mount, wsl_unc_path_to_posix, CommandError,
};
use remote_projects::docker_exec::{
    docker_command_outcome, server_binary_name, AppVersion, ConnectStep, DockerExecConnection,
    PathStyle, ReleaseChannel, RemoteArch, RemoteOs, RemotePlatform, VersionError,
};
use remote_projects::docker_server::{
    built_binary_path,    download_next, extract_script, extract_server_binary, install_next, kill_command, kill_outcome, packed_binary_path,
    proxy_exit, server_binary_path, server_mode, show_path, unpacked_path, upload_chown_command,
    upload_chown_outcome, upload_copy_command, upload_copy_outcome, wants_own_version,
    DownloadStep, InstallEvent, InstallStep, Interactive,
};

fn strings(list: &[&str]) -> Vec<String> {
    list.iter().map(|s| s.to_string()).collect()
}

fn ssh_host() -> DockerHost {
    DockerHost::Ssh(SshConnectionOptions {
        host: "ssh.example.com".into(),
        username: Some("arch".to_string()),
        ..Default::default()
    })
}

fn wsl_options() -> WslConnectionOptions {
    WslConnectionOptions { distro_name: "Arch".into(), user: Some("me".into()) }
}

fn options() -> DockerConnectionOptions {
    DockerConnectionOptions {
        name: "box".into(),
        container_id: "c1".into(),
        remote_user: "dev".into(),
        ..Default::default()
    }
}

#[test]
fn should_convert_wsl_unc_path_case_insensitively() {
    let converted =
        wsl_unc_path_to_posix(r"\\wsl.localhost\arch\home\arch\project\.devcontainer", "Arch");

    assert_eq!(converted.as_deref(), Some("/home/arch/project/.devcontainer"));
}

#[test]
fn should_convert_wsl_dollar_unc_path_case_insensitively() {
    let converted = wsl_unc_path_to_posix(r"\\wsl$\ARCH\home\arch\project", "Arch");

    assert_eq!(converted.as_deref(), Some("/home/arch/project"));
}

#[test]
fn should_build_ssh_docker_command_template() {
    let template = host_docker_command_template(
        "docker",
        &DockerHost::Ssh(SshConnectionOptions {
            host: "ssh.example.com".into(),
            username: Some("arch".to_string()),
            port: Some(2222),
            args: Some(vec!["-J".to_string(), "jumpbox".to_string()]),
            ..Default::default()
        }),
        vec!["exec".to_string(), "container-id".to_string()],
    );

    assert_eq!(template.program, "ssh");
    assert_eq!(
        template.args,
        vec![
            "-J".to_string(),
            "jumpbox".to_string(),
            "-p".to_string(),
            "2222".to_string(),
            "arch@ssh.example.com".to_string(),
            "docker".to_string(),
            "exec".to_string(),
            "container-id".to_string(),
        ]
    );
}

#[test]
fn arguments_of_the_engine_come_last() {
    let args = strings(&["ps", "-a"]);
    let local = host_docker_command_template("podman", &DockerHost::Local, args.clone());
    assert_eq!(local.program, "podman");
    assert_eq!(local.args, args);
    let wsl = host_docker_command_template_bridged(
        "docker",
        &DockerHost::Wsl(wsl_options()),
        args.clone(),
        true,
    );
    assert_eq!(wsl.program, "wsl.exe");
    assert_eq!(
        wsl.args,
        strings(&[
            "--user",
            "me",
            "--distribution",
            "Arch",
            "--cd",
            "~",
            "--exec",
            "docker",
            "ps",
            "-a"
        ])
    );
    let ssh = host_docker_command_template("docker", &ssh_host(), args.clone());
    assert_eq!(ssh.args, strings(&["arch@ssh.example.com", "docker", "ps", "-a"]));
}

#[test]
fn host_commands_run_where_the_host_is() {
    let args = strings(&["ps"]);
    let local = new_host_docker_command("docker", &DockerHost::Local, &args, false);
    assert_eq!((local.program.as_str(), local.in_temp_dir), ("docker", false));
    let ssh = new_host_docker_command("docker", &ssh_host(), &args, false);
    assert_eq!(ssh.program, "ssh");
    assert_eq!(ssh.args, strings(&["arch@ssh.example.com", "docker", "ps"]));
}

#[test]
fn windows_paths_become_mounts() {
    assert_eq!(windows_path_to_wsl_mount(r"C:\Users\me").as_deref(), Some("/mnt/c/Users/me"));
    assert_eq!(windows_path_to_wsl_mount("d:/x"), None);
    assert_eq!(windows_path_to_wsl_mount(r"d:\").as_deref(), Some("/mnt/d/"));
    assert_eq!(windows_path_to_wsl_mount("/home/me"), None);
    assert_eq!(windows_path_to_wsl_mount("relative"), None);
}

#[test]
fn local_paths_are_written_for_their_host() {
    let wsl = wsl_options();
    assert_eq!(format_local_path_for_wsl_host(r"\\wsl$\Arch\home\me", &wsl), "/home/me");
    assert_eq!(format_local_path_for_wsl_host(r"C:\work", &wsl), "/mnt/c/work");
    assert_eq!(format_local_path_for_docker_host("/x/y", &DockerHost::Local), "/x/y");
    assert_eq!(
        format_local_path_for_docker_host(r"C:\work", &DockerHost::Wsl(wsl_options())),
        "/mnt/c/work"
    );
    assert_eq!(wsl_unc_path_to_posix(r"\\wsl$\Other\home", "Arch"), None);
}

#[test]
fn missing_users_are_recognised() {
    assert!(should_fallback_to_container_default_user_message(
        "OCI runtime exec failed: unable to find user dev: no matching entries in passwd file"
    ));
    assert!(!should_fallback_to_container_default_user_message("connection refused"));
    let error = CommandError { message: "unable to find user dev".to_string() };
    assert!(should_fallback_to_container_default_user(&error));
}

#[test]
fn version_text_follows_semantic_versioning() {
    let version = AppVersion {
        major: 1,
        minor: 2,
        patch: 3,
        pre: "rc.1".into(),
        build: "b7".into(),
    };
    assert_eq!(version.text(), Ok("1.2.3-rc.1+b7".to_string()));
    let plain = AppVersion { pre: String::new(), build: String::new(), ..version.clone() };
    assert_eq!(plain.text(), Ok("1.2.3".to_string()));
    let bad = AppVersion { pre: "no spaces".into(), ..version.clone() };
    assert_eq!(bad.text(), Err(VersionError::BadIdentifier));
    let leading_zero = AppVersion { pre: "01".into(), ..version };
    assert_eq!(leading_zero.text(), Err(VersionError::BadIdentifier));
}

#[test]
fn server_binary_is_named_after_channel_and_version() {
    let version = AppVersion {
        major: 0,
        minor: 9,
        patch: 1,
        pre: String::new(),
        build: String::new(),
    };
    let stable = server_binary_name(ReleaseChannel::Stable, "stable", &version, None).unwrap();
    assert_eq!(stable, "zed-remote-server-stable-0.9.1");
    let nightly =
        server_binary_name(ReleaseChannel::Nightly, "nightly", &version, Some("abc")).unwrap();
    assert_eq!(nightly, "zed-remote-server-nightly-0.9.1-abc");
    let dev = server_binary_name(ReleaseChannel::Dev, "dev", &version, None).unwrap();
    assert_eq!(dev, "zed-remote-server-dev-build");
}

#[test]
fn connecting_asks_step_by_step() {
    let mut connection = DockerExecConnection::new(options());
    assert_eq!(connection.docker_cli(), "docker");
    let inspect = connection.connect_command(ConnectStep::Inspect, false).unwrap();
    assert_eq!(inspect.program, "docker");
    assert_eq!(inspect.args[0], "inspect");
    assert_eq!(
        connection.connect_next(ConnectStep::Inspect, Ok("true\n".into())),
        Ok(ConnectStep::ProbeUser)
    );
    assert_eq!(
        connection.connect_next(ConnectStep::ProbeUser, Ok(String::new())),
        Ok(ConnectStep::Platform)
    );
    assert_eq!(connection.exec_user.as_deref(), Some("dev"));
    let next = connection
        .platform_found(RemotePlatform { os: RemoteOs::Linux, arch: RemoteArch::X86_64 });
    assert_eq!(next, ConnectStep::ShellVariable);
    assert_eq!(connection.path_style(), PathStyle::Posix);
    assert_eq!(
        connection.connect_next(ConnectStep::ShellVariable, Ok("/bin/zsh\n".into())),
        Ok(ConnectStep::Home)
    );
    assert_eq!(connection.shell(), "/bin/zsh");
    assert_eq!(
        connection.connect_next(ConnectStep::Home, Ok("/home/dev\n".into())),
        Ok(ConnectStep::Binary)
    );
    assert_eq!(connection.remote_dir_for_server, "/home/dev");
    assert!(connection.connect_command(ConnectStep::Binary, false).is_none());
}

#[test]
fn stopped_container_is_started_first() {
    let mut connection = DockerExecConnection::new(options());
    assert_eq!(
        connection.connect_next(ConnectStep::Inspect, Ok("false\n".into())),
        Ok(ConnectStep::Start)
    );
    assert_eq!(
        connection.connect_next(ConnectStep::Start, Ok(String::new())),
        Ok(ConnectStep::ProbeUser)
    );
    assert!(connection.connect_next(ConnectStep::Inspect, Err("gone".into())).is_err());
}

#[test]
fn missing_user_gives_way_to_the_default_one() {
    let mut connection = DockerExecConnection::new(options());
    assert_eq!(
        connection.connect_next(
            ConnectStep::ProbeUser,
            Err("unable to find user dev: no matching entries in passwd file".into())
        ),
        Ok(ConnectStep::Platform)
    );
    assert_eq!(connection.exec_user, None);
    let mut args = Vec::new();
    connection.append_exec_user_arg(&mut args);
    assert!(args.is_empty());
    let mut other = DockerExecConnection::new(options());
    assert!(other.connect_next(ConnectStep::ProbeUser, Err("broken pipe".into())).is_err());
}

#[test]
fn exec_calls_carry_user_folder_and_environment() {
    let mut connection = DockerExecConnection::new(options());
    connection.exec_user = Some("dev".into());
    let env = vec![EnvVar { name: "A".into(), value: "1".into() }];
    let call =
        connection.run_docker_exec("ls", Some("/work"), &env, &strings(&["-l"]), false);
    assert_eq!(
        call.args,
        strings(&["exec", "-w", "/work", "-u", "dev", "-e", "A=1", "c1", "ls", "-l"])
    );
    let stop = connection.run_docker_command("stop", &strings(&["c1"]), false);
    assert_eq!(stop.args, strings(&["stop", "c1"]));
}

#[test]
fn failed_commands_tell_what_was_said() {
    assert_eq!(docker_command_outcome("ls", true, "out".into(), "noise"), Ok("out".to_string()));
    let error = docker_command_outcome("ls", false, "out".into(), "no such file").unwrap_err();
    assert!(error.contains("ls"));
    assert!(error.contains("no such file"));
}

#[test]
fn install_ends_with_a_binary() {
    let next = |step, event| {
        install_next(step, ReleaseChannel::Stable, false, "bin", event)
    };
    assert_eq!(next(InstallStep::Check, InstallEvent::Checked(true)), Ok(InstallStep::Build { exists: true }));
    assert_eq!(
        next(InstallStep::Build { exists: true }, InstallEvent::Built(false)),
        Ok(InstallStep::Done)
    );
    assert_eq!(
        next(InstallStep::Build { exists: false }, InstallEvent::Built(false)),
        Ok(InstallStep::AskUrl)
    );
    assert_eq!(next(InstallStep::DownloadOnServer, InstallEvent::Succeeded), Ok(InstallStep::ExtractDownloaded));
    assert_eq!(
        next(InstallStep::DownloadOnServer, InstallEvent::Failed("no curl".into())),
        Ok(InstallStep::DownloadLocally)
    );
    assert_eq!(next(InstallStep::ExtractDownloaded, InstallEvent::Succeeded), Ok(InstallStep::Done));
    assert!(wants_own_version(ReleaseChannel::Stable));
    assert!(!wants_own_version(ReleaseChannel::Nightly));
}

#[test]
fn download_falls_back_to_wget() {
    let (step, _) =
        download_next(DownloadStep::MakeDir, String::new(), Ok(String::new())).unwrap();
    assert_eq!(step, DownloadStep::Curl);
    let (step, held) =
        download_next(DownloadStep::Curl, String::new(), Err("curl failed".into())).unwrap();
    assert_eq!(step, DownloadStep::WhichCurl);
    assert_eq!(
        download_next(DownloadStep::WhichCurl, held.clone(), Ok(String::new())),
        Err("curl failed".to_string())
    );
    let (step, _) = download_next(DownloadStep::WhichCurl, held, Err("none".into())).unwrap();
    assert_eq!(step, DownloadStep::Wget);
    let (step, _) = download_next(DownloadStep::Wget, String::new(), Ok(String::new())).unwrap();
    assert_eq!(step, DownloadStep::Done);
}

#[test]
fn server_paths_are_built() {
    assert_eq!(server_binary_path(".zed_server", "bin"), ".zed_server/bin");
    assert_eq!(packed_binary_path(".zed_server", "bin", 7), ".zed_server/bin-download-7.gz");
    assert_eq!(unpacked_path("a.gz").as_deref(), Some("a"));
    assert_eq!(unpacked_path("a"), None);
    assert_eq!(show_path("a/b", PathStyle::Windows), r"a\b");
    assert_eq!(show_path("a/b", PathStyle::Posix), "a/b");
    assert_eq!(server_mode(), "755");
}

#[test]
fn extract_script_unpacks_where_needed() {
    let script = extract_script(Some("755"), Some("'a.gz'"), Some(Some("'a'")), Some("'b'")).unwrap();
    assert_eq!(script, "gunzip -f 'a.gz' && chmod 755 'a' && mv 'a' 'b'");
    let script = extract_script(Some("755"), Some("'a'"), None, Some("'b'")).unwrap();
    assert_eq!(script, "chmod 755 'a' && mv 'a' 'b'");
    assert!(extract_script(None, Some("a"), None, Some("b")).is_err());
    assert_eq!(
        extract_server_binary("dir/bin", "dir/my bin.gz", PathStyle::Posix).unwrap(),
        "gunzip -f 'dir/my bin.gz' && chmod 755 'dir/my bin' && mv 'dir/my bin' dir/bin"
    );
    assert_eq!(
        extract_server_binary("dir/bin", "dir/tmp", PathStyle::Posix).unwrap(),
        "chmod 755 dir/tmp && mv dir/tmp dir/bin"
    );
    assert_eq!(
        extract_server_binary("dir/\0", "dir/tmp", PathStyle::Posix),
        Err("shell quoting".to_string())
    );
}

#[test]
fn uploads_are_copied_and_owned() {
    let copy = upload_copy_command("docker", &options(), "/tmp/a", "/srv/a", false);
    assert_eq!(copy.args, strings(&["cp", "-a", "/tmp/a", "c1:/srv/a"]));
    assert_eq!(upload_copy_outcome(&options(), "/tmp/a", "/srv/a", true, ""), Ok(()));
    assert!(upload_copy_outcome(&options(), "/tmp/a", "/srv/a", false, "denied")
        .unwrap_err()
        .contains("denied"));
    let own = upload_chown_command("docker", &options(), "/srv/a", false);
    assert_eq!(own.args[0], "exec");
    assert_eq!(upload_chown_outcome(true, ""), Ok(()));
    assert!(upload_chown_outcome(false, "denied").is_err());
}

#[test]
fn proxies_are_killed_and_replaced() {
    let mut connection = DockerExecConnection::new(options());
    assert!(connection.has_been_killed());
    connection.proxy_started(42);
    assert!(!connection.has_been_killed());
    assert_eq!(connection.take_proxy(), Some(42));
    assert!(connection.has_been_killed());
    assert_eq!(kill_command(42, false), ("kill".to_string(), strings(&["42"])));
    assert_eq!(
        kill_command(42, true),
        ("taskkill".to_string(), strings(&["/PID", "42", "/T", "/F"]))
    );
    assert_eq!(kill_outcome(42, true, "", ""), Ok(()));
    assert_eq!(kill_outcome(42, false, "", "No Such Process"), Ok(()));
    assert_eq!(
        kill_outcome(42, false, "", "not permitted "),
        Err("Failed to kill process 42: not permitted".to_string())
    );
    assert_eq!(proxy_exit(0), Ok(0));
    assert_eq!(proxy_exit(-3), Err("Remote server exited with status -3".to_string()));
}

#[test]
fn proxy_needs_a_binary() {
    let mut connection = DockerExecConnection::new(options());
    assert!(connection.start_proxy(None, None, None, "id", false, false).is_err());
    connection.remote_binary = Some(".zed_server/bin".into());
    connection.remote_dir_for_server = "/home/dev".into();
    let call = connection.start_proxy(Some("debug"), None, None, "id", true, false).unwrap();
    assert!(call.args.contains(&"RUST_LOG=debug".to_string()));
    assert_eq!(call.args.last().map(String::as_str), Some("--reconnect"));
}

#[test]
fn commands_run_in_the_container() {
    let mut connection = DockerExecConnection::new(options());
    connection.exec_user = Some("dev".into());
    connection.shell = "/bin/bash".into();
    let template = connection.build_command(
        Some("make".into()),
        &strings(&["all"]),
        &Vec::new(),
        Some("/work".into()),
        Interactive::No,
    );
    assert_eq!(template.program, "docker");
    assert_eq!(
        template.args,
        strings(&["exec", "-u", "dev", "-w", "/work", "-i", "c1", "make", "all"])
    );
    assert!(connection.build_forward_ports_command().is_err());
}

#[test]
fn servers_are_looked_for_and_downloaded_in_the_container() {
    let mut connection = DockerExecConnection::new(options());
    connection.remote_dir_for_server = "/home/dev".into();
    connection.exec_user = Some("dev".into());
    assert!(connection.install_start().is_err());
    connection.platform_found(RemotePlatform { os: RemoteOs::Linux, arch: RemoteArch::X86_64 });
    assert_eq!(connection.install_start(), Ok(InstallStep::Check));
    let check = connection.check_binary_command(".zed_server/bin", false);
    assert_eq!(
        check.args,
        strings(&["exec", "-w", "/home/dev", "-u", "dev", "c1", ".zed_server/bin", "version"])
    );
    let script = connection.script_command("true", false);
    assert_eq!(
        script.args,
        strings(&["exec", "-w", "/home/dev", "-u", "dev", "c1", "sh", "-c", "true"])
    );
    assert_eq!(connection.full_server_path(".zed_server/bin"), "/home/dev/.zed_server/bin");
    let fetch = connection
        .download_command(DownloadStep::Curl, "https://x/y", ".zed_server", ".zed_server/f.gz", false)
        .unwrap();
    assert_eq!(
        fetch.args[5..],
        ["c1", "curl", "-f", "-L", "https://x/y", "-o", ".zed_server/f.gz"]
    );
    assert!(connection
        .download_command(DownloadStep::Done, "u", ".zed_server", "f", false)
        .is_none());
    assert_eq!(built_binary_path(".zed_server", "bin", 7), ".zed_server/download-7-bin");
    assert_eq!(connection.default_system_shell(), "/bin/sh");
    assert!(!connection.has_wsl_interop());
}

#[test]
fn paths_for_wsl_have_no_backslash() {
    for path in [
        r"\\wsl$\Arch\home\me",
        r"\\?\UNC\wsl.localhost\arch\x",
        r"\\?\C:\a\b",
        r"D:\",
        r"relative\path",
        r"/mixed\path",
        r"\\wsl$\Other\x",
    ] {
        let shown = format_local_path_for_wsl_host(path, &wsl_options());
        assert!(!shown.contains('\\'), "{shown}");
    }
    assert_eq!(
        format_local_path_for_wsl_host(r"\\?\UNC\wsl.localhost\arch\x", &wsl_options()),
        "/x"
    );
}

#[test]
fn every_download_ends() {
    for good in [true, false] {
        let mut step = DownloadStep::MakeDir;
        let mut held = String::new();
        let mut steps = 0;
        while step != DownloadStep::Done {
            let outcome = if good || step == DownloadStep::MakeDir {
                Ok(String::new())
            } else {
                Err("no".to_string())
            };
            match download_next(step, held.clone(), outcome) {
                Ok((next, error)) => (step, held) = (next, error),
                Err(error) => {
                    assert_eq!(error, "Neither curl nor wget is available");
                    break;
                }
            }
            steps += 1;
            assert!(steps < 10);
        }
    }
}

#[test]
fn written_paths_stay() {
    let options = WslConnectionOptions { distro_name: "Arch".into(), user: None };
    for path in [
        "C:\\x\\y",
        "\\\\wsl$\\Arch\\home\\me",
        "\\\\?\\C:\\x",
        "/already/there",
        "a\\b",
    ] {
        let once = format_local_path_for_wsl_host(path, &options);
        assert_eq!(format_local_path_for_wsl_host(&once, &options), once);
    }
}
