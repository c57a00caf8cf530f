//! Development containers: how they are shown, asked about, started, stopped
//! and removed, and how far the creation of one has come.
use crate::connection::{
    ssh_args, ssh_target, DevContainerConnection, DevContainerConnectionView, DevContainerHost,
    DevContainerHostView, SshConnectionOptions, SshConnectionOptionsView,
};
use crate::model::opt_model;
use crate::output::CommandOutput;
use crate::shell::{all_quoted, opt_text_list, quoted, try_quote, try_quote_all};
use crate::text::{
    begins, begins_with, chars_of, decimal, decimal_of, has_part, lowercase, lowered, opt_str,
    opt_text, push_str, replace_char, replaced, same_text, string_of, take_bytes, first_bytes,
    text_begins, text_contains, texts, to_ascii_lower, trim_text, trimmed, unicode_lower,
};
use vstd::prelude::*;
use vstd::slice::*;
use vstd::string::*;

verus! {

// ---------------------------------------------------------------------------
// How containers are shown

/// How the machine of a development container is shown.
pub open spec fn shown_host(host: Option<DevContainerHostView>) -> Seq<char> {
    match host {
        None => "Local"@,
        Some(DevContainerHostView::Wsl { distro_name, user }) => match user {
            Some(u) => if u.len() > 0 {
                "WSL:"@ + distro_name + " ("@ + u + ")"@
            } else {
                "WSL:"@ + distro_name
            },
            None => "WSL:"@ + distro_name,
        },
        Some(DevContainerHostView::Ssh { host, username, port, args }) => {
            let named = match username {
                Some(u) => if u.len() > 0 {
                    "SSH:"@ + u + "@"@ + host
                } else {
                    "SSH:"@ + host
                },
                None => "SSH:"@ + host,
            };
            match port {
                Some(p) => named + ":"@ + decimal(p as nat),
                None => named,
            }
        },
    }
}

/// How the machine of a development container is shown.
pub fn format_devcontainer_host(host: &Option<DevContainerHost>) -> (r: String)
    ensures
        r@ == shown_host(opt_model(*host)),
{
    match host {
        None => "Local".to_owned(),
        Some(DevContainerHost::Wsl { distro_name, user }) => {
            let mut out = "WSL:".to_owned();
            out.append(distro_name.as_str());
            if let Some(u) = user {
                if !u.as_str().is_empty() {
                    out.append(" (");
                    out.append(u.as_str());
                    out.append(")");
                }
            }
            out
        },
        Some(DevContainerHost::Ssh { host, username, port, args }) => {
            let mut out = "SSH:".to_owned();
            if let Some(u) = username {
                if !u.as_str().is_empty() {
                    out.append(u.as_str());
                    out.append("@");
                }
            }
            out.append(host.as_str());
            if let Some(p) = port {
                out.append(":");
                out.append(decimal_of(*p as u64).as_str());
            }
            out
        },
    }
}

/// The folder of the project on the machine of the container: the first path of
/// the first project.
pub open spec fn project_root(c: DevContainerConnectionView) -> Option<Seq<char>> {
    if c.host_projects.len() > 0 && c.host_projects[0].len() > 0 {
        Some(c.host_projects[0][0])
    } else {
        None
    }
}

/// The folder of the project on the machine of the container.
pub fn devcontainer_host_project_root(connection: &DevContainerConnection) -> (r: Option<String>)
    ensures
        opt_text(r) == project_root(connection@),
{
    if connection.host_projects.len() > 0 {
        assert(connection.host_projects@[0]@ == connection@.host_projects[0]);
        if connection.host_projects[0].paths.len() > 0 {
            assert(connection.host_projects@[0].paths@[0]@ == connection@.host_projects[0][0]);
            return Some(connection.host_projects[0].paths[0].clone());
        }
    }
    None
}

/// The text without the slashes at its end.
pub open spec fn without_end_slashes(s: Seq<char>) -> Seq<char>
    decreases s.len(),
{
    if s.len() > 0 && s.last() == '/' {
        without_end_slashes(s.drop_last())
    } else {
        s
    }
}

fn strip_end_slashes(s: &[char]) -> (r: &[char])
    ensures
        r@ == without_end_slashes(s@),
{
    let mut n: usize = s.len();
    assert(s@.take(n as int) =~= s@);
    while n > 0 && s[n - 1] == '/'
        invariant
            n <= s.len(),
            without_end_slashes(s@) == without_end_slashes(s@.take(n as int)),
        decreases n,
    {
        assert(s@.take(n as int).drop_last() =~= s@.take(n - 1));
        assert(s@.take(n as int).last() == s@[n - 1]);
        n = n - 1;
    }
    let out = slice_subrange(s, 0, n);
    proof {
        assert(out@ =~= s@.take(n as int));
        if n > 0 {
            assert(s@.take(n as int).last() == s@[n - 1]);
        }
    }
    out
}

/// How the configuration of a development container is shown: below the folder
/// of the project where it lies there, else as it is.
pub open spec fn shown_config(c: DevContainerConnectionView) -> Option<Seq<char>> {
    match c.config_path {
        None => None,
        Some(path) => {
            let plain = replaced(path, '\\', '/');
            match project_root(c) {
                None => Some(path),
                Some(raw) => {
                    let root = without_end_slashes(replaced(raw, '\\', '/'));
                    if root.len() > 0 && begins(plain, root + "/"@) {
                        Some(plain.skip((root.len() + 1) as int))
                    } else {
                        Some(path)
                    }
                },
            }
        },
    }
}

/// How the configuration of a development container is shown.
pub fn devcontainer_display_config_path(connection: &DevContainerConnection) -> (r: Option<String>)
    ensures
        opt_text(r) == shown_config(connection@),
{
    let path = match &connection.config_path {
        Some(path) => path,
        None => return None,
    };
    match devcontainer_host_project_root(connection) {
        None => Some(path.clone()),
        Some(raw) => {
            let raw_chars = chars_of(raw.as_str());
            let slashed = replace_char(raw_chars.as_slice(), '\\', '/');
            let root = strip_end_slashes(slashed.as_slice());
            let path_chars = chars_of(path.as_str());
            let plain = replace_char(path_chars.as_slice(), '\\', '/');
            if root.len() > 0 {
                let mut prefix = string_of(root);
                prefix.append("/");
                proof {
                    reveal_strlit("/");
                }
                let lead = chars_of(prefix.as_str());
                if begins_with(plain.as_slice(), lead.as_slice()) {
                    let tail = slice_subrange(plain.as_slice(), lead.len(), plain.len());
                    assert(tail@ =~= plain@.skip((root@.len() + 1) as int));
                    return Some(string_of(tail));
                }
            }
            Some(path.clone())
        },
    }
}

/// How the path of a configuration is saved: with slashes.
pub fn devcontainer_config_binding_path(config_path: Option<&str>) -> (r: Option<String>)
    ensures
        opt_text(r) == match config_path {
            Some(path) => Some(replaced(path@, '\\', '/')),
            None => None,
        },
{
    match config_path {
        Some(path) => {
            let chars = chars_of(path);
            Some(string_of(replace_char(chars.as_slice(), '\\', '/').as_slice()))
        },
        None => None,
    }
}

/// The beginnings of network paths into a distribution, as they are looked for
/// in the folder of a project.
pub open spec fn network_leads(distro_name: Seq<char>) -> Seq<Seq<char>> {
    seq![
        "\\\\wsl$\\\\"@ + distro_name,
        "\\\\wsl.localhost\\\\"@ + distro_name,
        "//wsl$/"@ + distro_name,
        "//wsl.localhost/"@ + distro_name,
    ]
}

/// What is left of a path behind a network lead, as a path of the distribution:
/// one leading backslash and one leading slash are dropped, the other
/// backslashes become slashes, and the path begins with a slash.
pub open spec fn behind_lead(rest: Seq<char>) -> Seq<char> {
    let a = if rest.len() > 0 && rest[0] == '\\' {
        rest.skip(1)
    } else {
        rest
    };
    let b = if a.len() > 0 && a[0] == '/' {
        a.skip(1)
    } else {
        a
    };
    let c = replaced(b, '\\', '/');
    if c.len() > 0 && c[0] == '/' {
        c
    } else {
        seq!['/'] + c
    }
}

/// The path inside a distribution for a network path that begins with one of
/// the network leads, after the mark of a verbatim path.
pub open spec fn project_unc_to_posix(path: Seq<char>, distro_name: Seq<char>) -> Option<Seq<char>> {
    let leads = network_leads(distro_name);
    let raw = if begins(path, crate::docker::verbatim_lead()) {
        path.skip(4)
    } else {
        path
    };
    if begins(raw, leads[0]) {
        Some(behind_lead(raw.skip(leads[0].len() as int)))
    } else if begins(raw, leads[1]) {
        Some(behind_lead(raw.skip(leads[1].len() as int)))
    } else if begins(raw, leads[2]) {
        Some(behind_lead(raw.skip(leads[2].len() as int)))
    } else if begins(raw, leads[3]) {
        Some(behind_lead(raw.skip(leads[3].len() as int)))
    } else {
        None
    }
}

fn after_lead(raw: &[char], lead: &str, distro_name: &str) -> (r: Option<String>)
    ensures
        opt_text(r) == (if begins(raw@, lead@ + distro_name@) {
            Some(behind_lead(raw@.skip((lead@ + distro_name@).len() as int)))
        } else {
            None
        }),
{
    let mut prefix = lead.to_owned();
    prefix.append(distro_name);
    let chars = chars_of(prefix.as_str());
    if !begins_with(raw, chars.as_slice()) {
        return None;
    }
    let mut from: usize = chars.len();
    if from < raw.len() && raw[from] == '\\' {
        from = from + 1;
    }
    let ghost first = if chars.len() < raw.len() && raw@[chars.len() as int] == '\\' {
        raw@.skip(chars.len() as int).skip(1)
    } else {
        raw@.skip(chars.len() as int)
    };
    assert(raw@.skip(from as int) =~= first);
    if from < raw.len() && raw[from] == '/' {
        from = from + 1;
    }
    let ghost second = if first.len() > 0 && first[0] == '/' {
        first.skip(1)
    } else {
        first
    };
    assert(raw@.skip(from as int) =~= second);
    let rest = slice_subrange(raw, from, raw.len());
    assert(rest@ =~= second);
    let converted = replace_char(rest, '\\', '/');
    let text = string_of(converted.as_slice());
    if converted.len() > 0 && converted[0] == '/' {
        Some(text)
    } else {
        let mut out = String::new();
        out.push('/');
        out.append(text.as_str());
        assert(out@ =~= seq!['/'] + converted@);
        Some(out)
    }
}

/// The path inside a distribution for a network path of a project's folder.
pub fn project_unc_path_to_posix(path: &str, distro_name: &str) -> (r: Option<String>)
    ensures
        opt_text(r) == project_unc_to_posix(path@, distro_name@),
{
    let chars = chars_of(path);
    let verbatim: [char; 4] = ['\\', '\\', '?', '\\'];
    assert(verbatim@ =~= crate::docker::verbatim_lead());
    let raw = if begins_with(chars.as_slice(), verbatim.as_slice()) {
        slice_subrange(chars.as_slice(), 4, chars.len())
    } else {
        chars.as_slice()
    };
    proof {
        if begins(path@, crate::docker::verbatim_lead()) {
            assert(raw@ =~= path@.skip(4));
        }
    }
    if let Some(out) = after_lead(raw, "\\\\wsl$\\\\", distro_name) {
        return Some(out);
    }
    if let Some(out) = after_lead(raw, "\\\\wsl.localhost\\\\", distro_name) {
        return Some(out);
    }
    if let Some(out) = after_lead(raw, "//wsl$/", distro_name) {
        return Some(out);
    }
    after_lead(raw, "//wsl.localhost/", distro_name)
}

/// How the folder of a project on the machine of its container is found.
#[derive(Clone, Debug, PartialEq, Eq)]
pub enum HostFolder {
    /// There is none.
    Missing,
    /// It is this one.
    Known(String),
    /// WSL is asked for it; where WSL fails, the path stays as it was.
    AskWsl(String),
}

/// How the folder of a project on the machine of its container is found: only
/// on Windows, and only for a container in WSL, a path has to be converted.
pub fn normalize_host_starting_dir(
    host: &Option<DevContainerHost>,
    host_starting_dir: Option<String>,
    on_windows: bool,
) -> (r: HostFolder)
    ensures
        match host_starting_dir {
            None => r is Missing,
            Some(path) => match opt_model(*host) {
                Some(DevContainerHostView::Wsl { distro_name, user }) => if !on_windows
                    || begins(path@, "/"@) {
                    r is Known && r->Known_0@ == path@
                } else if project_unc_to_posix(path@, distro_name) is Some {
                    r is Known && r->Known_0@ == project_unc_to_posix(path@, distro_name)->0
                } else {
                    r is AskWsl && r->AskWsl_0@ == path@
                },
                _ => r is Known && r->Known_0@ == path@,
            },
        },
{
    let path = match host_starting_dir {
        Some(path) => path,
        None => return HostFolder::Missing,
    };
    match host {
        Some(DevContainerHost::Wsl { distro_name, user }) => {
            if !on_windows || text_begins(path.as_str(), "/") {
                return HostFolder::Known(path);
            }
            match project_unc_path_to_posix(path.as_str(), distro_name.as_str()) {
                Some(converted) => HostFolder::Known(converted),
                None => HostFolder::AskWsl(path),
            }
        },
        _ => HostFolder::Known(path),
    }
}

// ---------------------------------------------------------------------------
// Asking about containers

/// What is known of a development container.
#[derive(Clone, Copy, Debug, PartialEq, Eq, Structural)]
pub enum DevContainerProbe {
    Running,
    Stopped,
    Missing,
    DockerUnavailable,
    Unknown,
}

/// How the state of a development container is shown.
pub open spec fn probe_text(probe: DevContainerProbe) -> Seq<char> {
    match probe {
        DevContainerProbe::Running => "Running"@,
        DevContainerProbe::Stopped => "Stopped"@,
        DevContainerProbe::Missing => "Missing"@,
        DevContainerProbe::DockerUnavailable => "Docker unavailable"@,
        DevContainerProbe::Unknown => "Unknown"@,
    }
}

impl DevContainerProbe {
    /// How the state is shown.
    pub fn text(&self) -> (r: &'static str)
        ensures
            r@ == probe_text(*self),
    {
        match self {
            DevContainerProbe::Running => "Running",
            DevContainerProbe::Stopped => "Stopped",
            DevContainerProbe::Missing => "Missing",
            DevContainerProbe::DockerUnavailable => "Docker unavailable",
            DevContainerProbe::Unknown => "Unknown",
        }
    }
}

/// What is asked of the container engine.
#[derive(Clone, Copy, Debug, PartialEq, Eq, Structural)]
pub enum ContainerAction {
    Inspect,
    Stop,
    Start,
    Remove,
}

/// The program of the container engine.
pub open spec fn container_engine(c: DevContainerConnectionView) -> Seq<char> {
    if c.use_podman {
        "podman"@
    } else {
        "docker"@
    }
}

/// The arguments of the container engine.
pub open spec fn action_args(action: ContainerAction, id: Seq<char>) -> Seq<Seq<char>> {
    match action {
        ContainerAction::Inspect => seq!["inspect"@, "--format"@, "{{.State.Status}}"@, id],
        ContainerAction::Stop => seq!["stop"@, id],
        ContainerAction::Start => seq!["start"@, id],
        ContainerAction::Remove => seq!["rm"@, "-f"@, id],
    }
}

/// The program of the container engine.
pub fn container_engine_of(connection: &DevContainerConnection) -> (r: &'static str)
    ensures
        r@ == container_engine(connection@),
{
    if connection.use_podman {
        "podman"
    } else {
        "docker"
    }
}

/// The arguments of the container engine.
pub fn container_action_args(action: ContainerAction, container_id: &str) -> (r: Vec<String>)
    ensures
        texts(r@) == action_args(action, container_id@),
{
    let mut args: Vec<String> = Vec::new();
    match action {
        ContainerAction::Inspect => {
            push_str(&mut args, "inspect");
            push_str(&mut args, "--format");
            push_str(&mut args, "{{.State.Status}}");
        },
        ContainerAction::Stop => {
            push_str(&mut args, "stop");
        },
        ContainerAction::Start => {
            push_str(&mut args, "start");
        },
        ContainerAction::Remove => {
            push_str(&mut args, "rm");
            push_str(&mut args, "-f");
        },
    }
    push_str(&mut args, container_id);
    assert(texts(args@) =~= action_args(action, container_id@));
    args
}

/// A text as it is quoted for the shell; one that cannot be quoted stays.
pub open spec fn quoted_or_plain(plain: Seq<char>, quoted: Option<Seq<char>>) -> Seq<char> {
    match quoted {
        Some(q) => q,
        None => plain,
    }
}

/// A command line: the program and its arguments, each quoted for the shell
/// where it can be, with a space between each two.
pub open spec fn shell_line(
    program: Seq<char>,
    quoted_program: Option<Seq<char>>,
    args: Seq<Seq<char>>,
    quoted_args: Seq<Option<Seq<char>>>,
) -> Seq<char>
    decreases args.len(),
{
    if args.len() == 0 {
        quoted_or_plain(program, quoted_program)
    } else {
        shell_line(program, quoted_program, args.drop_last(), quoted_args.drop_last()) + " "@
            + quoted_or_plain(args.last(), quoted_args.last())
    }
}

/// A command line made of a program and its arguments, each of which is also
/// given as it is quoted for the shell; one that cannot be quoted is missing
/// there.
pub fn join_shell_command(
    program: &str,
    quoted_program: Option<&str>,
    args: &Vec<String>,
    quoted_args: &Vec<Option<String>>,
) -> (r: String)
    requires
        args.len() == quoted_args.len(),
    ensures
        r@ == shell_line(
            program@,
            opt_str(quoted_program),
            texts(args@),
            opt_text_list(quoted_args@),
        ),
{
    let ghost plain = texts(args@);
    let ghost quoted_list = opt_text_list(quoted_args@);
    let mut out = match quoted_program {
        Some(q) => q.to_owned(),
        None => program.to_owned(),
    };
    let mut i: usize = 0;
    while i < args.len()
        invariant
            i <= args.len(),
            args.len() == quoted_args.len(),
            plain == texts(args@),
            quoted_list == opt_text_list(quoted_args@),
            out@ == shell_line(
                program@,
                opt_str(quoted_program),
                plain.take(i as int),
                quoted_list.take(i as int),
            ),
        decreases args.len() - i,
    {
        out.append(" ");
        match &quoted_args[i] {
            Some(q) => out.append(q.as_str()),
            None => out.append(args[i].as_str()),
        }
        i = i + 1;
        proof {
            assert(plain.take(i as int).drop_last() =~= plain.take(i - 1));
            assert(quoted_list.take(i as int).drop_last() =~= quoted_list.take(i - 1));
            assert(plain.take(i as int).last() == args@[i - 1]@);
            assert(quoted_list.take(i as int).last() == opt_text(quoted_args@[i - 1]));
        }
    }
    assert(plain.take(i as int) =~= plain);
    assert(quoted_list.take(i as int) =~= quoted_list);
    out
}

/// A command line made of a program and its arguments, each quoted for the
/// shell where it can be.
pub fn build_shell_command(program: &str, args: &Vec<String>) -> (r: String)
    ensures
        r@ == shell_line(program@, quoted(program@), texts(args@), all_quoted(texts(args@))),
{
    let quoted_program = try_quote(program);
    let quoted_args = try_quote_all(args);
    assert(opt_text_list(quoted_args@).len() == texts(args@).len());
    let name = match &quoted_program {
        Some(q) => Some(q.as_str()),
        None => None,
    };
    join_shell_command(program, name, args, &quoted_args)
}

/// What is run before a command so that it finds its programs as in a login
/// shell.
pub open spec fn profile_lead() -> Seq<char> {
    "if [ -f ~/.bash_profile ]; then . ~/.bash_profile >/dev/null 2>&1; fi; if [ -f ~/.profile ]; then . ~/.profile >/dev/null 2>&1; fi; if [ -f ~/.bashrc ]; then . ~/.bashrc >/dev/null 2>&1; fi; if [ -f ~/.zprofile ]; then . ~/.zprofile >/dev/null 2>&1; fi; "@
}

/// A command line that reads the user's profiles first.
pub fn wrap_bashrc(cmd: &str) -> (r: String)
    ensures
        r@ == profile_lead() + cmd@,
{
    let mut out =
        "if [ -f ~/.bash_profile ]; then . ~/.bash_profile >/dev/null 2>&1; fi; if [ -f ~/.profile ]; then . ~/.profile >/dev/null 2>&1; fi; if [ -f ~/.bashrc ]; then . ~/.bashrc >/dev/null 2>&1; fi; if [ -f ~/.zprofile ]; then . ~/.zprofile >/dev/null 2>&1; fi; ".to_owned();
    out.append(cmd);
    out
}

/// The program that carries an action out on the machine of a container, and
/// its arguments. `cmd` is the engine's command line for the shell, and
/// `quoted_script` the script around it as it is quoted for the shell.
pub open spec fn container_call(
    c: DevContainerConnectionView,
    action: ContainerAction,
    cmd: Seq<char>,
    quoted_script: Option<Seq<char>>,
) -> (Seq<char>, Seq<Seq<char>>) {
    match c.host {
        None => (container_engine(c), action_args(action, c.container_id)),
        Some(DevContainerHostView::Wsl { distro_name, user }) => {
            let as_user = match user {
                Some(u) => seq!["--user"@, u],
                None => Seq::empty(),
            };
            (
                "wsl.exe"@,
                seq!["--distribution"@, distro_name] + as_user + seq![
                    "--"@,
                    "sh"@,
                    "-lc"@,
                    profile_lead() + cmd,
                ],
            )
        },
        Some(DevContainerHostView::Ssh { host, username, port, args }) => {
            let o = SshConnectionOptionsView {
                host,
                username,
                port,
                args: Some(args),
                ..crate::connection::no_ssh_options()
            };
            (
                "ssh"@,
                ssh_args(o) + seq![
                    "-q"@,
                    "-T"@,
                    ssh_target(o),
                    "sh -lc "@ + quoted_or_plain(cmd, quoted_script),
                ],
            )
        },
    }
}

/// The program that carries an action out on the machine of a container, and
/// its arguments.
pub fn container_command_with(
    connection: &DevContainerConnection,
    action: ContainerAction,
    cmd: &str,
    quoted_script: Option<&str>,
) -> (r: (String, Vec<String>))
    ensures
        (r.0@, texts(r.1@)) == container_call(connection@, action, cmd@, opt_str(quoted_script)),
{
    match &connection.host {
        None => (
            container_engine_of(connection).to_owned(),
            container_action_args(action, connection.container_id.as_str()),
        ),
        Some(DevContainerHost::Wsl { distro_name, user }) => {
            let mut args: Vec<String> = Vec::new();
            push_str(&mut args, "--distribution");
            push_str(&mut args, distro_name.as_str());
            if let Some(u) = user {
                push_str(&mut args, "--user");
                push_str(&mut args, u.as_str());
            }
            push_str(&mut args, "--");
            push_str(&mut args, "sh");
            push_str(&mut args, "-lc");
            push_str(&mut args, wrap_bashrc(cmd).as_str());
            assert(texts(args@) =~= container_call(
                connection@,
                action,
                cmd@,
                opt_str(quoted_script),
            ).1);
            ("wsl.exe".to_owned(), args)
        },
        Some(DevContainerHost::Ssh { host, username, port, args }) => {
            let options = SshConnectionOptions {
                host: host.clone(),
                username: crate::text::copy_opt(username),
                port: *port,
                password: None,
                args: Some(crate::text::copy_list(args)),
                port_forwards: None,
                connection_timeout: None,
                nickname: None,
                upload_binary_over_ssh: false,
            };
            let mut list = options.additional_args();
            push_str(&mut list, "-q");
            push_str(&mut list, "-T");
            push_str(&mut list, options.ssh_destination().as_str());
            let mut script = "sh -lc ".to_owned();
            match quoted_script {
                Some(q) => script.append(q),
                None => script.append(cmd),
            }
            push_str(&mut list, script.as_str());
            assert(texts(list@) =~= container_call(
                connection@,
                action,
                cmd@,
                opt_str(quoted_script),
            ).1);
            ("ssh".to_owned(), list)
        },
    }
}

/// The command line of the container engine for an action.
pub open spec fn engine_line(c: DevContainerConnectionView, action: ContainerAction) -> Seq<char> {
    let args = action_args(action, c.container_id);
    shell_line(container_engine(c), quoted(container_engine(c)), args, all_quoted(args))
}

/// The program that carries an action out on the machine of a container, and
/// its arguments.
pub fn container_command(connection: &DevContainerConnection, action: ContainerAction) -> (r: (
    String,
    Vec<String>,
))
    ensures
        (r.0@, texts(r.1@)) == container_call(
            connection@,
            action,
            engine_line(connection@, action),
            quoted(profile_lead() + engine_line(connection@, action)),
        ),
{
    let args = container_action_args(action, connection.container_id.as_str());
    let cmd = build_shell_command(container_engine_of(connection), &args);
    let script = try_quote(wrap_bashrc(cmd.as_str()).as_str());
    let quoted_script = match &script {
        Some(q) => Some(q.as_str()),
        None => None,
    };
    container_command_with(connection, action, cmd.as_str(), quoted_script)
}

/// What a command has printed, errors first.
pub fn output_message(stdout: &str, stderr: &str) -> (r: String)
    ensures
        r@ == stderr@ + stdout@,
{
    let mut out = stderr.to_owned();
    out.append(stdout);
    out
}

/// Whether a message says that a container is gone: that something is not
/// there, and that it is this container, by its id or the first twelve bytes of
/// it, or some container.
pub open spec fn says_missing(message: Seq<char>, id: Seq<char>) -> bool {
    let mentions = has_part(message, id) || has_part(message, first_bytes(id, 12)) || has_part(
        message,
        "container"@,
    );
    let missing = has_part(message, "no such"@) || has_part(message, "not found"@) || has_part(
        message,
        "does not exist"@,
    ) || has_part(message, "no container"@) || has_part(message, "no such object"@);
    missing && mentions
}

/// Whether a message says that a container is gone.
pub fn is_missing_container_output(message: &str, container_id: &str) -> (r: bool)
    ensures
        r == says_missing(message@, container_id@),
{
    let id = chars_of(container_id);
    let short = string_of(take_bytes(id.as_slice(), 12));
    let mentions = text_contains(message, container_id) || text_contains(message, short.as_str())
        || text_contains(message, "container");
    let missing = text_contains(message, "no such") || text_contains(message, "not found")
        || text_contains(message, "does not exist") || text_contains(message, "no container")
        || text_contains(message, "no such object");
    missing && mentions
}

/// Whether a message says that the container engine cannot be reached.
pub open spec fn says_unavailable(message: Seq<char>) -> bool {
    has_part(message, "cannot connect"@) || has_part(message, "failed to connect"@) || has_part(
        message,
        "connection refused"@,
    ) || has_part(message, "docker daemon"@) || has_part(message, "podman socket"@) || has_part(
        message,
        "permission denied"@,
    ) || has_part(message, "access denied"@) || has_part(
        message,
        "is the docker daemon running"@,
    )
}

/// Whether a message says that the container engine cannot be reached.
pub fn is_docker_unavailable_output(message: &str) -> (r: bool)
    ensures
        r == says_unavailable(message@),
{
    text_contains(message, "cannot connect") || text_contains(message, "failed to connect")
        || text_contains(message, "connection refused") || text_contains(message, "docker daemon")
        || text_contains(message, "podman socket") || text_contains(message, "permission denied")
        || text_contains(message, "access denied") || text_contains(
        message,
        "is the docker daemon running",
    )
}

/// What a failed inspection, whose message is given in lower case, says of a
/// container.
pub open spec fn failed_probe(message: Seq<char>, id: Seq<char>) -> DevContainerProbe {
    if says_unavailable(message) {
        DevContainerProbe::DockerUnavailable
    } else if says_missing(message, id) {
        DevContainerProbe::Missing
    } else {
        DevContainerProbe::Unknown
    }
}

/// What a failed inspection, whose message is given in lower case, says of a
/// container.
pub fn probe_of_failure(message: &str, container_id: &str) -> (r: DevContainerProbe)
    ensures
        r == failed_probe(message@, container_id@),
{
    if is_docker_unavailable_output(message) {
        DevContainerProbe::DockerUnavailable
    } else if is_missing_container_output(message, container_id) {
        DevContainerProbe::Missing
    } else {
        DevContainerProbe::Unknown
    }
}

/// What an inspection says of a container; where it could not be run, the
/// engine is not there.
pub open spec fn probed(output: Option<CommandOutput>, id: Seq<char>) -> DevContainerProbe {
    match output {
        Some(o) => {
            let message = o.stderr@ + o.stdout@;
            if o.success {
                if lowered(trimmed(message)) == "running"@ {
                    DevContainerProbe::Running
                } else {
                    DevContainerProbe::Stopped
                }
            } else {
                failed_probe(unicode_lower(message), id)
            }
        },
        None => DevContainerProbe::DockerUnavailable,
    }
}

/// What an inspection says of a container.
pub fn probe_dev_container(output: Option<CommandOutput>, container_id: &str) -> (r:
    DevContainerProbe)
    ensures
        r == probed(output, container_id@),
{
    match output {
        Some(o) => {
            let message = output_message(o.stdout.as_str(), o.stderr.as_str());
            if o.success {
                let chars = chars_of(trim_text(message.as_str()).as_str());
                let status = string_of(to_ascii_lower(chars.as_slice()).as_slice());
                if same_text(status.as_str(), "running") {
                    DevContainerProbe::Running
                } else {
                    DevContainerProbe::Stopped
                }
            } else {
                let low = lowercase(message.as_str());
                probe_of_failure(low.as_str(), container_id)
            }
        },
        None => DevContainerProbe::DockerUnavailable,
    }
}

/// The error where the program of an action could not be run.
pub open spec fn not_run_message(c: DevContainerConnectionView, error: Seq<char>) -> Seq<char> {
    "Failed to run "@ + container_engine(c) + match c.host {
        None => " locally: "@,
        Some(DevContainerHostView::Wsl { .. }) => " in WSL: "@,
        Some(DevContainerHostView::Ssh { .. }) => " over SSH: "@,
    } + error
}

/// The error where the program of an action could not be run.
pub fn container_action_not_run(connection: &DevContainerConnection, error: &str) -> (r: String)
    ensures
        r@ == not_run_message(connection@, error@),
{
    let mut out = "Failed to run ".to_owned();
    out.append(container_engine_of(connection));
    match &connection.host {
        None => out.append(" locally: "),
        Some(DevContainerHost::Wsl { .. }) => out.append(" in WSL: "),
        Some(DevContainerHost::Ssh { .. }) => out.append(" over SSH: "),
    }
    out.append(error);
    out
}

/// The subcommand of the container engine.
pub open spec fn action_name(action: ContainerAction) -> Seq<char> {
    match action {
        ContainerAction::Inspect => "inspect"@,
        ContainerAction::Stop => "stop"@,
        ContainerAction::Start => "start"@,
        ContainerAction::Remove => "rm"@,
    }
}

/// The error of an action that has failed: what was printed, or, where nothing
/// was, that it has failed with the given status.
pub open spec fn action_error(
    c: DevContainerConnectionView,
    action: ContainerAction,
    status: Seq<char>,
    message: Seq<char>,
) -> Seq<char> {
    if trimmed(message).len() == 0 {
        container_engine(c) + " "@ + action_name(action) + " failed with exit code "@ + status
    } else {
        trimmed(message)
    }
}

/// What has come of an action; `status` is how its exit status is shown.
pub fn container_action_outcome(
    connection: &DevContainerConnection,
    action: ContainerAction,
    output: &CommandOutput,
    status: &str,
) -> (r: Result<(), String>)
    ensures
        match r {
            Ok(_) => output.success,
            Err(e) => !output.success && e@ == action_error(
                connection@,
                action,
                status@,
                output.stderr@ + output.stdout@,
            ),
        },
{
    if output.success {
        return Ok(());
    }
    let message = trim_text(
        output_message(output.stdout.as_str(), output.stderr.as_str()).as_str(),
    );
    if message.as_str().is_empty() {
        let mut out = container_engine_of(connection).to_owned();
        out.append(" ");
        match action {
            ContainerAction::Inspect => out.append("inspect"),
            ContainerAction::Stop => out.append("stop"),
            ContainerAction::Start => out.append("start"),
            ContainerAction::Remove => out.append("rm"),
        }
        out.append(" failed with exit code ");
        out.append(status);
        Err(out)
    } else {
        Err(message)
    }
}

// ---------------------------------------------------------------------------
// What is shown and run

/// A machine is shown by its kind and its name; a user stands behind a
/// distribution and before a host, a port at the end.
pub proof fn machines_are_shown(
    name: Seq<char>,
    user: Seq<char>,
    port: u16,
    args: Seq<Seq<char>>,
)
    requires
        user.len() > 0,
    ensures
        ({
            let wsl = |u: Option<Seq<char>>| shown_host(
                Some(DevContainerHostView::Wsl { distro_name: name, user: u }),
            );
            let ssh = |u: Option<Seq<char>>, p: Option<u16>| shown_host(
                Some(DevContainerHostView::Ssh { host: name, username: u, port: p, args }),
            );
            let digits = decimal(port as nat);
            &&& shown_host(None) == "Local"@
            &&& wsl(None) == "WSL:"@ + name && wsl(Some(Seq::empty())) == "WSL:"@ + name
            &&& wsl(Some(user)) == "WSL:"@ + name + seq![' ', '('] + user + seq![')']
            &&& ssh(None, None) == "SSH:"@ + name && ssh(Some(Seq::empty()), None) == "SSH:"@ + name
            &&& ssh(Some(user), None) == "SSH:"@ + user.push('@') + name
            &&& ssh(None, Some(port)) == "SSH:"@ + name.push(':') + digits
            &&& ssh(Some(user), Some(port)) == "SSH:"@ + user.push('@') + name.push(':') + digits
        }),
{
    reveal_strlit(" (");
    reveal_strlit(")");
    reveal_strlit("@");
    reveal_strlit(":");
    let digits = decimal(port as nat);
    assert(" ("@ =~= seq![' ', '(']);
    assert(")"@ =~= seq![')']);
    assert("SSH:"@ + user + "@"@ + name =~= "SSH:"@ + user.push('@') + name);
    assert("SSH:"@ + name + ":"@ + digits =~= "SSH:"@ + name.push(':') + digits);
    assert("SSH:"@ + user + "@"@ + name + ":"@ + digits =~= "SSH:"@ + user.push('@') + name.push(
        ':',
    ) + digits);
}

/// The folder of a container on its machine is the first one of its first
/// project there.
pub proof fn first_folder_is_the_root(c: DevContainerConnectionView)
    ensures
        c.host_projects.len() > 0 && c.host_projects[0].len() > 0 ==> project_root(c) == Some(
            c.host_projects[0][0],
        ),
        c.host_projects.len() == 0 ==> project_root(c) is None,
        c.host_projects.len() > 0 && c.host_projects[0].len() == 0 ==> project_root(c) is None,
{
}

/// A configuration below the folder of its project is shown by its path from
/// there, and any other by its whole path.
pub proof fn configurations_are_shown_from_their_folder(
    c: DevContainerConnectionView,
    root: Seq<char>,
    below: Seq<char>,
)
    requires
        root.len() > 0,
        root.last() != '/',
        forall|k: int| 0 <= k < root.len() ==> #[trigger] root[k] != '\\',
        forall|k: int| 0 <= k < below.len() ==> #[trigger] below[k] != '\\',
    ensures
        project_root(c) == Some(root) && c.config_path == Some(root.push('/') + below)
            ==> shown_config(c) == Some(below),
        project_root(c) is None ==> shown_config(c) == c.config_path,
        c.config_path is None ==> shown_config(c) is None,
        project_root(c) == Some(root) && c.config_path == Some(root + below) && (below.len() == 0
            || below[0] != '/') ==> shown_config(c) == c.config_path,
{
    reveal_strlit("/");
    let path = root.push('/') + below;
    assert(replaced(path, '\\', '/') =~= path) by {
        assert forall|k: int| 0 <= k < path.len() implies replaced(path, '\\', '/')[k] == path[k] by {
            if k < root.len() {
                assert(path[k] == root[k]);
            } else if k > root.len() {
                assert(path[k] == below[k - root.len() - 1]);
            }
        }
    }
    assert(replaced(root, '\\', '/') =~= root);
    assert(without_end_slashes(root) == root);
    let lead = root + "/"@;
    assert(path.take(lead.len() as int) =~= lead);
    assert(path.skip((root.len() + 1) as int) =~= below);
    let other = root + below;
    assert(replaced(other, '\\', '/') =~= other) by {
        assert forall|k: int| 0 <= k < other.len() implies replaced(other, '\\', '/')[k] == other[
        k] by {
            if k < root.len() {
                assert(other[k] == root[k]);
            } else {
                assert(other[k] == below[k - root.len()]);
            }
        }
    }
    if begins(other, lead) {
        assert(other.take(lead.len() as int)[root.len() as int] == '/');
        assert(other[root.len() as int] == below[0]);
    }
}

/// A path into a distribution over the network is the path in it: what stands
/// behind the share and the distribution, with slashes. Paths elsewhere are not
/// such a path.
pub proof fn network_paths_lead_into_the_distribution(name: Seq<char>, below: Seq<char>)
    requires
        name.len() > 0,
        forall|k: int| 0 <= k < below.len() ==> #[trigger] below[k] != '\\',
        below.len() > 0 ==> below[0] != '/',
    ensures
        project_unc_to_posix("//wsl$/"@ + name + seq!['/'] + below, name) == Some(
            seq!['/'] + below,
        ),
        project_unc_to_posix("//wsl.localhost/"@ + name + seq!['/'] + below, name) == Some(
            seq!['/'] + below,
        ),
        project_unc_to_posix(seq!['/'] + below, name) is None,
{
    reveal_strlit("//wsl$/");
    reveal_strlit("//wsl.localhost/");
    reveal_strlit("\\\\wsl$\\\\");
    reveal_strlit("\\\\wsl.localhost\\\\");
    let leads = network_leads(name);
    let verbatim = crate::docker::verbatim_lead();
    assert(verbatim.len() > 0 && verbatim[0] == '\\');
    let rest = seq!['/'] + below;
    assert(rest.skip(1) =~= below);
    assert(replaced(below, '\\', '/') =~= below);
    assert(behind_lead(rest) =~= seq!['/'] + below);
    let a = leads[2] + rest;
    let b = leads[3] + rest;
    assert("//wsl$/"@ + name + seq!['/'] + below =~= a);
    assert("//wsl.localhost/"@ + name + seq!['/'] + below =~= b);
    assert(a[0] == '/' && a[5] == '$' && b[0] == '/' && b[5] == '.');
    not_led(a, verbatim, 0);
    not_led(b, verbatim, 0);
    not_led(a, leads[0], 0);
    not_led(a, leads[1], 0);
    not_led(b, leads[0], 0);
    not_led(b, leads[1], 0);
    not_led(b, leads[2], 5);
    assert(a.take(leads[2].len() as int) =~= leads[2]);
    assert(b.take(leads[3].len() as int) =~= leads[3]);
    assert(a.skip(leads[2].len() as int) =~= rest);
    assert(b.skip(leads[3].len() as int) =~= rest);
    not_led(rest, verbatim, 0);
    not_led(rest, leads[0], 0);
    not_led(rest, leads[1], 0);
    if begins(rest, leads[2]) {
        assert(rest.take(leads[2].len() as int)[1] == leads[2][1]);
        assert(rest[1] == below[0]);
    }
    if begins(rest, leads[3]) {
        assert(rest.take(leads[3].len() as int)[1] == leads[3][1]);
        assert(rest[1] == below[0]);
    }
}

proof fn not_led(s: Seq<char>, lead: Seq<char>, k: int)
    requires
        0 <= k < lead.len(),
        k < s.len() ==> s[k] != lead[k],
    ensures
        !begins(s, lead),
{
    if begins(s, lead) {
        assert(s.take(lead.len() as int)[k] == lead[k]);
    }
}

/// The state of a container has a name.
pub proof fn states_are_named()
    ensures
        probe_text(DevContainerProbe::Running) == "Running"@,
        probe_text(DevContainerProbe::Stopped) == "Stopped"@,
        probe_text(DevContainerProbe::Missing) == "Missing"@,
        probe_text(DevContainerProbe::DockerUnavailable) == "Docker unavailable"@,
        probe_text(DevContainerProbe::Unknown) == "Unknown"@,
{
}

/// What is done with a container is done by its engine and to its id, which
/// stands last.
pub proof fn actions_name_the_container(c: DevContainerConnectionView, id: Seq<char>)
    ensures
        c.use_podman ==> container_engine(c) == "podman"@,
        !c.use_podman ==> container_engine(c) == "docker"@,
        ({
            let a = action_args(ContainerAction::Inspect, id);
            let b = action_args(ContainerAction::Stop, id);
            let d = action_args(ContainerAction::Start, id);
            let e = action_args(ContainerAction::Remove, id);
            &&& a.len() == 4 && a[0] == "inspect"@ && a[1] == "--format"@
            &&& a[2] == "{{.State.Status}}"@ && a[3] == id
            &&& b.len() == 2 && b[0] == "stop"@ && b[1] == id
            &&& d.len() == 2 && d[0] == "start"@ && d[1] == id
            &&& e.len() == 3 && e[0] == "rm"@ && e[1] == "-f"@ && e[2] == id
        }),
{
}

/// A command line is the program and its arguments in order, each quoted where
/// it can be, with single spaces between.
pub proof fn command_lines_keep_their_order(
    program: Seq<char>,
    quoted_program: Option<Seq<char>>,
    args: Seq<Seq<char>>,
    quoted_args: Seq<Option<Seq<char>>>,
    arg: Seq<char>,
    q: Seq<char>,
)
    requires
        args.len() == quoted_args.len(),
    ensures
        ({
            let line = shell_line(program, quoted_program, args, quoted_args);
            let none = Seq::<Seq<char>>::empty();
            let blank = Seq::<Option<Seq<char>>>::empty();
            &&& shell_line(program, Some(q), none, blank) == q
            &&& shell_line(program, None, none, blank) == program
            &&& shell_line(program, quoted_program, args.push(arg), quoted_args.push(Some(q)))
                == line.push(' ') + q
            &&& shell_line(program, quoted_program, args.push(arg), quoted_args.push(None))
                == line.push(' ') + arg
        }),
{
    reveal_strlit(" ");
    let line = shell_line(program, quoted_program, args, quoted_args);
    assert(args.push(arg).drop_last() =~= args);
    assert(quoted_args.push(Some(q)).drop_last() =~= quoted_args);
    assert(quoted_args.push(None).drop_last() =~= quoted_args);
    assert(line + " "@ + q =~= line.push(' ') + q);
    assert(line + " "@ + arg =~= line.push(' ') + arg);
}

/// A container is reached where it runs: its engine is called here, in its
/// distribution as its user, or over `ssh` on its host, in the latter two by a
/// login shell.
pub proof fn containers_are_reached_on_their_machine(
    c: DevContainerConnectionView,
    action: ContainerAction,
    cmd: Seq<char>,
    script: Seq<char>,
)
    ensures
        ({
            let (program, args) = container_call(c, action, cmd, Some(script));
            &&& c.host is None ==> program == container_engine(c) && args == action_args(
                action,
                c.container_id,
            )
            &&& c.host matches Some(DevContainerHostView::Wsl { distro_name, user }) ==> {
                let n = args.len() as int;
                &&& program == "wsl.exe"@ && args[0] == "--distribution"@ && args[1] == distro_name
                &&& user matches Some(u) ==> n == 8 && args[2] == "--user"@ && args[3] == u
                &&& user is None ==> n == 6
                &&& args[n - 4] == "--"@ && args[n - 3] == "sh"@ && args[n - 2] == "-lc"@
                &&& args[n - 1] == profile_lead() + cmd
            }
            &&& c.host matches Some(DevContainerHostView::Ssh { host, username, port, args: own })
                ==> {
                let n = args.len() as int;
                &&& program == "ssh"@
                &&& args[n - 4] == "-q"@ && args[n - 3] == "-T"@
                &&& username is None ==> args[n - 2] == host
                &&& username matches Some(u) ==> args[n - 2] == u.push('@') + host
                &&& args[n - 1] == "sh -lc "@ + script
                &&& forall|i: int| 0 <= i < own.len() ==> #[trigger] args[i] == own[i]
                &&& port is None ==> n == own.len() + 4
                &&& port matches Some(p) ==> n == own.len() + 6 && args[own.len() as int] == "-p"@
                    && args[own.len() as int + 1] == decimal(p as nat)
            }
        }),
{
    reveal_strlit("@");
    if let Some(DevContainerHostView::Ssh { host, username, port, args }) = c.host {
        let o = SshConnectionOptionsView {
            host,
            username,
            port,
            args: Some(args),
            ..crate::connection::no_ssh_options()
        };
        crate::connection::plain_options_give_plain_arguments(o);
        if username is Some {
            assert(username->0 + "@"@ + host =~= username->0.push('@') + host);
        }
    }
}

/// A container is missing where the message says so and is about it, by its id,
/// the beginning of its id, or as a container.
pub proof fn missing_containers_are_reported(
    id: Seq<char>,
    a: Seq<char>,
    b: Seq<char>,
    m: Seq<char>,
)
    ensures
        says_missing(a + "no such container"@ + b, id),
        says_missing(a + "container not found"@ + b, id),
        says_missing(a + "container does not exist"@ + b, id),
        says_missing(a + "no container"@ + b, id),
        says_missing(a + "no such object: "@ + id + b, id),
        says_missing(m, id) ==> has_part(m, id) || has_part(m, "container"@) || has_part(
            m,
            first_bytes(id, 12),
        ),
{
    reveal_strlit("no such");
    reveal_strlit("no such container");
    reveal_strlit("container");
    reveal_strlit("not found");
    reveal_strlit("container not found");
    reveal_strlit("does not exist");
    reveal_strlit("container does not exist");
    reveal_strlit("no container");
    reveal_strlit("no such object: ");
    let n = a.len() as int;
    let s = a + "no such container"@ + b;
    assert(s.subrange(n, n + 7) =~= "no such"@);
    held_at(s, "no such"@, n);
    assert(s.subrange(n + 8, n + 17) =~= "container"@);
    held_at(s, "container"@, n + 8);
    let t = a + "container not found"@ + b;
    assert(t.subrange(n, n + 9) =~= "container"@);
    held_at(t, "container"@, n);
    assert(t.subrange(n + 10, n + 19) =~= "not found"@);
    held_at(t, "not found"@, n + 10);
    let u = a + "container does not exist"@ + b;
    assert(u.subrange(n, n + 9) =~= "container"@);
    held_at(u, "container"@, n);
    assert(u.subrange(n + 10, n + 24) =~= "does not exist"@);
    held_at(u, "does not exist"@, n + 10);
    let v = a + "no container"@ + b;
    assert(v.subrange(n, n + 12) =~= "no container"@);
    held_at(v, "no container"@, n);
    assert(v.subrange(n + 3, n + 12) =~= "container"@);
    held_at(v, "container"@, n + 3);
    let w = a + "no such object: "@ + id + b;
    assert(w.subrange(n, n + 7) =~= "no such"@);
    held_at(w, "no such"@, n);
    assert(w.subrange(n + 16, n + 16 + id.len()) =~= id);
    held_at(w, id, n + 16);
}

proof fn held_at(s: Seq<char>, part: Seq<char>, at: int)
    requires
        0 <= at,
        at + part.len() <= s.len(),
        s.subrange(at, at + part.len()) == part,
    ensures
        has_part(s, part),
{
    assert(crate::text::occurs_at(s, part, at));
}

/// The engine is out of reach where the message says in one of eight ways that
/// it could not be spoken to.
pub proof fn unreachable_engines_are_reported(a: Seq<char>, b: Seq<char>)
    ensures
        says_unavailable(a + "cannot connect"@ + b),
        says_unavailable(a + "failed to connect"@ + b),
        says_unavailable(a + "connection refused"@ + b),
        says_unavailable(a + "docker daemon"@ + b),
        says_unavailable(a + "podman socket"@ + b),
        says_unavailable(a + "permission denied"@ + b),
        says_unavailable(a + "access denied"@ + b),
        says_unavailable(a + "is the docker daemon running"@ + b),
{
    held_between(a, "cannot connect"@, b);
    held_between(a, "failed to connect"@, b);
    held_between(a, "connection refused"@, b);
    held_between(a, "docker daemon"@, b);
    held_between(a, "podman socket"@, b);
    held_between(a, "permission denied"@, b);
    held_between(a, "access denied"@, b);
    held_between(a, "is the docker daemon running"@, b);
}

proof fn held_between(a: Seq<char>, part: Seq<char>, b: Seq<char>)
    ensures
        has_part(a + part + b, part),
{
    let s = a + part + b;
    assert(s.subrange(a.len() as int, (a.len() + part.len()) as int) =~= part);
    held_at(s, part, a.len() as int);
}

/// A container runs just where its engine answers that it does, in any case;
/// another answer says that it is stopped. Where the engine fails, what it says
/// decides, and one that cannot be called is out of reach.
pub proof fn engines_tell_the_state(o: CommandOutput, id: Seq<char>)
    ensures
        probed(None, id) is DockerUnavailable,
        o.success ==> (probed(Some(o), id) is Running <==> lowered(
            trimmed(o.stderr@ + o.stdout@),
        ) == seq!['r', 'u', 'n', 'n', 'i', 'n', 'g']),
        o.success ==> probed(Some(o), id) is Running || probed(Some(o), id) is Stopped,
        ({
            let m = unicode_lower(o.stderr@ + o.stdout@);
            !o.success ==> (says_unavailable(m) ==> probed(Some(o), id) is DockerUnavailable) && (
            !says_unavailable(m) && says_missing(m, id) ==> probed(Some(o), id) is Missing) && (
            !says_unavailable(m) && !says_missing(m, id) ==> probed(Some(o), id) is Unknown)
        }),
{
    reveal_strlit("running");
    assert("running"@ =~= seq!['r', 'u', 'n', 'n', 'i', 'n', 'g']);
}

/// What went wrong is told as the engine tells it; where it says nothing, by the
/// engine, what it was to do and how it ended. An engine that could not be
/// called is told with its machine.
pub proof fn failures_of_the_engine_are_told(
    c: DevContainerConnectionView,
    action: ContainerAction,
    status: Seq<char>,
    message: Seq<char>,
)
    ensures
        trimmed(message).len() > 0 ==> action_error(c, action, status, message) == trimmed(message),
        trimmed(message).len() == 0 ==> action_error(c, action, status, message)
            == container_engine(c).push(' ') + action_args(action, c.container_id)[0]
            + " failed with exit code "@ + status,
        c.host is None ==> not_run_message(c, message) == "Failed to run "@ + container_engine(c)
            + " locally: "@ + message,
        c.host matches Some(DevContainerHostView::Wsl { .. }) ==> not_run_message(c, message)
            == "Failed to run "@ + container_engine(c) + " in WSL: "@ + message,
        c.host matches Some(DevContainerHostView::Ssh { .. }) ==> not_run_message(c, message)
            == "Failed to run "@ + container_engine(c) + " over SSH: "@ + message,
{
    reveal_strlit(" ");
    let e = container_engine(c);
    assert(e + " "@ =~= e.push(' '));
}

/// A path into a distribution may also be written with backslashes, and with the
/// mark of verbatim paths before it.
pub proof fn network_paths_may_hold_backslashes(name: Seq<char>, below: Seq<char>)
    requires
        name.len() > 0,
        forall|k: int| 0 <= k < below.len() ==> #[trigger] below[k] != '\\',
        below.len() > 0 ==> below[0] != '/',
    ensures
        ({
            let path = seq!['\\', '\\', 'w', 's', 'l', '$', '\\', '\\'] + name + seq!['\\'] + below;
            &&& project_unc_to_posix(path, name) == Some(seq!['/'] + below)
            &&& project_unc_to_posix(seq!['\\', '\\', '?', '\\'] + path, name) == Some(
                seq!['/'] + below,
            )
        }),
{
    reveal_strlit("\\\\wsl$\\\\");
    let path = seq!['\\', '\\', 'w', 's', 'l', '$', '\\', '\\'] + name + seq!['\\'] + below;
    let lead = network_leads(name)[0];
    let rest = seq!['\\'] + below;
    assert(lead =~= seq!['\\', '\\', 'w', 's', 'l', '$', '\\', '\\'] + name);
    assert(path =~= lead + rest);
    let verbatim = crate::docker::verbatim_lead();
    assert(path[2] == 'w');
    not_led(path, verbatim, 2);
    assert(path.take(lead.len() as int) =~= lead);
    assert(path.skip(lead.len() as int) =~= rest);
    assert(rest.skip(1) =~= below);
    assert(replaced(below, '\\', '/') =~= below);
    assert(behind_lead(rest) =~= seq!['/'] + below);
    let marked = seq!['\\', '\\', '?', '\\'] + path;
    assert(marked.take(4) =~= verbatim);
    assert(marked.skip(4) =~= path);
}

/// The command that reads one of the files of a login, where it is there, and
/// keeps what that prints to itself.
pub open spec fn reads_profile(file: Seq<char>) -> Seq<char> {
    "if [ -f "@ + file + " ]; then . "@ + file + " >/dev/null 2>&1; fi; "@
}

/// A command in a login shell comes behind the reading of four files.
pub proof fn four_profiles_are_read()
    ensures
        profile_lead() == reads_profile("~/.bash_profile"@) + reads_profile("~/.profile"@)
            + reads_profile("~/.bashrc"@) + reads_profile("~/.zprofile"@),
{
    reveal_strlit(
        "if [ -f ~/.bash_profile ]; then . ~/.bash_profile >/dev/null 2>&1; fi; if [ -f ~/.profile ]; then . ~/.profile >/dev/null 2>&1; fi; if [ -f ~/.bashrc ]; then . ~/.bashrc >/dev/null 2>&1; fi; if [ -f ~/.zprofile ]; then . ~/.zprofile >/dev/null 2>&1; fi; ",
    );
    reveal_strlit("if [ -f ");
    reveal_strlit(" ]; then . ");
    reveal_strlit(" >/dev/null 2>&1; fi; ");
    reveal_strlit("~/.bash_profile");
    reveal_strlit("~/.profile");
    reveal_strlit("~/.bashrc");
    reveal_strlit("~/.zprofile");
    assert(profile_lead() =~= reads_profile("~/.bash_profile"@) + reads_profile("~/.profile"@)
        + reads_profile("~/.bashrc"@) + reads_profile("~/.zprofile"@));
}

} // verus!
