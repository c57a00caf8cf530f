//! A connection into a container: the commands that open it, install the
//! remote server in it and start its proxy, and what their outcomes mean.
use crate::connection::{
    DockerConnectionOptions, DockerConnectionOptionsView, EnvVar, EnvVarView,
    RemoteConnectionOptions, RemoteConnectionOptionsView,
};
use crate::docker::{
    host_command, new_host_docker_command, reports_no_user,
    should_fallback_to_container_default_user_message, HostCommand,
};
use crate::model::{models, Model};
use crate::text::{
    all_digits, chars_of, decimal, is_digit, just, lowered, opt_text, pieces, push_all, push_str,
    same_ignoring_case, texts, texts_push, trim_text, trimmed,
};
use vstd::prelude::*;
use vstd::slice::*;
use vstd::string::*;

verus! {

// ---------------------------------------------------------------------------
// Versions

/// The error of `semver`, which is only carried.
#[verifier::external_type_specification]
#[verifier::external_body]
pub struct ExSemverError(semver::Error);

/// A version of the program: three numbers, the identifiers of a pre-release
/// and those of a build.
#[derive(Clone, Debug, PartialEq, Eq)]
pub struct AppVersion {
    pub major: u64,
    pub minor: u64,
    pub patch: u64,
    pub pre: String,
    pub build: String,
}

/// Why a version has no text.
#[derive(Clone, Copy, Debug, PartialEq, Eq, Structural)]
pub enum VersionError {
    /// The pre-release or the build holds something that is no identifier.
    BadIdentifier,
}

/// The longest list of identifiers that a version is asked to hold.
pub const MAX_IDENTIFIER_LEN: usize = 0x3fff_ffff;

/// Whether a character may stand in an identifier of a version.
pub open spec fn is_identifier_char(c: char) -> bool {
    is_digit(c) || ('A' <= c && c <= 'Z') || ('a' <= c && c <= 'z') || c == '-'
}

/// Whether a text is one identifier of a version. A number in a pre-release
/// has no leading zero.
pub open spec fn is_identifier(s: Seq<char>, pre_release: bool) -> bool {
    &&& s.len() > 0
    &&& forall|i: int| 0 <= i < s.len() ==> is_identifier_char(#[trigger] s[i])
    &&& !(pre_release && s.len() > 1 && all_digits(s) && s[0] == '0')
}

/// Whether a text is empty or a list of identifiers with dots between them.
pub open spec fn is_identifier_list(s: Seq<char>, pre_release: bool) -> bool {
    s.len() == 0 || forall|i: int|
        0 <= i < pieces(s, just('.')).len() ==> is_identifier(
            #[trigger] pieces(s, just('.'))[i],
            pre_release,
        )
}

/// The text of a version.
pub open spec fn version_text(
    major: u64,
    minor: u64,
    patch: u64,
    pre: Seq<char>,
    build: Seq<char>,
) -> Seq<char> {
    let numbers = decimal(major as nat).push('.') + decimal(minor as nat).push('.') + decimal(
        patch as nat,
    );
    let with_pre = if pre.len() > 0 {
        numbers.push('-') + pre
    } else {
        numbers
    };
    if build.len() > 0 {
        with_pre.push('+') + build
    } else {
        with_pre
    }
}

/// `semver::Version::to_string`, on the version with the given parts, writes
/// the three numbers with dots between them, then the pre-release behind a
/// hyphen and the build behind a plus sign, where they are not empty.
/// `semver::Prerelease::new` and `semver::BuildMetadata::new` accept just the
/// lists of identifiers described by [`is_identifier_list`].
#[verifier::external_body]
fn semver_text(major: u64, minor: u64, patch: u64, pre: &str, build: &str) -> (r: Result<
    String,
    semver::Error,
>)
    requires
        pre@.len() <= MAX_IDENTIFIER_LEN,
        build@.len() <= MAX_IDENTIFIER_LEN,
    ensures
        match r {
            Ok(text) => is_identifier_list(pre@, true) && is_identifier_list(build@, false)
                && text@ == version_text(major, minor, patch, pre@, build@),
            Err(_) => !(is_identifier_list(pre@, true) && is_identifier_list(build@, false)),
        },
{
    let pre = semver::Prerelease::new(pre)?;
    let build = semver::BuildMetadata::new(build)?;
    Ok(semver::Version { major, minor, patch, pre, build }.to_string())
}

impl AppVersion {
    /// Whether the identifiers are short enough to be held.
    pub open spec fn fits(&self) -> bool {
        self.pre@.len() <= MAX_IDENTIFIER_LEN && self.build@.len() <= MAX_IDENTIFIER_LEN
    }

    /// Whether the pre-release and the build are lists of identifiers.
    pub open spec fn valid(&self) -> bool {
        is_identifier_list(self.pre@, true) && is_identifier_list(self.build@, false)
    }

    /// The text of the version.
    pub open spec fn spec_text(&self) -> Seq<char> {
        version_text(self.major, self.minor, self.patch, self.pre@, self.build@)
    }

    /// The text of the version.
    pub fn text(&self) -> (r: Result<String, VersionError>)
        requires
            self.fits(),
        ensures
            match r {
                Ok(text) => self.valid() && text@ == self.spec_text(),
                Err(e) => !self.valid() && e == VersionError::BadIdentifier,
            },
    {
        match semver_text(
            self.major,
            self.minor,
            self.patch,
            self.pre.as_str(),
            self.build.as_str(),
        ) {
            Ok(text) => Ok(text),
            Err(_) => Err(VersionError::BadIdentifier),
        }
    }
}

/// The channel over which the program is released.
#[derive(Clone, Copy, Debug, PartialEq, Eq, Structural)]
pub enum ReleaseChannel {
    Dev,
    Nightly,
    Preview,
    Stable,
}

/// What the name of a server binary says of its version: a nightly build also
/// names its commit, and a development build has no version.
pub open spec fn server_version(
    channel: ReleaseChannel,
    version: Seq<char>,
    commit: Option<Seq<char>>,
) -> Seq<char> {
    match channel {
        ReleaseChannel::Nightly => version + "-"@ + match commit {
            Some(c) => c,
            None => Seq::empty(),
        },
        ReleaseChannel::Dev => "build"@,
        _ => version,
    }
}

/// The name of the server binary for a channel, which is called
/// `channel_name`, and a version.
pub fn server_binary_name(
    channel: ReleaseChannel,
    channel_name: &str,
    version: &AppVersion,
    commit: Option<&str>,
) -> (r: Result<String, VersionError>)
    requires
        version.fits(),
    ensures
        match r {
            Ok(name) => version.valid() && name@ == "zed-remote-server-"@ + channel_name@ + "-"@
                + server_version(channel, version.spec_text(), crate::text::opt_str(commit)),
            Err(e) => !version.valid() && e == VersionError::BadIdentifier,
        },
{
    let text = match version.text() {
        Ok(text) => text,
        Err(e) => return Err(e),
    };
    let mut out = "zed-remote-server-".to_owned();
    out.append(channel_name);
    out.append("-");
    let version_part = match channel {
        ReleaseChannel::Nightly => {
            let mut part = text;
            part.append("-");
            if let Some(c) = commit {
                part.append(c);
            }
            assert(part@ =~= server_version(
                channel,
                version.spec_text(),
                crate::text::opt_str(commit),
            ));
            part
        },
        ReleaseChannel::Dev => "build".to_owned(),
        _ => text,
    };
    out.append(version_part.as_str());
    Ok(out)
}

// ---------------------------------------------------------------------------
// The connection

/// How paths are written.
#[derive(Clone, Copy, Debug, PartialEq, Eq, Structural)]
pub enum PathStyle {
    Posix,
    Windows,
}

/// The operating system inside a container.
#[derive(Clone, Copy, Debug, PartialEq, Eq, Structural)]
pub enum RemoteOs {
    Linux,
    MacOs,
    Windows,
}

/// The processor inside a container.
#[derive(Clone, Copy, Debug, PartialEq, Eq, Structural)]
pub enum RemoteArch {
    X86_64,
    Aarch64,
}

/// The system inside a container.
#[derive(Clone, Copy, Debug, PartialEq, Eq, Structural)]
pub struct RemotePlatform {
    pub os: RemoteOs,
    pub arch: RemoteArch,
}

/// A connection into a container.
#[derive(Clone, Debug, PartialEq, Eq)]
pub struct DockerExecConnection {
    /// The process of the proxy, while it runs.
    pub proxy_process: Option<u32>,
    /// The directory under which the remote server is installed.
    pub remote_dir_for_server: String,
    /// The path of the remote server below that directory.
    pub remote_binary: Option<String>,
    pub connection_options: DockerConnectionOptions,
    /// The user as whom commands are run; the container's own user where there
    /// is none.
    pub exec_user: Option<String>,
    pub remote_platform: Option<RemotePlatform>,
    pub path_style: Option<PathStyle>,
    pub shell: String,
}

/// The model of a [`DockerExecConnection`].
#[verifier::ext_equal]
pub struct DockerExecView {
    pub proxy_process: Option<u32>,
    pub remote_dir_for_server: Seq<char>,
    pub remote_binary: Option<Seq<char>>,
    pub connection_options: DockerConnectionOptionsView,
    pub exec_user: Option<Seq<char>>,
    pub remote_platform: Option<RemotePlatform>,
    pub path_style: Option<PathStyle>,
    pub shell: Seq<char>,
}

impl View for DockerExecConnection {
    type V = DockerExecView;

    open spec fn view(&self) -> DockerExecView {
        DockerExecView {
            proxy_process: self.proxy_process,
            remote_dir_for_server: self.remote_dir_for_server@,
            remote_binary: opt_text(self.remote_binary),
            connection_options: self.connection_options@,
            exec_user: opt_text(self.exec_user),
            remote_platform: self.remote_platform,
            path_style: self.path_style,
            shell: self.shell@,
        }
    }
}

/// The program of the container engine.
pub open spec fn engine(o: DockerConnectionOptionsView) -> Seq<char> {
    if o.use_podman {
        "podman"@
    } else {
        "docker"@
    }
}

/// The arguments that set the user of a command.
pub open spec fn user_args(user: Option<Seq<char>>) -> Seq<Seq<char>> {
    match user {
        Some(u) => seq!["-u"@, u],
        None => Seq::empty(),
    }
}

/// The arguments that set the variables of a list.
pub open spec fn env_args(env: Seq<EnvVarView>) -> Seq<Seq<char>>
    decreases env.len(),
{
    if env.len() == 0 {
        Seq::empty()
    } else {
        env_args(env.drop_last()).push("-e"@).push(env.last().name + "="@ + env.last().value)
    }
}

/// Appends the arguments that set the variables of a list.
pub(crate) fn push_env_args(args: &mut Vec<String>, env: &Vec<EnvVar>)
    ensures
        texts(final(args)@) == texts(old(args)@) + env_args(models(env@)),
{
    let mut i: usize = 0;
    assert(texts(args@) =~= texts(old(args)@) + env_args(models(env@).take(0)));
    while i < env.len()
        invariant
            i <= env.len(),
            texts(args@) == texts(old(args)@) + env_args(models(env@).take(i as int)),
        decreases env.len() - i,
    {
        broadcast use texts_push;

        push_str(args, "-e");
        let mut pair = env[i].name.clone();
        pair.append("=");
        pair.append(env[i].value.as_str());
        args.push(pair);
        i = i + 1;
        proof {
            let head = models(env@).take(i as int);
            assert(head.drop_last() =~= models(env@).take(i - 1));
            assert(head.last() == env@[i - 1]@);
            assert(texts(args@) =~= texts(old(args)@) + env_args(head));
        }
    }
    assert(models(env@).take(i as int) =~= models(env@));
}

/// The arguments that run a program in the container: the working directory,
/// the user and the environment, then the container, the program and what the
/// program is given.
pub open spec fn exec_args(
    c: DockerExecView,
    program: Seq<char>,
    working_directory: Option<Seq<char>>,
    env: Seq<EnvVarView>,
    program_args: Seq<Seq<char>>,
) -> Seq<Seq<char>> {
    let dir = match working_directory {
        Some(d) => seq!["-w"@, d],
        None => Seq::empty(),
    };
    seq!["exec"@] + dir + user_args(c.exec_user) + env_args(c.connection_options.remote_env)
        + env_args(env) + seq![c.connection_options.container_id, program] + program_args
}

/// The steps of opening a connection, up to the installation of the server.
#[derive(Clone, Copy, Debug, PartialEq, Eq, Structural)]
pub enum ConnectStep {
    /// Ask whether the container runs.
    Inspect,
    /// Start the container.
    Start,
    /// Ask whether the wanted user exists in the container.
    ProbeUser,
    /// Ask for the system inside the container.
    Platform,
    /// Ask the environment for the user's shell.
    ShellVariable,
    /// Ask the list of users for the user's shell.
    ShellPasswd,
    /// Ask for the user's home directory.
    Home,
    /// Install the server.
    Binary,
}

/// The wanted user: the one of the options without surrounding space.
pub open spec fn wanted_user(o: DockerConnectionOptionsView) -> Seq<char> {
    trimmed(o.remote_user)
}

/// The arguments of the container engine at a step; none where the step is not
/// one command.
pub open spec fn connect_args(c: DockerExecView, step: ConnectStep) -> Option<Seq<Seq<char>>> {
    let id = c.connection_options.container_id;
    match step {
        ConnectStep::Inspect => Some(seq!["inspect"@, "--format"@, "{{.State.Running}}"@, id]),
        ConnectStep::Start => Some(seq!["start"@, id]),
        ConnectStep::ProbeUser => Some(
            seq!["exec"@, "-u"@, wanted_user(c.connection_options), id, "id"@, "-un"@],
        ),
        ConnectStep::Platform => Some(
            exec_args(c, "uname"@, None, Seq::empty(), seq!["-sm"@]),
        ),
        ConnectStep::ShellVariable => Some(
            exec_args(c, "sh"@, None, Seq::empty(), seq!["-c"@, "echo $SHELL"@]),
        ),
        ConnectStep::ShellPasswd => Some(
            exec_args(
                c,
                "sh"@,
                None,
                Seq::empty(),
                seq!["-c"@, "getent passwd \"$(id -un)\" | cut -d: -f7"@],
            ),
        ),
        ConnectStep::Home => Some(
            exec_args(c, c.shell, None, Seq::empty(), seq!["-c"@, "echo $HOME"@]),
        ),
        ConnectStep::Binary => None,
    }
}

/// The step behind the question whether the container runs, or its start: the
/// wanted user is asked for where there is one.
pub open spec fn after_running(c: DockerExecView) -> (DockerExecView, ConnectStep) {
    if wanted_user(c.connection_options).len() == 0 {
        (DockerExecView { exec_user: None, ..c }, ConnectStep::Platform)
    } else {
        (c, ConnectStep::ProbeUser)
    }
}

/// The connection and the next step after the command of a step has given
/// `outcome`: its output, or its error. An error that ends the opening comes
/// out unchanged.
pub open spec fn connected(
    c: DockerExecView,
    step: ConnectStep,
    outcome: Result<Seq<char>, Seq<char>>,
) -> Result<(DockerExecView, ConnectStep), Seq<char>> {
    match (step, outcome) {
        (ConnectStep::Inspect, Ok(out)) => if lowered(trimmed(out)) == lowered("true"@) {
            Ok(after_running(c))
        } else {
            Ok((c, ConnectStep::Start))
        },
        (ConnectStep::Start, Ok(_)) => Ok(after_running(c)),
        (ConnectStep::ProbeUser, Ok(_)) => Ok(
            (
                DockerExecView { exec_user: Some(wanted_user(c.connection_options)), ..c },
                ConnectStep::Platform,
            ),
        ),
        (ConnectStep::ProbeUser, Err(e)) => if reports_no_user(e) {
            Ok((DockerExecView { exec_user: None, ..c }, ConnectStep::Platform))
        } else {
            Err(e)
        },
        (ConnectStep::ShellVariable, Ok(out)) => if trimmed(out).len() > 0 {
            Ok((DockerExecView { shell: trimmed(out), ..c }, ConnectStep::Home))
        } else {
            Ok((c, ConnectStep::ShellPasswd))
        },
        (ConnectStep::ShellVariable, Err(_)) => Ok((c, ConnectStep::ShellPasswd)),
        (ConnectStep::ShellPasswd, Ok(out)) => if trimmed(out).len() > 0 {
            Ok((DockerExecView { shell: trimmed(out), ..c }, ConnectStep::Home))
        } else {
            Ok((DockerExecView { shell: "sh"@, ..c }, ConnectStep::Home))
        },
        (ConnectStep::ShellPasswd, Err(_)) => Ok(
            (DockerExecView { shell: "sh"@, ..c }, ConnectStep::Home),
        ),
        (ConnectStep::Home, Ok(out)) => Ok(
            (DockerExecView { remote_dir_for_server: trimmed(out), ..c }, ConnectStep::Binary),
        ),
        (_, Err(e)) => Err(e),
        (_, Ok(_)) => Ok((c, step)),
    }
}

/// The text of an outcome.
pub open spec fn outcome_text(r: Result<String, String>) -> Result<Seq<char>, Seq<char>> {
    match r {
        Ok(s) => Ok(s@),
        Err(s) => Err(s@),
    }
}

impl DockerExecConnection {
    /// A connection that has not been opened yet.
    pub fn new(connection_options: DockerConnectionOptions) -> (r: Self)
        ensures
            r@ == (DockerExecView {
                proxy_process: None,
                remote_dir_for_server: "/"@,
                remote_binary: None,
                connection_options: connection_options@,
                exec_user: None,
                remote_platform: None,
                path_style: None,
                shell: "sh"@,
            }),
    {
        DockerExecConnection {
            proxy_process: None,
            remote_dir_for_server: "/".to_owned(),
            remote_binary: None,
            connection_options,
            exec_user: None,
            remote_platform: None,
            path_style: None,
            shell: "sh".to_owned(),
        }
    }

    /// The program of the container engine.
    pub fn docker_cli(&self) -> (r: &str)
        ensures
            r@ == engine(self@.connection_options),
    {
        if self.connection_options.use_podman {
            "podman"
        } else {
            "docker"
        }
    }

    /// Appends the arguments that set the user of a command.
    pub fn append_exec_user_arg(&self, args: &mut Vec<String>)
        ensures
            texts(final(args)@) == texts(old(args)@) + user_args(self@.exec_user),
    {
        match &self.exec_user {
            Some(user) => {
                push_str(args, "-u");
                push_str(args, user.as_str());
                assert(texts(args@) =~= texts(old(args)@) + user_args(self@.exec_user));
            },
            None => {
                assert(texts(args@) =~= texts(old(args)@) + user_args(self@.exec_user));
            },
        }
    }

    /// The command that runs the container engine with a subcommand and its
    /// arguments.
    pub fn run_docker_command(&self, subcommand: &str, args: &Vec<String>, bridge_wsl: bool) -> (r:
        HostCommand)
        ensures
            r@ == host_command(
                engine(self@.connection_options),
                self@.connection_options.host,
                seq![subcommand@] + texts(args@),
                bridge_wsl,
            ),
    {
        let mut all: Vec<String> = Vec::new();
        push_str(&mut all, subcommand);
        push_all(&mut all, args);
        assert(texts(all@) =~= seq![subcommand@] + texts(args@));
        new_host_docker_command(
            self.docker_cli(),
            &self.connection_options.host,
            &all,
            bridge_wsl,
        )
    }

    /// The command that runs a program in the container.
    pub fn run_docker_exec(
        &self,
        inner_program: &str,
        working_directory: Option<&str>,
        env: &Vec<EnvVar>,
        program_args: &Vec<String>,
        bridge_wsl: bool,
    ) -> (r: HostCommand)
        ensures
            r@ == host_command(
                engine(self@.connection_options),
                self@.connection_options.host,
                exec_args(
                    self@,
                    inner_program@,
                    crate::text::opt_str(working_directory),
                    models(env@),
                    texts(program_args@),
                ),
                bridge_wsl,
            ),
    {
        let mut args: Vec<String> = Vec::new();
        if let Some(dir) = working_directory {
            push_str(&mut args, "-w");
            push_str(&mut args, dir);
        }
        let ghost dir = texts(args@);
        self.append_exec_user_arg(&mut args);
        push_env_args(&mut args, &self.connection_options.remote_env);
        push_env_args(&mut args, env);
        push_str(&mut args, self.connection_options.container_id.as_str());
        push_str(&mut args, inner_program);
        push_all(&mut args, program_args);
        proof {
            assert(seq!["exec"@] + texts(args@) =~= exec_args(
                self@,
                inner_program@,
                crate::text::opt_str(working_directory),
                models(env@),
                texts(program_args@),
            ));
        }
        self.run_docker_command("exec", &args, bridge_wsl)
    }

    fn exec_with(&self, inner_program: &str, first: &str, second: Option<&str>, bridge_wsl: bool)
        -> (r: HostCommand)
        ensures
            r@ == host_command(
                engine(self@.connection_options),
                self@.connection_options.host,
                exec_args(
                    self@,
                    inner_program@,
                    None,
                    Seq::empty(),
                    match second {
                        Some(s) => seq![first@, s@],
                        None => seq![first@],
                    },
                ),
                bridge_wsl,
            ),
    {
        let env: Vec<EnvVar> = Vec::new();
        assert(models(env@) =~= Seq::empty());
        let mut args: Vec<String> = Vec::new();
        push_str(&mut args, first);
        if let Some(s) = second {
            push_str(&mut args, s);
        }
        assert(texts(args@) =~= match second {
            Some(s) => seq![first@, s@],
            None => seq![first@],
        });
        self.run_docker_exec(inner_program, None, &env, &args, bridge_wsl)
    }

    /// The command of a step of opening the connection; none where the step is
    /// not one command.
    pub fn connect_command(&self, step: ConnectStep, bridge_wsl: bool) -> (r: Option<HostCommand>)
        ensures
            match connect_args(self@, step) {
                Some(args) => r is Some && r->0@ == host_command(
                    engine(self@.connection_options),
                    self@.connection_options.host,
                    args,
                    bridge_wsl,
                ),
                None => r is None,
            },
    {
        match step {
            ConnectStep::Inspect => {
                let mut args: Vec<String> = Vec::new();
                push_str(&mut args, "--format");
                push_str(&mut args, "{{.State.Running}}");
                push_str(&mut args, self.connection_options.container_id.as_str());
                assert(seq!["inspect"@] + texts(args@) =~= connect_args(self@, step)->0);
                Some(self.run_docker_command("inspect", &args, bridge_wsl))
            },
            ConnectStep::Start => {
                let mut args: Vec<String> = Vec::new();
                push_str(&mut args, self.connection_options.container_id.as_str());
                assert(seq!["start"@] + texts(args@) =~= connect_args(self@, step)->0);
                Some(self.run_docker_command("start", &args, bridge_wsl))
            },
            ConnectStep::ProbeUser => {
                let user = trim_text(self.connection_options.remote_user.as_str());
                let mut args: Vec<String> = Vec::new();
                push_str(&mut args, "-u");
                push_str(&mut args, user.as_str());
                push_str(&mut args, self.connection_options.container_id.as_str());
                push_str(&mut args, "id");
                push_str(&mut args, "-un");
                assert(seq!["exec"@] + texts(args@) =~= connect_args(self@, step)->0);
                Some(self.run_docker_command("exec", &args, bridge_wsl))
            },
            ConnectStep::Platform => Some(self.exec_with("uname", "-sm", None, bridge_wsl)),
            ConnectStep::ShellVariable => Some(
                self.exec_with("sh", "-c", Some("echo $SHELL"), bridge_wsl),
            ),
            ConnectStep::ShellPasswd => Some(
                self.exec_with(
                    "sh",
                    "-c",
                    Some("getent passwd \"$(id -un)\" | cut -d: -f7"),
                    bridge_wsl,
                ),
            ),
            ConnectStep::Home => Some(
                self.exec_with(self.shell.as_str(), "-c", Some("echo $HOME"), bridge_wsl),
            ),
            ConnectStep::Binary => None,
        }
    }

    fn enter_running(&mut self) -> (r: ConnectStep)
        ensures
            (final(self)@, r) == after_running(old(self)@),
    {
        let user = trim_text(self.connection_options.remote_user.as_str());
        if user.as_str().is_empty() {
            self.exec_user = None;
            ConnectStep::Platform
        } else {
            ConnectStep::ProbeUser
        }
    }

    /// Takes the outcome of the command of a step in and gives the next step.
    /// On an error the connection stays as it was.
    pub fn connect_next(&mut self, step: ConnectStep, outcome: Result<String, String>) -> (r: Result<
        ConnectStep,
        String,
    >)
        ensures
            match connected(old(self)@, step, outcome_text(outcome)) {
                Ok((c, next)) => r == Ok::<ConnectStep, String>(next) && final(self)@ == c,
                Err(e) => r is Err && r->Err_0@ == e && final(self)@ == old(self)@,
            },
    {
        match (step, outcome) {
            (ConnectStep::Inspect, Ok(out)) => {
                let answer = chars_of(trim_text(out.as_str()).as_str());
                let yes = chars_of("true");
                if same_ignoring_case(answer.as_slice(), yes.as_slice()) {
                    Ok(self.enter_running())
                } else {
                    Ok(ConnectStep::Start)
                }
            },
            (ConnectStep::Start, Ok(_)) => Ok(self.enter_running()),
            (ConnectStep::ProbeUser, Ok(_)) => {
                self.exec_user = Some(trim_text(self.connection_options.remote_user.as_str()));
                Ok(ConnectStep::Platform)
            },
            (ConnectStep::ProbeUser, Err(e)) => {
                if should_fallback_to_container_default_user_message(e.as_str()) {
                    self.exec_user = None;
                    Ok(ConnectStep::Platform)
                } else {
                    Err(e)
                }
            },
            (ConnectStep::ShellVariable, Ok(out)) => {
                let shell = trim_text(out.as_str());
                if shell.as_str().is_empty() {
                    Ok(ConnectStep::ShellPasswd)
                } else {
                    self.shell = shell;
                    Ok(ConnectStep::Home)
                }
            },
            (ConnectStep::ShellVariable, Err(_)) => Ok(ConnectStep::ShellPasswd),
            (ConnectStep::ShellPasswd, Ok(out)) => {
                let shell = trim_text(out.as_str());
                if shell.as_str().is_empty() {
                    self.shell = "sh".to_owned();
                } else {
                    self.shell = shell;
                }
                Ok(ConnectStep::Home)
            },
            (ConnectStep::ShellPasswd, Err(_)) => {
                self.shell = "sh".to_owned();
                Ok(ConnectStep::Home)
            },
            (ConnectStep::Home, Ok(out)) => {
                self.remote_dir_for_server = trim_text(out.as_str());
                Ok(ConnectStep::Binary)
            },
            (_, Err(e)) => Err(e),
            (_, Ok(_)) => Ok(step),
        }
    }

    /// Takes the system inside the container in, and with it how its paths are
    /// written; the next step is to ask for the shell.
    pub fn platform_found(&mut self, platform: RemotePlatform) -> (r: ConnectStep)
        ensures
            r == ConnectStep::ShellVariable,
            final(self)@ == (DockerExecView {
                remote_platform: Some(platform),
                path_style: Some(
                    if platform.os == RemoteOs::Windows {
                        PathStyle::Windows
                    } else {
                        PathStyle::Posix
                    },
                ),
                ..old(self)@
            }),
    {
        self.path_style = match platform.os {
            RemoteOs::Windows => Some(PathStyle::Windows),
            _ => Some(PathStyle::Posix),
        };
        self.remote_platform = Some(platform);
        ConnectStep::ShellVariable
    }

    /// How paths are written inside the container.
    pub fn path_style(&self) -> (r: PathStyle)
        ensures
            r == style_of(self@),
    {
        match self.path_style {
            Some(style) => style,
            None => PathStyle::Posix,
        }
    }

    /// The shell of the user.
    pub fn shell(&self) -> (r: String)
        ensures
            r@ == self@.shell,
    {
        self.shell.clone()
    }

    /// The shell that every system has.
    pub fn default_system_shell(&self) -> (r: String)
        ensures
            r@ == "/bin/sh"@,
    {
        "/bin/sh".to_owned()
    }

    /// Programs of Windows cannot be run in a container.
    pub fn has_wsl_interop(&self) -> (r: bool)
        ensures
            !r,
    {
        false
    }

    /// The options of the connection.
    pub fn connection_options(&self) -> (r: RemoteConnectionOptions)
        ensures
            r@ == RemoteConnectionOptionsView::Docker(self@.connection_options),
    {
        RemoteConnectionOptions::Docker(self.connection_options.dup())
    }

    /// Whether no proxy runs.
    pub fn has_been_killed(&self) -> (r: bool)
        ensures
            r == (self@.proxy_process is None),
    {
        self.proxy_process.is_none()
    }
}

/// How paths are written inside a container.
pub open spec fn style_of(c: DockerExecView) -> PathStyle {
    match c.path_style {
        Some(style) => style,
        None => PathStyle::Posix,
    }
}

/// What a command has printed, or the error of one that has failed.
pub open spec fn command_outcome(
    command: Seq<char>,
    success: bool,
    stdout: Seq<char>,
    stderr: Seq<char>,
) -> Result<Seq<char>, Seq<char>> {
    if success {
        Ok(stdout)
    } else {
        Err("failed to run command "@ + command + ": "@ + stderr)
    }
}

/// What a command, which is shown as `command`, has printed, or the error of
/// one that has failed.
pub fn docker_command_outcome(command: &str, success: bool, stdout: String, stderr: &str) -> (r:
    Result<String, String>)
    ensures
        outcome_text(r) == command_outcome(command@, success, stdout@, stderr@),
{
    if success {
        Ok(stdout)
    } else {
        let mut out = "failed to run command ".to_owned();
        out.append(command);
        out.append(": ");
        out.append(stderr);
        Err(out)
    }
}

/// A container that does not run is started before anything is run in it: from
/// the first step no command but `inspect` and `start` is given until one of
/// them has said that the container runs or has started it.
pub proof fn container_runs_before_exec(c: DockerExecView, out: Seq<char>)
    ensures
        lowered(trimmed(out)) != lowered("true"@) ==> connected(c, ConnectStep::Inspect, Ok(out))
            == Ok::<(DockerExecView, ConnectStep), Seq<char>>((c, ConnectStep::Start)),
        forall|e: Seq<char>|
            connected(c, ConnectStep::Start, Err(e)) == Err::<
                (DockerExecView, ConnectStep),
                Seq<char>,
            >(e),
        connected(c, ConnectStep::Start, Ok(out)) == Ok::<(DockerExecView, ConnectStep), Seq<char>>(
            after_running(c),
        ),
{
}

/// Commands are run as the wanted user only after the container has shown that
/// it knows that user; where it does not, they are run as its own user.
pub proof fn exec_user_exists(
    c: DockerExecView,
    step: ConnectStep,
    outcome: Result<Seq<char>, Seq<char>>,
)
    requires
        c.exec_user is None,
        connected(c, step, outcome) is Ok,
        connected(c, step, outcome)->Ok_0.0.exec_user is Some,
    ensures
        step == ConnectStep::ProbeUser,
        outcome is Ok,
        connected(c, step, outcome)->Ok_0.0.exec_user == Some(wanted_user(c.connection_options)),
{
}

/// How far a step stands in the order of the steps.
pub open spec fn connect_rank(step: ConnectStep) -> int {
    match step {
        ConnectStep::Inspect => 0,
        ConnectStep::Start => 1,
        ConnectStep::ProbeUser => 2,
        ConnectStep::Platform => 3,
        ConnectStep::ShellVariable => 4,
        ConnectStep::ShellPasswd => 5,
        ConnectStep::Home => 6,
        ConnectStep::Binary => 7,
    }
}

/// Connecting comes to an end: every outcome of a command leads on in the order
/// of the steps or ends the opening, and only an error does the latter. What
/// follows from the system inside the container is told by
/// [`DockerExecConnection::platform_found`].
pub proof fn connecting_comes_to_an_end(
    c: DockerExecView,
    step: ConnectStep,
    outcome: Result<Seq<char>, Seq<char>>,
)
    requires
        step != ConnectStep::Platform || outcome is Err,
        step != ConnectStep::Binary,
    ensures
        match connected(c, step, outcome) {
            Ok((_, next)) => connect_rank(step) < connect_rank(next) <= connect_rank(
                ConnectStep::Binary,
            ),
            Err(e) => outcome == Err::<Seq<char>, Seq<char>>(e),
        },
{
}

// ---------------------------------------------------------------------------
// What reaches the container

proof fn env_args_length(env: Seq<EnvVarView>)
    ensures
        env_args(env).len() == 2 * env.len(),
    decreases env.len(),
{
    if env.len() > 0 {
        env_args_length(env.drop_last());
    }
}

/// Each variable of a list is handed over as `-e` and `name=value`, in the order
/// of the list, and nothing besides.
pub proof fn every_variable_is_handed_over(env: Seq<EnvVarView>, i: int)
    requires
        0 <= i < env.len(),
    ensures
        env_args(env).len() == 2 * env.len(),
        env_args(env)[2 * i] == "-e"@,
        env_args(env)[2 * i + 1] == env[i].name + "="@ + env[i].value,
    decreases env.len(),
{
    let head = env.drop_last();
    env_args_length(head);
    if i < head.len() {
        every_variable_is_handed_over(head, i);
        assert(head[i] == env[i]);
    }
}

/// How many arguments an optional value takes: its option and itself.
pub open spec fn width<T>(value: Option<T>) -> int {
    if value is Some {
        2
    } else {
        0
    }
}

/// A program that is run in the container stands right behind the container's
/// id, its arguments follow unchanged, and they are the last. The id stands
/// behind the directory, the user and all variables, those of the container
/// before those of the command.
pub proof fn programs_run_in_the_container(
    c: DockerExecView,
    program: Seq<char>,
    directory: Option<Seq<char>>,
    env: Seq<EnvVarView>,
    given: Seq<Seq<char>>,
    i: int,
)
    ensures
        ({
            let all = exec_args(c, program, directory, env, given);
            let own = c.connection_options.remote_env;
            let user = 1 + width(directory);
            let first = user + width(c.exec_user);
            let second = first + 2 * own.len();
            let id = second + 2 * env.len();
            &&& all.len() == id + 2 + given.len()
            &&& all[0] == "exec"@
            &&& directory matches Some(d) ==> all[1] == "-w"@ && all[2] == d
            &&& c.exec_user matches Some(u) ==> all[user] == "-u"@ && all[user + 1] == u
            &&& 0 <= i < own.len() ==> all[first + 2 * i] == "-e"@ && all[first + 2 * i + 1]
                == own[i].name + "="@ + own[i].value
            &&& 0 <= i < env.len() ==> all[second + 2 * i] == "-e"@ && all[second + 2 * i + 1]
                == env[i].name + "="@ + env[i].value
            &&& all[id] == c.connection_options.container_id
            &&& all[id + 1] == program
            &&& 0 <= i < given.len() ==> all[id + 2 + i] == given[i]
        }),
{
    let own = c.connection_options.remote_env;
    env_args_length(own);
    env_args_length(env);
    if 0 <= i < own.len() {
        every_variable_is_handed_over(own, i);
    }
    if 0 <= i < env.len() {
        every_variable_is_handed_over(env, i);
    }
}

/// The questions that are put in the container while a connection is opened, as
/// they are spelled: for the system, for the user's shell in two ways, and for
/// the home directory, which the user's own shell is asked for. Each runs in
/// the container and ends the arguments.
pub proof fn questions_are_spelled_out(c: DockerExecView)
    ensures
        ({
            let id = c.connection_options.container_id;
            let system = connect_args(c, ConnectStep::Platform);
            let shell = connect_args(c, ConnectStep::ShellVariable);
            let passwd = connect_args(c, ConnectStep::ShellPasswd);
            let home = connect_args(c, ConnectStep::Home);
            let before = 1 + width(c.exec_user) + 2 * c.connection_options.remote_env.len();
            &&& system is Some && shell is Some && passwd is Some && home is Some
            &&& system->0.len() == before + 3 && shell->0.len() == before + 4
            &&& passwd->0.len() == before + 4 && home->0.len() == before + 4
            &&& system->0[before] == id && shell->0[before] == id
            &&& passwd->0[before] == id && home->0[before] == id
            &&& system->0[before + 1] == "uname"@ && system->0.last() == "-sm"@
            &&& shell->0[before + 1] == "sh"@ && shell->0[before + 2] == "-c"@
            &&& shell->0.last() == "echo $SHELL"@
            &&& passwd->0[before + 1] == "sh"@ && passwd->0[before + 2] == "-c"@
            &&& passwd->0.last() == "getent passwd \"$(id -un)\" | cut -d: -f7"@
            &&& home->0[before + 1] == c.shell && home->0[before + 2] == "-c"@
            &&& home->0.last() == "echo $HOME"@
        }),
{
    env_args_length(c.connection_options.remote_env);
    env_args_length(Seq::empty());
}

/// The commands that come before anything is run in the container: it is asked
/// whether it runs, started, and asked whether it knows the wanted user, who is
/// written without outer space.
pub proof fn container_is_asked_and_started(c: DockerExecView)
    ensures
        ({
            let id = c.connection_options.container_id;
            let asked = connect_args(c, ConnectStep::Inspect);
            let started = connect_args(c, ConnectStep::Start);
            let user = connect_args(c, ConnectStep::ProbeUser);
            &&& asked is Some && asked->0.len() == 4 && asked->0[0] == "inspect"@
            &&& asked->0[1] == "--format"@ && asked->0[2] == "{{.State.Running}}"@
            &&& asked->0[3] == id
            &&& started is Some && started->0.len() == 2 && started->0[0] == "start"@
            &&& started->0[1] == id
            &&& user is Some && user->0.len() == 6 && user->0[0] == "exec"@
            &&& user->0[1] == "-u"@ && user->0[2] == trimmed(c.connection_options.remote_user)
            &&& user->0[3] == id && user->0[4] == "id"@ && user->0[5] == "-un"@
            &&& connect_args(c, ConnectStep::Binary) is None
        }),
{
}

/// A container that runs, or has been started, is asked for the wanted user;
/// where none is wanted its own user is taken and the system is asked for.
/// Nothing else of the connection changes.
pub proof fn running_container_is_entered(c: DockerExecView, out: Seq<char>, step: ConnectStep)
    requires
        step == ConnectStep::Start || (step == ConnectStep::Inspect && lowered(trimmed(out))
            == seq!['t', 'r', 'u', 'e']),
    ensures
        ({
            let r = connected(c, step, Ok(out));
            &&& r is Ok
            &&& trimmed(c.connection_options.remote_user).len() > 0 ==> r->Ok_0.0 == c
                && r->Ok_0.1 == ConnectStep::ProbeUser
            &&& trimmed(c.connection_options.remote_user).len() == 0 ==> {
                &&& r->Ok_0.1 == ConnectStep::Platform
                &&& r->Ok_0.0.exec_user is None
                &&& r->Ok_0.0 == (DockerExecView { exec_user: None, ..c })
            }
        }),
{
    reveal_strlit("true");
    assert(lowered("true"@) =~= seq!['t', 'r', 'u', 'e']);
}

/// A container that answers anything but `true` is started.
pub proof fn stopped_container_is_started(c: DockerExecView, out: Seq<char>)
    requires
        lowered(trimmed(out)) != seq!['t', 'r', 'u', 'e'],
    ensures
        connected(c, ConnectStep::Inspect, Ok(out)) == Ok::<
            (DockerExecView, ConnectStep),
            Seq<char>,
        >((c, ConnectStep::Start)),
{
    reveal_strlit("true");
    assert(lowered("true"@) =~= seq!['t', 'r', 'u', 'e']);
}

/// The user who was asked for is taken where the container knows it; an error
/// that does not speak of an unknown user ends the opening, and one that does
/// leaves the container's own user.
pub proof fn known_user_is_taken(c: DockerExecView, out: Seq<char>, error: Seq<char>)
    ensures
        connected(c, ConnectStep::ProbeUser, Ok(out)) is Ok,
        ({
            let r = connected(c, ConnectStep::ProbeUser, Ok(out))->Ok_0;
            &&& r.1 == ConnectStep::Platform
            &&& r.0 == (DockerExecView {
                exec_user: Some(trimmed(c.connection_options.remote_user)),
                ..c
            })
        }),
        ({
            let r = connected(c, ConnectStep::ProbeUser, Err(error));
            if reports_no_user(error) {
                &&& r is Ok
                &&& r->Ok_0.0 == (DockerExecView { exec_user: None, ..c })
                &&& r->Ok_0.1 == ConnectStep::Platform
            } else {
                r is Err && r->Err_0 == error
            }
        }),
{
}

/// The shell is the first answer that is not blank, without outer space: of the
/// environment, then of the list of users, and else `sh`. Nothing else of the
/// connection changes, and an answer once found is followed by the question for
/// the home directory.
pub proof fn first_answer_is_the_shell(
    c: DockerExecView,
    variable: Result<Seq<char>, Seq<char>>,
    passwd: Result<Seq<char>, Seq<char>>,
)
    ensures
        ({
            let first = connected(c, ConnectStep::ShellVariable, variable);
            let second = connected(c, ConnectStep::ShellPasswd, passwd);
            &&& first is Ok && second is Ok
            &&& if variable is Ok && trimmed(variable->Ok_0).len() > 0 {
                &&& first->Ok_0.0 == (DockerExecView { shell: trimmed(variable->Ok_0), ..c })
                &&& first->Ok_0.1 == ConnectStep::Home
            } else {
                first->Ok_0.0 == c && first->Ok_0.1 == ConnectStep::ShellPasswd
            }
            &&& second->Ok_0.1 == ConnectStep::Home
            &&& second->Ok_0.0.shell == (if passwd is Ok && trimmed(passwd->Ok_0).len() > 0 {
                trimmed(passwd->Ok_0)
            } else {
                seq!['s', 'h']
            })
            &&& second->Ok_0.0 == (DockerExecView { shell: second->Ok_0.0.shell, ..c })
        }),
{
    reveal_strlit("sh");
    assert("sh"@ =~= seq!['s', 'h']);
}

/// The answer to the question for the home directory, without outer space,
/// becomes the directory of the server, and nothing else changes; then the
/// server is installed.
pub proof fn home_becomes_the_directory(c: DockerExecView, out: Seq<char>)
    ensures
        connected(c, ConnectStep::Home, Ok(out)) == Ok::<(DockerExecView, ConnectStep), Seq<char>>(
            (DockerExecView { remote_dir_for_server: trimmed(out), ..c }, ConnectStep::Binary),
        ),
{
}

/// An error at a step whose answer cannot be done without ends the opening with
/// that error.
pub proof fn needed_answers_end_the_opening(c: DockerExecView, step: ConnectStep, error: Seq<char>)
    requires
        step == ConnectStep::Inspect || step == ConnectStep::Start || step == ConnectStep::Platform
            || step == ConnectStep::Home,
    ensures
        connected(c, step, Err(error)) == Err::<(DockerExecView, ConnectStep), Seq<char>>(error),
{
}

/// The container engine is Podman where the options say so, and Docker else.
pub proof fn engine_follows_the_options(o: DockerConnectionOptionsView)
    ensures
        o.use_podman ==> engine(o) == seq!['p', 'o', 'd', 'm', 'a', 'n'],
        !o.use_podman ==> engine(o) == seq!['d', 'o', 'c', 'k', 'e', 'r'],
{
    reveal_strlit("podman");
    reveal_strlit("docker");
    assert("podman"@ =~= seq!['p', 'o', 'd', 'm', 'a', 'n']);
    assert("docker"@ =~= seq!['d', 'o', 'c', 'k', 'e', 'r']);
}

/// The name of a server binary tells released versions apart, names the commit
/// of a nightly build, and is the same for all builds of development.
pub proof fn binary_names_tell_versions_apart(
    channel: ReleaseChannel,
    version: Seq<char>,
    commit: Seq<char>,
)
    ensures
        channel == ReleaseChannel::Stable || channel == ReleaseChannel::Preview ==> server_version(
            channel,
            version,
            Some(commit),
        ) == version && server_version(channel, version, None) == version,
        server_version(ReleaseChannel::Nightly, version, Some(commit)) == version.push('-')
            + commit,
        server_version(ReleaseChannel::Nightly, version, None) == version.push('-'),
        server_version(ReleaseChannel::Dev, version, Some(commit)) == seq!['b', 'u', 'i', 'l', 'd'],
        server_version(ReleaseChannel::Dev, version, None) == seq!['b', 'u', 'i', 'l', 'd'],
{
    reveal_strlit("-");
    reveal_strlit("build");
    assert("build"@ =~= seq!['b', 'u', 'i', 'l', 'd']);
    assert(version + "-"@ + commit =~= version.push('-') + commit);
    assert(version + "-"@ + Seq::<char>::empty() =~= version.push('-'));
}

/// A command that has worked gives what it has printed, and one that has failed
/// gives an error in which it is named before what it has complained of.
pub proof fn outcomes_keep_the_output(
    command: Seq<char>,
    stdout: Seq<char>,
    stderr: Seq<char>,
)
    ensures
        command_outcome(command, true, stdout, stderr) == Ok::<Seq<char>, Seq<char>>(stdout),
        command_outcome(command, false, stdout, stderr) is Err,
        ({
            let e = command_outcome(command, false, stdout, stderr)->Err_0;
            let n = e.len() - stderr.len();
            &&& n >= command.len() + 2
            &&& e.skip(n) == stderr
            &&& e.subrange(n - 2 - command.len(), n - 2) == command
        }),
{
    reveal_strlit("failed to run command ");
    reveal_strlit(": ");
    let e = command_outcome(command, false, stdout, stderr)->Err_0;
    let n = e.len() - stderr.len();
    assert(e.skip(n) =~= stderr);
    assert(e.subrange(n - 2 - command.len(), n - 2) =~= command);
}

/// Paths are written the Windows way just where the container said so.
pub proof fn paths_are_written_as_the_container_says(c: DockerExecView)
    ensures
        style_of(c) == PathStyle::Windows <==> c.path_style == Some(PathStyle::Windows),
{
}

/// A version is written as its three numbers with dots between them, then the
/// pre-release behind a hyphen and the build behind a plus sign, each where
/// there is one.
pub proof fn versions_are_written(
    major: u64,
    minor: u64,
    patch: u64,
    pre: Seq<char>,
    build: Seq<char>,
)
    requires
        pre.len() > 0,
        build.len() > 0,
    ensures
        ({
            let none = Seq::<char>::empty();
            let bare = version_text(major, minor, patch, none, none);
            let parts = pieces(bare, just('.'));
            &&& parts.len() == 3
            &&& parts[0] == decimal(major as nat) && parts[1] == decimal(minor as nat) && parts[2]
                == decimal(patch as nat)
            &&& version_text(major, minor, patch, pre, none) == bare.push('-') + pre
            &&& version_text(major, minor, patch, none, build) == bare.push('+') + build
            &&& version_text(major, minor, patch, pre, build) == bare.push('-') + pre.push('+')
                + build
        }),
{
    let none = Seq::<char>::empty();
    let a = decimal(major as nat);
    let b = decimal(minor as nat);
    let c = decimal(patch as nat);
    let bare = version_text(major, minor, patch, none, none);
    crate::text::decimal_spells(major as nat);
    crate::text::decimal_spells(minor as nat);
    crate::text::decimal_spells(patch as nat);
    let sep = just('.');
    assert forall|i: int| 0 <= i < a.len() implies !sep(#[trigger] a[i]) by {
        assert(is_digit(a[i]));
    }
    assert forall|i: int| 0 <= i < b.len() implies !sep(#[trigger] b[i]) by {
        assert(is_digit(b[i]));
    }
    assert forall|i: int| 0 <= i < c.len() implies !sep(#[trigger] c[i]) by {
        assert(is_digit(c[i]));
    }
    crate::text::pieces_of_one(a, sep);
    crate::text::pieces_push(a, '.', b, sep);
    crate::text::pieces_push(a.push('.') + b, '.', c, sep);
    assert(bare =~= (a.push('.') + b).push('.') + c);
    assert(version_text(major, minor, patch, pre, build) =~= bare.push('-') + pre.push('+') + build);
}

/// A pre-release and a build are lists of identifiers: letters, digits and
/// hyphens with dots between, none of them empty. A number in a pre-release has
/// no leading zero.
pub proof fn identifiers_are_letters_digits_and_hyphens(s: Seq<char>, pre: bool, c: char)
    requires
        s.len() > 0,
        forall|i: int| 0 <= i < s.len() ==> #[trigger] s[i] != '.',
    ensures
        is_identifier_list(Seq::empty(), pre),
        is_identifier_char(c) <==> '0' <= c <= '9' || 'a' <= c <= 'z' || 'A' <= c <= 'Z' || c == '-',
        is_identifier_list(s, false) <==> forall|i: int|
            0 <= i < s.len() ==> is_identifier_char(#[trigger] s[i]),
        is_identifier_list(s, true) <==> is_identifier_list(s, false) && !(s.len() > 1 && s[0] == '0'
            && forall|i: int| 0 <= i < s.len() ==> '0' <= #[trigger] s[i] <= '9'),
        !is_identifier_list(s.push('.'), pre),
        !is_identifier_list(seq!['.'] + s, pre),
        is_identifier_list(s.push('.') + s, pre) <==> is_identifier_list(s, pre),
{
    let sep = just('.');
    let none = Seq::<char>::empty();
    assert forall|i: int| 0 <= i < s.len() implies !sep(#[trigger] s[i]) by {
        assert(s[i] != '.');
    }
    crate::text::pieces_of_one(s, sep);
    crate::text::pieces_of_one(none, sep);
    crate::text::pieces_push(s, '.', none, sep);
    crate::text::pieces_push(none, '.', s, sep);
    crate::text::pieces_push(s, '.', s, sep);
    assert(s.push('.') + none =~= s.push('.'));
    assert(none.push('.') + s =~= seq!['.'] + s);
    let whole = pieces(s, sep);
    assert(whole[0] == s);
    assert(is_identifier_list(s, pre) <==> is_identifier(s, pre)) by {
        if is_identifier_list(s, pre) {
            assert(is_identifier(whole[0], pre));
        }
    }
    assert(is_identifier_list(s, true) <==> is_identifier(s, true)) by {
        if is_identifier_list(s, true) {
            assert(is_identifier(whole[0], true));
        }
    }
    assert(is_identifier_list(s, false) <==> is_identifier(s, false)) by {
        if is_identifier_list(s, false) {
            assert(is_identifier(whole[0], false));
        }
    }
    let ended = pieces(s.push('.'), sep);
    assert(ended[1] == none);
    if is_identifier_list(s.push('.'), pre) {
        assert(is_identifier(ended[1], pre));
    }
    let led = pieces(seq!['.'] + s, sep);
    assert(led[0] == none);
    if is_identifier_list(seq!['.'] + s, pre) {
        assert(is_identifier(led[0], pre));
    }
    let both = pieces(s.push('.') + s, sep);
    assert(both[0] == s && both[1] == s && both.len() == 2);
    if is_identifier_list(s.push('.') + s, pre) {
        assert(is_identifier(both[0], pre));
    }
    assert(all_digits(s) <==> forall|i: int| 0 <= i < s.len() ==> '0' <= #[trigger] s[i] <= '9') by {
        if all_digits(s) {
            assert forall|i: int| 0 <= i < s.len() implies '0' <= #[trigger] s[i] <= '9' by {
                assert(is_digit(s[i]));
            }
        }
    }
}

/// A version is one where both its lists are, and is held where neither is too
/// long.
pub proof fn versions_need_both_lists(v: AppVersion)
    ensures
        v.valid() <==> is_identifier_list(v.pre@, true) && is_identifier_list(v.build@, false),
        v.fits() <==> v.pre@.len() < 0x4000_0000 && v.build@.len() < 0x4000_0000,
{
}

} // verus!
