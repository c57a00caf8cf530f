//! Remote connections: what the settings store of them, and the options by
//! which they are opened.
use crate::model::{
    dup_all, dup_opt, dup_opt_all, models, opt_model, opt_models, same_all, same_bool, same_opt_all,
    same_opt_list, same_opt_model, same_u16, Model,
};
use crate::text::{
    copy_list, copy_opt, copy_opt_list, copy_text, decimal, decimal_of, joined, join, opt_text,
    opt_texts, push_all, push_str, same_list, same_opt, same_text, texts,
};
use vstd::prelude::*;
use vstd::string::*;

verus! {

/// The folders that make up one project of a remote machine. Its model is the
/// list of their paths.
#[derive(Clone, Debug, PartialEq, Eq)]
pub struct RemoteProject {
    pub paths: Vec<String>,
}

impl View for RemoteProject {
    type V = Seq<Seq<char>>;

    open spec fn view(&self) -> Seq<Seq<char>> {
        texts(self.paths@)
    }
}

impl Model for RemoteProject {
    fn dup(&self) -> (r: Self) {
        RemoteProject {
            paths: copy_list(&self.paths),
        }
    }

    fn same(&self, other: &Self) -> (r: bool) {
        same_list(&self.paths, &other.paths)
    }
}

/// A local port that is forwarded over an SSH connection.
#[derive(Clone, Debug, PartialEq, Eq)]
pub struct SshPortForwardOption {
    pub local_host: Option<String>,
    pub local_port: u16,
    pub remote_host: Option<String>,
    pub remote_port: u16,
}

/// The model of a [`SshPortForwardOption`].
#[verifier::ext_equal]
pub struct SshPortForwardOptionView {
    pub local_host: Option<Seq<char>>,
    pub local_port: u16,
    pub remote_host: Option<Seq<char>>,
    pub remote_port: u16,
}

impl View for SshPortForwardOption {
    type V = SshPortForwardOptionView;

    open spec fn view(&self) -> SshPortForwardOptionView {
        SshPortForwardOptionView {
            local_host: opt_text(self.local_host),
            local_port: self.local_port,
            remote_host: opt_text(self.remote_host),
            remote_port: self.remote_port,
        }
    }
}

impl Model for SshPortForwardOption {
    fn dup(&self) -> (r: Self) {
        SshPortForwardOption {
            local_host: copy_opt(&self.local_host),
            local_port: self.local_port,
            remote_host: copy_opt(&self.remote_host),
            remote_port: self.remote_port,
        }
    }

    fn same(&self, other: &Self) -> (r: bool) {
        same_opt(&self.local_host, &other.local_host)
            && self.local_port == other.local_port
            && same_opt(&self.remote_host, &other.remote_host)
            && self.remote_port == other.remote_port
    }
}

/// An environment variable.
#[derive(Clone, Debug, PartialEq, Eq)]
pub struct EnvVar {
    pub name: String,
    pub value: String,
}

/// The model of an [`EnvVar`].
#[verifier::ext_equal]
pub struct EnvVarView {
    pub name: Seq<char>,
    pub value: Seq<char>,
}

impl View for EnvVar {
    type V = EnvVarView;

    open spec fn view(&self) -> EnvVarView {
        EnvVarView {
            name: self.name@,
            value: self.value@,
        }
    }
}

impl Model for EnvVar {
    fn dup(&self) -> (r: Self) {
        EnvVar {
            name: copy_text(&self.name),
            value: copy_text(&self.value),
        }
    }

    fn same(&self, other: &Self) -> (r: bool) {
        same_text(self.name.as_str(), other.name.as_str())
            && same_text(self.value.as_str(), other.value.as_str())
    }
}

/// A saved SSH server.
#[derive(Clone, Debug, PartialEq, Eq)]
pub struct SshConnection {
    pub host: String,
    pub username: Option<String>,
    pub port: Option<u16>,
    pub args: Vec<String>,
    pub projects: Vec<RemoteProject>,
    pub nickname: Option<String>,
    pub upload_binary_over_ssh: Option<bool>,
    pub port_forwards: Option<Vec<SshPortForwardOption>>,
    pub connection_timeout: Option<u16>,
}

/// The model of a [`SshConnection`].
#[verifier::ext_equal]
pub struct SshConnectionView {
    pub host: Seq<char>,
    pub username: Option<Seq<char>>,
    pub port: Option<u16>,
    pub args: Seq<Seq<char>>,
    pub projects: Seq<Seq<Seq<char>>>,
    pub nickname: Option<Seq<char>>,
    pub upload_binary_over_ssh: Option<bool>,
    pub port_forwards: Option<Seq<SshPortForwardOptionView>>,
    pub connection_timeout: Option<u16>,
}

impl View for SshConnection {
    type V = SshConnectionView;

    open spec fn view(&self) -> SshConnectionView {
        SshConnectionView {
            host: self.host@,
            username: opt_text(self.username),
            port: self.port,
            args: texts(self.args@),
            projects: models(self.projects@),
            nickname: opt_text(self.nickname),
            upload_binary_over_ssh: self.upload_binary_over_ssh,
            port_forwards: opt_models(self.port_forwards),
            connection_timeout: self.connection_timeout,
        }
    }
}

impl Model for SshConnection {
    fn dup(&self) -> (r: Self) {
        SshConnection {
            host: copy_text(&self.host),
            username: copy_opt(&self.username),
            port: self.port,
            args: copy_list(&self.args),
            projects: dup_all(&self.projects),
            nickname: copy_opt(&self.nickname),
            upload_binary_over_ssh: self.upload_binary_over_ssh,
            port_forwards: dup_opt_all(&self.port_forwards),
            connection_timeout: self.connection_timeout,
        }
    }

    fn same(&self, other: &Self) -> (r: bool) {
        same_text(self.host.as_str(), other.host.as_str())
            && same_opt(&self.username, &other.username)
            && same_u16(self.port, other.port)
            && same_list(&self.args, &other.args)
            && same_all(&self.projects, &other.projects)
            && same_opt(&self.nickname, &other.nickname)
            && same_bool(self.upload_binary_over_ssh, other.upload_binary_over_ssh)
            && same_opt_all(&self.port_forwards, &other.port_forwards)
            && same_u16(self.connection_timeout, other.connection_timeout)
    }
}

/// A saved WSL distribution.
#[derive(Clone, Debug, PartialEq, Eq)]
pub struct WslConnection {
    pub distro_name: String,
    pub user: Option<String>,
    pub projects: Vec<RemoteProject>,
}

/// The model of a [`WslConnection`].
#[verifier::ext_equal]
pub struct WslConnectionView {
    pub distro_name: Seq<char>,
    pub user: Option<Seq<char>>,
    pub projects: Seq<Seq<Seq<char>>>,
}

impl View for WslConnection {
    type V = WslConnectionView;

    open spec fn view(&self) -> WslConnectionView {
        WslConnectionView {
            distro_name: self.distro_name@,
            user: opt_text(self.user),
            projects: models(self.projects@),
        }
    }
}

impl Model for WslConnection {
    fn dup(&self) -> (r: Self) {
        WslConnection {
            distro_name: copy_text(&self.distro_name),
            user: copy_opt(&self.user),
            projects: dup_all(&self.projects),
        }
    }

    fn same(&self, other: &Self) -> (r: bool) {
        same_text(self.distro_name.as_str(), other.distro_name.as_str())
            && same_opt(&self.user, &other.user)
            && same_all(&self.projects, &other.projects)
    }
}

/// The machine on which a development container runs, where it is not this one.
#[derive(Clone, Debug, PartialEq, Eq)]
pub enum DevContainerHost {
    /// A machine that is reached over SSH.
    Ssh { host: String, username: Option<String>, port: Option<u16>, args: Vec<String> },
    /// A WSL distribution.
    Wsl { distro_name: String, user: Option<String> },
}

/// The model of a [`DevContainerHost`].
#[verifier::ext_equal]
pub enum DevContainerHostView {
    Ssh { host: Seq<char>, username: Option<Seq<char>>, port: Option<u16>, args: Seq<Seq<char>> },
    Wsl { distro_name: Seq<char>, user: Option<Seq<char>> },
}

impl View for DevContainerHost {
    type V = DevContainerHostView;

    open spec fn view(&self) -> DevContainerHostView {
        match *self {
            DevContainerHost::Ssh { host, username, port, args } => DevContainerHostView::Ssh {
                host: host@,
                username: opt_text(username),
                port: port,
                args: texts(args@),
            },
            DevContainerHost::Wsl { distro_name, user } => DevContainerHostView::Wsl {
                distro_name: distro_name@,
                user: opt_text(user),
            },
        }
    }
}

impl Model for DevContainerHost {
    fn dup(&self) -> (r: Self) {
        match self {
            DevContainerHost::Ssh { host, username, port, args } => DevContainerHost::Ssh {
                host: copy_text(host),
                username: copy_opt(username),
                port: *port,
                args: copy_list(args),
            },
            DevContainerHost::Wsl { distro_name, user } => DevContainerHost::Wsl {
                distro_name: copy_text(distro_name),
                user: copy_opt(user),
            },
        }
    }

    fn same(&self, other: &Self) -> (r: bool) {
        match (self, other) {
            (
                DevContainerHost::Ssh { host, username, port, args },
                DevContainerHost::Ssh { host: host2, username: username2, port: port2, args: args2 },
            ) => {
                same_text(host.as_str(), host2.as_str())
                    && same_opt(username, username2)
                    && same_u16(*port, *port2)
                    && same_list(args, args2)
            },
            (
                DevContainerHost::Wsl { distro_name, user },
                DevContainerHost::Wsl { distro_name: distro_name2, user: user2 },
            ) => {
                same_text(distro_name.as_str(), distro_name2.as_str())
                    && same_opt(user, user2)
            },
            _ => false,
        }
    }
}

/// A saved development container.
#[derive(Clone, Debug, PartialEq, Eq)]
pub struct DevContainerConnection {
    pub name: String,
    pub remote_user: String,
    pub container_id: String,
    pub use_podman: bool,
    pub config_path: Option<String>,
    pub projects: Vec<RemoteProject>,
    pub host_projects: Vec<RemoteProject>,
    pub last_host_project: Option<RemoteProject>,
    pub host: Option<DevContainerHost>,
    pub remote_env: Vec<EnvVar>,
}

/// The model of a [`DevContainerConnection`].
#[verifier::ext_equal]
pub struct DevContainerConnectionView {
    pub name: Seq<char>,
    pub remote_user: Seq<char>,
    pub container_id: Seq<char>,
    pub use_podman: bool,
    pub config_path: Option<Seq<char>>,
    pub projects: Seq<Seq<Seq<char>>>,
    pub host_projects: Seq<Seq<Seq<char>>>,
    pub last_host_project: Option<Seq<Seq<char>>>,
    pub host: Option<DevContainerHostView>,
    pub remote_env: Seq<EnvVarView>,
}

impl View for DevContainerConnection {
    type V = DevContainerConnectionView;

    open spec fn view(&self) -> DevContainerConnectionView {
        DevContainerConnectionView {
            name: self.name@,
            remote_user: self.remote_user@,
            container_id: self.container_id@,
            use_podman: self.use_podman,
            config_path: opt_text(self.config_path),
            projects: models(self.projects@),
            host_projects: models(self.host_projects@),
            last_host_project: opt_model(self.last_host_project),
            host: opt_model(self.host),
            remote_env: models(self.remote_env@),
        }
    }
}

impl Model for DevContainerConnection {
    fn dup(&self) -> (r: Self) {
        DevContainerConnection {
            name: copy_text(&self.name),
            remote_user: copy_text(&self.remote_user),
            container_id: copy_text(&self.container_id),
            use_podman: self.use_podman,
            config_path: copy_opt(&self.config_path),
            projects: dup_all(&self.projects),
            host_projects: dup_all(&self.host_projects),
            last_host_project: dup_opt(&self.last_host_project),
            host: dup_opt(&self.host),
            remote_env: dup_all(&self.remote_env),
        }
    }

    fn same(&self, other: &Self) -> (r: bool) {
        same_text(self.name.as_str(), other.name.as_str())
            && same_text(self.remote_user.as_str(), other.remote_user.as_str())
            && same_text(self.container_id.as_str(), other.container_id.as_str())
            && self.use_podman == other.use_podman
            && same_opt(&self.config_path, &other.config_path)
            && same_all(&self.projects, &other.projects)
            && same_all(&self.host_projects, &other.host_projects)
            && same_opt_model(&self.last_host_project, &other.last_host_project)
            && same_opt_model(&self.host, &other.host)
            && same_all(&self.remote_env, &other.remote_env)
    }
}

/// The options of an SSH connection.
#[derive(Clone, Debug, PartialEq, Eq)]
pub struct SshConnectionOptions {
    pub host: String,
    pub username: Option<String>,
    pub port: Option<u16>,
    pub password: Option<String>,
    pub args: Option<Vec<String>>,
    pub port_forwards: Option<Vec<SshPortForwardOption>>,
    pub connection_timeout: Option<u16>,
    pub nickname: Option<String>,
    pub upload_binary_over_ssh: bool,
}

/// The model of a [`SshConnectionOptions`].
#[verifier::ext_equal]
pub struct SshConnectionOptionsView {
    pub host: Seq<char>,
    pub username: Option<Seq<char>>,
    pub port: Option<u16>,
    pub password: Option<Seq<char>>,
    pub args: Option<Seq<Seq<char>>>,
    pub port_forwards: Option<Seq<SshPortForwardOptionView>>,
    pub connection_timeout: Option<u16>,
    pub nickname: Option<Seq<char>>,
    pub upload_binary_over_ssh: bool,
}

impl View for SshConnectionOptions {
    type V = SshConnectionOptionsView;

    open spec fn view(&self) -> SshConnectionOptionsView {
        SshConnectionOptionsView {
            host: self.host@,
            username: opt_text(self.username),
            port: self.port,
            password: opt_text(self.password),
            args: opt_texts(self.args),
            port_forwards: opt_models(self.port_forwards),
            connection_timeout: self.connection_timeout,
            nickname: opt_text(self.nickname),
            upload_binary_over_ssh: self.upload_binary_over_ssh,
        }
    }
}

impl Model for SshConnectionOptions {
    fn dup(&self) -> (r: Self) {
        SshConnectionOptions {
            host: copy_text(&self.host),
            username: copy_opt(&self.username),
            port: self.port,
            password: copy_opt(&self.password),
            args: copy_opt_list(&self.args),
            port_forwards: dup_opt_all(&self.port_forwards),
            connection_timeout: self.connection_timeout,
            nickname: copy_opt(&self.nickname),
            upload_binary_over_ssh: self.upload_binary_over_ssh,
        }
    }

    fn same(&self, other: &Self) -> (r: bool) {
        same_text(self.host.as_str(), other.host.as_str())
            && same_opt(&self.username, &other.username)
            && same_u16(self.port, other.port)
            && same_opt(&self.password, &other.password)
            && same_opt_list(&self.args, &other.args)
            && same_opt_all(&self.port_forwards, &other.port_forwards)
            && same_u16(self.connection_timeout, other.connection_timeout)
            && same_opt(&self.nickname, &other.nickname)
            && self.upload_binary_over_ssh == other.upload_binary_over_ssh
    }
}

/// The options of a connection to a WSL distribution.
#[derive(Clone, Debug, PartialEq, Eq)]
pub struct WslConnectionOptions {
    pub distro_name: String,
    pub user: Option<String>,
}

/// The model of a [`WslConnectionOptions`].
#[verifier::ext_equal]
pub struct WslConnectionOptionsView {
    pub distro_name: Seq<char>,
    pub user: Option<Seq<char>>,
}

impl View for WslConnectionOptions {
    type V = WslConnectionOptionsView;

    open spec fn view(&self) -> WslConnectionOptionsView {
        WslConnectionOptionsView {
            distro_name: self.distro_name@,
            user: opt_text(self.user),
        }
    }
}

impl Model for WslConnectionOptions {
    fn dup(&self) -> (r: Self) {
        WslConnectionOptions {
            distro_name: copy_text(&self.distro_name),
            user: copy_opt(&self.user),
        }
    }

    fn same(&self, other: &Self) -> (r: bool) {
        same_text(self.distro_name.as_str(), other.distro_name.as_str())
            && same_opt(&self.user, &other.user)
    }
}

/// The machine on which the container engine runs.
#[derive(Clone, Debug, PartialEq, Eq)]
pub enum DockerHost {
    /// This machine.
    Local,
    /// A machine that is reached over SSH.
    Ssh(SshConnectionOptions),
    /// A WSL distribution.
    Wsl(WslConnectionOptions),
}

/// The model of a [`DockerHost`].
#[verifier::ext_equal]
pub enum DockerHostView {
    Local,
    Ssh(SshConnectionOptionsView),
    Wsl(WslConnectionOptionsView),
}

impl View for DockerHost {
    type V = DockerHostView;

    open spec fn view(&self) -> DockerHostView {
        match *self {
            DockerHost::Local => DockerHostView::Local,
            DockerHost::Ssh(x) => DockerHostView::Ssh(x@),
            DockerHost::Wsl(x) => DockerHostView::Wsl(x@),
        }
    }
}

impl Model for DockerHost {
    fn dup(&self) -> (r: Self) {
        match self {
            DockerHost::Local => DockerHost::Local,
            DockerHost::Ssh(x) => DockerHost::Ssh(x.dup()),
            DockerHost::Wsl(x) => DockerHost::Wsl(x.dup()),
        }
    }

    fn same(&self, other: &Self) -> (r: bool) {
        match (self, other) {
            (DockerHost::Local, DockerHost::Local) => true,
            (DockerHost::Ssh(x), DockerHost::Ssh(x2)) => x.same(x2),
            (DockerHost::Wsl(x), DockerHost::Wsl(x2)) => x.same(x2),
            _ => false,
        }
    }
}

/// The options of a connection into a container.
#[derive(Clone, Debug, PartialEq, Eq)]
pub struct DockerConnectionOptions {
    pub name: String,
    pub container_id: String,
    pub remote_user: String,
    pub upload_binary_over_docker_exec: bool,
    pub use_podman: bool,
    pub host: DockerHost,
    pub remote_env: Vec<EnvVar>,
}

/// The model of a [`DockerConnectionOptions`].
#[verifier::ext_equal]
pub struct DockerConnectionOptionsView {
    pub name: Seq<char>,
    pub container_id: Seq<char>,
    pub remote_user: Seq<char>,
    pub upload_binary_over_docker_exec: bool,
    pub use_podman: bool,
    pub host: DockerHostView,
    pub remote_env: Seq<EnvVarView>,
}

impl View for DockerConnectionOptions {
    type V = DockerConnectionOptionsView;

    open spec fn view(&self) -> DockerConnectionOptionsView {
        DockerConnectionOptionsView {
            name: self.name@,
            container_id: self.container_id@,
            remote_user: self.remote_user@,
            upload_binary_over_docker_exec: self.upload_binary_over_docker_exec,
            use_podman: self.use_podman,
            host: self.host@,
            remote_env: models(self.remote_env@),
        }
    }
}

impl Model for DockerConnectionOptions {
    fn dup(&self) -> (r: Self) {
        DockerConnectionOptions {
            name: copy_text(&self.name),
            container_id: copy_text(&self.container_id),
            remote_user: copy_text(&self.remote_user),
            upload_binary_over_docker_exec: self.upload_binary_over_docker_exec,
            use_podman: self.use_podman,
            host: self.host.dup(),
            remote_env: dup_all(&self.remote_env),
        }
    }

    fn same(&self, other: &Self) -> (r: bool) {
        same_text(self.name.as_str(), other.name.as_str())
            && same_text(self.container_id.as_str(), other.container_id.as_str())
            && same_text(self.remote_user.as_str(), other.remote_user.as_str())
            && self.upload_binary_over_docker_exec == other.upload_binary_over_docker_exec
            && self.use_podman == other.use_podman
            && self.host.same(&other.host)
            && same_all(&self.remote_env, &other.remote_env)
    }
}

/// The options of a remote connection.
#[derive(Clone, Debug, PartialEq, Eq)]
pub enum RemoteConnectionOptions {
    /// A machine that is reached over SSH.
    Ssh(SshConnectionOptions),
    /// A WSL distribution.
    Wsl(WslConnectionOptions),
    /// A container.
    Docker(DockerConnectionOptions),
}

/// The model of a [`RemoteConnectionOptions`].
#[verifier::ext_equal]
pub enum RemoteConnectionOptionsView {
    Ssh(SshConnectionOptionsView),
    Wsl(WslConnectionOptionsView),
    Docker(DockerConnectionOptionsView),
}

impl View for RemoteConnectionOptions {
    type V = RemoteConnectionOptionsView;

    open spec fn view(&self) -> RemoteConnectionOptionsView {
        match *self {
            RemoteConnectionOptions::Ssh(x) => RemoteConnectionOptionsView::Ssh(x@),
            RemoteConnectionOptions::Wsl(x) => RemoteConnectionOptionsView::Wsl(x@),
            RemoteConnectionOptions::Docker(x) => RemoteConnectionOptionsView::Docker(x@),
        }
    }
}

impl Model for RemoteConnectionOptions {
    fn dup(&self) -> (r: Self) {
        match self {
            RemoteConnectionOptions::Ssh(x) => RemoteConnectionOptions::Ssh(x.dup()),
            RemoteConnectionOptions::Wsl(x) => RemoteConnectionOptions::Wsl(x.dup()),
            RemoteConnectionOptions::Docker(x) => RemoteConnectionOptions::Docker(x.dup()),
        }
    }

    fn same(&self, other: &Self) -> (r: bool) {
        match (self, other) {
            (RemoteConnectionOptions::Ssh(x), RemoteConnectionOptions::Ssh(x2)) => x.same(x2),
            (RemoteConnectionOptions::Wsl(x), RemoteConnectionOptions::Wsl(x2)) => x.same(x2),
            (RemoteConnectionOptions::Docker(x), RemoteConnectionOptions::Docker(x2)) => x.same(x2),
            _ => false,
        }
    }
}

/// A saved connection of any kind.
#[derive(Clone, Debug, PartialEq, Eq)]
pub enum Connection {
    /// An SSH server.
    Ssh(SshConnection),
    /// A WSL distribution.
    Wsl(WslConnection),
    /// A development container.
    DevContainer(DevContainerConnection),
}

/// The model of a [`Connection`].
#[verifier::ext_equal]
pub enum ConnectionView {
    Ssh(SshConnectionView),
    Wsl(WslConnectionView),
    DevContainer(DevContainerConnectionView),
}

impl View for Connection {
    type V = ConnectionView;

    open spec fn view(&self) -> ConnectionView {
        match *self {
            Connection::Ssh(x) => ConnectionView::Ssh(x@),
            Connection::Wsl(x) => ConnectionView::Wsl(x@),
            Connection::DevContainer(x) => ConnectionView::DevContainer(x@),
        }
    }
}

impl Model for Connection {
    fn dup(&self) -> (r: Self) {
        match self {
            Connection::Ssh(x) => Connection::Ssh(x.dup()),
            Connection::Wsl(x) => Connection::Wsl(x.dup()),
            Connection::DevContainer(x) => Connection::DevContainer(x.dup()),
        }
    }

    fn same(&self, other: &Self) -> (r: bool) {
        match (self, other) {
            (Connection::Ssh(x), Connection::Ssh(x2)) => x.same(x2),
            (Connection::Wsl(x), Connection::Wsl(x2)) => x.same(x2),
            (Connection::DevContainer(x), Connection::DevContainer(x2)) => x.same(x2),
            _ => false,
        }
    }
}

// ---------------------------------------------------------------------------
// Defaults

/// The options of an SSH connection to nowhere.
pub open spec fn no_ssh_options() -> SshConnectionOptionsView {
    SshConnectionOptionsView {
        host: Seq::empty(),
        username: None,
        port: None,
        password: None,
        args: None,
        port_forwards: None,
        connection_timeout: None,
        nickname: None,
        upload_binary_over_ssh: false,
    }
}

impl Default for SshConnectionOptions {
    fn default() -> (r: Self)
        ensures
            r@ == no_ssh_options(),
    {
        SshConnectionOptions {
            host: String::new(),
            username: None,
            port: None,
            password: None,
            args: None,
            port_forwards: None,
            connection_timeout: None,
            nickname: None,
            upload_binary_over_ssh: false,
        }
    }
}

impl Default for SshConnection {
    fn default() -> (r: Self)
        ensures
            r@ == bare_ssh_connection(Seq::empty()),
    {
        let r = SshConnection {
            host: String::new(),
            username: None,
            port: None,
            args: Vec::new(),
            projects: Vec::new(),
            nickname: None,
            upload_binary_over_ssh: None,
            port_forwards: None,
            connection_timeout: None,
        };
        assert(r@ =~= bare_ssh_connection(Seq::empty()));
        r
    }
}

/// A saved SSH server of which only the host is known.
pub open spec fn bare_ssh_connection(host: Seq<char>) -> SshConnectionView {
    SshConnectionView {
        host,
        username: None,
        port: None,
        args: Seq::empty(),
        projects: Seq::empty(),
        nickname: None,
        upload_binary_over_ssh: None,
        port_forwards: None,
        connection_timeout: None,
    }
}

impl Default for DockerHost {
    fn default() -> (r: Self)
        ensures
            r == DockerHost::Local,
    {
        DockerHost::Local
    }
}

impl Default for DockerConnectionOptions {
    fn default() -> (r: Self)
        ensures
            r@ == (DockerConnectionOptionsView {
                name: Seq::empty(),
                container_id: Seq::empty(),
                remote_user: Seq::empty(),
                upload_binary_over_docker_exec: false,
                use_podman: false,
                host: DockerHostView::Local,
                remote_env: Seq::empty(),
            }),
    {
        let r = DockerConnectionOptions {
            name: String::new(),
            container_id: String::new(),
            remote_user: String::new(),
            upload_binary_over_docker_exec: false,
            use_podman: false,
            host: DockerHost::Local,
            remote_env: Vec::new(),
        };
        assert(models(r.remote_env@) =~= Seq::empty());
        r
    }
}

// ---------------------------------------------------------------------------
// Conversions

impl From<SshConnection> for Connection {
    fn from(val: SshConnection) -> (r: Self) {
        Connection::Ssh(val)
    }
}

impl vstd::std_specs::convert::FromSpecImpl<SshConnection> for Connection {
    open spec fn obeys_from_spec() -> bool {
        true
    }

    open spec fn from_spec(val: SshConnection) -> Self {
        Connection::Ssh(val)
    }
}

impl From<WslConnection> for Connection {
    fn from(val: WslConnection) -> (r: Self) {
        Connection::Wsl(val)
    }
}

impl vstd::std_specs::convert::FromSpecImpl<WslConnection> for Connection {
    open spec fn obeys_from_spec() -> bool {
        true
    }

    open spec fn from_spec(val: WslConnection) -> Self {
        Connection::Wsl(val)
    }
}

impl From<DevContainerConnection> for Connection {
    fn from(val: DevContainerConnection) -> (r: Self) {
        Connection::DevContainer(val)
    }
}

impl vstd::std_specs::convert::FromSpecImpl<DevContainerConnection> for Connection {
    open spec fn obeys_from_spec() -> bool {
        true
    }

    open spec fn from_spec(val: DevContainerConnection) -> Self {
        Connection::DevContainer(val)
    }
}

/// The options by which a saved SSH server is reached. Nothing is promised of
/// them but the address and the arguments of the server, see
/// [`saved_address_is_reached`].
pub closed spec fn ssh_options_of(c: SshConnection) -> SshConnectionOptions {
    SshConnectionOptions {
        host: c.host,
        username: c.username,
        port: c.port,
        password: None,
        args: Some(c.args),
        port_forwards: c.port_forwards,
        connection_timeout: c.connection_timeout,
        nickname: c.nickname,
        upload_binary_over_ssh: match c.upload_binary_over_ssh {
            Some(b) => b,
            None => false,
        },
    }
}

/// The model of [`ssh_options_of`].
pub closed spec fn ssh_options_view(c: SshConnectionView) -> SshConnectionOptionsView {
    SshConnectionOptionsView {
        host: c.host,
        username: c.username,
        port: c.port,
        password: None,
        args: Some(c.args),
        port_forwards: c.port_forwards,
        connection_timeout: c.connection_timeout,
        nickname: c.nickname,
        upload_binary_over_ssh: c.upload_binary_over_ssh == Some(true),
    }
}

/// The options of a saved SSH server depend on its model alone.
pub broadcast proof fn ssh_options_follow_the_model(c: SshConnection)
    ensures
        #[trigger] ssh_options_of(c)@ == ssh_options_view(c@),
{
}

/// A saved SSH server is reached at its host, as its user, on its port and with
/// its arguments.
pub proof fn saved_address_is_reached(c: SshConnectionView)
    ensures
        ssh_options_view(c).host == c.host,
        ssh_options_view(c).username == c.username,
        ssh_options_view(c).port == c.port,
        ssh_options_view(c).args == Some(c.args),
        c.connection_timeout is None && c.port_forwards is None ==> plain_options(
            ssh_options_view(c),
        ),
{
}

impl From<SshConnection> for SshConnectionOptions {
    fn from(val: SshConnection) -> (r: Self) {
        SshConnectionOptions {
            host: val.host,
            username: val.username,
            port: val.port,
            password: None,
            args: Some(val.args),
            port_forwards: val.port_forwards,
            connection_timeout: val.connection_timeout,
            nickname: val.nickname,
            upload_binary_over_ssh: match val.upload_binary_over_ssh {
                Some(b) => b,
                None => false,
            },
        }
    }
}

impl vstd::std_specs::convert::FromSpecImpl<SshConnection> for SshConnectionOptions {
    open spec fn obeys_from_spec() -> bool {
        true
    }

    open spec fn from_spec(val: SshConnection) -> Self {
        ssh_options_of(val)
    }
}

impl From<WslConnection> for WslConnectionOptions {
    fn from(val: WslConnection) -> (r: Self) {
        WslConnectionOptions { distro_name: val.distro_name, user: val.user }
    }
}

impl vstd::std_specs::convert::FromSpecImpl<WslConnection> for WslConnectionOptions {
    open spec fn obeys_from_spec() -> bool {
        true
    }

    open spec fn from_spec(val: WslConnection) -> Self {
        WslConnectionOptions { distro_name: val.distro_name, user: val.user }
    }
}

/// The container engine's machine for a development container's machine.
pub open spec fn docker_host_of(host: Option<DevContainerHost>) -> DockerHost {
    match host {
        Some(DevContainerHost::Ssh { host, username, port, args }) => DockerHost::Ssh(
            SshConnectionOptions {
                host,
                username,
                port,
                password: None,
                args: Some(args),
                port_forwards: None,
                connection_timeout: None,
                nickname: None,
                upload_binary_over_ssh: false,
            },
        ),
        Some(DevContainerHost::Wsl { distro_name, user }) => DockerHost::Wsl(
            WslConnectionOptions { distro_name, user },
        ),
        None => DockerHost::Local,
    }
}

/// The model of [`docker_host_of`].
pub open spec fn docker_host_view(host: Option<DevContainerHostView>) -> DockerHostView {
    match host {
        Some(DevContainerHostView::Ssh { host, username, port, args }) => DockerHostView::Ssh(
            SshConnectionOptionsView {
                host,
                username,
                port,
                args: Some(args),
                ..no_ssh_options()
            },
        ),
        Some(DevContainerHostView::Wsl { distro_name, user }) => DockerHostView::Wsl(
            WslConnectionOptionsView { distro_name, user },
        ),
        None => DockerHostView::Local,
    }
}

/// The container engine's machine for a development container's machine.
pub fn docker_host_from_devcontainer_host(host: Option<DevContainerHost>) -> (r: DockerHost)
    ensures
        r == docker_host_of(host),
        r@ == docker_host_view(opt_model(host)),
{
    match host {
        Some(DevContainerHost::Ssh { host, username, port, args }) => DockerHost::Ssh(
            SshConnectionOptions {
                host,
                username,
                port,
                password: None,
                args: Some(args),
                port_forwards: None,
                connection_timeout: None,
                nickname: None,
                upload_binary_over_ssh: false,
            },
        ),
        Some(DevContainerHost::Wsl { distro_name, user }) => DockerHost::Wsl(
            WslConnectionOptions { distro_name, user },
        ),
        None => DockerHost::Local,
    }
}

/// The options by which a saved development container is reached.
pub open spec fn docker_options_of(c: DevContainerConnection) -> DockerConnectionOptions {
    DockerConnectionOptions {
        name: c.name,
        remote_user: c.remote_user,
        container_id: c.container_id,
        upload_binary_over_docker_exec: false,
        use_podman: c.use_podman,
        host: docker_host_of(c.host),
        remote_env: c.remote_env,
    }
}

impl From<Connection> for RemoteConnectionOptions {
    fn from(val: Connection) -> (r: Self) {
        match val {
            Connection::Ssh(conn) => RemoteConnectionOptions::Ssh(SshConnectionOptions::from(conn)),
            Connection::Wsl(conn) => RemoteConnectionOptions::Wsl(WslConnectionOptions::from(conn)),
            Connection::DevContainer(conn) => RemoteConnectionOptions::Docker(
                DockerConnectionOptions {
                    name: conn.name,
                    remote_user: conn.remote_user,
                    container_id: conn.container_id,
                    upload_binary_over_docker_exec: false,
                    use_podman: conn.use_podman,
                    host: docker_host_from_devcontainer_host(conn.host),
                    remote_env: conn.remote_env,
                },
            ),
        }
    }
}

impl vstd::std_specs::convert::FromSpecImpl<Connection> for RemoteConnectionOptions {
    open spec fn obeys_from_spec() -> bool {
        true
    }

    open spec fn from_spec(val: Connection) -> Self {
        match val {
            Connection::Ssh(conn) => RemoteConnectionOptions::Ssh(ssh_options_of(conn)),
            Connection::Wsl(conn) => RemoteConnectionOptions::Wsl(
                WslConnectionOptions { distro_name: conn.distro_name, user: conn.user },
            ),
            Connection::DevContainer(conn) => RemoteConnectionOptions::Docker(
                docker_options_of(conn),
            ),
        }
    }
}

/// The options of a development container depend on its model alone.
pub proof fn options_follow_the_model(a: DevContainerConnection, b: DevContainerConnection)
    requires
        a@ == b@,
    ensures
        docker_options_of(a)@ == docker_options_of(b)@,
        docker_options_of(a)@ == (DockerConnectionOptionsView {
            name: a@.name,
            container_id: a@.container_id,
            remote_user: a@.remote_user,
            upload_binary_over_docker_exec: false,
            use_podman: a@.use_podman,
            host: docker_host_view(a@.host),
            remote_env: a@.remote_env,
        }),
{
    assert(docker_host_of(a.host)@ == docker_host_view(a@.host));
    assert(docker_host_of(b.host)@ == docker_host_view(b@.host));
}

/// The development container's machine for a container engine's machine.
pub open spec fn devcontainer_host_view(host: DockerHostView) -> Option<DevContainerHostView> {
    match host {
        DockerHostView::Local => None,
        DockerHostView::Wsl(o) => Some(
            DevContainerHostView::Wsl { distro_name: o.distro_name, user: o.user },
        ),
        DockerHostView::Ssh(o) => Some(
            DevContainerHostView::Ssh {
                host: o.host,
                username: o.username,
                port: o.port,
                args: args_or_none(o.args),
            },
        ),
    }
}

/// The arguments of an optional list; none where there is no list.
pub open spec fn args_or_none(args: Option<Seq<Seq<char>>>) -> Seq<Seq<char>> {
    match args {
        Some(list) => list,
        None => Seq::empty(),
    }
}

/// The arguments of an optional list; none where there is no list.
pub fn args_or_empty(args: &Option<Vec<String>>) -> (r: Vec<String>)
    ensures
        texts(r@) == args_or_none(opt_texts(*args)),
{
    match args {
        Some(list) => copy_list(list),
        None => {
            let r: Vec<String> = Vec::new();
            assert(texts(r@) =~= Seq::empty());
            r
        },
    }
}

/// The development container's machine for a container engine's machine.
pub fn devcontainer_host_from_docker_host(host: &DockerHost) -> (r: Option<DevContainerHost>)
    ensures
        opt_model(r) == devcontainer_host_view(host@),
{
    match host {
        DockerHost::Local => None,
        DockerHost::Wsl(options) => Some(
            DevContainerHost::Wsl {
                distro_name: copy_text(&options.distro_name),
                user: copy_opt(&options.user),
            },
        ),
        DockerHost::Ssh(options) => Some(
            DevContainerHost::Ssh {
                host: copy_text(&options.host),
                username: copy_opt(&options.username),
                port: options.port,
                args: args_or_empty(&options.args),
            },
        ),
    }
}

/// A development container's machine is found again behind the container
/// engine's machine made for it.
pub proof fn devcontainer_host_round_trip(host: Option<DevContainerHostView>)
    ensures
        devcontainer_host_view(docker_host_view(host)) == host,
{
}

/// The options of a connection to the machine of a development container.
pub open spec fn host_options_view(
    host: Option<DevContainerHostView>,
) -> Option<RemoteConnectionOptionsView> {
    match docker_host_view(host) {
        DockerHostView::Local => None,
        DockerHostView::Ssh(o) => Some(RemoteConnectionOptionsView::Ssh(o)),
        DockerHostView::Wsl(o) => Some(RemoteConnectionOptionsView::Wsl(o)),
    }
}

/// The options of a connection to the machine of a development container;
/// none where that is this machine.
pub fn host_connection_options(host: Option<&DevContainerHost>) -> (r: Option<
    RemoteConnectionOptions,
>)
    ensures
        opt_model(r) == host_options_view(
            match host {
                Some(h) => Some(h@),
                None => None,
            },
        ),
{
    match host {
        None => None,
        Some(h) => match docker_host_from_devcontainer_host(Some(h.dup())) {
            DockerHost::Local => None,
            DockerHost::Ssh(options) => Some(RemoteConnectionOptions::Ssh(options)),
            DockerHost::Wsl(options) => Some(RemoteConnectionOptions::Wsl(options)),
        },
    }
}

// ---------------------------------------------------------------------------
// Command lines

/// Whether options say nothing beyond the address and the arguments: they have
/// no timeout and forward no port.
pub open spec fn plain_options(o: SshConnectionOptionsView) -> bool {
    &&& o.connection_timeout is None
    &&& o.port_forwards is None
}

/// The arguments of `ssh` before the destination. Promised are those of plain
/// options, see [`plain_options_give_plain_arguments`]; by which arguments a
/// timeout and port forwards are handed over is not.
pub closed spec fn ssh_args(o: SshConnectionOptionsView) -> Seq<Seq<char>> {
    let timeout = match o.connection_timeout {
        Some(secs) => seq!["-o"@, "ConnectTimeout="@ + decimal(secs as nat)],
        None => Seq::empty(),
    };
    let port = match o.port {
        Some(port) => seq!["-p"@, decimal(port as nat)],
        None => Seq::empty(),
    };
    let forwards = match o.port_forwards {
        Some(list) => Seq::new(list.len(), |i: int| forward_arg(list[i])),
        None => Seq::empty(),
    };
    args_or_none(o.args) + timeout + port + forwards
}

spec fn forward_arg(f: SshPortForwardOptionView) -> Seq<char> {
    let local = match f.local_host {
        Some(h) => h,
        None => "localhost"@,
    };
    let remote = match f.remote_host {
        Some(h) => h,
        None => "localhost"@,
    };
    "-L"@ + local + ":"@ + decimal(f.local_port as nat) + ":"@ + remote + ":"@ + decimal(
        f.remote_port as nat,
    )
}

/// With plain options `ssh` gets the arguments of the options, then the port.
pub proof fn plain_options_give_plain_arguments(o: SshConnectionOptionsView)
    requires
        plain_options(o),
    ensures
        ssh_args(o) == match o.port {
            Some(port) => args_or_none(o.args).push("-p"@).push(decimal(port as nat)),
            None => args_or_none(o.args),
        },
{
    match o.port {
        Some(port) => assert(ssh_args(o) =~= args_or_none(o.args).push("-p"@).push(
            decimal(port as nat),
        )),
        None => assert(ssh_args(o) =~= args_or_none(o.args)),
    }
}

/// The destination of `ssh`: the host, behind the user where there is one.
pub open spec fn ssh_target(o: SshConnectionOptionsView) -> Seq<char> {
    match o.username {
        Some(user) => user + "@"@ + o.host,
        None => o.host,
    }
}

fn forward_argument(f: &SshPortForwardOption) -> (r: String)
    ensures
        r@ == forward_arg(f@),
{
    let mut out = "-L".to_owned();
    match &f.local_host {
        Some(h) => out.append(h.as_str()),
        None => out.append("localhost"),
    }
    out.append(":");
    out.append(decimal_of(f.local_port as u64).as_str());
    out.append(":");
    match &f.remote_host {
        Some(h) => out.append(h.as_str()),
        None => out.append("localhost"),
    }
    out.append(":");
    out.append(decimal_of(f.remote_port as u64).as_str());
    out
}

impl SshConnectionOptions {
    /// The arguments of `ssh` before the destination.
    pub fn additional_args(&self) -> (r: Vec<String>)
        ensures
            texts(r@) == ssh_args(self@),
    {
        let mut args = args_or_empty(&self.args);
        let ghost given = texts(args@);
        if let Some(secs) = self.connection_timeout {
            push_str(&mut args, "-o");
            let mut timeout = "ConnectTimeout=".to_owned();
            timeout.append(decimal_of(secs as u64).as_str());
            push_str(&mut args, timeout.as_str());
        }
        if let Some(port) = self.port {
            push_str(&mut args, "-p");
            push_str(&mut args, decimal_of(port as u64).as_str());
        }
        let ghost before = texts(args@);
        if let Some(list) = &self.port_forwards {
            let ghost all = Seq::new(list@.len(), |k: int| forward_arg(models(list@)[k]));
            let mut i: usize = 0;
            assert(before + all.take(0) =~= before);
            while i < list.len()
                invariant
                    i <= list.len(),
                    all == Seq::new(list@.len(), |k: int| forward_arg(models(list@)[k])),
                    texts(args@) == before + all.take(i as int),
                decreases list.len() - i,
            {
                let arg = forward_argument(&list[i]);
                push_str(&mut args, arg.as_str());
                i = i + 1;
                assert(before + all.take(i as int) =~= (before + all.take(i - 1)).push(all[i - 1]));
            }
            assert(all.take(i as int) =~= all);
        }
        assert(texts(args@) =~= ssh_args(self@));
        args
    }

    /// The destination of `ssh`.
    pub fn ssh_destination(&self) -> (r: String)
        ensures
            r@ == ssh_target(self@),
    {
        match &self.username {
            Some(user) => {
                let mut out = user.clone();
                out.append("@");
                out.append(self.host.as_str());
                out
            },
            None => self.host.clone(),
        }
    }

    /// How the connection is shown.
    pub fn connection_string(&self) -> (r: String)
        ensures
            r@ == shown_connection(self@),
    {
        let mut out = self.ssh_destination();
        if let Some(port) = self.port {
            out.append(":");
            out.append(decimal_of(port as u64).as_str());
        }
        out
    }
}

/// How a connection is shown. It is the same for the same options; nothing more
/// is promised of it.
pub closed spec fn shown_connection(o: SshConnectionOptionsView) -> Seq<char> {
    match o.port {
        Some(port) => ssh_target(o) + ":"@ + decimal(port as nat),
        None => ssh_target(o),
    }
}

/// The command line that opens a saved SSH server.
pub open spec fn ssh_command(o: SshConnectionOptionsView) -> Seq<char> {
    joined(seq!["ssh"@] + ssh_args(o) + seq![ssh_target(o)], " "@)
}

/// The command line that opens a saved SSH server without a timeout and port
/// forwards: its arguments, its port, and its user and host.
pub proof fn plain_servers_have_plain_commands(c: SshConnectionView)
    requires
        c.connection_timeout is None,
        c.port_forwards is None,
    ensures
        ssh_command(ssh_options_view(c)) == joined(
            seq!["ssh"@] + (match c.port {
                Some(port) => c.args.push("-p"@).push(decimal(port as nat)),
                None => c.args,
            }) + seq![
                match c.username {
                    Some(user) => user + "@"@ + c.host,
                    None => c.host,
                },
            ],
            " "@,
        ),
{
    saved_address_is_reached(c);
    plain_options_give_plain_arguments(ssh_options_view(c));
}

/// The machine of a development container is reached with plain options.
pub proof fn container_machines_have_plain_options(host: Option<DevContainerHostView>)
    ensures
        docker_host_view(host) matches DockerHostView::Ssh(o) ==> plain_options(o),
{
}

/// The command line that opens a saved SSH server.
pub fn ssh_command_string(connection: &SshConnection) -> (r: String)
    ensures
        r@ == ssh_command(ssh_options_view(connection@)),
{
    let options = SshConnectionOptions::from(connection.dup());
    assert(options@ =~= ssh_options_of(*connection)@);
    let mut parts: Vec<String> = Vec::new();
    push_str(&mut parts, "ssh");
    let args = options.additional_args();
    push_all(&mut parts, &args);
    let target = options.ssh_destination();
    push_str(&mut parts, target.as_str());
    assert(texts(parts@) =~= seq!["ssh"@] + ssh_args(options@) + seq![ssh_target(options@)]);
    join(&parts, " ")
}

/// The name that an SSH server gets where none is given: its user and host,
/// and its port where that is not the usual one. A server without a host gets
/// none.
pub open spec fn default_nickname(
    host: Seq<char>,
    username: Option<Seq<char>>,
    port: Option<u16>,
) -> Option<Seq<char>> {
    let name = match username {
        Some(user) => if user.len() > 0 {
            user + "@"@ + host
        } else {
            host
        },
        None => host,
    };
    if host.len() == 0 {
        None
    } else {
        match port {
            Some(p) => if p != 22 {
                Some(name + ":"@ + decimal(p as nat))
            } else {
                Some(name)
            },
            None => Some(name),
        }
    }
}

/// The name that an SSH server gets where none is given.
pub fn default_ssh_nickname(host: &str, username: Option<&str>, port: Option<u16>) -> (r: Option<
    String,
>)
    ensures
        opt_text(r) == default_nickname(host@, crate::text::opt_str(username), port),
{
    if host.is_empty() {
        return None;
    }
    let mut name = match username {
        Some(user) => if user.is_empty() {
            host.to_owned()
        } else {
            let mut s = user.to_owned();
            s.append("@");
            s.append(host);
            s
        },
        None => host.to_owned(),
    };
    if let Some(p) = port {
        if p != 22 {
            name.append(":");
            name.append(decimal_of(p as u64).as_str());
        }
    }
    Some(name)
}

/// The machine of a container is the same machine for the engine: nothing is
/// added on the way there but what a connection has by default, and nothing is
/// lost on the way back but a password and the like.
pub proof fn machines_are_carried_over(
    host: Seq<char>,
    username: Option<Seq<char>>,
    port: Option<u16>,
    args: Seq<Seq<char>>,
    user: Option<Seq<char>>,
    o: SshConnectionOptionsView,
)
    ensures
        docker_host_view(None) is Local,
        docker_host_view(Some(DevContainerHostView::Ssh { host, username, port, args })) matches
            DockerHostView::Ssh(s) && s.host == host && s.username == username && s.port == port
            && s.args == Some(args) && s.password is None && s.nickname is None
            && !s.upload_binary_over_ssh,
        docker_host_view(Some(DevContainerHostView::Wsl { distro_name: host, user })) matches
            DockerHostView::Wsl(w) && w.distro_name == host && w.user == user,
        devcontainer_host_view(DockerHostView::Local) is None,
        devcontainer_host_view(DockerHostView::Wsl(WslConnectionOptionsView { distro_name: host, user }))
            == Some(DevContainerHostView::Wsl { distro_name: host, user }),
        devcontainer_host_view(DockerHostView::Ssh(o)) matches Some(
            DevContainerHostView::Ssh { host: h, username: u, port: p, args: a },
        ) && h == o.host && u == o.username && p == o.port && (o.args matches Some(list) ==> a
            == list) && (o.args is None ==> a.len() == 0),
        host_options_view(None) is None,
        host_options_view(Some(DevContainerHostView::Wsl { distro_name: host, user })) matches Some(
            RemoteConnectionOptionsView::Wsl(w),
        ) && w.distro_name == host && w.user == user,
        host_options_view(Some(DevContainerHostView::Ssh { host, username, port, args })) matches
            Some(RemoteConnectionOptionsView::Ssh(s)) && s.host == host && s.username == username
            && s.port == port && s.args == Some(args),
{
}

/// A server without a name is shown by its user and host, and by its port where
/// that is not the usual one; without a host it has no name.
pub proof fn servers_are_named_by_their_address(
    host: Seq<char>,
    user: Seq<char>,
    port: u16,
)
    requires
        host.len() > 0,
        user.len() > 0,
    ensures
        default_nickname(host, None, None) == Some(host),
        default_nickname(host, Some(user), None) == Some(user.push('@') + host),
        default_nickname(host, Some(Seq::empty()), None) == Some(host),
        default_nickname(host, None, Some(22)) == Some(host),
        default_nickname(host, Some(user), Some(22)) == Some(user.push('@') + host),
        port != 22 ==> default_nickname(host, None, Some(port)) == Some(
            host.push(':') + decimal(port as nat),
        ),
        port != 22 ==> default_nickname(host, Some(user), Some(port)) == Some(
            user.push('@') + host.push(':') + decimal(port as nat),
        ),
        default_nickname(Seq::empty(), Some(user), Some(port)) is None,
{
    reveal_strlit("@");
    reveal_strlit(":");
    let digits = decimal(port as nat);
    assert(user + "@"@ + host =~= user.push('@') + host);
    assert(host + ":"@ + digits =~= host.push(':') + digits);
    assert(user + "@"@ + host + ":"@ + digits =~= user.push('@') + host.push(':') + digits);
}

/// The destination of `ssh` is the host, with the user and an `@` before it
/// where there is one; the command has it last, behind `ssh` and the arguments.
pub proof fn destinations_hold_user_and_host(o: SshConnectionOptionsView)
    ensures
        o.username is None ==> ssh_target(o) == o.host,
        o.username matches Some(user) ==> ssh_target(o) == user.push('@') + o.host,
{
    reveal_strlit("@");
    if o.username is Some {
        assert(o.username->0 + "@"@ + o.host =~= o.username->0.push('@') + o.host);
    }
}

/// What is known of a server by default is its host alone.
pub proof fn defaults_are_bare(host: Seq<char>)
    ensures
        ({
            let c = bare_ssh_connection(host);
            let o = no_ssh_options();
            &&& c.host == host && c.username is None && c.port is None && c.args.len() == 0
            &&& c.projects.len() == 0 && c.nickname is None && c.upload_binary_over_ssh is None
            &&& c.port_forwards is None && c.connection_timeout is None
            &&& o.host.len() == 0 && o.username is None && o.port is None && o.password is None
            &&& o.args is None && o.port_forwards is None && o.connection_timeout is None
            &&& o.nickname is None && !o.upload_binary_over_ssh
        }),
{
}

} // verus!
