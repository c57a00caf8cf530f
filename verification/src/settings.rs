//! The settings of remote connections: looking a server up, saving it, and
//! taking it out again.
use crate::connection::{
    args_or_empty, args_or_none, bare_ssh_connection, devcontainer_host_from_docker_host,
    devcontainer_host_view, docker_host_from_devcontainer_host, docker_host_view, docker_options_of,
    no_ssh_options, DevContainerConnection, DevContainerConnectionView, DevContainerHost,
    DevContainerHostView, DockerConnectionOptions, DockerConnectionOptionsView,
    RemoteConnectionOptions, RemoteConnectionOptionsView, RemoteProject, SshConnection,
    SshConnectionOptions, SshConnectionOptionsView, SshConnectionView, WslConnection,
    WslConnectionView,
};
use crate::model::{
    dup_all, dup_opt, dup_opt_all, find_first, first_where, first_where_facts, first_where_is,
    keep_where, models, models_push, opt_model, opt_models, same_all, same_opt_all,
    same_opt_model, same_u16, Model,
};
use crate::projects::{
    added_project_is_known, container_is_valid, insert_project, is_other_project,
    kept_projects_ascend, remove_project, sort_dev_container_connections, sort_ssh_connections,
    sort_wsl_connections, sorted_container, sorted_connections_are_valid, sorted_ssh, sorted_wsl,
    ssh_is_valid, with_project, with_project_ascends, wsl_is_valid,
};
use crate::text::{
    copy_opt, copy_text, opt_text, opt_texts, same_opt, same_text, text_contains, has_part,
    trim_text, trimmed,
};
use vstd::prelude::*;
use vstd::string::*;

verus! {

// ---------------------------------------------------------------------------
// Settings

/// The remote connections as the settings file holds them.
#[derive(Clone, Debug, PartialEq, Eq)]
pub struct RemoteSettingsContent {
    pub ssh_connections: Option<Vec<SshConnection>>,
    pub wsl_connections: Option<Vec<WslConnection>>,
    pub dev_container_connections: Option<Vec<DevContainerConnection>>,
    pub read_ssh_config: Option<bool>,
}

/// The model of a [`RemoteSettingsContent`].
#[verifier::ext_equal]
pub struct RemoteSettingsContentView {
    pub ssh_connections: Option<Seq<SshConnectionView>>,
    pub wsl_connections: Option<Seq<WslConnectionView>>,
    pub dev_container_connections: Option<Seq<DevContainerConnectionView>>,
    pub read_ssh_config: Option<bool>,
}

impl View for RemoteSettingsContent {
    type V = RemoteSettingsContentView;

    open spec fn view(&self) -> RemoteSettingsContentView {
        RemoteSettingsContentView {
            ssh_connections: opt_models(self.ssh_connections),
            wsl_connections: opt_models(self.wsl_connections),
            dev_container_connections: opt_models(self.dev_container_connections),
            read_ssh_config: self.read_ssh_config,
        }
    }
}

impl Model for RemoteSettingsContent {
    fn dup(&self) -> (r: Self) {
        RemoteSettingsContent {
            ssh_connections: dup_opt_all(&self.ssh_connections),
            wsl_connections: dup_opt_all(&self.wsl_connections),
            dev_container_connections: dup_opt_all(&self.dev_container_connections),
            read_ssh_config: self.read_ssh_config,
        }
    }

    fn same(&self, other: &Self) -> (r: bool) {
        same_opt_all(&self.ssh_connections, &other.ssh_connections)
            && same_opt_all(&self.wsl_connections, &other.wsl_connections)
            && same_opt_all(&self.dev_container_connections, &other.dev_container_connections)
            && crate::model::same_bool(self.read_ssh_config, other.read_ssh_config)
    }
}

/// The remote connections in force.
#[derive(Clone, Debug, PartialEq, Eq)]
pub struct RemoteSettings {
    pub ssh_connections: Vec<SshConnection>,
    pub wsl_connections: Vec<WslConnection>,
    pub dev_container_connections: Vec<DevContainerConnection>,
    /// Whether to read `~/.ssh/config` for SSH servers.
    pub read_ssh_config: bool,
}

/// The model of a [`RemoteSettings`].
#[verifier::ext_equal]
pub struct RemoteSettingsView {
    pub ssh_connections: Seq<SshConnectionView>,
    pub wsl_connections: Seq<WslConnectionView>,
    pub dev_container_connections: Seq<DevContainerConnectionView>,
    pub read_ssh_config: bool,
}

impl View for RemoteSettings {
    type V = RemoteSettingsView;

    open spec fn view(&self) -> RemoteSettingsView {
        RemoteSettingsView {
            ssh_connections: models(self.ssh_connections@),
            wsl_connections: models(self.wsl_connections@),
            dev_container_connections: models(self.dev_container_connections@),
            read_ssh_config: self.read_ssh_config,
        }
    }
}

impl Model for RemoteSettings {
    fn dup(&self) -> (r: Self) {
        RemoteSettings {
            ssh_connections: dup_all(&self.ssh_connections),
            wsl_connections: dup_all(&self.wsl_connections),
            dev_container_connections: dup_all(&self.dev_container_connections),
            read_ssh_config: self.read_ssh_config,
        }
    }

    fn same(&self, other: &Self) -> (r: bool) {
        same_all(&self.ssh_connections, &other.ssh_connections)
            && same_all(&self.wsl_connections, &other.wsl_connections)
            && same_all(&self.dev_container_connections, &other.dev_container_connections)
            && self.read_ssh_config == other.read_ssh_config
    }
}

/// Whether the saved SSH servers are valid.
pub open spec fn servers_are_valid(list: Seq<SshConnectionView>) -> bool {
    forall|i: int| 0 <= i < list.len() ==> ssh_is_valid(#[trigger] list[i])
}

/// Whether the saved WSL distributions are valid.
pub open spec fn distros_are_valid(list: Seq<WslConnectionView>) -> bool {
    forall|i: int| 0 <= i < list.len() ==> wsl_is_valid(#[trigger] list[i])
}

/// Whether the saved development containers are valid.
pub open spec fn containers_are_valid(list: Seq<DevContainerConnectionView>) -> bool {
    forall|i: int| 0 <= i < list.len() ==> container_is_valid(#[trigger] list[i])
}

/// Whether everything that the settings file holds is valid.
pub open spec fn content_is_valid(s: RemoteSettingsContentView) -> bool {
    &&& servers_are_valid(or_none(s.ssh_connections))
    &&& distros_are_valid(or_none(s.wsl_connections))
    &&& containers_are_valid(or_none(s.dev_container_connections))
}

/// Saved SSH servers with their projects in order.
pub open spec fn sorted_servers(list: Seq<SshConnectionView>) -> Seq<SshConnectionView> {
    list.map_values(|c: SshConnectionView| sorted_ssh(c))
}

/// Saved WSL distributions with their projects in order.
pub open spec fn sorted_distros(list: Seq<WslConnectionView>) -> Seq<WslConnectionView> {
    list.map_values(|c: WslConnectionView| sorted_wsl(c))
}

/// Saved development containers with their projects in order.
pub open spec fn sorted_containers(list: Seq<DevContainerConnectionView>) -> Seq<
    DevContainerConnectionView,
> {
    list.map_values(|c: DevContainerConnectionView| sorted_container(c))
}

/// The content of the settings file with all projects in order.
pub open spec fn sorted_content(s: RemoteSettingsContentView) -> RemoteSettingsContentView {
    RemoteSettingsContentView {
        ssh_connections: match s.ssh_connections {
            Some(list) => Some(sorted_servers(list)),
            None => None,
        },
        wsl_connections: match s.wsl_connections {
            Some(list) => Some(sorted_distros(list)),
            None => None,
        },
        dev_container_connections: match s.dev_container_connections {
            Some(list) => Some(sorted_containers(list)),
            None => None,
        },
        read_ssh_config: s.read_ssh_config,
    }
}

/// Connections whose projects have been put in order are valid, and valid ones
/// stay as they are.
pub proof fn sorted_lists_are_valid(
    ssh: Seq<SshConnectionView>,
    wsl: Seq<WslConnectionView>,
    dev: Seq<DevContainerConnectionView>,
)
    ensures
        servers_are_valid(sorted_servers(ssh)),
        distros_are_valid(sorted_distros(wsl)),
        containers_are_valid(sorted_containers(dev)),
        servers_are_valid(ssh) ==> sorted_servers(ssh) == ssh,
        distros_are_valid(wsl) ==> sorted_distros(wsl) == wsl,
        containers_are_valid(dev) ==> sorted_containers(dev) == dev,
{
    assert forall|i: int| 0 <= i < ssh.len() implies ssh_is_valid(#[trigger] sorted_ssh(ssh[i]))
        && (ssh_is_valid(ssh[i]) ==> sorted_ssh(ssh[i]) == ssh[i]) by {
        sorted_connections_are_valid(ssh[i], arbitrary(), arbitrary());
    }
    assert forall|i: int| 0 <= i < wsl.len() implies wsl_is_valid(#[trigger] sorted_wsl(wsl[i]))
        && (wsl_is_valid(wsl[i]) ==> sorted_wsl(wsl[i]) == wsl[i]) by {
        sorted_connections_are_valid(arbitrary(), wsl[i], arbitrary());
    }
    assert forall|i: int| 0 <= i < dev.len() implies container_is_valid(
        #[trigger] sorted_container(dev[i]),
    ) && (container_is_valid(dev[i]) ==> sorted_container(dev[i]) == dev[i]) by {
        sorted_connections_are_valid(arbitrary(), arbitrary(), dev[i]);
    }
    if servers_are_valid(ssh) {
        assert forall|i: int| 0 <= i < ssh.len() implies sorted_servers(ssh)[i] == ssh[i] by {
            assert(ssh_is_valid(ssh[i]));
            assert(sorted_ssh(ssh[i]) == ssh[i]);
        }
        assert(sorted_servers(ssh) =~= ssh);
    }
    if distros_are_valid(wsl) {
        assert forall|i: int| 0 <= i < wsl.len() implies sorted_distros(wsl)[i] == wsl[i] by {
            assert(wsl_is_valid(wsl[i]));
            assert(sorted_wsl(wsl[i]) == wsl[i]);
        }
        assert(sorted_distros(wsl) =~= wsl);
    }
    if containers_are_valid(dev) {
        assert forall|i: int| 0 <= i < dev.len() implies sorted_containers(dev)[i] == dev[i] by {
            assert(container_is_valid(dev[i]));
            assert(sorted_container(dev[i]) == dev[i]);
        }
        assert(sorted_containers(dev) =~= dev);
    }
}

/// The values of an optional list; none where there is no list.
pub open spec fn or_none<V>(list: Option<Seq<V>>) -> Seq<V> {
    match list {
        Some(s) => s,
        None => Seq::empty(),
    }
}

fn dup_or_empty<T: Model>(list: &Option<Vec<T>>) -> (r: Vec<T>)
    ensures
        models(r@) == or_none(opt_models(*list)),
{
    match list {
        Some(v) => dup_all(v),
        None => {
            let r: Vec<T> = Vec::new();
            assert(models(r@) =~= Seq::empty());
            r
        },
    }
}

/// The position of an SSH server: its host, user and port.
pub open spec fn is_server(
    host: Seq<char>,
    username: Option<Seq<char>>,
    port: Option<u16>,
) -> spec_fn(SshConnectionView) -> bool {
    |c: SshConnectionView| c.host == host && c.username == username && c.port == port
}

/// Options after they have taken over what is saved of their server: the first
/// saved server with their host, user and port gives the nickname, the way the
/// binary is uploaded, the arguments and the port forwards.
pub open spec fn filled_options(
    saved: Seq<SshConnectionView>,
    o: SshConnectionOptionsView,
) -> SshConnectionOptionsView {
    match first_where(saved, is_server(o.host, o.username, o.port)) {
        Some(i) => SshConnectionOptionsView {
            nickname: saved[i].nickname,
            upload_binary_over_ssh: saved[i].upload_binary_over_ssh == Some(true),
            args: Some(saved[i].args),
            port_forwards: saved[i].port_forwards,
            ..o
        },
        None => o,
    }
}

impl RemoteSettings {
    /// The settings that the content of the settings file gives, with the
    /// projects of every connection in order.
    pub fn from_settings(content: &RemoteSettingsContent) -> (r: Self)
        requires
            content.read_ssh_config is Some,
        ensures
            r@ == (RemoteSettingsView {
                ssh_connections: sorted_servers(or_none(content@.ssh_connections)),
                wsl_connections: sorted_distros(or_none(content@.wsl_connections)),
                dev_container_connections: sorted_containers(
                    or_none(content@.dev_container_connections),
                ),
                read_ssh_config: content@.read_ssh_config->0,
            }),
            servers_are_valid(r@.ssh_connections),
            distros_are_valid(r@.wsl_connections),
            containers_are_valid(r@.dev_container_connections),
    {
        proof {
            sorted_lists_are_valid(
                or_none(content@.ssh_connections),
                or_none(content@.wsl_connections),
                or_none(content@.dev_container_connections),
            );
        }
        RemoteSettings {
            ssh_connections: sort_ssh_connections(&dup_or_empty(&content.ssh_connections)),
            wsl_connections: sort_wsl_connections(&dup_or_empty(&content.wsl_connections)),
            dev_container_connections: sort_dev_container_connections(
                &dup_or_empty(&content.dev_container_connections),
            ),
            read_ssh_config: content.read_ssh_config.unwrap(),
        }
    }

    /// The saved SSH servers.
    pub fn ssh_connections(&self) -> (r: Vec<SshConnection>)
        ensures
            models(r@) == self@.ssh_connections,
    {
        dup_all(&self.ssh_connections)
    }

    /// The saved WSL distributions.
    pub fn wsl_connections(&self) -> (r: Vec<WslConnection>)
        ensures
            models(r@) == self@.wsl_connections,
    {
        dup_all(&self.wsl_connections)
    }

    /// The saved development containers.
    pub fn dev_container_connections(&self) -> (r: Vec<DevContainerConnection>)
        ensures
            models(r@) == self@.dev_container_connections,
    {
        dup_all(&self.dev_container_connections)
    }

    /// Takes over what is saved of the server of `options`.
    pub fn fill_connection_options_from_settings(&self, options: &mut SshConnectionOptions)
        ensures
            final(options)@ == filled_options(self@.ssh_connections, old(options)@),
    {
        let found = find_server(
            &self.ssh_connections,
            &options.host,
            &options.username,
            options.port,
        );
        if let Some(i) = found {
            let saved = &self.ssh_connections[i];
            assert(models(self.ssh_connections@)[i as int] == saved@);
            options.nickname = copy_opt(&saved.nickname);
            options.upload_binary_over_ssh = match saved.upload_binary_over_ssh {
                Some(b) => b,
                None => false,
            };
            options.args = Some(crate::text::copy_list(&saved.args));
            options.port_forwards = dup_opt_all(&saved.port_forwards);
        }
    }

    /// The options of a server, with what is saved of it.
    pub fn connection_options_for(
        &self,
        host: String,
        port: Option<u16>,
        username: Option<String>,
    ) -> (r: SshConnectionOptions)
        ensures
            r@ == filled_options(
                self@.ssh_connections,
                SshConnectionOptionsView {
                    host: host@,
                    port,
                    username: opt_text(username),
                    ..no_ssh_options()
                },
            ),
    {
        let mut options = SshConnectionOptions {
            host,
            port,
            username,
            password: None,
            args: None,
            port_forwards: None,
            connection_timeout: None,
            nickname: None,
            upload_binary_over_ssh: false,
        };
        self.fill_connection_options_from_settings(&mut options);
        options
    }
}

fn find_server(
    list: &Vec<SshConnection>,
    host: &String,
    username: &Option<String>,
    port: Option<u16>,
) -> (r: Option<usize>)
    ensures
        match r {
            Some(i) => i < list.len() && first_where(
                models(list@),
                is_server(host@, opt_text(*username), port),
            ) == Some(i as int),
            None => first_where(
                models(list@),
                is_server(host@, opt_text(*username), port),
            ) is None,
        },
{
    let ghost p = is_server(host@, opt_text(*username), port);
    let here = |c: &SshConnection| -> (b: bool)
        ensures
            b == (c@.host == host@ && c@.username == opt_text(*username) && c@.port == port),
        {
            same_text(c.host.as_str(), host.as_str()) && same_opt(&c.username, username)
                && same_u16(c.port, port)
        };
    find_first(list, here, Ghost(p))
}

/// The entry under which a server is saved: what was saved of it before, or a
/// new entry, with the arguments, port forwards, timeout and nickname of the
/// options.
pub open spec fn saved_entry(
    saved: Seq<SshConnectionView>,
    o: SshConnectionOptionsView,
) -> SshConnectionView {
    let base = match first_where(saved, is_server(o.host, o.username, o.port)) {
        Some(i) => saved[i],
        None => SshConnectionView {
            username: o.username,
            port: o.port,
            ..bare_ssh_connection(o.host)
        },
    };
    SshConnectionView {
        args: args_or_none(o.args),
        port_forwards: o.port_forwards,
        connection_timeout: o.connection_timeout,
        nickname: o.nickname,
        ..base
    }
}

/// Picks the servers other than the given one.
pub open spec fn is_other_server(
    host: Seq<char>,
    username: Option<Seq<char>>,
    port: Option<u16>,
) -> spec_fn(SshConnectionView) -> bool {
    |c: SshConnectionView| c.host != host || c.username != username || c.port != port
}

/// The saved servers after one has been saved: it comes first, and the others
/// follow as they were.
pub open spec fn with_saved(
    saved: Seq<SshConnectionView>,
    o: SshConnectionOptionsView,
) -> Seq<SshConnectionView> {
    seq![saved_entry(saved, o)] + saved.filter(is_other_server(o.host, o.username, o.port))
}

/// The server that `add_ssh_server` appends: the address, arguments, port
/// forwards and timeout of the options, without a nickname.
pub open spec fn added_entry(o: SshConnectionOptionsView) -> SshConnectionView {
    SshConnectionView {
        username: o.username,
        port: o.port,
        args: args_or_none(o.args),
        port_forwards: o.port_forwards,
        connection_timeout: o.connection_timeout,
        ..bare_ssh_connection(o.host)
    }
}

/// What is saved of a server is what the options of that server take over.
pub proof fn saved_options_are_read_back(
    saved: Seq<SshConnectionView>,
    o: SshConnectionOptionsView,
    asked: SshConnectionOptionsView,
)
    requires
        asked.host == o.host,
        asked.username == o.username,
        asked.port == o.port,
    ensures
        ({
            let read = filled_options(with_saved(saved, o), asked);
            &&& read.nickname == o.nickname
            &&& read.args == Some(args_or_none(o.args))
            &&& read.port_forwards == o.port_forwards
        }),
{
    let all = with_saved(saved, o);
    let p = is_server(o.host, o.username, o.port);
    first_where_facts(saved, p);
    assert(all[0] == saved_entry(saved, o));
    assert(p(all[0]));
    first_where_is(all, p, 0);
}

/// Saving a server leaves exactly one entry for it, and every other entry.
pub proof fn saving_keeps_one_entry(saved: Seq<SshConnectionView>, o: SshConnectionOptionsView)
    ensures
        ({
            let all = with_saved(saved, o);
            let p = is_server(o.host, o.username, o.port);
            &&& all.len() > 0 && p(all[0])
            &&& forall|i: int| 0 < i < all.len() ==> !p(#[trigger] all[i])
            &&& forall|c: SshConnectionView| !p(c) ==> (all.contains(c) <==> saved.contains(c))
        }),
{
    let all = with_saved(saved, o);
    let p = is_server(o.host, o.username, o.port);
    let q = is_other_server(o.host, o.username, o.port);
    let rest = saved.filter(q);
    first_where_facts(saved, p);
    assert(all[0] == saved_entry(saved, o));
    assert(p(all[0]));
    broadcast use {Seq::lemma_filter_pred, Seq::lemma_filter_contains_rev};
    assert forall|i: int| 0 < i < all.len() implies !p(#[trigger] all[i]) by {
        assert(all[i] == rest[i - 1]);
        assert(q(rest[i - 1]));
    }
    assert forall|c: SshConnectionView| !p(c) implies (all.contains(c) <==> saved.contains(c)) by {
        if saved.contains(c) {
            assert(q(c));
            assert(rest.contains(c));
            let k = choose|k: int| 0 <= k < rest.len() && rest[k] == c;
            assert(all[k + 1] == c);
        }
        if all.contains(c) {
            let k = choose|k: int| 0 <= k < all.len() && all[k] == c;
            assert(k > 0);
            assert(rest[k - 1] == c);
            filter_member(saved, q, k - 1);
        }
    }
}

/// What a filter keeps, the sequence held.
pub proof fn filter_member<V>(s: Seq<V>, p: spec_fn(V) -> bool, k: int)
    requires
        0 <= k < s.filter(p).len(),
    ensures
        s.contains(s.filter(p)[k]),
        p(s.filter(p)[k]),
    decreases s.len(),
{
    reveal(Seq::filter);
    if s.len() > 0 {
        let head = s.drop_last();
        if k < head.filter(p).len() {
            filter_member(head, p, k);
            let j = choose|j: int| 0 <= j < head.len() && head[j] == head.filter(p)[k];
            assert(s[j] == head[j]);
        } else {
            assert(s[s.len() - 1] == s.filter(p)[k]);
        }
    }
}

// ---------------------------------------------------------------------------
// Development containers

/// What tells one development container from another: its id, the engine that
/// runs it and the machine that the engine runs on.
#[derive(Clone, Debug, PartialEq, Eq)]
pub struct DevContainerKey {
    pub container_id: String,
    pub use_podman: bool,
    pub host: Option<DevContainerHost>,
}

/// The model of a [`DevContainerKey`].
#[verifier::ext_equal]
pub struct DevContainerKeyView {
    pub container_id: Seq<char>,
    pub use_podman: bool,
    pub host: Option<DevContainerHostView>,
}

impl View for DevContainerKey {
    type V = DevContainerKeyView;

    open spec fn view(&self) -> DevContainerKeyView {
        DevContainerKeyView {
            container_id: self.container_id@,
            use_podman: self.use_podman,
            host: opt_model(self.host),
        }
    }
}

impl Model for DevContainerKey {
    fn dup(&self) -> (r: Self) {
        DevContainerKey {
            container_id: copy_text(&self.container_id),
            use_podman: self.use_podman,
            host: dup_opt(&self.host),
        }
    }

    fn same(&self, other: &Self) -> (r: bool) {
        same_text(self.container_id.as_str(), other.container_id.as_str())
            && self.use_podman == other.use_podman
            && same_opt_model(&self.host, &other.host)
    }
}

/// The key of a saved development container.
pub open spec fn key_of(c: DevContainerConnectionView) -> DevContainerKeyView {
    DevContainerKeyView { container_id: c.container_id, use_podman: c.use_podman, host: c.host }
}

/// The key of the container that options lead into; none where they lead to a
/// machine.
pub open spec fn key_of_options(o: RemoteConnectionOptionsView) -> Option<DevContainerKeyView> {
    match o {
        RemoteConnectionOptionsView::Docker(d) => Some(
            DevContainerKeyView {
                container_id: d.container_id,
                use_podman: d.use_podman,
                host: devcontainer_host_view(d.host),
            },
        ),
        _ => None,
    }
}

impl DevContainerKey {
    /// The key of a saved development container.
    pub fn from_connection(connection: &DevContainerConnection) -> (r: Self)
        ensures
            r@ == key_of(connection@),
    {
        DevContainerKey {
            container_id: copy_text(&connection.container_id),
            use_podman: connection.use_podman,
            host: dup_opt(&connection.host),
        }
    }
}

/// The key of the container that options lead into; none where they lead to a
/// machine.
pub fn dev_container_key_from_remote_options(options: &RemoteConnectionOptions) -> (r: Option<
    DevContainerKey,
>)
    ensures
        opt_model(r) == key_of_options(options@),
{
    match options {
        RemoteConnectionOptions::Docker(options) => Some(
            DevContainerKey {
                container_id: copy_text(&options.container_id),
                use_podman: options.use_podman,
                host: devcontainer_host_from_docker_host(&options.host),
            },
        ),
        _ => None,
    }
}

/// The options made for a saved development container carry its key.
pub proof fn options_carry_the_key(c: DevContainerConnection)
    ensures
        key_of_options(RemoteConnectionOptions::Docker(docker_options_of(c))@) == Some(key_of(c@)),
{
    crate::connection::devcontainer_host_round_trip(opt_model(c.host));
    assert(docker_options_of(c).host@ == docker_host_view(opt_model(c.host)));
}

/// Picks the development containers with the given key.
pub open spec fn has_key(key: DevContainerKeyView) -> spec_fn(DevContainerConnectionView) -> bool {
    |c: DevContainerConnectionView| key_of(c) == key
}

/// A saved development container after it has been opened once more: the
/// configuration is replaced where one is given, and the folders are added.
pub open spec fn reopened(
    c: DevContainerConnectionView,
    starting_dir: Seq<char>,
    host_starting_dir: Option<Seq<char>>,
    config_path: Option<Seq<char>>,
) -> DevContainerConnectionView {
    DevContainerConnectionView {
        config_path: if config_path is Some {
            config_path
        } else {
            c.config_path
        },
        projects: with_project(c.projects, seq![starting_dir]),
        host_projects: match host_starting_dir {
            Some(dir) => with_project(c.host_projects, seq![dir]),
            None => c.host_projects,
        },
        last_host_project: match host_starting_dir {
            Some(dir) => Some(seq![dir]),
            None => c.last_host_project,
        },
        ..c
    }
}

/// The saved development containers after one has been opened: the first one
/// with its key takes its name and the folders, or it becomes the first of the
/// list.
pub open spec fn with_dev_container(
    list: Seq<DevContainerConnectionView>,
    c: DevContainerConnectionView,
    starting_dir: Seq<char>,
    host_starting_dir: Option<Seq<char>>,
    config_path: Option<Seq<char>>,
) -> Seq<DevContainerConnectionView> {
    match first_where(list, has_key(key_of(c))) {
        Some(i) => list.update(
            i,
            reopened(
                DevContainerConnectionView { name: c.name, ..list[i] },
                starting_dir,
                host_starting_dir,
                config_path,
            ),
        ),
        None => seq![reopened(c, starting_dir, host_starting_dir, config_path)] + list,
    }
}

fn one_folder(dir: String) -> (r: RemoteProject)
    ensures
        r@ == seq![dir@],
{
    let mut paths: Vec<String> = Vec::new();
    paths.push(dir);
    let r = RemoteProject { paths };
    assert(r@ =~= seq![dir@]);
    r
}

fn reopen(
    entry: &mut DevContainerConnection,
    starting_dir: String,
    host_starting_dir: Option<String>,
    config_path: Option<String>,
)
    ensures
        final(entry)@ == reopened(
            old(entry)@,
            starting_dir@,
            opt_text(host_starting_dir),
            opt_text(config_path),
        ),
{
    if config_path.is_some() {
        entry.config_path = config_path;
    }
    insert_project(&mut entry.projects, one_folder(starting_dir));
    if let Some(dir) = host_starting_dir {
        let project = one_folder(dir);
        insert_project(&mut entry.host_projects, project.dup());
        entry.last_host_project = Some(project);
    }
}

fn find_key(list: &Vec<DevContainerConnection>, key: &DevContainerKey) -> (r: Option<usize>)
    ensures
        match r {
            Some(i) => i < list.len() && first_where(models(list@), has_key(key@)) == Some(
                i as int,
            ),
            None => first_where(models(list@), has_key(key@)) is None,
        },
{
    let ghost p = has_key(key@);
    let here = |c: &DevContainerConnection| -> (b: bool)
        ensures
            b == (key_of(c@) == key@),
        { DevContainerKey::from_connection(c).same(key) };
    find_first(list, here, Ghost(p))
}

/// Saves a development container that has been opened.
pub fn upsert_dev_container_connection(
    connections: &mut Vec<DevContainerConnection>,
    connection: DevContainerConnection,
    starting_dir: String,
    host_starting_dir: Option<String>,
    config_path: Option<String>,
)
    ensures
        models(final(connections)@) == with_dev_container(
            models(old(connections)@),
            connection@,
            starting_dir@,
            opt_text(host_starting_dir),
            opt_text(config_path),
        ),
        containers_are_valid(models(old(connections)@)) && container_is_valid(connection@)
            ==> containers_are_valid(models(final(connections)@)),
{
    proof {
        if containers_are_valid(models(connections@)) && container_is_valid(connection@) {
            opening_keeps_containers_valid(
                models(connections@),
                connection@,
                starting_dir@,
                opt_text(host_starting_dir),
                opt_text(config_path),
            );
        }
    }
    let ghost all = models(connections@);
    let key = DevContainerKey::from_connection(&connection);
    match find_key(connections, &key) {
        Some(i) => {
            let mut entry = connections[i].dup();
            assert(entry@ == all[i as int]);
            entry.name = copy_text(&connection.name);
            reopen(&mut entry, starting_dir, host_starting_dir, config_path);
            let ghost new = entry@;
            connections.set(i, entry);
            assert(models(connections@) =~= all.update(i as int, new));
        },
        None => {
            let mut entry = connection;
            reopen(&mut entry, starting_dir, host_starting_dir, config_path);
            let ghost new = entry@;
            connections.insert(0, entry);
            assert(models(connections@) =~= seq![new] + all);
        },
    }
}

/// Opening a development container once more in the same way changes nothing.
pub proof fn opening_twice_is_opening_once(
    list: Seq<DevContainerConnectionView>,
    c: DevContainerConnectionView,
    starting_dir: Seq<char>,
    host_starting_dir: Option<Seq<char>>,
    config_path: Option<Seq<char>>,
)
    ensures
        ({
            let once = with_dev_container(list, c, starting_dir, host_starting_dir, config_path);
            with_dev_container(once, c, starting_dir, host_starting_dir, config_path) == once
        }),
{
    let p = has_key(key_of(c));
    let once = with_dev_container(list, c, starting_dir, host_starting_dir, config_path);
    first_where_facts(list, p);
    let at = match first_where(list, p) {
        Some(i) => i,
        None => 0,
    };
    let base = match first_where(list, p) {
        Some(i) => DevContainerConnectionView { name: c.name, ..list[i] },
        None => c,
    };
    let entry = reopened(base, starting_dir, host_starting_dir, config_path);
    assert(once[at] == entry);
    assert(p(once[at]));
    assert forall|k: int| 0 <= k < at implies !p(#[trigger] once[k]) by {
        assert(once[k] == list[k]);
    }
    first_where_is(once, p, at);
    added_project_is_known(base.projects, seq![starting_dir]);
    if host_starting_dir is Some {
        added_project_is_known(base.host_projects, seq![host_starting_dir->0]);
    }
    let again = reopened(entry, starting_dir, host_starting_dir, config_path);
    assert(again =~= entry);
    assert(entry.name == c.name);
    assert(once.update(at, entry) =~= once);
}

/// Opening a development container leaves every other one as it was, and one
/// with its key is there afterwards. No key comes to stand twice.
pub proof fn opening_keeps_the_others(
    list: Seq<DevContainerConnectionView>,
    c: DevContainerConnectionView,
    starting_dir: Seq<char>,
    host_starting_dir: Option<Seq<char>>,
    config_path: Option<Seq<char>>,
)
    ensures
        ({
            let p = has_key(key_of(c));
            let new = with_dev_container(list, c, starting_dir, host_starting_dir, config_path);
            &&& new.filter(|x| !p(x)) == list.filter(|x| !p(x))
            &&& first_where(new, p) is Some
            &&& first_where(list, p) is Some ==> new.len() == list.len() && forall|i: int|
                0 <= i < list.len() ==> key_of(#[trigger] new[i]) == key_of(list[i])
            &&& first_where(list, p) is None ==> new.len() == list.len() + 1
        }),
{
    let p = has_key(key_of(c));
    let q = |x: DevContainerConnectionView| !p(x);
    let new = with_dev_container(list, c, starting_dir, host_starting_dir, config_path);
    first_where_facts(list, p);
    first_where_facts(new, p);
    match first_where(list, p) {
        Some(i) => {
            filter_update(list, i, new[i], q);
            assert(p(new[i]));
        },
        None => {
            let e = reopened(c, starting_dir, host_starting_dir, config_path);
            assert(p(new[0]));
            filter_prepend(e, list, q);
        },
    }
}

proof fn filter_update<V>(s: Seq<V>, i: int, x: V, p: spec_fn(V) -> bool)
    requires
        0 <= i < s.len(),
        !p(s[i]),
        !p(x),
    ensures
        s.update(i, x).filter(p) == s.filter(p),
    decreases s.len(),
{
    reveal(Seq::filter);
    let t = s.update(i, x);
    if i == s.len() - 1 {
        assert(t.drop_last() =~= s.drop_last());
    } else {
        filter_update(s.drop_last(), i, x, p);
        assert(t.drop_last() =~= s.drop_last().update(i, x));
    }
}

/// Filtering a sequence with one more element at its beginning.
pub proof fn filter_prepend<V>(x: V, s: Seq<V>, p: spec_fn(V) -> bool)
    ensures
        (seq![x] + s).filter(p) == (if p(x) {
            seq![x] + s.filter(p)
        } else {
            s.filter(p)
        }),
    decreases s.len(),
{
    reveal(Seq::filter);
    let t = seq![x] + s;
    if s.len() == 0 {
        assert(t =~= Seq::<V>::empty().push(x));
        crate::text::filter_push(Seq::<V>::empty(), x, p);
        assert(s =~= Seq::empty());
        assert(Seq::<V>::empty().filter(p) =~= Seq::empty());
        assert(Seq::<V>::empty().push(x) =~= seq![x] + s.filter(p));
    } else {
        filter_prepend(x, s.drop_last(), p);
        assert(t.drop_last() =~= seq![x] + s.drop_last());
        assert(t.last() == s.last());
        assert(seq![x] + s.drop_last().filter(p).push(s.last()) =~= (seq![x] + s.drop_last().filter(
            p,
        )).push(s.last()));
    }
}

/// Whether an error says that the container of the options is gone.
pub open spec fn reports_missing(o: DockerConnectionOptionsView, message: Seq<char>) -> bool {
    has_part(message, "No such container:"@) && has_part(message, o.container_id)
}

/// The options of the container that an error reports as gone, if it does.
pub fn is_missing_dev_container_error(
    connection_options: &RemoteConnectionOptions,
    err_message: &str,
) -> (r: Option<DockerConnectionOptions>)
    ensures
        opt_model(r) == match connection_options@ {
            RemoteConnectionOptionsView::Docker(o) => if reports_missing(o, err_message@) {
                Some(o)
            } else {
                None
            },
            _ => None,
        },
{
    match connection_options {
        RemoteConnectionOptions::Docker(options) => {
            if text_contains(err_message, "No such container:") && text_contains(
                err_message,
                options.container_id.as_str(),
            ) {
                Some(options.dup())
            } else {
                None
            }
        },
        _ => None,
    }
}

/// The options of a container whose error is not shown: while the window
/// returns from the container to its host, which `returning` says, its
/// connection is expected to end.
pub fn should_suppress_dev_container_error_during_host_return(
    connection_options: &RemoteConnectionOptions,
    returning: bool,
) -> (r: Option<DockerConnectionOptions>)
    ensures
        opt_model(r) == match connection_options@ {
            RemoteConnectionOptionsView::Docker(o) => if returning {
                Some(o)
            } else {
                None
            },
            _ => None,
        },
{
    match connection_options {
        RemoteConnectionOptions::Docker(options) => if returning {
            Some(options.dup())
        } else {
            None
        },
        _ => None,
    }
}

/// The name under which a container is shown: its name, or its id where it has
/// none.
pub open spec fn container_label(o: DockerConnectionOptionsView) -> Seq<char> {
    if o.name.len() == 0 {
        o.container_id
    } else {
        o.name
    }
}

/// What is shown where a saved development container is gone.
pub fn missing_dev_container_message(
    connection_options: &DockerConnectionOptions,
    err_message: &str,
) -> (r: String)
    ensures
        r@ == "Saved dev container `"@ + container_label(connection_options@)
            + "` no longer exists and was removed from saved connections.\n"@ + err_message@,
{
    let mut out = "Saved dev container `".to_owned();
    if connection_options.name.as_str().is_empty() {
        out.append(connection_options.container_id.as_str());
    } else {
        out.append(connection_options.name.as_str());
    }
    out.append("` no longer exists and was removed from saved connections.\n");
    out.append(err_message);
    out
}

/// Whether a saved development container is the one that options lead into.
pub open spec fn leads_into(o: DockerConnectionOptionsView) -> spec_fn(
    DevContainerConnectionView,
) -> bool {
    |c: DevContainerConnectionView|
        c.container_id == o.container_id && c.use_podman == o.use_podman && docker_host_view(c.host)
            == o.host
}

/// The folders of the machine of a development container: those of the first
/// project of the first saved container with its key that has one.
pub open spec fn saved_host_folders(
    list: Seq<DevContainerConnectionView>,
    key: DevContainerKeyView,
) -> Option<Seq<Seq<char>>> {
    let p = |c: DevContainerConnectionView| key_of(c) == key && c.host_projects.len() > 0;
    match first_where(list, p) {
        Some(i) => Some(list[i].host_projects[0]),
        None => None,
    }
}

/// The folders of the machine of a development container, as the settings hold
/// them.
pub fn host_project_paths_from_settings(
    connections: &Vec<DevContainerConnection>,
    key: &DevContainerKey,
) -> (r: Option<Vec<String>>)
    ensures
        opt_texts(r) == saved_host_folders(models(connections@), key@),
{
    let ghost p = |c: DevContainerConnectionView| key_of(c) == key@ && c.host_projects.len() > 0;
    let here = |c: &DevContainerConnection| -> (b: bool)
        ensures
            b == (key_of(c@) == key@ && c@.host_projects.len() > 0),
        { DevContainerKey::from_connection(c).same(key) && c.host_projects.len() > 0 };
    match find_first(connections, here, Ghost(p)) {
        Some(i) => {
            proof {
                first_where_facts(models(connections@), p);
                assert(models(connections@)[i as int] == connections@[i as int]@);
                assert(connections@[i as int].host_projects@[0]@ == connections@[i as int]@.host_projects[0]);
            }
            Some(crate::text::copy_list(&connections[i].host_projects[0].paths))
        },
        None => None,
    }
}

/// The folders of the machine of a development container.
pub fn host_project_paths(connection: &DevContainerConnection) -> (r: Option<Vec<String>>)
    ensures
        opt_texts(r) == (if connection@.host_projects.len() > 0 {
            Some(connection@.host_projects[0])
        } else {
            None
        }),
{
    if connection.host_projects.len() > 0 {
        assert(connection.host_projects@[0]@ == connection@.host_projects[0]);
        Some(crate::text::copy_list(&connection.host_projects[0].paths))
    } else {
        None
    }
}

// ---------------------------------------------------------------------------
// Changing the settings

/// The place of a saved connection in its list.
#[derive(Clone, Copy, Debug, PartialEq, Eq, Structural)]
pub enum ServerIndex {
    /// An SSH server.
    Ssh(usize),
    /// A WSL distribution.
    Wsl(usize),
    /// A development container.
    DevContainer(usize),
}

/// A list with one place changed, where there is such a place.
pub open spec fn changed_at<V>(list: Option<Seq<V>>, i: int, f: spec_fn(V) -> V) -> Option<Seq<V>> {
    match list {
        Some(s) => if 0 <= i < s.len() {
            Some(s.update(i, f(s[i])))
        } else {
            Some(s)
        },
        None => None,
    }
}

/// The settings with a project added to the connection at `server`, where there is
/// one.
pub open spec fn project_added(
    s: RemoteSettingsContentView,
    server: ServerIndex,
    project: Seq<Seq<char>>,
) -> RemoteSettingsContentView {
    match server {
        ServerIndex::Ssh(i) => RemoteSettingsContentView {
            ssh_connections: changed_at(
                s.ssh_connections,
                i as int,
                |c: SshConnectionView|
                    SshConnectionView {
                        projects: with_project(c.projects, project),
                        ..c
                    },
            ),
            ..s
        },
        ServerIndex::Wsl(i) => RemoteSettingsContentView {
            wsl_connections: changed_at(
                s.wsl_connections,
                i as int,
                |c: WslConnectionView|
                    WslConnectionView {
                        projects: with_project(c.projects, project),
                        ..c
                    },
            ),
            ..s
        },
        ServerIndex::DevContainer(i) => RemoteSettingsContentView {
            dev_container_connections: changed_at(
                s.dev_container_connections,
                i as int,
                |c: DevContainerConnectionView|
                    DevContainerConnectionView {
                        projects: with_project(c.projects, project),
                        ..c
                    },
            ),
            ..s
        },
    }
}

/// The settings with a project taken out of the connection at `server`, where
/// there is one.
pub open spec fn project_removed(
    s: RemoteSettingsContentView,
    server: ServerIndex,
    project: Seq<Seq<char>>,
) -> RemoteSettingsContentView {
    match server {
        ServerIndex::Ssh(i) => RemoteSettingsContentView {
            ssh_connections: changed_at(
                s.ssh_connections,
                i as int,
                |c: SshConnectionView|
                    SshConnectionView {
                        projects: c.projects.filter(is_other_project(project)),
                        ..c
                    },
            ),
            ..s
        },
        ServerIndex::Wsl(i) => RemoteSettingsContentView {
            wsl_connections: changed_at(
                s.wsl_connections,
                i as int,
                |c: WslConnectionView|
                    WslConnectionView {
                        projects: c.projects.filter(is_other_project(project)),
                        ..c
                    },
            ),
            ..s
        },
        ServerIndex::DevContainer(i) => RemoteSettingsContentView {
            dev_container_connections: changed_at(
                s.dev_container_connections,
                i as int,
                |c: DevContainerConnectionView|
                    DevContainerConnectionView {
                        projects: c.projects.filter(is_other_project(project)),
                        ..c
                    },
            ),
            ..s
        },
    }
}

/// The settings after a server has been connected to: it is saved first, with
/// what was known of it, and appended once more as the server to work on.
pub open spec fn connected_settings(
    s: RemoteSettingsContentView,
    o: SshConnectionOptionsView,
) -> RemoteSettingsContentView {
    RemoteSettingsContentView {
        ssh_connections: Some(with_saved(or_none(s.ssh_connections), o).push(added_entry(o))),
        ..s
    }
}

/// Saving or appending a server leaves the saved servers valid.
pub proof fn saving_keeps_servers_valid(saved: Seq<SshConnectionView>, o: SshConnectionOptionsView)
    requires
        servers_are_valid(saved),
    ensures
        servers_are_valid(with_saved(saved, o)),
        servers_are_valid(saved.push(added_entry(o))),
{
    let p = is_server(o.host, o.username, o.port);
    let q = is_other_server(o.host, o.username, o.port);
    let rest = saved.filter(q);
    let all = with_saved(saved, o);
    first_where_facts(saved, p);
    assert(ssh_is_valid(saved_entry(saved, o)));
    assert forall|i: int| 0 <= i < all.len() implies ssh_is_valid(#[trigger] all[i]) by {
        if i > 0 {
            assert(all[i] == rest[i - 1]);
            filter_member(saved, q, i - 1);
        }
    }
}

/// Opening a valid development container leaves the saved ones valid.
pub proof fn opening_keeps_containers_valid(
    list: Seq<DevContainerConnectionView>,
    c: DevContainerConnectionView,
    starting_dir: Seq<char>,
    host_starting_dir: Option<Seq<char>>,
    config_path: Option<Seq<char>>,
)
    requires
        containers_are_valid(list),
        container_is_valid(c),
    ensures
        containers_are_valid(
            with_dev_container(list, c, starting_dir, host_starting_dir, config_path),
        ),
{
    let p = has_key(key_of(c));
    first_where_facts(list, p);
    let base = match first_where(list, p) {
        Some(i) => list[i],
        None => c,
    };
    assert(container_is_valid(base));
    with_project_ascends(base.projects, seq![starting_dir]);
    if host_starting_dir is Some {
        with_project_ascends(base.host_projects, seq![host_starting_dir->0]);
    }
    let new = with_dev_container(list, c, starting_dir, host_starting_dir, config_path);
    assert forall|i: int| 0 <= i < new.len() implies container_is_valid(#[trigger] new[i]) by {
        if first_where(list, p) is None && i > 0 {
            assert(new[i] == list[i - 1]);
        } else if first_where(list, p) is Some && i != first_where(list, p)->0 {
            assert(new[i] == list[i]);
        }
    }
}

proof fn project_added_keeps_valid(
    s: RemoteSettingsContentView,
    server: ServerIndex,
    project: Seq<Seq<char>>,
)
    requires
        content_is_valid(s),
    ensures
        content_is_valid(project_added(s, server, project)),
{
    let new = project_added(s, server, project);
    assert forall|i: int| 0 <= i < or_none(new.ssh_connections).len() implies ssh_is_valid(
        #[trigger] or_none(new.ssh_connections)[i],
    ) by {
        let c = or_none(s.ssh_connections)[i];
        assert(ssh_is_valid(c));
        with_project_ascends(c.projects, project);
    }
    assert forall|i: int| 0 <= i < or_none(new.wsl_connections).len() implies wsl_is_valid(
        #[trigger] or_none(new.wsl_connections)[i],
    ) by {
        let c = or_none(s.wsl_connections)[i];
        assert(wsl_is_valid(c));
        with_project_ascends(c.projects, project);
    }
    assert forall|i: int|
        0 <= i < or_none(new.dev_container_connections).len() implies container_is_valid(
        #[trigger] or_none(new.dev_container_connections)[i],
    ) by {
        let c = or_none(s.dev_container_connections)[i];
        assert(container_is_valid(c));
        with_project_ascends(c.projects, project);
    }
}

proof fn project_removed_keeps_valid(
    s: RemoteSettingsContentView,
    server: ServerIndex,
    project: Seq<Seq<char>>,
)
    requires
        content_is_valid(s),
    ensures
        content_is_valid(project_removed(s, server, project)),
{
    let new = project_removed(s, server, project);
    assert forall|i: int| 0 <= i < or_none(new.ssh_connections).len() implies ssh_is_valid(
        #[trigger] or_none(new.ssh_connections)[i],
    ) by {
        let c = or_none(s.ssh_connections)[i];
        assert(ssh_is_valid(c));
        kept_projects_ascend(c.projects, is_other_project(project));
    }
    assert forall|i: int| 0 <= i < or_none(new.wsl_connections).len() implies wsl_is_valid(
        #[trigger] or_none(new.wsl_connections)[i],
    ) by {
        let c = or_none(s.wsl_connections)[i];
        assert(wsl_is_valid(c));
        kept_projects_ascend(c.projects, is_other_project(project));
    }
    assert forall|i: int|
        0 <= i < or_none(new.dev_container_connections).len() implies container_is_valid(
        #[trigger] or_none(new.dev_container_connections)[i],
    ) by {
        let c = or_none(s.dev_container_connections)[i];
        assert(container_is_valid(c));
        kept_projects_ascend(c.projects, is_other_project(project));
    }
}

impl RemoteSettingsContent {
    /// Puts the projects of every connection in order, each of them once.
    pub fn sort_projects(&mut self)
        ensures
            final(self)@ == sorted_content(old(self)@),
            content_is_valid(final(self)@),
            content_is_valid(old(self)@) ==> final(self)@ == old(self)@,
    {
        proof {
            sorted_lists_are_valid(
                or_none(self@.ssh_connections),
                or_none(self@.wsl_connections),
                or_none(self@.dev_container_connections),
            );
        }
        self.ssh_connections = match &self.ssh_connections {
            Some(list) => Some(sort_ssh_connections(list)),
            None => None,
        };
        self.wsl_connections = match &self.wsl_connections {
            Some(list) => Some(sort_wsl_connections(list)),
            None => None,
        };
        self.dev_container_connections = match &self.dev_container_connections {
            Some(list) => Some(sort_dev_container_connections(list)),
            None => None,
        };
    }

    /// Saves an SSH server under its host, user and port.
    pub fn save_ssh_connection_options(&mut self, options: SshConnectionOptions)
        ensures
            final(self)@ == (RemoteSettingsContentView {
                ssh_connections: Some(
                    with_saved(or_none(old(self)@.ssh_connections), options@),
                ),
                ..old(self)@
            }),
            content_is_valid(old(self)@) ==> content_is_valid(final(self)@),
    {
        proof {
            if content_is_valid(self@) {
                saving_keeps_servers_valid(or_none(self@.ssh_connections), options@);
            }
        }
        let mut list = match self.ssh_connections.take() {
            Some(list) => list,
            None => Vec::new(),
        };
        let ghost all = models(list@);
        proof {
            assert(all =~= or_none(old(self)@.ssh_connections));
        }
        let mut entry = match find_server(&list, &options.host, &options.username, options.port) {
            Some(i) => {
                assert(models(list@)[i as int] == list@[i as int]@);
                list[i].dup()
            },
            None => SshConnection {
                host: copy_text(&options.host),
                username: copy_opt(&options.username),
                port: options.port,
                args: Vec::new(),
                projects: Vec::new(),
                nickname: None,
                upload_binary_over_ssh: None,
                port_forwards: None,
                connection_timeout: None,
            },
        };
        let ghost base = entry@;
        entry.args = args_or_empty(&options.args);
        entry.port_forwards = dup_opt_all(&options.port_forwards);
        entry.connection_timeout = options.connection_timeout;
        entry.nickname = copy_opt(&options.nickname);
        assert(entry@ =~= saved_entry(all, options@));
        let ghost keep = is_other_server(options@.host, options@.username, options@.port);
        let other = |c: &SshConnection| -> (b: bool)
            ensures
                b == (c@.host != options@.host || c@.username != options@.username || c@.port
                    != options@.port),
            {
                !(same_text(c.host.as_str(), options.host.as_str()) && same_opt(
                    &c.username,
                    &options.username,
                ) && same_u16(c.port, options.port))
            };
        keep_where(&mut list, other, Ghost(keep));
        let ghost rest = models(list@);
        list.insert(0, entry);
        assert(models(list@) =~= seq![saved_entry(all, options@)] + rest);
        self.ssh_connections = Some(list);
    }

    /// Takes every saved SSH server out that equals `connection`.
    pub fn remove_saved_connection(&mut self, connection: &SshConnection)
        ensures
            final(self)@ == (RemoteSettingsContentView {
                ssh_connections: match old(self)@.ssh_connections {
                    Some(list) => Some(list.filter(|c: SshConnectionView| c != connection@)),
                    None => None,
                },
                ..old(self)@
            }),
    {
        let ghost keep = |c: SshConnectionView| c != connection@;
        let other = |c: &SshConnection| -> (b: bool)
            ensures
                b == (c@ != connection@),
            { !c.same(connection) };
        let list = self.ssh_connections.take();
        self.ssh_connections = match list {
            Some(list) => {
                let mut list = list;
                keep_where(&mut list, other, Ghost(keep));
                Some(list)
            },
            None => None,
        };
    }

    /// Takes all saved SSH servers out.
    pub fn remove_all_saved_connections(&mut self)
        ensures
            final(self)@ == (RemoteSettingsContentView {
                ssh_connections: match old(self)@.ssh_connections {
                    Some(_) => Some(Seq::empty()),
                    None => None,
                },
                ..old(self)@
            }),
    {
        if self.ssh_connections.is_some() {
            let empty: Vec<SshConnection> = Vec::new();
            assert(models(empty@) =~= Seq::empty());
            self.ssh_connections = Some(empty);
        }
    }

    /// Appends an SSH server.
    pub fn add_ssh_server(&mut self, options: SshConnectionOptions)
        ensures
            final(self)@ == (RemoteSettingsContentView {
                ssh_connections: Some(
                    or_none(old(self)@.ssh_connections).push(added_entry(options@)),
                ),
                ..old(self)@
            }),
            content_is_valid(old(self)@) ==> content_is_valid(final(self)@),
    {
        proof {
            if content_is_valid(self@) {
                saving_keeps_servers_valid(or_none(self@.ssh_connections), options@);
            }
        }
        broadcast use models_push;

        let mut list = match self.ssh_connections.take() {
            Some(list) => list,
            None => Vec::new(),
        };
        assert(models(list@) =~= or_none(old(self)@.ssh_connections));
        let entry = SshConnection {
            host: copy_text(&options.host),
            username: copy_opt(&options.username),
            port: options.port,
            args: args_or_empty(&options.args),
            projects: Vec::new(),
            nickname: None,
            upload_binary_over_ssh: None,
            port_forwards: dup_opt_all(&options.port_forwards),
            connection_timeout: options.connection_timeout,
        };
        assert(entry@ =~= added_entry(options@));
        list.push(entry);
        self.ssh_connections = Some(list);
    }

    /// Saves a development container that has been opened.
    pub fn save_dev_container_connection(
        &mut self,
        connection: DevContainerConnection,
        starting_dir: String,
        host_starting_dir: Option<String>,
        config_path: Option<String>,
    )
        ensures
            final(self)@ == (RemoteSettingsContentView {
                dev_container_connections: Some(
                    with_dev_container(
                        or_none(old(self)@.dev_container_connections),
                        connection@,
                        starting_dir@,
                        opt_text(host_starting_dir),
                        opt_text(config_path),
                    ),
                ),
                ..old(self)@
            }),
            content_is_valid(old(self)@) && container_is_valid(connection@) ==> content_is_valid(
                final(self)@,
            ),
    {
        proof {
            if content_is_valid(self@) && container_is_valid(connection@) {
                opening_keeps_containers_valid(
                    or_none(self@.dev_container_connections),
                    connection@,
                    starting_dir@,
                    opt_text(host_starting_dir),
                    opt_text(config_path),
                );
            }
        }
        let mut list = match self.dev_container_connections.take() {
            Some(list) => list,
            None => Vec::new(),
        };
        assert(models(list@) =~= or_none(old(self)@.dev_container_connections));
        upsert_dev_container_connection(
            &mut list,
            connection,
            starting_dir,
            host_starting_dir,
            config_path,
        );
        self.dev_container_connections = Some(list);
    }

    /// Takes the SSH server at `index` out.
    pub fn delete_ssh_server(&mut self, index: usize)
        requires
            old(self)@.ssh_connections is Some ==> index < old(self)@.ssh_connections->0.len(),
        ensures
            final(self)@ == (RemoteSettingsContentView {
                ssh_connections: match old(self)@.ssh_connections {
                    Some(list) => Some(list.remove(index as int)),
                    None => None,
                },
                ..old(self)@
            }),
    {
        if let Some(list) = self.ssh_connections.take() {
            let mut list = list;
            let ghost all = models(list@);
            list.remove(index);
            assert(models(list@) =~= all.remove(index as int));
            self.ssh_connections = Some(list);
        }
    }

    /// Takes the WSL distribution at `index` out.
    pub fn delete_wsl_distro(&mut self, index: usize)
        requires
            old(self)@.wsl_connections is Some ==> index < old(self)@.wsl_connections->0.len(),
        ensures
            final(self)@ == (RemoteSettingsContentView {
                wsl_connections: match old(self)@.wsl_connections {
                    Some(list) => Some(list.remove(index as int)),
                    None => None,
                },
                ..old(self)@
            }),
    {
        if let Some(list) = self.wsl_connections.take() {
            let mut list = list;
            let ghost all = models(list@);
            list.remove(index);
            assert(models(list@) =~= all.remove(index as int));
            self.wsl_connections = Some(list);
        }
    }

    /// Takes the development container at `index` out.
    pub fn delete_dev_container_server(&mut self, index: usize)
        requires
            old(self)@.dev_container_connections is Some ==> index < old(
                self,
            )@.dev_container_connections->0.len(),
        ensures
            final(self)@ == (RemoteSettingsContentView {
                dev_container_connections: match old(self)@.dev_container_connections {
                    Some(list) => Some(list.remove(index as int)),
                    None => None,
                },
                ..old(self)@
            }),
    {
        if let Some(list) = self.dev_container_connections.take() {
            let mut list = list;
            let ghost all = models(list@);
            list.remove(index);
            assert(models(list@) =~= all.remove(index as int));
            self.dev_container_connections = Some(list);
        }
    }

    /// Takes a project out of the connection at `server`, where there is one.
    pub fn delete_remote_project(&mut self, server: ServerIndex, project: &RemoteProject)
        ensures
            final(self)@ == project_removed(old(self)@, server, project@),
            content_is_valid(old(self)@) ==> content_is_valid(final(self)@),
    {
        proof {
            if content_is_valid(self@) {
                project_removed_keeps_valid(self@, server, project@);
            }
        }
        match server {
            ServerIndex::Ssh(i) => {
                if let Some(list) = self.ssh_connections.take() {
                    let mut list = list;
                    let ghost all = models(list@);
                    if i < list.len() {
                        let mut entry = list[i].dup();
                        assert(entry@ == all[i as int]);
                        remove_project(&mut entry.projects, project);
                        let ghost new = entry@;
                        list.set(i, entry);
                        assert(models(list@) =~= all.update(i as int, new));
                    }
                    self.ssh_connections = Some(list);
                }
            },
            ServerIndex::Wsl(i) => {
                if let Some(list) = self.wsl_connections.take() {
                    let mut list = list;
                    let ghost all = models(list@);
                    if i < list.len() {
                        let mut entry = list[i].dup();
                        assert(entry@ == all[i as int]);
                        remove_project(&mut entry.projects, project);
                        let ghost new = entry@;
                        list.set(i, entry);
                        assert(models(list@) =~= all.update(i as int, new));
                    }
                    self.wsl_connections = Some(list);
                }
            },
            ServerIndex::DevContainer(i) => {
                if let Some(list) = self.dev_container_connections.take() {
                    let mut list = list;
                    let ghost all = models(list@);
                    if i < list.len() {
                        let mut entry = list[i].dup();
                        assert(entry@ == all[i as int]);
                        remove_project(&mut entry.projects, project);
                        let ghost new = entry@;
                        list.set(i, entry);
                        assert(models(list@) =~= all.update(i as int, new));
                    }
                    self.dev_container_connections = Some(list);
                }
            },
        }
    }

    /// Adds a project to the connection at `server`, where there is one.
    pub fn add_remote_project(&mut self, server: ServerIndex, project: RemoteProject)
        ensures
            final(self)@ == project_added(old(self)@, server, project@),
            content_is_valid(old(self)@) ==> content_is_valid(final(self)@),
    {
        proof {
            if content_is_valid(self@) {
                project_added_keeps_valid(self@, server, project@);
            }
        }
        match server {
            ServerIndex::Ssh(i) => {
                if let Some(list) = self.ssh_connections.take() {
                    let mut list = list;
                    let ghost all = models(list@);
                    if i < list.len() {
                        let mut entry = list[i].dup();
                        assert(entry@ == all[i as int]);
                        insert_project(&mut entry.projects, project);
                        let ghost new = entry@;
                        list.set(i, entry);
                        assert(models(list@) =~= all.update(i as int, new));
                    }
                    self.ssh_connections = Some(list);
                }
            },
            ServerIndex::Wsl(i) => {
                if let Some(list) = self.wsl_connections.take() {
                    let mut list = list;
                    let ghost all = models(list@);
                    if i < list.len() {
                        let mut entry = list[i].dup();
                        assert(entry@ == all[i as int]);
                        insert_project(&mut entry.projects, project);
                        let ghost new = entry@;
                        list.set(i, entry);
                        assert(models(list@) =~= all.update(i as int, new));
                    }
                    self.wsl_connections = Some(list);
                }
            },
            ServerIndex::DevContainer(i) => {
                if let Some(list) = self.dev_container_connections.take() {
                    let mut list = list;
                    let ghost all = models(list@);
                    if i < list.len() {
                        let mut entry = list[i].dup();
                        assert(entry@ == all[i as int]);
                        insert_project(&mut entry.projects, project);
                        let ghost new = entry@;
                        list.set(i, entry);
                        assert(models(list@) =~= all.update(i as int, new));
                    }
                    self.dev_container_connections = Some(list);
                }
            },
        }
    }

    /// Sets the nickname of the SSH server at `index`, where there is one; an
    /// empty text takes the nickname away.
    pub fn set_nickname(&mut self, index: usize, text: &str)
        ensures
            final(self)@ == (RemoteSettingsContentView {
                ssh_connections: changed_at(
                    old(self)@.ssh_connections,
                    index as int,
                    |c: SshConnectionView|
                        SshConnectionView {
                            nickname: if text@.len() == 0 {
                                None
                            } else {
                                Some(text@)
                            },
                            ..c
                        },
                ),
                ..old(self)@
            }),
    {
        if let Some(list) = self.ssh_connections.take() {
            let mut list = list;
            let ghost all = models(list@);
            if index < list.len() {
                let mut entry = list[index].dup();
                assert(entry@ == all[index as int]);
                entry.nickname = if text.is_empty() {
                    None
                } else {
                    Some(text.to_owned())
                };
                let ghost new = entry@;
                list.set(index, entry);
                assert(models(list@) =~= all.update(index as int, new));
            }
            self.ssh_connections = Some(list);
        }
    }

    /// Sets the name of the development container at `index`, where there is
    /// one, to a text without its outer space; an empty text changes nothing.
    pub fn rename_dev_container(&mut self, index: usize, text: &str)
        ensures
            final(self)@ == (RemoteSettingsContentView {
                dev_container_connections: if trimmed(text@).len() == 0 {
                    old(self)@.dev_container_connections
                } else {
                    changed_at(
                        old(self)@.dev_container_connections,
                        index as int,
                        |c: DevContainerConnectionView|
                            DevContainerConnectionView { name: trimmed(text@), ..c },
                    )
                },
                ..old(self)@
            }),
    {
        let name = trim_text(text);
        if name.as_str().is_empty() {
            return ;
        }
        if let Some(list) = self.dev_container_connections.take() {
            let mut list = list;
            let ghost all = models(list@);
            if index < list.len() {
                let mut entry = list[index].dup();
                assert(entry@ == all[index as int]);
                entry.name = name;
                let ghost new = entry@;
                list.set(index, entry);
                assert(models(list@) =~= all.update(index as int, new));
            }
            self.dev_container_connections = Some(list);
        }
    }

    /// Appends an SSH server, and gives the place where it stands.
    pub fn add_ssh_server_with_index(&mut self, options: SshConnectionOptions) -> (r: usize)
        ensures
            r == or_none(old(self)@.ssh_connections).len(),
            final(self)@ == (RemoteSettingsContentView {
                ssh_connections: Some(
                    or_none(old(self)@.ssh_connections).push(added_entry(options@)),
                ),
                ..old(self)@
            }),
            content_is_valid(old(self)@) ==> content_is_valid(final(self)@),
    {
        let index: usize = match &self.ssh_connections {
            Some(list) => list.len(),
            None => 0,
        };
        self.add_ssh_server(options);
        index
    }

    /// Saves a server that has been connected to, appends it, and gives the
    /// place where it then stands.
    pub fn save_connected_server(&mut self, options: SshConnectionOptions) -> (r: usize)
        ensures
            final(self)@ == connected_settings(old(self)@, options@),
            r == final(self)@.ssh_connections->0.len() - 1,
            final(self)@.ssh_connections->0[r as int] == added_entry(options@),
            content_is_valid(old(self)@) ==> content_is_valid(final(self)@),
    {
        self.save_ssh_connection_options(options.dup());
        self.add_ssh_server_with_index(options)
    }

    /// Appends a host of the SSH configuration as a server, and gives the place
    /// where it stands.
    pub fn create_host_from_ssh_config(&mut self, host: &str) -> (r: usize)
        ensures
            r == or_none(old(self)@.ssh_connections).len(),
            final(self)@ == (RemoteSettingsContentView {
                ssh_connections: Some(
                    or_none(old(self)@.ssh_connections).push(bare_ssh_connection(host@)),
                ),
                ..old(self)@
            }),
            content_is_valid(old(self)@) ==> content_is_valid(final(self)@),
    {
        let options = SshConnectionOptions {
            host: host.to_owned(),
            username: None,
            port: None,
            password: None,
            args: None,
            port_forwards: None,
            connection_timeout: None,
            nickname: None,
            upload_binary_over_ssh: false,
        };
        assert(added_entry(options@) =~= bare_ssh_connection(host@));
        self.add_ssh_server_with_index(options)
    }

    /// Takes the development containers with the given keys out.
    pub fn prune_dev_container_connections(&mut self, remove_keys: &Vec<DevContainerKey>)
        ensures
            final(self)@ == (RemoteSettingsContentView {
                dev_container_connections: match old(self)@.dev_container_connections {
                    Some(list) => Some(list.filter(key_not_in(models(remove_keys@)))),
                    None => None,
                },
                ..old(self)@
            }),
    {
        let ghost keep = key_not_in(models(remove_keys@));
        let other = |c: &DevContainerConnection| -> (b: bool)
            ensures
                b == !models(remove_keys@).contains(key_of(c@)),
            { !holds_key(remove_keys, &DevContainerKey::from_connection(c)) };
        let list = self.dev_container_connections.take();
        self.dev_container_connections = match list {
            Some(list) => {
                let mut list = list;
                keep_where(&mut list, other, Ghost(keep));
                Some(list)
            },
            None => None,
        };
    }

    /// Takes the development containers out that the options of a missing one
    /// lead into.
    pub fn prune_missing_dev_container_connection(&mut self, options: &DockerConnectionOptions)
        ensures
            final(self)@ == (RemoteSettingsContentView {
                dev_container_connections: match old(self)@.dev_container_connections {
                    Some(list) => Some(
                        list.filter(|c: DevContainerConnectionView| !leads_into(options@)(c)),
                    ),
                    None => None,
                },
                ..old(self)@
            }),
    {
        let ghost keep = |c: DevContainerConnectionView| !leads_into(options@)(c);
        let other = |c: &DevContainerConnection| -> (b: bool)
            ensures
                b == !leads_into(options@)(c@),
            {
                let host = docker_host_from_devcontainer_host(dup_opt(&c.host));
                !(same_text(c.container_id.as_str(), options.container_id.as_str()) && c.use_podman
                    == options.use_podman && host.same(&options.host))
            };
        let list = self.dev_container_connections.take();
        self.dev_container_connections = match list {
            Some(list) => {
                let mut list = list;
                keep_where(&mut list, other, Ghost(keep));
                Some(list)
            },
            None => None,
        };
    }
}

/// Picks the development containers whose key is not in a list.
pub open spec fn key_not_in(keys: Seq<DevContainerKeyView>) -> spec_fn(
    DevContainerConnectionView,
) -> bool {
    |c: DevContainerConnectionView| !keys.contains(key_of(c))
}

/// Whether a key is in a list.
pub fn holds_key(keys: &Vec<DevContainerKey>, key: &DevContainerKey) -> (r: bool)
    ensures
        r == models(keys@).contains(key@),
{
    let mut i: usize = 0;
    while i < keys.len()
        invariant
            i <= keys.len(),
            forall|k: int| 0 <= k < i ==> (#[trigger] keys@[k])@ != key@,
        decreases keys.len() - i,
    {
        if keys[i].same(key) {
            assert(models(keys@)[i as int] == key@);
            return true;
        }
        i = i + 1;
    }
    assert(!models(keys@).contains(key@)) by {
        if models(keys@).contains(key@) {
            let k = choose|k: int| 0 <= k < models(keys@).len() && models(keys@)[k] == key@;
            assert(keys@[k]@ == key@);
        }
    }
    false
}

/// A server that is appended stands at the place that is given for it.
pub proof fn appended_server_stands_at_its_place(
    list: Option<Seq<SshConnectionView>>,
    o: SshConnectionOptionsView,
)
    ensures
        ({
            let new = or_none(list).push(added_entry(o));
            &&& new[or_none(list).len() as int] == added_entry(o)
            &&& new.take(or_none(list).len() as int) == or_none(list)
        }),
{
    let new = or_none(list).push(added_entry(o));
    assert(new.take(or_none(list).len() as int) =~= or_none(list));
}

/// Pruning takes out every development container with one of the keys and no
/// other.
pub proof fn pruning_removes_just_the_keys(
    list: Seq<DevContainerConnectionView>,
    keys: Seq<DevContainerKeyView>,
    c: DevContainerConnectionView,
)
    ensures
        list.filter(key_not_in(keys)).contains(c) <==> list.contains(c) && !keys.contains(
            key_of(c),
        ),
{
    let p = key_not_in(keys);
    let kept = list.filter(p);
    if kept.contains(c) {
        let k = choose|k: int| 0 <= k < kept.len() && kept[k] == c;
        filter_member(list, p, k);
    }
    if list.contains(c) && p(c) {
        broadcast use Seq::lemma_filter_contains_rev;

        assert(kept.contains(c));
    }
}

/// A filter keeps just what the list held and the filter picks.
pub proof fn kept_are_the_picked<V>(s: Seq<V>, p: spec_fn(V) -> bool, x: V)
    ensures
        s.filter(p).contains(x) <==> s.contains(x) && p(x),
{
    let kept = s.filter(p);
    if kept.contains(x) {
        let k = choose|k: int| 0 <= k < kept.len() && kept[k] == x;
        filter_member(s, p, k);
    }
    if s.contains(x) && p(x) {
        broadcast use Seq::lemma_filter_contains_rev;

        assert(kept.contains(x));
    }
}

proof fn added_is_the_only_new_one(
    list: Seq<Seq<Seq<char>>>,
    p: Seq<Seq<char>>,
    q: Seq<Seq<char>>,
)
    ensures
        with_project(list, p).contains(q) <==> list.contains(q) || q == p,
{
    with_project_ascends(list, p);
    let all = with_project(list, p);
    assert(all.contains(q) == all.to_set().contains(q));
    assert(list.contains(q) == list.to_set().contains(q));
}

/// Deleting a project takes that project out of its connection, and no other
/// project; the rest of the connection, every other connection and all other
/// settings stay as they are.
pub proof fn deleting_takes_just_the_project(
    s: RemoteSettingsContentView,
    server: ServerIndex,
    p: Seq<Seq<char>>,
    q: Seq<Seq<char>>,
    j: int,
)
    ensures
        project_removed(s, server, p).read_ssh_config == s.read_ssh_config,
        ({
            let new = project_removed(s, server, p);
            match server {
                ServerIndex::Ssh(i) => {
                    &&& new.wsl_connections == s.wsl_connections && new.dev_container_connections == s.dev_container_connections
                    &&& s.ssh_connections is None ==> new.ssh_connections is None
                    &&& s.ssh_connections matches Some(list) ==> {
                        &&& new.ssh_connections is Some && new.ssh_connections->0.len() == list.len()
                        &&& 0 <= j < list.len() && j != i ==> new.ssh_connections->0[j] == list[j]
                        &&& i < list.len() ==> {
                            let now = new.ssh_connections->0[i as int];
                            &&& (SshConnectionView { projects: list[i as int].projects, ..now }) == list[i as int]
                            &&& now.projects.contains(q) <==> list[i as int].projects.contains(q) && q != p
                        }
                    }
                },
                ServerIndex::Wsl(i) => {
                    &&& new.ssh_connections == s.ssh_connections && new.dev_container_connections == s.dev_container_connections
                    &&& s.wsl_connections is None ==> new.wsl_connections is None
                    &&& s.wsl_connections matches Some(list) ==> {
                        &&& new.wsl_connections is Some && new.wsl_connections->0.len() == list.len()
                        &&& 0 <= j < list.len() && j != i ==> new.wsl_connections->0[j] == list[j]
                        &&& i < list.len() ==> {
                            let now = new.wsl_connections->0[i as int];
                            &&& (WslConnectionView { projects: list[i as int].projects, ..now }) == list[i as int]
                            &&& now.projects.contains(q) <==> list[i as int].projects.contains(q) && q != p
                        }
                    }
                },
                ServerIndex::DevContainer(i) => {
                    &&& new.ssh_connections == s.ssh_connections && new.wsl_connections == s.wsl_connections
                    &&& s.dev_container_connections is None ==> new.dev_container_connections is None
                    &&& s.dev_container_connections matches Some(list) ==> {
                        &&& new.dev_container_connections is Some && new.dev_container_connections->0.len() == list.len()
                        &&& 0 <= j < list.len() && j != i ==> new.dev_container_connections->0[j] == list[j]
                        &&& i < list.len() ==> {
                            let now = new.dev_container_connections->0[i as int];
                            &&& (DevContainerConnectionView { projects: list[i as int].projects, ..now }) == list[i as int]
                            &&& now.projects.contains(q) <==> list[i as int].projects.contains(q) && q != p
                        }
                    }
                },
            }
        }),
{
    let f = is_other_project(p);
    match server {
        ServerIndex::Ssh(i) => {
            if or_none(s.ssh_connections).len() > i {
                kept_are_the_picked(s.ssh_connections->0[i as int].projects, f, q);
            }
        },
        ServerIndex::Wsl(i) => {
            if or_none(s.wsl_connections).len() > i {
                kept_are_the_picked(s.wsl_connections->0[i as int].projects, f, q);
            }
        },
        ServerIndex::DevContainer(i) => {
            if or_none(s.dev_container_connections).len() > i {
                kept_are_the_picked(s.dev_container_connections->0[i as int].projects, f, q);
            }
        },
    }
}

/// Adding a project puts that project into its connection, beside those that it
/// had, and no other; the rest of the connection, every other connection and
/// all other settings stay as they are.
pub proof fn adding_puts_just_the_project(
    s: RemoteSettingsContentView,
    server: ServerIndex,
    p: Seq<Seq<char>>,
    q: Seq<Seq<char>>,
    j: int,
)
    ensures
        project_added(s, server, p).read_ssh_config == s.read_ssh_config,
        ({
            let new = project_added(s, server, p);
            match server {
                ServerIndex::Ssh(i) => {
                    &&& new.wsl_connections == s.wsl_connections && new.dev_container_connections == s.dev_container_connections
                    &&& s.ssh_connections is None ==> new.ssh_connections is None
                    &&& s.ssh_connections matches Some(list) ==> {
                        &&& new.ssh_connections is Some && new.ssh_connections->0.len() == list.len()
                        &&& 0 <= j < list.len() && j != i ==> new.ssh_connections->0[j] == list[j]
                        &&& i < list.len() ==> {
                            let now = new.ssh_connections->0[i as int];
                            &&& (SshConnectionView { projects: list[i as int].projects, ..now }) == list[i as int]
                            &&& now.projects.contains(q) <==> list[i as int].projects.contains(q) || q == p
                        }
                    }
                },
                ServerIndex::Wsl(i) => {
                    &&& new.ssh_connections == s.ssh_connections && new.dev_container_connections == s.dev_container_connections
                    &&& s.wsl_connections is None ==> new.wsl_connections is None
                    &&& s.wsl_connections matches Some(list) ==> {
                        &&& new.wsl_connections is Some && new.wsl_connections->0.len() == list.len()
                        &&& 0 <= j < list.len() && j != i ==> new.wsl_connections->0[j] == list[j]
                        &&& i < list.len() ==> {
                            let now = new.wsl_connections->0[i as int];
                            &&& (WslConnectionView { projects: list[i as int].projects, ..now }) == list[i as int]
                            &&& now.projects.contains(q) <==> list[i as int].projects.contains(q) || q == p
                        }
                    }
                },
                ServerIndex::DevContainer(i) => {
                    &&& new.ssh_connections == s.ssh_connections && new.wsl_connections == s.wsl_connections
                    &&& s.dev_container_connections is None ==> new.dev_container_connections is None
                    &&& s.dev_container_connections matches Some(list) ==> {
                        &&& new.dev_container_connections is Some && new.dev_container_connections->0.len() == list.len()
                        &&& 0 <= j < list.len() && j != i ==> new.dev_container_connections->0[j] == list[j]
                        &&& i < list.len() ==> {
                            let now = new.dev_container_connections->0[i as int];
                            &&& (DevContainerConnectionView { projects: list[i as int].projects, ..now }) == list[i as int]
                            &&& now.projects.contains(q) <==> list[i as int].projects.contains(q) || q == p
                        }
                    }
                },
            }
        }),
{
    match server {
        ServerIndex::Ssh(i) => {
            if or_none(s.ssh_connections).len() > i {
                added_is_the_only_new_one(s.ssh_connections->0[i as int].projects, p, q);
            }
        },
        ServerIndex::Wsl(i) => {
            if or_none(s.wsl_connections).len() > i {
                added_is_the_only_new_one(s.wsl_connections->0[i as int].projects, p, q);
            }
        },
        ServerIndex::DevContainer(i) => {
            if or_none(s.dev_container_connections).len() > i {
                added_is_the_only_new_one(s.dev_container_connections->0[i as int].projects, p, q);
            }
        },
    }
}

/// A change at one place of a list leaves the others and the length as they
/// are; a place that is not there changes nothing.
pub proof fn one_place_is_changed<V>(list: Seq<V>, i: int, f: spec_fn(V) -> V, j: int)
    requires
        0 <= j < list.len(),
    ensures
        changed_at(Some(list), i, f) is Some,
        changed_at(Some(list), i, f)->0.len() == list.len(),
        i == j ==> changed_at(Some(list), i, f)->0[j] == f(list[j]),
        i != j ==> changed_at(Some(list), i, f)->0[j] == list[j],
        changed_at(None::<Seq<V>>, i, f) is None,
{
}

/// Options take over the nickname, the arguments, the port forwards and the way
/// of the upload from the first saved server with their host, user and port,
/// and keep everything else.
pub proof fn options_take_over_the_saved_server(
    saved: Seq<SshConnectionView>,
    o: SshConnectionOptionsView,
    i: int,
)
    requires
        0 <= i < saved.len(),
        saved[i].host == o.host && saved[i].username == o.username && saved[i].port == o.port,
        forall|k: int|
            0 <= k < i ==> !((#[trigger] saved[k]).host == o.host && saved[k].username == o.username
                && saved[k].port == o.port),
    ensures
        ({
            let r = filled_options(saved, o);
            &&& r.host == o.host && r.username == o.username && r.port == o.port
            &&& r.password == o.password && r.connection_timeout == o.connection_timeout
            &&& r.nickname == saved[i].nickname
            &&& r.args == Some(saved[i].args)
            &&& r.port_forwards == saved[i].port_forwards
            &&& r.upload_binary_over_ssh <==> saved[i].upload_binary_over_ssh == Some(true)
        }),
{
    first_where_is(saved, is_server(o.host, o.username, o.port), i);
}

/// Options of a server that is not saved stay as they are.
pub proof fn unsaved_options_stay(saved: Seq<SshConnectionView>, o: SshConnectionOptionsView)
    requires
        forall|k: int|
            0 <= k < saved.len() ==> (#[trigger] saved[k]).host != o.host || saved[k].username
                != o.username || saved[k].port != o.port,
    ensures
        filled_options(saved, o) == o,
{
    first_where_facts(saved, is_server(o.host, o.username, o.port));
}

/// A server that is saved again keeps its projects and the way of its upload,
/// and takes the rest from the options.
pub proof fn saved_again_keeps_its_projects(
    saved: Seq<SshConnectionView>,
    o: SshConnectionOptionsView,
    i: int,
)
    requires
        0 <= i < saved.len(),
        saved[i].host == o.host && saved[i].username == o.username && saved[i].port == o.port,
        forall|k: int|
            0 <= k < i ==> !((#[trigger] saved[k]).host == o.host && saved[k].username == o.username
                && saved[k].port == o.port),
    ensures
        ({
            let e = with_saved(saved, o)[0];
            &&& e.projects == saved[i].projects
            &&& e.upload_binary_over_ssh == saved[i].upload_binary_over_ssh
            &&& e.host == o.host && e.username == o.username && e.port == o.port
            &&& e.nickname == o.nickname && e.port_forwards == o.port_forwards
            &&& e.connection_timeout == o.connection_timeout
            &&& o.args matches Some(a) ==> e.args == a
            &&& o.args is None ==> e.args.len() == 0
        }),
{
    first_where_is(saved, is_server(o.host, o.username, o.port), i);
    assert(with_saved(saved, o)[0] == saved_entry(saved, o));
}

/// A server that was not saved is saved first, with what the options say and
/// without projects, and behind it stand the servers that were there.
pub proof fn new_server_is_saved_first(saved: Seq<SshConnectionView>, o: SshConnectionOptionsView)
    requires
        forall|k: int|
            0 <= k < saved.len() ==> (#[trigger] saved[k]).host != o.host || saved[k].username
                != o.username || saved[k].port != o.port,
    ensures
        ({
            let e = with_saved(saved, o)[0];
            &&& e.projects.len() == 0 && e.upload_binary_over_ssh is None
            &&& e.host == o.host && e.username == o.username && e.port == o.port
            &&& e.nickname == o.nickname && e.port_forwards == o.port_forwards
            &&& e.connection_timeout == o.connection_timeout
            &&& o.args matches Some(a) ==> e.args == a
            &&& o.args is None ==> e.args.len() == 0
        }),
        with_saved(saved, o).skip(1) == saved,
{
    first_where_facts(saved, is_server(o.host, o.username, o.port));
    assert(with_saved(saved, o)[0] == saved_entry(saved, o));
    let q = is_other_server(o.host, o.username, o.port);
    nothing_is_left_out(saved, q);
    assert(with_saved(saved, o).skip(1) =~= saved);
}

proof fn nothing_is_left_out<V>(s: Seq<V>, p: spec_fn(V) -> bool)
    requires
        forall|k: int| 0 <= k < s.len() ==> p(#[trigger] s[k]),
    ensures
        s.filter(p) == s,
    decreases s.len(),
{
    reveal(Seq::filter);
    if s.len() > 0 {
        let head = s.drop_last();
        assert forall|k: int| 0 <= k < head.len() implies p(#[trigger] head[k]) by {
            assert(head[k] == s[k]);
        }
        nothing_is_left_out(head, p);
        assert(p(s[s.len() - 1]));
        assert(head.push(s.last()) =~= s);
    } else {
        assert(s.filter(p) =~= s);
    }
}

/// A server that is appended has the address, the arguments, the port forwards
/// and the timeout of the options, and nothing else; a server that was connected
/// to stands first and last.
pub proof fn appended_servers_are_bare(
    s: RemoteSettingsContentView,
    o: SshConnectionOptionsView,
)
    ensures
        ({
            let e = added_entry(o);
            &&& e.host == o.host && e.username == o.username && e.port == o.port
            &&& e.projects.len() == 0 && e.nickname is None && e.upload_binary_over_ssh is None
            &&& e.port_forwards == o.port_forwards
            &&& e.connection_timeout == o.connection_timeout
            &&& o.args matches Some(a) ==> e.args == a
            &&& o.args is None ==> e.args.len() == 0
        }),
        ({
            let new = connected_settings(s, o);
            &&& new.wsl_connections == s.wsl_connections
            &&& new.dev_container_connections == s.dev_container_connections
            &&& new.read_ssh_config == s.read_ssh_config
            &&& new.ssh_connections is Some
            &&& new.ssh_connections->0.last() == added_entry(o)
            &&& new.ssh_connections->0.drop_last() == with_saved(or_none(s.ssh_connections), o)
        }),
{
    let list = with_saved(or_none(s.ssh_connections), o);
    assert(list.push(added_entry(o)).drop_last() =~= list);
}

/// Two containers are the same just where their ids, their engines and their
/// machines are.
pub proof fn keys_tell_containers_apart(
    a: DevContainerConnectionView,
    b: DevContainerConnectionView,
    o: DockerConnectionOptionsView,
)
    ensures
        key_of(a) == key_of(b) <==> a.container_id == b.container_id && a.use_podman == b.use_podman
            && a.host == b.host,
        key_of_options(RemoteConnectionOptionsView::Docker(o)) matches Some(k) && k.container_id
            == o.container_id && k.use_podman == o.use_podman && k.host == devcontainer_host_view(
            o.host,
        ),
        leads_into(o)(a) <==> a.container_id == o.container_id && a.use_podman == o.use_podman
            && docker_host_view(a.host) == o.host,
        forall|r: RemoteConnectionOptionsView|
            !(r is Docker) ==> (#[trigger] key_of_options(r)) is None,
{
}

/// A container that is opened is saved under its name and key, with the folder
/// among its projects and the folder of its machine among those, which is also
/// the last one; the configuration stays where none is given.
pub proof fn opened_container_is_saved(
    list: Seq<DevContainerConnectionView>,
    c: DevContainerConnectionView,
    dir: Seq<char>,
    host_dir: Option<Seq<char>>,
    config: Option<Seq<char>>,
    i: int,
    q: Seq<Seq<char>>,
)
    requires
        0 <= i < list.len(),
        key_of(list[i]) == key_of(c),
        forall|k: int| 0 <= k < i ==> key_of(#[trigger] list[k]) != key_of(c),
    ensures
        ({
            let e = with_dev_container(list, c, dir, host_dir, config)[i];
            &&& e.name == c.name && key_of(e) == key_of(c)
            &&& e.remote_user == list[i].remote_user && e.remote_env == list[i].remote_env
            &&& e.projects.contains(q) <==> list[i].projects.contains(q) || q == seq![dir]
            &&& host_dir matches Some(d) ==> (e.host_projects.contains(q)
                <==> list[i].host_projects.contains(q) || q == seq![d]) && e.last_host_project
                == Some(seq![d])
            &&& host_dir is None ==> e.host_projects == list[i].host_projects
                && e.last_host_project == list[i].last_host_project
            &&& config is Some ==> e.config_path == config
            &&& config is None ==> e.config_path == list[i].config_path
        }),
        forall|j: int|
            0 <= j < list.len() && j != i ==> (#[trigger] with_dev_container(
                list,
                c,
                dir,
                host_dir,
                config,
            )[j]) == list[j],
{
    first_where_is(list, has_key(key_of(c)), i);
    added_is_the_only_new_one(list[i].projects, seq![dir], q);
    if host_dir is Some {
        added_is_the_only_new_one(list[i].host_projects, seq![host_dir->0], q);
    }
}

/// A container that was not saved becomes the first of the list, with what is
/// known of it, the folder and the folder of its machine.
pub proof fn new_container_is_saved_first(
    list: Seq<DevContainerConnectionView>,
    c: DevContainerConnectionView,
    dir: Seq<char>,
    host_dir: Option<Seq<char>>,
    config: Option<Seq<char>>,
    q: Seq<Seq<char>>,
)
    requires
        forall|k: int| 0 <= k < list.len() ==> key_of(#[trigger] list[k]) != key_of(c),
    ensures
        ({
            let new = with_dev_container(list, c, dir, host_dir, config);
            let e = new[0];
            &&& new.skip(1) == list
            &&& e.name == c.name && key_of(e) == key_of(c)
            &&& e.remote_user == c.remote_user && e.remote_env == c.remote_env
            &&& e.projects.contains(q) <==> c.projects.contains(q) || q == seq![dir]
            &&& host_dir matches Some(d) ==> (e.host_projects.contains(q)
                <==> c.host_projects.contains(q) || q == seq![d]) && e.last_host_project == Some(
                seq![d],
            )
            &&& host_dir is None ==> e.host_projects == c.host_projects && e.last_host_project
                == c.last_host_project
            &&& config is Some ==> e.config_path == config
            &&& config is None ==> e.config_path == c.config_path
        }),
{
    first_where_facts(list, has_key(key_of(c)));
    added_is_the_only_new_one(c.projects, seq![dir], q);
    if host_dir is Some {
        added_is_the_only_new_one(c.host_projects, seq![host_dir->0], q);
    }
    assert(with_dev_container(list, c, dir, host_dir, config).skip(1) =~= list);
}

/// An error reports a container as gone just where it says so of some container
/// and holds the id of this one, wherever the two stand.
pub proof fn missing_containers_are_recognised(
    o: DockerConnectionOptionsView,
    a: Seq<char>,
    b: Seq<char>,
    m: Seq<char>,
)
    ensures
        reports_missing(o, a + seq!['N', 'o', ' ', 's', 'u', 'c', 'h', ' ', 'c', 'o', 'n', 't', 'a', 'i',
            'n', 'e', 'r', ':'] + o.container_id + b),
        reports_missing(o, m) ==> has_part(m, o.container_id) && has_part(
            m,
            "No such container:"@,
        ),
        o.name.len() > 0 ==> container_label(o) == o.name,
        o.name.len() == 0 ==> container_label(o) == o.container_id,
{
    reveal_strlit("No such container:");
    let mark = seq!['N', 'o', ' ', 's', 'u', 'c', 'h', ' ', 'c', 'o', 'n', 't', 'a', 'i', 'n', 'e',
        'r', ':'];
    let all = a + mark + o.container_id + b;
    assert("No such container:"@ =~= mark);
    let at = a.len() as int;
    let id = at + mark.len();
    assert(all.subrange(at, at + mark.len()) =~= mark);
    assert(all.subrange(id, id + o.container_id.len()) =~= o.container_id);
    assert(crate::text::occurs_at(all, mark, at));
    assert(crate::text::occurs_at(all, o.container_id, id));
}

/// The folders of the machine come from the first container with the key that
/// has any, and there are none where no such container is saved.
pub proof fn machine_folders_are_found(
    list: Seq<DevContainerConnectionView>,
    key: DevContainerKeyView,
    i: int,
)
    requires
        0 <= i <= list.len(),
        forall|k: int|
            0 <= k < i ==> key_of(#[trigger] list[k]) != key || list[k].host_projects.len() == 0,
    ensures
        i < list.len() && key_of(list[i]) == key && list[i].host_projects.len() > 0
            ==> saved_host_folders(list, key) == Some(list[i].host_projects[0]),
        i == list.len() ==> saved_host_folders(list, key) is None,
{
    let p = |c: DevContainerConnectionView| key_of(c) == key && c.host_projects.len() > 0;
    first_where_facts(list, p);
    if i < list.len() && p(list[i]) {
        first_where_is(list, p, i);
    }
}

/// Sorting touches the projects and nothing else: each connection keeps its
/// place and the same projects, and what the file leaves out stays out.
pub proof fn sorting_keeps_everything(s: RemoteSettingsContentView, i: int, q: Seq<Seq<char>>)
    ensures
        ({
            let new = sorted_content(s);
            &&& new.read_ssh_config == s.read_ssh_config
            &&& new.ssh_connections is Some <==> s.ssh_connections is Some
            &&& new.wsl_connections is Some <==> s.wsl_connections is Some
            &&& new.dev_container_connections is Some <==> s.dev_container_connections is Some
            &&& or_none(new.ssh_connections).len() == or_none(s.ssh_connections).len()
            &&& or_none(new.wsl_connections).len() == or_none(s.wsl_connections).len()
            &&& or_none(new.dev_container_connections).len() == or_none(
                s.dev_container_connections,
            ).len()
            &&& 0 <= i < or_none(s.ssh_connections).len() ==> {
                let a = or_none(s.ssh_connections)[i];
                let b = or_none(new.ssh_connections)[i];
                &&& (SshConnectionView { projects: a.projects, ..b }) == a
                &&& b.projects.contains(q) <==> a.projects.contains(q)
            }
            &&& 0 <= i < or_none(s.wsl_connections).len() ==> {
                let a = or_none(s.wsl_connections)[i];
                let b = or_none(new.wsl_connections)[i];
                &&& (WslConnectionView { projects: a.projects, ..b }) == a
                &&& b.projects.contains(q) <==> a.projects.contains(q)
            }
            &&& 0 <= i < or_none(s.dev_container_connections).len() ==> {
                let a = or_none(s.dev_container_connections)[i];
                let b = or_none(new.dev_container_connections)[i];
                &&& (DevContainerConnectionView {
                    projects: a.projects,
                    host_projects: a.host_projects,
                    ..b
                }) == a
                &&& b.projects.contains(q) <==> a.projects.contains(q)
                &&& b.host_projects.contains(q) <==> a.host_projects.contains(q)
            }
        }),
{
    if 0 <= i < or_none(s.ssh_connections).len() {
        same_projects(or_none(s.ssh_connections)[i].projects, q);
    }
    if 0 <= i < or_none(s.wsl_connections).len() {
        same_projects(or_none(s.wsl_connections)[i].projects, q);
    }
    if 0 <= i < or_none(s.dev_container_connections).len() {
        same_projects(or_none(s.dev_container_connections)[i].projects, q);
        same_projects(or_none(s.dev_container_connections)[i].host_projects, q);
    }
}

proof fn same_projects(list: Seq<Seq<Seq<char>>>, q: Seq<Seq<char>>)
    ensures
        crate::projects::project_set(list).contains(q) <==> list.contains(q),
{
    crate::projects::project_set_ascends(list);
    let all = crate::projects::project_set(list);
    assert(all.contains(q) == all.to_set().contains(q));
    assert(list.contains(q) == list.to_set().contains(q));
}

} // verus!
