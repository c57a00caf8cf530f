//! The list of remote servers: its entries, what tells them apart, what is
//! shown of them and how they are searched.
use crate::connection::{
    bare_ssh_connection, Connection, ConnectionView, DevContainerConnection,
    DevContainerConnectionView, DevContainerHost, DevContainerHostView, RemoteProject,
    SshConnection, SshConnectionView, WslConnection, WslConnectionView,
};
use crate::dev_container::{
    devcontainer_display_config_path, format_devcontainer_host, shown_config, shown_host,
    DevContainerProbe, probe_text,
};
use crate::model::{
    dup_opt, models, models_push, opt_model, same_all, same_opt_model, same_u16, Model,
};
use crate::settings::{RemoteSettings, RemoteSettingsView, ServerIndex};
use crate::ssh_config::{entry_or_blank, SshConfigEntries, SshConfigEntryView};
use crate::text::{
    ascending, ascending_is_unique, copy_opt, copy_text, decimal, decimal_of, has_part, insert_text,
    lowercase, opt_text, same_list, same_opt, same_text, text_contains, texts, texts_push,
    trim_text, trimmed, unicode_lower,
};
use vstd::prelude::*;
use vstd::string::*;

verus! {

/// The lists between which the servers are parted.
#[derive(Clone, Copy, Debug, PartialEq, Eq, Structural)]
pub enum RemoteProjectsTab {
    Ssh,
    DevContainers,
    Wsl,
}

/// An entry of the list of servers.
#[derive(Clone, Debug, PartialEq, Eq)]
pub enum RemoteEntry {
    /// A saved connection, and its place in the settings.
    Project { connection: Connection, index: ServerIndex },
    /// A host of the SSH configuration.
    SshConfig { host: String },
}

/// The model of a [`RemoteEntry`].
#[verifier::ext_equal]
pub enum RemoteEntryView {
    Project { connection: ConnectionView, index: ServerIndex },
    SshConfig { host: Seq<char> },
}

impl View for RemoteEntry {
    type V = RemoteEntryView;

    open spec fn view(&self) -> RemoteEntryView {
        match *self {
            RemoteEntry::Project { connection, index } => RemoteEntryView::Project {
                connection: connection@,
                index,
            },
            RemoteEntry::SshConfig { host } => RemoteEntryView::SshConfig { host: host@ },
        }
    }
}

impl Model for RemoteEntry {
    fn dup(&self) -> (r: Self) {
        match self {
            RemoteEntry::Project { connection, index } => RemoteEntry::Project {
                connection: connection.dup(),
                index: *index,
            },
            RemoteEntry::SshConfig { host } => RemoteEntry::SshConfig { host: copy_text(host) },
        }
    }

    fn same(&self, other: &Self) -> (r: bool) {
        match (self, other) {
            (
                RemoteEntry::Project { connection, index },
                RemoteEntry::Project { connection: connection2, index: index2 },
            ) => connection.same(connection2) && *index == *index2,
            (RemoteEntry::SshConfig { host }, RemoteEntry::SshConfig { host: host2 }) => same_text(
                host.as_str(),
                host2.as_str(),
            ),
            _ => false,
        }
    }
}

/// What tells one entry of the list from another.
#[derive(Clone, Debug, PartialEq, Eq)]
pub enum RemoteEntryKey {
    /// A saved SSH server.
    Ssh { host: String, username: Option<String>, port: Option<u16> },
    /// A saved WSL distribution.
    Wsl { distro: String, user: Option<String> },
    /// A saved development container.
    DevContainer { container_id: String, use_podman: bool, host: Option<DevContainerHost> },
    /// A host of the SSH configuration.
    SshConfig(String),
}

/// The model of a [`RemoteEntryKey`].
#[verifier::ext_equal]
pub enum RemoteEntryKeyView {
    Ssh { host: Seq<char>, username: Option<Seq<char>>, port: Option<u16> },
    Wsl { distro: Seq<char>, user: Option<Seq<char>> },
    DevContainer { container_id: Seq<char>, use_podman: bool, host: Option<DevContainerHostView> },
    SshConfig(Seq<char>),
}

impl View for RemoteEntryKey {
    type V = RemoteEntryKeyView;

    open spec fn view(&self) -> RemoteEntryKeyView {
        match *self {
            RemoteEntryKey::Ssh { host, username, port } => RemoteEntryKeyView::Ssh {
                host: host@,
                username: opt_text(username),
                port: port,
            },
            RemoteEntryKey::Wsl { distro, user } => RemoteEntryKeyView::Wsl {
                distro: distro@,
                user: opt_text(user),
            },
            RemoteEntryKey::DevContainer { container_id, use_podman, host } => RemoteEntryKeyView::DevContainer {
                container_id: container_id@,
                use_podman: use_podman,
                host: opt_model(host),
            },
            RemoteEntryKey::SshConfig(x) => RemoteEntryKeyView::SshConfig(x@),
        }
    }
}

impl Model for RemoteEntryKey {
    fn dup(&self) -> (r: Self) {
        match self {
            RemoteEntryKey::Ssh { host, username, port } => RemoteEntryKey::Ssh {
                host: copy_text(host),
                username: copy_opt(username),
                port: *port,
            },
            RemoteEntryKey::Wsl { distro, user } => RemoteEntryKey::Wsl {
                distro: copy_text(distro),
                user: copy_opt(user),
            },
            RemoteEntryKey::DevContainer { container_id, use_podman, host } => RemoteEntryKey::DevContainer {
                container_id: copy_text(container_id),
                use_podman: *use_podman,
                host: dup_opt(host),
            },
            RemoteEntryKey::SshConfig(x) => RemoteEntryKey::SshConfig(copy_text(x)),
        }
    }

    fn same(&self, other: &Self) -> (r: bool) {
        match (self, other) {
            (
                RemoteEntryKey::Ssh { host, username, port },
                RemoteEntryKey::Ssh { host: host2, username: username2, port: port2 },
            ) => {
                same_text(host.as_str(), host2.as_str())
                    && same_opt(username, username2)
                    && same_u16(*port, *port2)
            },
            (
                RemoteEntryKey::Wsl { distro, user },
                RemoteEntryKey::Wsl { distro: distro2, user: user2 },
            ) => {
                same_text(distro.as_str(), distro2.as_str())
                    && same_opt(user, user2)
            },
            (
                RemoteEntryKey::DevContainer { container_id, use_podman, host },
                RemoteEntryKey::DevContainer { container_id: container_id2, use_podman: use_podman2, host: host2 },
            ) => {
                same_text(container_id.as_str(), container_id2.as_str())
                    && *use_podman == *use_podman2
                    && same_opt_model(host, host2)
            },
            (RemoteEntryKey::SshConfig(x), RemoteEntryKey::SshConfig(x2)) => same_text(x.as_str(), x2.as_str()),
            _ => false,
        }
    }
}

/// What tells an entry from the others.
pub open spec fn entry_key(e: RemoteEntryView) -> RemoteEntryKeyView {
    match e {
        RemoteEntryView::Project { connection, index } => match connection {
            ConnectionView::Ssh(c) => RemoteEntryKeyView::Ssh {
                host: c.host,
                username: c.username,
                port: c.port,
            },
            ConnectionView::Wsl(c) => RemoteEntryKeyView::Wsl { distro: c.distro_name, user: c.user },
            ConnectionView::DevContainer(c) => RemoteEntryKeyView::DevContainer {
                container_id: c.container_id,
                use_podman: c.use_podman,
                host: c.host,
            },
        },
        RemoteEntryView::SshConfig { host } => RemoteEntryKeyView::SshConfig(host),
    }
}

impl RemoteEntryKey {
    /// What tells an entry from the others.
    pub fn from_entry(entry: &RemoteEntry) -> (r: Self)
        ensures
            r@ == entry_key(entry@),
    {
        match entry {
            RemoteEntry::Project { connection, index } => match connection {
                Connection::Ssh(c) => RemoteEntryKey::Ssh {
                    host: copy_text(&c.host),
                    username: copy_opt(&c.username),
                    port: c.port,
                },
                Connection::Wsl(c) => RemoteEntryKey::Wsl {
                    distro: copy_text(&c.distro_name),
                    user: copy_opt(&c.user),
                },
                Connection::DevContainer(c) => RemoteEntryKey::DevContainer {
                    container_id: copy_text(&c.container_id),
                    use_podman: c.use_podman,
                    host: dup_opt(&c.host),
                },
            },
            RemoteEntry::SshConfig { host } => RemoteEntryKey::SshConfig(copy_text(host)),
        }
    }

    /// Whether an entry is the one that the key tells from the others. An entry
    /// is always matched by its own key, and by no other.
    pub fn matches(&self, entry: &RemoteEntry) -> (r: bool)
        ensures
            r == (self@ == entry_key(entry@)),
    {
        match (self, entry) {
            (
                RemoteEntryKey::Ssh { host, username, port },
                RemoteEntry::Project { connection: Connection::Ssh(c), index },
            ) => same_text(host.as_str(), c.host.as_str()) && same_opt(username, &c.username)
                && same_u16(*port, c.port),
            (
                RemoteEntryKey::Wsl { distro, user },
                RemoteEntry::Project { connection: Connection::Wsl(c), index },
            ) => same_text(distro.as_str(), c.distro_name.as_str()) && same_opt(user, &c.user),
            (
                RemoteEntryKey::DevContainer { container_id, use_podman, host },
                RemoteEntry::Project { connection: Connection::DevContainer(c), index },
            ) => same_text(container_id.as_str(), c.container_id.as_str()) && *use_podman
                == c.use_podman && same_opt_model(host, &c.host),
            (RemoteEntryKey::SshConfig(host), RemoteEntry::SshConfig { host: other }) => same_text(
                host.as_str(),
                other.as_str(),
            ),
            _ => false,
        }
    }
}

/// The list on which an entry stands.
pub open spec fn tab_of(e: RemoteEntryView) -> RemoteProjectsTab {
    match e {
        RemoteEntryView::Project { connection, index } => match connection {
            ConnectionView::Ssh(_) => RemoteProjectsTab::Ssh,
            ConnectionView::Wsl(_) => RemoteProjectsTab::Wsl,
            ConnectionView::DevContainer(_) => RemoteProjectsTab::DevContainers,
        },
        RemoteEntryView::SshConfig { host } => RemoteProjectsTab::Ssh,
    }
}

/// The connection of an entry: the saved one, or one to the bare host.
pub open spec fn entry_connection(e: RemoteEntryView) -> ConnectionView {
    match e {
        RemoteEntryView::Project { connection, index } => connection,
        RemoteEntryView::SshConfig { host } => ConnectionView::Ssh(bare_ssh_connection(host)),
    }
}

/// The projects of an entry.
pub open spec fn entry_projects(e: RemoteEntryView) -> Seq<Seq<Seq<char>>> {
    match entry_connection(e) {
        ConnectionView::Ssh(c) => c.projects,
        ConnectionView::Wsl(c) => c.projects,
        ConnectionView::DevContainer(c) => c.projects,
    }
}

/// The pictures beside entries.
#[derive(Clone, Copy, Debug, PartialEq, Eq, Structural)]
pub enum EntryIcon {
    Server,
    Linux,
    Box,
}

/// What the row of an entry shows: its picture, its name and a remark.
pub open spec fn row_labels(e: RemoteEntryView) -> (EntryIcon, Seq<char>, Option<Seq<char>>) {
    match e {
        RemoteEntryView::Project { connection, index } => match connection {
            ConnectionView::Ssh(c) => match c.nickname {
                Some(name) => (EntryIcon::Server, name, Some("("@ + c.host + ")"@)),
                None => (EntryIcon::Server, c.host, None),
            },
            ConnectionView::Wsl(c) => (EntryIcon::Linux, c.distro_name, None),
            ConnectionView::DevContainer(c) => (
                EntryIcon::Box,
                c.name,
                Some(
                    match shown_config(c) {
                        Some(path) => shown_host(c.host) + " • "@ + path,
                        None => shown_host(c.host),
                    },
                ),
            ),
        },
        RemoteEntryView::SshConfig { host } => (EntryIcon::Server, host, Some("SSH config"@)),
    }
}

/// What the heading of an entry shows: its name, its nickname, and whether it
/// is a WSL distribution or a development container.
pub open spec fn header_labels(e: RemoteEntryView) -> (Seq<char>, Option<Seq<char>>, bool, bool) {
    match e {
        RemoteEntryView::Project { connection, index } => match connection {
            ConnectionView::Ssh(c) => (c.host, c.nickname, false, false),
            ConnectionView::Wsl(c) => (c.distro_name, None, true, false),
            ConnectionView::DevContainer(c) => (c.name, None, false, true),
        },
        RemoteEntryView::SshConfig { host } => (host, None, false, false),
    }
}

impl RemoteEntry {
    /// Whether the entry comes from the settings.
    pub fn is_from_zed(&self) -> (r: bool)
        ensures
            r == (self@ is Project),
    {
        matches!(self, RemoteEntry::Project { .. })
    }

    /// Whether the entry has options that can be viewed.
    pub fn can_configure(&self) -> (r: bool)
        ensures
            r == (self@ is Project),
    {
        matches!(self, RemoteEntry::Project { .. })
    }

    /// The list on which the entry stands.
    pub fn tab(&self) -> (r: RemoteProjectsTab)
        ensures
            r == tab_of(self@),
    {
        match self {
            RemoteEntry::Project { connection, index } => match connection {
                Connection::Ssh(_) => RemoteProjectsTab::Ssh,
                Connection::Wsl(_) => RemoteProjectsTab::Wsl,
                Connection::DevContainer(_) => RemoteProjectsTab::DevContainers,
            },
            RemoteEntry::SshConfig { host } => RemoteProjectsTab::Ssh,
        }
    }

    /// Whether the entry stands on a list.
    pub fn matches_tab(&self, tab: RemoteProjectsTab) -> (r: bool)
        ensures
            r == (tab_of(self@) == tab),
    {
        self.tab() == tab
    }

    /// The connection of the entry.
    pub fn connection(&self) -> (r: Connection)
        ensures
            r@ == entry_connection(self@),
    {
        match self {
            RemoteEntry::Project { connection, index } => connection.dup(),
            RemoteEntry::SshConfig { host } => {
                let bare = SshConnection {
                    host: copy_text(host),
                    username: None,
                    port: None,
                    args: Vec::new(),
                    projects: Vec::new(),
                    nickname: None,
                    upload_binary_over_ssh: None,
                    port_forwards: None,
                    connection_timeout: None,
                };
                assert(bare@ =~= bare_ssh_connection(host@));
                Connection::Ssh(bare)
            },
        }
    }

    /// What the row of the entry shows.
    pub fn server_row_labels(&self) -> (r: (EntryIcon, String, Option<String>))
        ensures
            (r.0, r.1@, opt_text(r.2)) == row_labels(self@),
    {
        match self {
            RemoteEntry::Project { connection, index } => match connection {
                Connection::Ssh(c) => match &c.nickname {
                    Some(name) => {
                        let mut remark = "(".to_owned();
                        remark.append(c.host.as_str());
                        remark.append(")");
                        (EntryIcon::Server, name.clone(), Some(remark))
                    },
                    None => (EntryIcon::Server, c.host.clone(), None),
                },
                Connection::Wsl(c) => (EntryIcon::Linux, c.distro_name.clone(), None),
                Connection::DevContainer(c) => {
                    let mut remark = format_devcontainer_host(&c.host);
                    if let Some(path) = devcontainer_display_config_path(c) {
                        remark.append(" • ");
                        remark.append(path.as_str());
                    }
                    (EntryIcon::Box, c.name.clone(), Some(remark))
                },
            },
            RemoteEntry::SshConfig { host } => (
                EntryIcon::Server,
                host.clone(),
                Some("SSH config".to_owned()),
            ),
        }
    }

    /// What the heading of the entry shows.
    pub fn header_info(&self) -> (r: (String, Option<String>, bool, bool))
        ensures
            (r.0@, opt_text(r.1), r.2, r.3) == header_labels(self@),
    {
        match self {
            RemoteEntry::Project { connection, index } => match connection {
                Connection::Ssh(c) => (c.host.clone(), copy_opt(&c.nickname), false, false),
                Connection::Wsl(c) => (c.distro_name.clone(), None, true, false),
                Connection::DevContainer(c) => (c.name.clone(), None, false, true),
            },
            RemoteEntry::SshConfig { host } => (host.clone(), None, false, false),
        }
    }
}

/// What is shown where the mouse rests on the row of a development container.
pub fn devcontainer_tooltip(entry: &RemoteEntry, probe: DevContainerProbe) -> (r: String)
    ensures
        ({
            let (icon, label, remark) = row_labels(entry@);
            let head = label + " ("@ + probe_text(probe) + ")"@;
            r@ == match remark {
                Some(aux) => head + " - "@ + aux,
                None => head,
            }
        }),
{
    let (icon, label, remark) = entry.server_row_labels();
    let mut out = label;
    out.append(" (");
    out.append(probe.text());
    out.append(")");
    if let Some(aux) = remark {
        out.append(" - ");
        out.append(aux.as_str());
    }
    out
}

/// What an empty list says.
pub open spec fn empty_text(tab: RemoteProjectsTab) -> Seq<char> {
    match tab {
        RemoteProjectsTab::Ssh => "No SSH servers registered yet."@,
        RemoteProjectsTab::DevContainers => "No dev containers registered yet."@,
        RemoteProjectsTab::Wsl => "No WSL distros registered yet."@,
    }
}

impl RemoteProjectsTab {
    /// What an empty list says.
    pub fn empty_message(self) -> (r: &'static str)
        ensures
            r@ == empty_text(self),
    {
        match self {
            RemoteProjectsTab::Ssh => "No SSH servers registered yet.",
            RemoteProjectsTab::DevContainers => "No dev containers registered yet.",
            RemoteProjectsTab::Wsl => "No WSL distros registered yet.",
        }
    }
}

// ---------------------------------------------------------------------------
// Searching

/// A text with a space and another text behind it, where there is one.
pub open spec fn followed_by(s: Seq<char>, more: Option<Seq<char>>) -> Seq<char> {
    match more {
        Some(m) => s.push(' ') + m,
        None => s,
    }
}

/// The digits of an optional port.
pub open spec fn port_text(port: Option<u16>) -> Option<Seq<char>> {
    match port {
        Some(p) => Some(decimal(p as nat)),
        None => None,
    }
}

/// A text with the paths of a project behind it.
pub open spec fn followed_by_paths(s: Seq<char>, paths: Seq<Seq<char>>) -> Seq<char>
    decreases paths.len(),
{
    if paths.len() == 0 {
        s
    } else {
        followed_by(followed_by_paths(s, paths.drop_last()), Some(paths.last()))
    }
}

/// A text with the paths of all projects behind it.
pub open spec fn followed_by_projects(s: Seq<char>, projects: Seq<Seq<Seq<char>>>) -> Seq<char>
    decreases projects.len(),
{
    if projects.len() == 0 {
        s
    } else {
        followed_by_paths(followed_by_projects(s, projects.drop_last()), projects.last())
    }
}

/// The text in which an entry is searched: its names and numbers and the paths
/// of its projects, with spaces between them. Of a host of the SSH
/// configuration it holds what the configuration says of it.
pub open spec fn search_text(
    e: RemoteEntryView,
    entries: Map<Seq<char>, SshConfigEntryView>,
) -> Seq<char> {
    match e {
        RemoteEntryView::Project { connection, index } => {
            let names = match connection {
                ConnectionView::Ssh(c) => followed_by(
                    followed_by(followed_by(c.host, c.nickname), c.username),
                    port_text(c.port),
                ),
                ConnectionView::Wsl(c) => followed_by(c.distro_name, c.user),
                ConnectionView::DevContainer(c) => followed_by(c.name, Some(c.container_id)),
            };
            followed_by_projects(names, entry_projects(e))
        },
        RemoteEntryView::SshConfig { host } => {
            let entry = entry_or_blank(entries, host);
            followed_by(followed_by(followed_by(host, entry.hostname), entry.user), port_text(entry.port))
        },
    }
}

fn follow(text: &mut String, more: &Option<String>)
    ensures
        final(text)@ == followed_by(old(text)@, opt_text(*more)),
{
    if let Some(m) = more {
        text.push(' ');
        text.append(m.as_str());
    }
}

fn follow_port(text: &mut String, port: Option<u16>)
    ensures
        final(text)@ == followed_by(old(text)@, port_text(port)),
{
    if let Some(p) = port {
        text.push(' ');
        text.append(decimal_of(p as u64).as_str());
    }
}

fn follow_projects(text: &mut String, projects: &Vec<RemoteProject>)
    ensures
        final(text)@ == followed_by_projects(old(text)@, models(projects@)),
{
    let ghost start = text@;
    let ghost all = models(projects@);
    let mut i: usize = 0;
    while i < projects.len()
        invariant
            i <= projects.len(),
            all == models(projects@),
            text@ == followed_by_projects(start, all.take(i as int)),
        decreases projects.len() - i,
    {
        let ghost before = text@;
        let ghost paths = texts(projects@[i as int].paths@);
        let mut j: usize = 0;
        while j < projects[i as usize].paths.len()
            invariant
                i < projects.len(),
                j <= projects@[i as int].paths.len(),
                paths == texts(projects@[i as int].paths@),
                text@ == followed_by_paths(before, paths.take(j as int)),
            decreases projects@[i as int].paths.len() - j,
        {
            text.push(' ');
            text.append(projects[i].paths[j].as_str());
            j = j + 1;
            proof {
                assert(paths.take(j as int).drop_last() =~= paths.take(j - 1));
                assert(paths.take(j as int).last() == projects@[i as int].paths@[j - 1]@);
            }
        }
        i = i + 1;
        proof {
            assert(paths.take(j as int) =~= paths);
            assert(all.take(i as int).drop_last() =~= all.take(i - 1));
            assert(all.take(i as int).last() == paths);
        }
    }
    assert(all.take(i as int) =~= all);
}

/// The text in which an entry is searched.
pub fn entry_search_text(entry: &RemoteEntry, entries: &SshConfigEntries) -> (r: String)
    requires
        entries.wf(),
    ensures
        r@ == search_text(entry@, entries@),
{
    match entry {
        RemoteEntry::Project { connection, index } => match connection {
            Connection::Ssh(c) => {
                let mut out = c.host.clone();
                follow(&mut out, &c.nickname);
                follow(&mut out, &c.username);
                follow_port(&mut out, c.port);
                follow_projects(&mut out, &c.projects);
                out
            },
            Connection::Wsl(c) => {
                let mut out = c.distro_name.clone();
                follow(&mut out, &c.user);
                follow_projects(&mut out, &c.projects);
                out
            },
            Connection::DevContainer(c) => {
                let mut out = c.name.clone();
                out.push(' ');
                out.append(c.container_id.as_str());
                follow_projects(&mut out, &c.projects);
                out
            },
        },
        RemoteEntry::SshConfig { host } => {
            let mut out = host.clone();
            if let Some(e) = entries.get(host.as_str()) {
                follow(&mut out, &e.hostname);
                follow(&mut out, &e.user);
                follow_port(&mut out, e.port);
            }
            out
        },
    }
}

/// Whether a search finds the given text, which is in lower case: an empty
/// search finds every text.
pub open spec fn finds(query: Seq<char>, low: Seq<char>) -> bool {
    query.len() == 0 || has_part(low, query)
}

/// Whether a search finds the given text, which is in lower case.
pub fn query_finds(query: &str, low: &str) -> (r: bool)
    ensures
        r == finds(query@, low@),
{
    query.is_empty() || text_contains(low, query)
}

/// Whether a search, which is in lower case, finds an entry.
pub fn matches_search_query(entry: &RemoteEntry, query: &str, entries: &SshConfigEntries) -> (r: bool)
    requires
        entries.wf(),
    ensures
        r == finds(query@, unicode_lower(search_text(entry@, entries@))),
{
    let low = lowercase(entry_search_text(entry, entries).as_str());
    query_finds(query, low.as_str())
}

/// A search as it is compared: without outer space and in lower case.
pub fn normalized_search_query(text: &str) -> (r: String)
    ensures
        r@ == unicode_lower(trimmed(text@)),
{
    lowercase(trim_text(text).as_str())
}

// ---------------------------------------------------------------------------
// The list

/// The entries of the saved SSH servers.
pub open spec fn ssh_entries(list: Seq<SshConnectionView>) -> Seq<RemoteEntryView> {
    Seq::new(
        list.len(),
        |i: int|
            RemoteEntryView::Project {
                connection: ConnectionView::Ssh(list[i]),
                index: ServerIndex::Ssh(i as usize),
            },
    )
}

/// The entries of the saved WSL distributions.
pub open spec fn wsl_entries(list: Seq<WslConnectionView>) -> Seq<RemoteEntryView> {
    Seq::new(
        list.len(),
        |i: int|
            RemoteEntryView::Project {
                connection: ConnectionView::Wsl(list[i]),
                index: ServerIndex::Wsl(i as usize),
            },
    )
}

/// The entries of the saved development containers.
pub open spec fn dev_entries(list: Seq<DevContainerConnectionView>) -> Seq<RemoteEntryView> {
    Seq::new(
        list.len(),
        |i: int|
            RemoteEntryView::Project {
                connection: ConnectionView::DevContainer(list[i]),
                index: ServerIndex::DevContainer(i as usize),
            },
    )
}

/// The entries of hosts of the SSH configuration.
pub open spec fn config_entry_list(hosts: Seq<Seq<char>>) -> Seq<RemoteEntryView> {
    Seq::new(hosts.len(), |i: int| RemoteEntryView::SshConfig { host: hosts[i] })
}

/// Picks the hosts under which no SSH server is saved.
pub open spec fn not_saved(list: Seq<SshConnectionView>) -> spec_fn(Seq<char>) -> bool {
    |h: Seq<char>| !(exists|i: int| 0 <= i < list.len() && (#[trigger] list[i]).host == h)
}

/// The list of servers: the saved ones in the order of the settings, then,
/// where the settings ask for them, the hosts of the SSH configuration under
/// which no server is saved.
pub open spec fn server_list(s: RemoteSettingsView, hosts: Seq<Seq<char>>) -> Seq<RemoteEntryView> {
    let saved = ssh_entries(s.ssh_connections) + wsl_entries(s.wsl_connections) + dev_entries(
        s.dev_container_connections,
    );
    if s.read_ssh_config {
        saved + config_entry_list(hosts.filter(not_saved(s.ssh_connections)))
    } else {
        saved
    }
}

/// Whether an SSH server is saved under a host.
pub(crate) fn host_is_saved(list: &Vec<SshConnection>, host: &str) -> (r: bool)
    ensures
        r == !not_saved(models(list@))(host@),
{
    let mut i: usize = 0;
    while i < list.len()
        invariant
            i <= list.len(),
            forall|k: int| 0 <= k < i ==> (#[trigger] models(list@)[k]).host != host@,
        decreases list.len() - i,
    {
        if same_text(list[i].host.as_str(), host) {
            assert(models(list@)[i as int].host == host@);
            return true;
        }
        i = i + 1;
    }
    false
}

/// The list of servers.
pub fn default_servers(settings: &RemoteSettings, ssh_config_servers: &Vec<String>) -> (r: Vec<
    RemoteEntry,
>)
    ensures
        models(r@) == server_list(settings@, texts(ssh_config_servers@)),
{
    broadcast use models_push;

    let mut out: Vec<RemoteEntry> = Vec::new();
    let ghost ssh = ssh_entries(settings@.ssh_connections);
    let ghost wsl = wsl_entries(settings@.wsl_connections);
    let ghost dev = dev_entries(settings@.dev_container_connections);
    let mut i: usize = 0;
    assert(models(out@) =~= ssh.take(0));
    while i < settings.ssh_connections.len()
        invariant
            i <= settings.ssh_connections.len(),
            ssh == ssh_entries(settings@.ssh_connections),
            models(out@) == ssh.take(i as int),
        decreases settings.ssh_connections.len() - i,
    {
        out.push(
            RemoteEntry::Project {
                connection: Connection::Ssh(settings.ssh_connections[i].dup()),
                index: ServerIndex::Ssh(i),
            },
        );
        i = i + 1;
        assert(ssh.take(i as int) =~= ssh.take(i - 1).push(ssh[i - 1]));
    }
    assert(ssh.take(i as int) =~= ssh);
    let mut i: usize = 0;
    assert(models(out@) =~= ssh + wsl.take(0));
    while i < settings.wsl_connections.len()
        invariant
            i <= settings.wsl_connections.len(),
            wsl == wsl_entries(settings@.wsl_connections),
            models(out@) == ssh + wsl.take(i as int),
        decreases settings.wsl_connections.len() - i,
    {
        out.push(
            RemoteEntry::Project {
                connection: Connection::Wsl(settings.wsl_connections[i].dup()),
                index: ServerIndex::Wsl(i),
            },
        );
        i = i + 1;
        assert(ssh + wsl.take(i as int) =~= (ssh + wsl.take(i - 1)).push(wsl[i - 1]));
    }
    assert(wsl.take(i as int) =~= wsl);
    let mut i: usize = 0;
    assert(models(out@) =~= ssh + wsl + dev.take(0));
    while i < settings.dev_container_connections.len()
        invariant
            i <= settings.dev_container_connections.len(),
            dev == dev_entries(settings@.dev_container_connections),
            models(out@) == ssh + wsl + dev.take(i as int),
        decreases settings.dev_container_connections.len() - i,
    {
        out.push(
            RemoteEntry::Project {
                connection: Connection::DevContainer(settings.dev_container_connections[i].dup()),
                index: ServerIndex::DevContainer(i),
            },
        );
        i = i + 1;
        assert(ssh + wsl + dev.take(i as int) =~= (ssh + wsl + dev.take(i - 1)).push(dev[i - 1]));
    }
    assert(dev.take(i as int) =~= dev);
    if settings.read_ssh_config {
        let ghost saved = ssh + wsl + dev;
        let ghost hosts = texts(ssh_config_servers@);
        let ghost keep = not_saved(settings@.ssh_connections);
        let mut i: usize = 0;
        proof {
            reveal(Seq::filter);
            assert(models(out@) =~= saved + config_entry_list(hosts.take(0).filter(keep)));
        }
        while i < ssh_config_servers.len()
            invariant
                i <= ssh_config_servers.len(),
                hosts == texts(ssh_config_servers@),
                keep == not_saved(settings@.ssh_connections),
                models(out@) == saved + config_entry_list(hosts.take(i as int).filter(keep)),
            decreases ssh_config_servers.len() - i,
        {
            let ghost head = hosts.take(i as int);
            proof {
                assert(hosts.take(i + 1) =~= head.push(hosts[i as int]));
                crate::text::filter_push(head, hosts[i as int], keep);
            }
            if !host_is_saved(&settings.ssh_connections, ssh_config_servers[i].as_str()) {
                out.push(RemoteEntry::SshConfig { host: ssh_config_servers[i].clone() });
                proof {
                    let kept = head.filter(keep);
                    assert(config_entry_list(kept.push(hosts[i as int])) =~= config_entry_list(
                        kept,
                    ).push(RemoteEntryView::SshConfig { host: hosts[i as int] }));
                    assert(saved + config_entry_list(kept.push(hosts[i as int])) =~= (saved
                        + config_entry_list(kept)).push(
                        RemoteEntryView::SshConfig { host: hosts[i as int] },
                    ));
                }
            }
            i = i + 1;
        }
        assert(hosts.take(i as int) =~= hosts);
    }
    out
}

/// The saved SSH servers of a list of entries.
pub open spec fn listed_ssh(list: Seq<RemoteEntryView>) -> Seq<SshConnectionView>
    decreases list.len(),
{
    if list.len() == 0 {
        Seq::empty()
    } else {
        match list.last() {
            RemoteEntryView::Project { connection: ConnectionView::Ssh(c), index } => listed_ssh(
                list.drop_last(),
            ).push(c),
            _ => listed_ssh(list.drop_last()),
        }
    }
}

/// The saved WSL distributions of a list of entries.
pub open spec fn listed_wsl(list: Seq<RemoteEntryView>) -> Seq<WslConnectionView>
    decreases list.len(),
{
    if list.len() == 0 {
        Seq::empty()
    } else {
        match list.last() {
            RemoteEntryView::Project { connection: ConnectionView::Wsl(c), index } => listed_wsl(
                list.drop_last(),
            ).push(c),
            _ => listed_wsl(list.drop_last()),
        }
    }
}

/// The saved development containers of a list of entries.
pub open spec fn listed_dev(list: Seq<RemoteEntryView>) -> Seq<DevContainerConnectionView>
    decreases list.len(),
{
    if list.len() == 0 {
        Seq::empty()
    } else {
        match list.last() {
            RemoteEntryView::Project { connection: ConnectionView::DevContainer(c), index } =>
                listed_dev(list.drop_last()).push(c),
            _ => listed_dev(list.drop_last()),
        }
    }
}

/// The hosts of the SSH configuration in a list of entries.
pub open spec fn listed_hosts_of(list: Seq<RemoteEntryView>) -> Seq<Seq<char>>
    decreases list.len(),
{
    if list.len() == 0 {
        Seq::empty()
    } else {
        match list.last() {
            RemoteEntryView::SshConfig { host } => listed_hosts_of(list.drop_last()).push(host),
            _ => listed_hosts_of(list.drop_last()),
        }
    }
}

/// Whether a list of servers is out of date: a list of saved connections has
/// changed, or, where the SSH configuration is read, the hosts that it adds.
pub open spec fn is_stale(
    list: Seq<RemoteEntryView>,
    s: RemoteSettingsView,
    hosts: Seq<Seq<char>>,
) -> bool {
    ||| s.ssh_connections != listed_ssh(list)
    ||| s.wsl_connections != listed_wsl(list)
    ||| s.dev_container_connections != listed_dev(list)
    ||| s.read_ssh_config && listed_hosts_of(list).to_set() != hosts.filter(
        not_saved(listed_ssh(list)),
    ).to_set()
}

struct ListedParts {
    ssh: Vec<SshConnection>,
    wsl: Vec<WslConnection>,
    dev: Vec<DevContainerConnection>,
    hosts: Vec<String>,
}

fn part_list(list: &Vec<RemoteEntry>) -> (r: ListedParts)
    ensures
        models(r.ssh@) == listed_ssh(models(list@)),
        models(r.wsl@) == listed_wsl(models(list@)),
        models(r.dev@) == listed_dev(models(list@)),
        ascending(texts(r.hosts@)),
        texts(r.hosts@).to_set() == listed_hosts_of(models(list@)).to_set(),
{
    broadcast use models_push;

    let ghost all = models(list@);
    let mut ssh: Vec<SshConnection> = Vec::new();
    let mut wsl: Vec<WslConnection> = Vec::new();
    let mut dev: Vec<DevContainerConnection> = Vec::new();
    let mut hosts: Vec<String> = Vec::new();
    let mut i: usize = 0;
    proof {
        assert(models(ssh@) =~= Seq::empty());
        assert(models(wsl@) =~= Seq::empty());
        assert(models(dev@) =~= Seq::empty());
        assert(texts(hosts@) =~= Seq::empty());
    }
    while i < list.len()
        invariant
            i <= list.len(),
            all == models(list@),
            models(ssh@) == listed_ssh(all.take(i as int)),
            models(wsl@) == listed_wsl(all.take(i as int)),
            models(dev@) == listed_dev(all.take(i as int)),
            ascending(texts(hosts@)),
            texts(hosts@).to_set() == listed_hosts_of(all.take(i as int)).to_set(),
        decreases list.len() - i,
    {
        let ghost head = all.take(i + 1);
        proof {
            assert(head.drop_last() =~= all.take(i as int));
            assert(head.last() == list@[i as int]@);
        }
        match &list[i] {
            RemoteEntry::Project { connection: Connection::Ssh(c), index } => ssh.push(c.dup()),
            RemoteEntry::Project { connection: Connection::Wsl(c), index } => wsl.push(c.dup()),
            RemoteEntry::Project { connection: Connection::DevContainer(c), index } => dev.push(
                c.dup(),
            ),
            RemoteEntry::SshConfig { host } => {
                insert_text(&mut hosts, host.clone());
                proof {
                    crate::ssh_config::push_to_set(listed_hosts_of(all.take(i as int)), host@);
                }
            },
        }
        i = i + 1;
    }
    assert(all.take(i as int) =~= all);
    ListedParts { ssh, wsl, dev, hosts }
}

/// Whether a list of servers is out of date.
pub fn should_rebuild(
    list: &Vec<RemoteEntry>,
    settings: &RemoteSettings,
    ssh_config_servers: &Vec<String>,
) -> (r: bool)
    requires
        ascending(texts(ssh_config_servers@)),
    ensures
        r == is_stale(models(list@), settings@, texts(ssh_config_servers@)),
{
    let parts = part_list(list);
    if !same_all(&settings.ssh_connections, &parts.ssh) || !same_all(
        &settings.wsl_connections,
        &parts.wsl,
    ) || !same_all(&settings.dev_container_connections, &parts.dev) {
        return true;
    }
    if !settings.read_ssh_config {
        return false;
    }
    let ghost hosts = texts(ssh_config_servers@);
    let ghost keep = not_saved(listed_ssh(models(list@)));
    let mut expected: Vec<String> = Vec::new();
    let mut i: usize = 0;
    proof {
        reveal(Seq::filter);
        assert(texts(expected@) =~= hosts.take(0).filter(keep));
    }
    while i < ssh_config_servers.len()
        invariant
            i <= ssh_config_servers.len(),
            hosts == texts(ssh_config_servers@),
            keep == not_saved(models(parts.ssh@)),
            texts(expected@) == hosts.take(i as int).filter(keep),
        decreases ssh_config_servers.len() - i,
    {
        broadcast use texts_push;

        proof {
            assert(hosts.take(i + 1) =~= hosts.take(i as int).push(hosts[i as int]));
            crate::text::filter_push(hosts.take(i as int), hosts[i as int], keep);
        }
        if !host_is_saved(&parts.ssh, ssh_config_servers[i].as_str()) {
            expected.push(ssh_config_servers[i].clone());
        }
        i = i + 1;
    }
    proof {
        assert(hosts.take(i as int) =~= hosts);
        filter_ascends(hosts, keep);
        if texts(parts.hosts@).to_set() == texts(expected@).to_set() {
            ascending_is_unique(texts(parts.hosts@), texts(expected@));
        }
    }
    !same_list(&parts.hosts, &expected)
}

/// What a filter keeps of an ascending list ascends.
pub proof fn filter_ascends(list: Seq<Seq<char>>, p: spec_fn(Seq<char>) -> bool)
    requires
        ascending(list),
    ensures
        ascending(list.filter(p)),
    decreases list.len(),
{
    reveal(Seq::filter);
    if list.len() > 0 {
        let head = list.drop_last();
        assert(ascending(head)) by {
            assert forall|i: int, j: int| 0 <= i < j < head.len() implies crate::text::text_before(
                head[i],
                head[j],
            ) by {
                assert(crate::text::text_before(list[i], list[j]));
            }
        }
        filter_ascends(head, p);
        let kept = head.filter(p);
        let all = list.filter(p);
        if p(list.last()) {
            assert forall|i: int, j: int| 0 <= i < j < all.len() implies crate::text::text_before(
                all[i],
                all[j],
            ) by {
                if j == kept.len() {
                    crate::settings::filter_member(head, p, i);
                    let k = choose|k: int| 0 <= k < head.len() && head[k] == kept[i];
                    assert(crate::text::text_before(list[k], list[list.len() - 1]));
                } else {
                    assert(crate::text::text_before(kept[i], kept[j]));
                }
            }
        }
    }
}

proof fn parts_of_sum(a: Seq<RemoteEntryView>, b: Seq<RemoteEntryView>)
    ensures
        listed_ssh(a + b) == listed_ssh(a) + listed_ssh(b),
        listed_wsl(a + b) == listed_wsl(a) + listed_wsl(b),
        listed_dev(a + b) == listed_dev(a) + listed_dev(b),
        listed_hosts_of(a + b) == listed_hosts_of(a) + listed_hosts_of(b),
    decreases b.len(),
{
    let all = a + b;
    if b.len() == 0 {
        assert(all =~= a);
        assert(listed_ssh(a) + listed_ssh(b) =~= listed_ssh(a));
        assert(listed_wsl(a) + listed_wsl(b) =~= listed_wsl(a));
        assert(listed_dev(a) + listed_dev(b) =~= listed_dev(a));
        assert(listed_hosts_of(a) + listed_hosts_of(b) =~= listed_hosts_of(a));
    } else {
        let head = b.drop_last();
        parts_of_sum(a, head);
        assert(all.drop_last() =~= a + head);
        assert(all.last() == b.last());
        assert(listed_ssh(all) =~= listed_ssh(a) + listed_ssh(b));
        assert(listed_wsl(all) =~= listed_wsl(a) + listed_wsl(b));
        assert(listed_dev(all) =~= listed_dev(a) + listed_dev(b));
        assert(listed_hosts_of(all) =~= listed_hosts_of(a) + listed_hosts_of(b));
    }
}

proof fn parts_of_ssh(list: Seq<SshConnectionView>)
    ensures
        listed_ssh(ssh_entries(list)) == list,
        listed_wsl(ssh_entries(list)) == Seq::<WslConnectionView>::empty(),
        listed_dev(ssh_entries(list)) == Seq::<DevContainerConnectionView>::empty(),
        listed_hosts_of(ssh_entries(list)) == Seq::<Seq<char>>::empty(),
    decreases list.len(),
{
    if list.len() > 0 {
        parts_of_ssh(list.drop_last());
        assert(ssh_entries(list).drop_last() =~= ssh_entries(list.drop_last()));
        assert(list =~= list.drop_last().push(list.last()));
    } else {
        assert(list =~= Seq::empty());
    }
}

proof fn parts_of_wsl(list: Seq<WslConnectionView>)
    ensures
        listed_ssh(wsl_entries(list)) == Seq::<SshConnectionView>::empty(),
        listed_wsl(wsl_entries(list)) == list,
        listed_dev(wsl_entries(list)) == Seq::<DevContainerConnectionView>::empty(),
        listed_hosts_of(wsl_entries(list)) == Seq::<Seq<char>>::empty(),
    decreases list.len(),
{
    if list.len() > 0 {
        parts_of_wsl(list.drop_last());
        assert(wsl_entries(list).drop_last() =~= wsl_entries(list.drop_last()));
        assert(list =~= list.drop_last().push(list.last()));
    } else {
        assert(list =~= Seq::empty());
    }
}

proof fn parts_of_dev(list: Seq<DevContainerConnectionView>)
    ensures
        listed_ssh(dev_entries(list)) == Seq::<SshConnectionView>::empty(),
        listed_wsl(dev_entries(list)) == Seq::<WslConnectionView>::empty(),
        listed_dev(dev_entries(list)) == list,
        listed_hosts_of(dev_entries(list)) == Seq::<Seq<char>>::empty(),
    decreases list.len(),
{
    if list.len() > 0 {
        parts_of_dev(list.drop_last());
        assert(dev_entries(list).drop_last() =~= dev_entries(list.drop_last()));
        assert(list =~= list.drop_last().push(list.last()));
    } else {
        assert(list =~= Seq::empty());
    }
}

proof fn parts_of_hosts(list: Seq<Seq<char>>)
    ensures
        listed_ssh(config_entry_list(list)) == Seq::<SshConnectionView>::empty(),
        listed_wsl(config_entry_list(list)) == Seq::<WslConnectionView>::empty(),
        listed_dev(config_entry_list(list)) == Seq::<DevContainerConnectionView>::empty(),
        listed_hosts_of(config_entry_list(list)) == list,
    decreases list.len(),
{
    if list.len() > 0 {
        parts_of_hosts(list.drop_last());
        assert(config_entry_list(list).drop_last() =~= config_entry_list(list.drop_last()));
        assert(list =~= list.drop_last().push(list.last()));
    } else {
        assert(list =~= Seq::empty());
    }
}

/// A list that has just been made is not out of date.
pub proof fn new_list_is_not_stale(s: RemoteSettingsView, hosts: Seq<Seq<char>>)
    ensures
        !is_stale(server_list(s, hosts), s, hosts),
{
    let ssh = ssh_entries(s.ssh_connections);
    let wsl = wsl_entries(s.wsl_connections);
    let dev = dev_entries(s.dev_container_connections);
    let extra = hosts.filter(not_saved(s.ssh_connections));
    parts_of_ssh(s.ssh_connections);
    parts_of_wsl(s.wsl_connections);
    parts_of_dev(s.dev_container_connections);
    parts_of_hosts(extra);
    parts_of_sum(ssh, wsl);
    parts_of_sum(ssh + wsl, dev);
    parts_of_sum(ssh + wsl + dev, config_entry_list(extra));
    let list = server_list(s, hosts);
    assert(listed_ssh(list) =~= s.ssh_connections);
    assert(listed_wsl(list) =~= s.wsl_connections);
    assert(listed_dev(list) =~= s.dev_container_connections);
    if s.read_ssh_config {
        assert(listed_hosts_of(list) =~= extra);
    }
}

/// A host of the SSH configuration is listed only where no server is saved
/// under it.
pub proof fn config_hosts_are_not_saved(s: RemoteSettingsView, hosts: Seq<Seq<char>>, i: int)
    requires
        0 <= i < server_list(s, hosts).len(),
        server_list(s, hosts)[i] is SshConfig,
    ensures
        hosts.contains(server_list(s, hosts)[i]->host),
        forall|k: int|
            0 <= k < s.ssh_connections.len() ==> (#[trigger] s.ssh_connections[k]).host
                != server_list(s, hosts)[i]->host,
{
    let saved = ssh_entries(s.ssh_connections) + wsl_entries(s.wsl_connections) + dev_entries(
        s.dev_container_connections,
    );
    let p = not_saved(s.ssh_connections);
    assert(i >= saved.len());
    crate::settings::filter_member(hosts, p, i - saved.len());
}

// ---------------------------------------------------------------------------
// What the entries say

/// Entries have one key just where they are one server: for SSH by host, user
/// and port, for WSL by distribution and user, for containers by id, engine and
/// machine, and for the configuration by host. The kinds never mix.
pub proof fn keys_tell_entries_apart(
    a: SshConnectionView,
    b: SshConnectionView,
    v: WslConnectionView,
    w: WslConnectionView,
    c: DevContainerConnectionView,
    d: DevContainerConnectionView,
    i: ServerIndex,
    j: ServerIndex,
    g: Seq<char>,
    h: Seq<char>,
)
    ensures
        ({
            let ssh = |x: SshConnectionView, k: ServerIndex| entry_key(
                RemoteEntryView::Project { connection: ConnectionView::Ssh(x), index: k },
            );
            let wsl = |x: WslConnectionView, k: ServerIndex| entry_key(
                RemoteEntryView::Project { connection: ConnectionView::Wsl(x), index: k },
            );
            let dev = |x: DevContainerConnectionView, k: ServerIndex| entry_key(
                RemoteEntryView::Project { connection: ConnectionView::DevContainer(x), index: k },
            );
            let config = |x: Seq<char>| entry_key(RemoteEntryView::SshConfig { host: x });
            &&& ssh(a, i) == ssh(b, j) <==> a.host == b.host && a.username == b.username && a.port
                == b.port
            &&& wsl(v, i) == wsl(w, j) <==> v.distro_name == w.distro_name && v.user == w.user
            &&& dev(c, i) == dev(d, j) <==> c.container_id == d.container_id && c.use_podman
                == d.use_podman && c.host == d.host
            &&& config(g) == config(h) <==> g == h
            &&& ssh(a, i) != wsl(v, j) && ssh(a, i) != dev(c, j) && ssh(a, i) != config(g)
            &&& wsl(v, i) != dev(c, j) && wsl(v, i) != config(g) && dev(c, i) != config(g)
        }),
{
}

/// Every entry stands in the list of its kind, and a host of the configuration
/// with the SSH servers.
pub proof fn entries_stand_in_their_lists(
    s: SshConnectionView,
    w: WslConnectionView,
    c: DevContainerConnectionView,
    h: Seq<char>,
    i: ServerIndex,
)
    ensures
        ({
            let a = RemoteEntryView::Project { connection: ConnectionView::Ssh(s), index: i };
            let b = RemoteEntryView::Project { connection: ConnectionView::Wsl(w), index: i };
            let d = RemoteEntryView::Project { connection: ConnectionView::DevContainer(c), index: i };
            let e = RemoteEntryView::SshConfig { host: h };
            &&& tab_of(a) is Ssh && tab_of(b) is Wsl && tab_of(d) is DevContainers && tab_of(e) is Ssh
            &&& entry_projects(a) == s.projects && entry_projects(b) == w.projects
            &&& entry_projects(d) == c.projects && entry_projects(e).len() == 0
            &&& entry_connection(a) == ConnectionView::Ssh(s)
            &&& entry_connection(b) == ConnectionView::Wsl(w)
            &&& entry_connection(d) == ConnectionView::DevContainer(c)
            &&& entry_connection(e) matches ConnectionView::Ssh(x) && x.host == h && x.username is None
        }),
{
}

/// A row shows the name of a server, and beside it what tells it from others:
/// the host behind a nickname, the machine and configuration of a container,
/// and that a host comes from the configuration.
pub proof fn rows_name_their_servers(
    s: SshConnectionView,
    w: WslConnectionView,
    c: DevContainerConnectionView,
    h: Seq<char>,
    i: ServerIndex,
)
    ensures
        ({
            let a = RemoteEntryView::Project { connection: ConnectionView::Ssh(s), index: i };
            let b = RemoteEntryView::Project { connection: ConnectionView::Wsl(w), index: i };
            let d = RemoteEntryView::Project { connection: ConnectionView::DevContainer(c), index: i };
            let e = RemoteEntryView::SshConfig { host: h };
            &&& row_labels(a).0 is Server && row_labels(b).0 is Linux
            &&& row_labels(d).0 is Box && row_labels(e).0 is Server
            &&& s.nickname matches Some(n) ==> row_labels(a).1 == n && row_labels(a).2 == Some(
                seq!['('] + s.host + seq![')'],
            )
            &&& s.nickname is None ==> row_labels(a).1 == s.host && row_labels(a).2 is None
            &&& row_labels(b).1 == w.distro_name && row_labels(b).2 is None
            &&& row_labels(d).1 == c.name
            &&& shown_config(c) is None ==> row_labels(d).2 == Some(shown_host(c.host))
            &&& shown_config(c) matches Some(path) ==> row_labels(d).2 == Some(
                shown_host(c.host) + " • "@ + path,
            )
            &&& row_labels(e).1 == h && row_labels(e).2 == Some("SSH config"@)
        }),
{
    reveal_strlit("(");
    reveal_strlit(")");
    assert("("@ =~= seq!['(']);
    assert(")"@ =~= seq![')']);
}

/// The head of a server's page shows its address, the nickname that it has, and
/// its kind.
pub proof fn heads_show_the_address(
    s: SshConnectionView,
    w: WslConnectionView,
    c: DevContainerConnectionView,
    h: Seq<char>,
    i: ServerIndex,
)
    ensures
        ({
            let a = header_labels(
                RemoteEntryView::Project { connection: ConnectionView::Ssh(s), index: i },
            );
            let b = header_labels(
                RemoteEntryView::Project { connection: ConnectionView::Wsl(w), index: i },
            );
            let d = header_labels(
                RemoteEntryView::Project { connection: ConnectionView::DevContainer(c), index: i },
            );
            let e = header_labels(RemoteEntryView::SshConfig { host: h });
            &&& a.0 == s.host && a.1 == s.nickname && !a.2 && !a.3
            &&& b.0 == w.distro_name && b.1 is None && b.2 && !b.3
            &&& d.0 == c.name && d.1 is None && !d.2 && d.3
            &&& e.0 == h && e.1 is None && !e.2 && !e.3
        }),
{
}

/// Every list has its own words for being empty.
pub proof fn empty_lists_say_so()
    ensures
        empty_text(RemoteProjectsTab::Ssh) == "No SSH servers registered yet."@,
        empty_text(RemoteProjectsTab::DevContainers) == "No dev containers registered yet."@,
        empty_text(RemoteProjectsTab::Wsl) == "No WSL distros registered yet."@,
{
}

// ---------------------------------------------------------------------------
// What is found

proof fn part_at(s: Seq<char>, part: Seq<char>, at: int)
    requires
        0 <= at,
        at + part.len() <= s.len(),
        s.subrange(at, at + part.len()) == part,
    ensures
        has_part(s, part),
{
    assert(crate::text::occurs_at(s, part, at));
}

/// What is a part of a text stays one behind which more follows, and what
/// follows is one too.
pub proof fn following_adds_a_part(s: Seq<char>, more: Option<Seq<char>>, part: Seq<char>)
    ensures
        has_part(s, part) ==> has_part(followed_by(s, more), part),
        more matches Some(m) ==> has_part(followed_by(s, more), m),
        has_part(s, s),
{
    let all = followed_by(s, more);
    if has_part(s, part) {
        let at = choose|at: int| crate::text::occurs_at(s, part, at);
        assert(all.subrange(at, at + part.len()) =~= s.subrange(at, at + part.len()));
        part_at(all, part, at);
    }
    if more is Some {
        let m = more->0;
        assert(all.subrange(s.len() as int + 1, s.len() as int + 1 + m.len()) =~= m);
        part_at(all, m, s.len() as int + 1);
    }
    assert(s.subrange(0, s.len() as int) =~= s);
    part_at(s, s, 0);
}

/// Every path that follows is a part, and what was one stays one.
pub proof fn following_paths_add_parts(s: Seq<char>, paths: Seq<Seq<char>>, part: Seq<char>, i: int)
    ensures
        has_part(s, part) ==> has_part(followed_by_paths(s, paths), part),
        0 <= i < paths.len() ==> has_part(followed_by_paths(s, paths), paths[i]),
    decreases paths.len(),
{
    if paths.len() > 0 {
        let head = paths.drop_last();
        let before = followed_by_paths(s, head);
        following_paths_add_parts(s, head, part, i);
        following_adds_a_part(before, Some(paths.last()), part);
        if 0 <= i < head.len() {
            assert(head[i] == paths[i]);
            following_adds_a_part(before, Some(paths.last()), paths[i]);
        }
    }
}

proof fn following_projects_add_parts(
    s: Seq<char>,
    projects: Seq<Seq<Seq<char>>>,
    part: Seq<char>,
    i: int,
    j: int,
)
    ensures
        has_part(s, part) ==> has_part(followed_by_projects(s, projects), part),
        0 <= i < projects.len() && 0 <= j < projects[i].len() ==> has_part(
            followed_by_projects(s, projects),
            projects[i][j],
        ),
    decreases projects.len(),
{
    if projects.len() > 0 {
        let head = projects.drop_last();
        let before = followed_by_projects(s, head);
        following_projects_add_parts(s, head, part, i, j);
        following_paths_add_parts(before, projects.last(), part, j);
        if 0 <= i < head.len() && 0 <= j < projects[i].len() {
            assert(head[i] == projects[i]);
            following_paths_add_parts(before, projects.last(), projects[i][j], j);
        }
    }
}

/// A saved SSH server can be found by its host, its nickname, its user, its port
/// and the paths of its projects.
pub proof fn ssh_servers_are_searched(
    c: SshConnectionView,
    index: ServerIndex,
    entries: Map<Seq<char>, SshConfigEntryView>,
    i: int,
    j: int,
)
    ensures
        ({
            let text = search_text(
                RemoteEntryView::Project { connection: ConnectionView::Ssh(c), index },
                entries,
            );
            &&& has_part(text, c.host)
            &&& c.nickname matches Some(n) ==> has_part(text, n)
            &&& c.username matches Some(u) ==> has_part(text, u)
            &&& c.port matches Some(p) ==> has_part(text, decimal(p as nat))
            &&& 0 <= i < c.projects.len() && 0 <= j < c.projects[i].len() ==> has_part(
                text,
                c.projects[i][j],
            )
        }),
{
    let a = followed_by(c.host, c.nickname);
    let b = followed_by(a, c.username);
    let names = followed_by(b, port_text(c.port));
    following_adds_a_part(c.host, c.nickname, c.host);
    following_adds_a_part(a, c.username, c.host);
    following_adds_a_part(b, port_text(c.port), c.host);
    following_projects_add_parts(names, c.projects, c.host, i, j);
    if c.nickname is Some {
        let n = c.nickname->0;
        following_adds_a_part(a, c.username, n);
        following_adds_a_part(b, port_text(c.port), n);
        following_projects_add_parts(names, c.projects, n, i, j);
    }
    if c.username is Some {
        let u = c.username->0;
        following_adds_a_part(b, port_text(c.port), u);
        following_projects_add_parts(names, c.projects, u, i, j);
    }
    if c.port is Some {
        following_projects_add_parts(names, c.projects, decimal(c.port->0 as nat), i, j);
    }
}

/// A WSL distribution can be found by its name, its user and the paths of its
/// projects, a container by its name, its id and the paths of its projects.
pub proof fn distros_and_containers_are_searched(
    w: WslConnectionView,
    c: DevContainerConnectionView,
    index: ServerIndex,
    entries: Map<Seq<char>, SshConfigEntryView>,
    i: int,
    j: int,
)
    ensures
        ({
            let a = search_text(
                RemoteEntryView::Project { connection: ConnectionView::Wsl(w), index },
                entries,
            );
            let b = search_text(
                RemoteEntryView::Project { connection: ConnectionView::DevContainer(c), index },
                entries,
            );
            &&& has_part(a, w.distro_name)
            &&& w.user matches Some(u) ==> has_part(a, u)
            &&& 0 <= i < w.projects.len() && 0 <= j < w.projects[i].len() ==> has_part(
                a,
                w.projects[i][j],
            )
            &&& has_part(b, c.name) && has_part(b, c.container_id)
            &&& 0 <= i < c.projects.len() && 0 <= j < c.projects[i].len() ==> has_part(
                b,
                c.projects[i][j],
            )
        }),
{
    following_adds_a_part(w.distro_name, w.user, w.distro_name);
    let a = followed_by(w.distro_name, w.user);
    following_projects_add_parts(a, w.projects, w.distro_name, i, j);
    if w.user is Some {
        following_projects_add_parts(a, w.projects, w.user->0, i, j);
    }
    following_adds_a_part(c.name, Some(c.container_id), c.name);
    let b = followed_by(c.name, Some(c.container_id));
    following_projects_add_parts(b, c.projects, c.name, i, j);
    following_projects_add_parts(b, c.projects, c.container_id, i, j);
}

/// A host of the configuration can be found by its name and by what the
/// configuration says of it.
pub proof fn config_hosts_are_searched(
    host: Seq<char>,
    entries: Map<Seq<char>, SshConfigEntryView>,
)
    ensures
        ({
            let text = search_text(RemoteEntryView::SshConfig { host }, entries);
            &&& has_part(text, host)
            &&& !entries.dom().contains(host) ==> text == host
            &&& entries.dom().contains(host) ==> {
                let e = entries[host];
                &&& e.hostname matches Some(n) ==> has_part(text, n)
                &&& e.user matches Some(u) ==> has_part(text, u)
                &&& e.port matches Some(p) ==> has_part(text, decimal(p as nat))
            }
        }),
{
    let e = entry_or_blank(entries, host);
    let a = followed_by(host, e.hostname);
    let b = followed_by(a, e.user);
    following_adds_a_part(host, e.hostname, host);
    following_adds_a_part(a, e.user, host);
    following_adds_a_part(b, port_text(e.port), host);
    if e.hostname is Some {
        following_adds_a_part(a, e.user, e.hostname->0);
        following_adds_a_part(b, port_text(e.port), e.hostname->0);
    }
    if e.user is Some {
        following_adds_a_part(b, port_text(e.port), e.user->0);
    }
}

/// A search finds what holds it, wherever it stands, and an empty one all.
pub proof fn searches_find_parts(query: Seq<char>, a: Seq<char>, b: Seq<char>, low: Seq<char>)
    ensures
        finds(Seq::empty(), low),
        finds(query, a + query + b),
        finds(query, low) && query.len() > 0 ==> has_part(low, query),
{
    let all = a + query + b;
    assert(all.subrange(a.len() as int, (a.len() + query.len()) as int) =~= query);
    part_at(all, query, a.len() as int);
}

// ---------------------------------------------------------------------------
// What is listed

/// The list holds every saved server with its place in the settings, first those
/// of SSH, then those of WSL, then the containers, each in order.
pub proof fn saved_servers_are_listed(s: RemoteSettingsView, hosts: Seq<Seq<char>>, i: int)
    requires
        s.ssh_connections.len() + s.wsl_connections.len() + s.dev_container_connections.len()
            <= usize::MAX,
    ensures
        ({
            let all = server_list(s, hosts);
            let a = s.ssh_connections.len() as int;
            let b = a + s.wsl_connections.len();
            let c = b + s.dev_container_connections.len();
            &&& 0 <= i < s.ssh_connections.len() ==> all[i] == (RemoteEntryView::Project {
                connection: ConnectionView::Ssh(s.ssh_connections[i]),
                index: ServerIndex::Ssh(i as usize),
            })
            &&& 0 <= i < s.wsl_connections.len() ==> all[a + i] == (RemoteEntryView::Project {
                connection: ConnectionView::Wsl(s.wsl_connections[i]),
                index: ServerIndex::Wsl(i as usize),
            })
            &&& 0 <= i < s.dev_container_connections.len() ==> all[b + i]
                == (RemoteEntryView::Project {
                connection: ConnectionView::DevContainer(s.dev_container_connections[i]),
                index: ServerIndex::DevContainer(i as usize),
            })
            &&& all.len() >= c
            &&& c <= i < all.len() ==> all[i] is SshConfig
            &&& !s.read_ssh_config ==> all.len() == c
        }),
{
}

/// A host of the configuration is listed just where the configuration is read
/// and no saved server has that host.
pub proof fn unsaved_config_hosts_are_listed(
    s: RemoteSettingsView,
    hosts: Seq<Seq<char>>,
    h: Seq<char>,
)
    ensures
        server_list(s, hosts).contains(RemoteEntryView::SshConfig { host: h }) <==> s.read_ssh_config
            && hosts.contains(h) && forall|k: int|
            0 <= k < s.ssh_connections.len() ==> (#[trigger] s.ssh_connections[k]).host != h,
{
    let saved = ssh_entries(s.ssh_connections) + wsl_entries(s.wsl_connections) + dev_entries(
        s.dev_container_connections,
    );
    let p = not_saved(s.ssh_connections);
    let kept = hosts.filter(p);
    let all = server_list(s, hosts);
    let entry = RemoteEntryView::SshConfig { host: h };
    crate::settings::kept_are_the_picked(hosts, p, h);
    assert forall|k: int| 0 <= k < saved.len() implies !(#[trigger] saved[k] is SshConfig) by {}
    if all.contains(entry) {
        let k = choose|k: int| 0 <= k < all.len() && all[k] == entry;
        if k < saved.len() {
            assert(all[k] == saved[k]);
        }
        assert(kept[k - saved.len()] == h);
        assert(kept.contains(h));
    }
    if s.read_ssh_config && kept.contains(h) {
        let k = choose|k: int| 0 <= k < kept.len() && kept[k] == h;
        assert(all[saved.len() + k] == entry);
    }
}

/// A list is made anew where a saved server has changed.
pub proof fn changed_servers_make_a_list_stale(
    s: RemoteSettingsView,
    t: RemoteSettingsView,
    hosts: Seq<Seq<char>>,
    new_hosts: Seq<Seq<char>>,
)
    ensures
        t.ssh_connections != s.ssh_connections ==> is_stale(server_list(s, hosts), t, new_hosts),
        t.wsl_connections != s.wsl_connections ==> is_stale(server_list(s, hosts), t, new_hosts),
        t.dev_container_connections != s.dev_container_connections ==> is_stale(
            server_list(s, hosts),
            t,
            new_hosts,
        ),
{
    new_list_is_not_stale(s, hosts);
}

} // verus!
