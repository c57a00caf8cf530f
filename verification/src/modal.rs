//! The window of remote projects: what its parts are, what the keys that
//! confirm and cancel do in each, and which connections it can use again.
use crate::connection::{
    docker_options_of, Connection, DevContainerConnection, RemoteConnectionOptions,
    RemoteConnectionOptionsView, SshConnection, WslConnectionOptions, WslConnectionOptionsView,
};
use crate::config_picker::starting_folder;
use crate::docker_exec::PathStyle;
use crate::model::{find_first, first_where, first_where_facts, models, Model};
use crate::remote_entries::RemoteProjectsTab;
use crate::settings::{
    dev_container_key_from_remote_options, key_of, key_of_options, DevContainerKey,
};
use crate::ssh_form::CreateRemoteServerInputMode;
use crate::text::opt_text;
use vstd::prelude::*;
use vstd::string::*;

verus! {

/// The parts of the window.
#[derive(Clone, Copy, Debug, PartialEq, Eq, Structural)]
pub enum Mode {
    /// The list of servers.
    Default,
    /// The options of a server.
    ViewServerOptions,
    /// The choice of a folder.
    ProjectPicker,
    /// The page on which a server is added; whether a question of the
    /// connection is shown, and how the server is entered.
    CreateRemoteServer { has_prompt: bool, input_mode: CreateRemoteServerInputMode },
    /// The page on which a development container is created; whether that has
    /// failed.
    CreateRemoteDevContainer { failed: bool },
    /// The nickname of the server at a place.
    EditNickname(usize),
    /// The name of the development container at a place.
    EditDevContainerName(usize),
    /// The choice of a WSL distribution.
    AddWslDistro,
}

/// What the key that confirms does.
#[derive(Clone, Copy, Debug, PartialEq, Eq, Structural)]
pub enum ConfirmAction {
    Nothing,
    /// Answers the question of the connection.
    ConfirmPrompt,
    /// Connects by the command line.
    CreateFromCommand,
    /// Connects by the form.
    CreateFromForm,
    /// Saves the nickname, and shows the list.
    SaveNickname(usize),
    /// Saves the name, and shows the list.
    SaveDevContainerName(usize),
    /// Connects to the selected distribution.
    ConnectWslDistro,
}

/// What the key that confirms does.
pub open spec fn confirmed(mode: Mode) -> ConfirmAction {
    match mode {
        Mode::CreateRemoteServer { has_prompt, input_mode } => if has_prompt {
            ConfirmAction::ConfirmPrompt
        } else if input_mode == CreateRemoteServerInputMode::Command {
            ConfirmAction::CreateFromCommand
        } else {
            ConfirmAction::CreateFromForm
        },
        Mode::EditNickname(i) => ConfirmAction::SaveNickname(i),
        Mode::EditDevContainerName(i) => ConfirmAction::SaveDevContainerName(i),
        Mode::AddWslDistro => ConfirmAction::ConnectWslDistro,
        _ => ConfirmAction::Nothing,
    }
}

/// What the key that confirms does.
pub fn confirm(mode: Mode) -> (r: ConfirmAction)
    ensures
        r == confirmed(mode),
{
    match mode {
        Mode::CreateRemoteServer { has_prompt, input_mode } => if has_prompt {
            ConfirmAction::ConfirmPrompt
        } else {
            match input_mode {
                CreateRemoteServerInputMode::Command => ConfirmAction::CreateFromCommand,
                CreateRemoteServerInputMode::Form => ConfirmAction::CreateFromForm,
            }
        },
        Mode::EditNickname(i) => ConfirmAction::SaveNickname(i),
        Mode::EditDevContainerName(i) => ConfirmAction::SaveDevContainerName(i),
        Mode::AddWslDistro => ConfirmAction::ConnectWslDistro,
        _ => ConfirmAction::Nothing,
    }
}

/// What the key that cancels does.
#[derive(Clone, Copy, Debug, PartialEq, Eq, Structural)]
pub enum CancelAction {
    /// Closes the window.
    Dismiss,
    /// Gives the connection up, and lets the form be changed again.
    RestoreForm,
    /// Shows the list.
    ShowServers,
}

/// What the key that cancels does.
pub open spec fn cancelled(mode: Mode) -> CancelAction {
    match mode {
        Mode::Default => CancelAction::Dismiss,
        Mode::CreateRemoteServer { has_prompt, input_mode } => if has_prompt {
            CancelAction::RestoreForm
        } else {
            CancelAction::ShowServers
        },
        Mode::CreateRemoteDevContainer { failed } => if failed {
            CancelAction::Dismiss
        } else {
            CancelAction::ShowServers
        },
        _ => CancelAction::ShowServers,
    }
}

/// What the key that cancels does.
pub fn cancel(mode: Mode) -> (r: CancelAction)
    ensures
        r == cancelled(mode),
{
    match mode {
        Mode::Default => CancelAction::Dismiss,
        Mode::CreateRemoteServer { has_prompt, input_mode } => if has_prompt {
            CancelAction::RestoreForm
        } else {
            CancelAction::ShowServers
        },
        Mode::CreateRemoteDevContainer { failed } => if failed {
            CancelAction::Dismiss
        } else {
            CancelAction::ShowServers
        },
        _ => CancelAction::ShowServers,
    }
}

/// The list that is shown first.
pub fn initial_tab(mode: Mode) -> (r: RemoteProjectsTab)
    ensures
        r == match mode {
            Mode::CreateRemoteDevContainer { .. } => RemoteProjectsTab::DevContainers,
            Mode::AddWslDistro => RemoteProjectsTab::Wsl,
            _ => RemoteProjectsTab::Ssh,
        },
{
    match mode {
        Mode::CreateRemoteDevContainer { .. } => RemoteProjectsTab::DevContainers,
        Mode::AddWslDistro => RemoteProjectsTab::Wsl,
        _ => RemoteProjectsTab::Ssh,
    }
}

/// Whether the development containers are asked about again and again: while
/// their list is shown.
pub fn polls_dev_containers(mode: Mode, tab: RemoteProjectsTab) -> (r: bool)
    ensures
        r == (mode == Mode::Default && tab == RemoteProjectsTab::DevContainers),
{
    mode == Mode::Default && tab == RemoteProjectsTab::DevContainers
}

/// What follows from a change of the settings for the SSH configuration.
#[derive(Clone, Copy, Debug, PartialEq, Eq, Structural)]
pub enum ConfigSwitch {
    /// Nothing.
    Keep,
    /// The configuration is read from now on.
    StartWatching,
    /// The configuration is not read any more, and its hosts are forgotten.
    StopAndForget,
}

/// What follows from a change of the settings for the SSH configuration.
pub fn ssh_config_switch(read_before: bool, read_now: bool) -> (r: ConfigSwitch)
    ensures
        r == (if read_before == read_now {
            ConfigSwitch::Keep
        } else if read_now {
            ConfigSwitch::StartWatching
        } else {
            ConfigSwitch::StopAndForget
        }),
{
    if read_before == read_now {
        ConfigSwitch::Keep
    } else if read_now {
        ConfigSwitch::StartWatching
    } else {
        ConfigSwitch::StopAndForget
    }
}

/// A text that is not empty, if there is one.
pub open spec fn not_blank(text: Option<Seq<char>>) -> Option<Seq<char>> {
    match text {
        Some(s) => if s.len() > 0 {
            Some(s)
        } else {
            None
        },
        None => None,
    }
}

/// The nickname with which its editing begins, if there is one.
pub fn nickname_to_edit(connections: &Vec<SshConnection>, index: usize) -> (r: Option<String>)
    ensures
        opt_text(r) == (if index < connections@.len() {
            not_blank(models(connections@)[index as int].nickname)
        } else {
            None
        }),
{
    if index < connections.len() {
        assert(models(connections@)[index as int] == connections@[index as int]@);
        match &connections[index].nickname {
            Some(name) => if name.as_str().is_empty() {
                None
            } else {
                Some(name.clone())
            },
            None => None,
        }
    } else {
        None
    }
}

/// The name with which its editing begins, if there is one.
pub fn dev_container_name_to_edit(connections: &Vec<DevContainerConnection>, index: usize) -> (r:
    Option<String>)
    ensures
        opt_text(r) == (if index < connections@.len() {
            not_blank(Some(models(connections@)[index as int].name))
        } else {
            None
        }),
{
    if index < connections.len() {
        assert(models(connections@)[index as int] == connections@[index as int]@);
        let name = &connections[index].name;
        if name.as_str().is_empty() {
            None
        } else {
            Some(name.clone())
        }
    } else {
        None
    }
}

// ---------------------------------------------------------------------------
// Connections that can be used again

/// A connection that has been kept: its options, and whether it is lost.
#[derive(Clone, Debug, PartialEq, Eq)]
pub struct KeptConnection {
    pub options: RemoteConnectionOptions,
    pub disconnected: bool,
}

/// The model of a [`KeptConnection`].
#[verifier::ext_equal]
pub struct KeptConnectionView {
    pub options: RemoteConnectionOptionsView,
    pub disconnected: bool,
}

impl View for KeptConnection {
    type V = KeptConnectionView;

    open spec fn view(&self) -> KeptConnectionView {
        KeptConnectionView { options: self.options@, disconnected: self.disconnected }
    }
}

/// Picks the connections with the given options that are not lost.
pub open spec fn usable(o: RemoteConnectionOptionsView) -> spec_fn(KeptConnectionView) -> bool {
    |k: KeptConnectionView| k.options == o && !k.disconnected
}

/// The place of the first kept connection with the given options that is not
/// lost, if there is one.
pub fn retained_connection_for(kept: &Vec<KeptConnection>, options: &RemoteConnectionOptions) -> (r:
    Option<usize>)
    ensures
        match r {
            Some(i) => i < kept@.len() && first_where(models(kept@), usable(options@)) == Some(
                i as int,
            ),
            None => first_where(models(kept@), usable(options@)) is None,
        },
{
    let ghost p = usable(options@);
    let here = |k: &KeptConnection| -> (b: bool)
        ensures
            b == (k@.options == options@ && !k@.disconnected),
        { k.options.same(options) && !k.disconnected };
    find_first(kept, here, Ghost(p))
}

/// Which connection leads into a development container at present.
#[derive(Clone, Copy, Debug, PartialEq, Eq, Structural)]
pub enum ActiveClient {
    /// The one of the window's project.
    Project,
    /// The kept one at a place.
    Kept(usize),
    /// None.
    Nothing,
}

/// Which connection leads into a development container at present: the one of
/// the window's project, where that is connected to a container with the same
/// key, or a kept one with just its options.
pub fn active_dev_container_client(
    connection: &DevContainerConnection,
    project_options: Option<&RemoteConnectionOptions>,
    project_connected: bool,
    kept: &Vec<KeptConnection>,
) -> (r: ActiveClient)
    ensures
        ({
            let in_project = project_connected && match project_options {
                Some(o) => key_of_options(o@) == Some(key_of(connection@)),
                None => false,
            };
            let options = RemoteConnectionOptions::Docker(docker_options_of(*connection))@;
            if in_project {
                r == ActiveClient::Project
            } else {
                match first_where(models(kept@), usable(options)) {
                    Some(i) => r == ActiveClient::Kept(i as usize),
                    None => r == ActiveClient::Nothing,
                }
            }
        }),
{
    let key = DevContainerKey::from_connection(connection);
    if let Some(options) = project_options {
        if project_connected {
            if let Some(project_key) = dev_container_key_from_remote_options(options) {
                if project_key.same(&key) {
                    return ActiveClient::Project;
                }
            }
        }
    }
    let copy = connection.dup();
    let ghost copied = copy;
    let options = RemoteConnectionOptions::from(Connection::DevContainer(copy));
    proof {
        crate::connection::options_follow_the_model(copied, *connection);
    }
    match retained_connection_for(kept, &options) {
        Some(i) => ActiveClient::Kept(i),
        None => ActiveClient::Nothing,
    }
}

// ---------------------------------------------------------------------------
// Projects of a server

/// How a project of a server is begun.
#[derive(Clone, Copy, Debug, PartialEq, Eq, Structural)]
pub enum ProjectStart {
    /// Over the kept connection at a place.
    UseKept(usize),
    /// Over a connection that is made first.
    Connect,
}

/// How a project of a server is begun: a kept connection with just its options
/// is used again where it is not lost.
pub fn create_remote_project(kept: &Vec<KeptConnection>, options: &RemoteConnectionOptions) -> (r:
    ProjectStart)
    ensures
        match first_where(models(kept@), usable(options@)) {
            Some(i) => r == ProjectStart::UseKept(i as usize) && 0 <= i < kept.len(),
            None => r == ProjectStart::Connect,
        },
{
    match retained_connection_for(kept, options) {
        Some(i) => ProjectStart::UseKept(i),
        None => ProjectStart::Connect,
    }
}

/// What follows from the attempt to connect.
#[derive(Clone, Debug, PartialEq, Eq)]
pub enum ProjectNext {
    /// The list of servers is shown again.
    ShowServers,
    /// The folders are chosen, beginning in the given one.
    PickFolder(String),
}

/// What follows from the attempt to connect: `home` is the user's home on the
/// server, where that is known.
pub fn project_connected(connected: bool, home: Option<&str>, style: PathStyle) -> (r: ProjectNext)
    ensures
        !connected ==> r is ShowServers,
        connected ==> r is PickFolder && r->PickFolder_0@ == match home {
            Some(h) => h@,
            None => match style {
                PathStyle::Posix => "/"@,
                PathStyle::Windows => "C:\\"@,
            },
        },
{
    if connected {
        ProjectNext::PickFolder(starting_folder(home, style))
    } else {
        ProjectNext::ShowServers
    }
}

/// The folders to open, and whether they take the place of what the window
/// shows; none where there is no folder.
pub fn open_remote_project_from_paths(paths: Vec<String>, create_new_window: bool) -> (r: Option<
    (Vec<String>, bool),
>)
    ensures
        match r {
            Some((list, replace)) => paths@.len() > 0 && list == paths && replace
                == !create_new_window,
            None => paths@.len() == 0,
        },
{
    if paths.len() == 0 {
        None
    } else {
        Some((paths, !create_new_window))
    }
}

/// What becomes of a distribution that the user has picked.
#[derive(Clone, Debug, PartialEq, Eq)]
pub enum DistroEnd {
    /// It is saved and the list of servers is shown.
    Add(WslConnectionOptions),
    /// The picker is shown again.
    PickAgain,
}

/// The options by which a picked distribution is reached: with its usual user.
pub fn connect_wsl_distro(distro: String) -> (r: WslConnectionOptions)
    ensures
        r@ == (WslConnectionOptionsView { distro_name: distro@, user: None }),
{
    WslConnectionOptions { distro_name: distro, user: None }
}

/// What becomes of a distribution after the attempt to connect.
pub fn wsl_distro_connected(options: WslConnectionOptions, connected: bool) -> (r: DistroEnd)
    ensures
        r == (if connected {
            DistroEnd::Add(options)
        } else {
            DistroEnd::PickAgain
        }),
{
    if connected {
        DistroEnd::Add(options)
    } else {
        DistroEnd::PickAgain
    }
}

/// A connection that is lost is never used again.
pub proof fn lost_connections_are_not_used(
    kept: Seq<KeptConnectionView>,
    o: RemoteConnectionOptionsView,
)
    ensures
        match first_where(kept, usable(o)) {
            Some(i) => 0 <= i < kept.len() && !kept[i].disconnected && kept[i].options == o,
            None => forall|i: int|
                0 <= i < kept.len() ==> (#[trigger] kept[i]).disconnected || kept[i].options != o,
        },
{
    first_where_facts(kept, usable(o));
    let p = usable(o);
    if first_where(kept, p) is None {
        assert forall|i: int| 0 <= i < kept.len() implies (#[trigger] kept[i]).disconnected
            || kept[i].options != o by {
            assert(!p(kept[i]));
        }
    }
}

/// Confirming does what the page is for: it answers a question before anything
/// else, connects by the way that is chosen, or saves the name under its place.
pub proof fn confirming_does_what_the_page_is_for(
    input_mode: CreateRemoteServerInputMode,
    i: usize,
    failed: bool,
)
    ensures
        confirmed(Mode::CreateRemoteServer { has_prompt: true, input_mode }) is ConfirmPrompt,
        input_mode is Command ==> confirmed(
            Mode::CreateRemoteServer { has_prompt: false, input_mode },
        ) is CreateFromCommand,
        input_mode is Form ==> confirmed(
            Mode::CreateRemoteServer { has_prompt: false, input_mode },
        ) is CreateFromForm,
        confirmed(Mode::EditNickname(i)) matches ConfirmAction::SaveNickname(j) && i == j,
        confirmed(Mode::EditDevContainerName(i)) matches ConfirmAction::SaveDevContainerName(j) && i
            == j,
        confirmed(Mode::AddWslDistro) is ConnectWslDistro,
        confirmed(Mode::Default) is Nothing,
        confirmed(Mode::ViewServerOptions) is Nothing,
        confirmed(Mode::ProjectPicker) is Nothing,
        confirmed(Mode::CreateRemoteDevContainer { failed }) is Nothing,
{
}

/// Giving up leads one step back: from a question to the form, from any page to
/// the list, and from the list out of the window. A creation that failed is left
/// at once.
pub proof fn giving_up_leads_one_step_back(
    input_mode: CreateRemoteServerInputMode,
    i: usize,
)
    ensures
        cancelled(Mode::Default) is Dismiss,
        cancelled(Mode::CreateRemoteServer { has_prompt: true, input_mode }) is RestoreForm,
        cancelled(Mode::CreateRemoteServer { has_prompt: false, input_mode }) is ShowServers,
        cancelled(Mode::CreateRemoteDevContainer { failed: true }) is Dismiss,
        cancelled(Mode::CreateRemoteDevContainer { failed: false }) is ShowServers,
        cancelled(Mode::ViewServerOptions) is ShowServers,
        cancelled(Mode::ProjectPicker) is ShowServers,
        cancelled(Mode::EditNickname(i)) is ShowServers,
        cancelled(Mode::EditDevContainerName(i)) is ShowServers,
        cancelled(Mode::AddWslDistro) is ShowServers,
{
}

/// A name is offered for editing where there is one.
pub proof fn names_are_offered(s: Seq<char>)
    ensures
        not_blank(None) is None,
        s.len() == 0 ==> not_blank(Some(s)) is None,
        s.len() > 0 ==> not_blank(Some(s)) == Some(s),
{
}

/// A kept connection that is alive and has the same options is used, and the
/// first such one.
pub proof fn kept_connections_are_used(
    kept: Seq<KeptConnectionView>,
    o: RemoteConnectionOptionsView,
    i: int,
)
    requires
        0 <= i < kept.len(),
        kept[i].options == o,
        !kept[i].disconnected,
        forall|k: int| 0 <= k < i ==> (#[trigger] kept[k]).options != o || kept[k].disconnected,
    ensures
        first_where(kept, usable(o)) == Some(i),
{
    crate::model::first_where_is(kept, usable(o), i);
}

} // verus!
