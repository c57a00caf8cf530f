//! What is shown and done where the connection of a window is lost.
use crate::connection::{
    devcontainer_host_from_docker_host, devcontainer_host_view, host_connection_options,
    host_options_view, DevContainerConnection, DevContainerConnectionView,
    DockerConnectionOptions, DockerConnectionOptionsView, RemoteConnectionOptions,
    RemoteConnectionOptionsView,
};
use crate::model::{models, opt_model};
use crate::settings::{
    host_project_paths_from_settings, saved_host_folders, DevContainerKey, DevContainerKeyView,
};
use crate::text::{copy_text, texts};
use vstd::prelude::*;
use vstd::string::*;

verus! {

/// What has been reported of a project.
#[derive(Clone, Copy, Debug, PartialEq, Eq, Structural)]
pub enum ProjectEvent {
    DisconnectedFromHost,
    DisconnectedFromRemote { server_not_running: bool },
    Other,
}

/// What was at the other end of the lost connection.
#[derive(Clone, Debug, PartialEq, Eq)]
pub enum Host {
    /// The project of another user.
    CollabGuestProject,
    /// A remote server; and whether its process has ended.
    RemoteServerProject(RemoteConnectionOptions, bool),
}

/// How a window goes back from a container to its machine.
#[derive(Clone, Debug, PartialEq, Eq)]
pub enum ContainerReturn {
    /// The folder is not known, which is shown.
    NotRecorded,
    /// Folders of another machine are opened in a new window, and this one is
    /// closed after that.
    OpenRemote(RemoteConnectionOptions, Vec<String>),
    /// Folders of this machine are opened.
    OpenLocal(Vec<String>),
}

/// The key of the container that options lead into.
pub open spec fn container_key(o: DockerConnectionOptionsView) -> DevContainerKeyView {
    DevContainerKeyView {
        container_id: o.container_id,
        use_podman: o.use_podman,
        host: devcontainer_host_view(o.host),
    }
}

/// Whether `r` is how a window goes back from a container to its machine.
pub open spec fn return_is(
    r: ContainerReturn,
    o: DockerConnectionOptionsView,
    saved: Seq<DevContainerConnectionView>,
) -> bool {
    match saved_host_folders(saved, container_key(o)) {
        None => r is NotRecorded,
        Some(paths) => match host_options_view(devcontainer_host_view(o.host)) {
            Some(options) => r is OpenRemote && r->OpenRemote_0@ == options && texts(
                r->OpenRemote_1@,
            ) == paths,
            None => r is OpenLocal && texts(r->OpenLocal_0@) == paths,
        },
    }
}

/// How a window goes back from a container to its machine.
pub fn return_devcontainer_to_host(
    options: &DockerConnectionOptions,
    saved: &Vec<DevContainerConnection>,
) -> (r: ContainerReturn)
    ensures
        return_is(r, options@, models(saved@)),
{
    let key = DevContainerKey {
        container_id: copy_text(&options.container_id),
        use_podman: options.use_podman,
        host: devcontainer_host_from_docker_host(&options.host),
    };
    match host_project_paths_from_settings(saved, &key) {
        None => ContainerReturn::NotRecorded,
        Some(paths) => {
            let host = match &key.host {
                Some(h) => Some(h),
                None => None,
            };
            match host_connection_options(host) {
                Some(options) => ContainerReturn::OpenRemote(options, paths),
                None => ContainerReturn::OpenLocal(paths),
            }
        },
    }
}

/// What to do where something is reported of a project.
#[derive(Clone, Debug, PartialEq, Eq)]
pub enum DisconnectAction {
    /// Nothing.
    Ignore,
    /// Go back from the container to its machine.
    Return(ContainerReturn),
    /// Show that the connection is lost.
    Show(Host),
}

/// What to do where something is reported of a project: a lost container is
/// left for its machine, and any other lost connection is shown.
pub fn on_project_event(
    event: ProjectEvent,
    options: Option<RemoteConnectionOptions>,
    saved: &Vec<DevContainerConnection>,
) -> (r: DisconnectAction)
    ensures
        if event == ProjectEvent::Other {
            r is Ignore
        } else {
            match opt_model(options) {
                Some(RemoteConnectionOptionsView::Docker(o)) => r is Return && return_is(
                    r->Return_0,
                    o,
                    models(saved@),
                ),
                Some(o) => r is Show && r->Show_0 == Host::RemoteServerProject(
                    options->0,
                    event == (ProjectEvent::DisconnectedFromRemote { server_not_running: true }),
                ),
                None => r is Show && r->Show_0 == Host::CollabGuestProject,
            }
        },
{
    let server_not_running = match event {
        ProjectEvent::Other => return DisconnectAction::Ignore,
        ProjectEvent::DisconnectedFromHost => false,
        ProjectEvent::DisconnectedFromRemote { server_not_running } => server_not_running,
    };
    match options {
        None => DisconnectAction::Show(Host::CollabGuestProject),
        Some(options) => {
            if let RemoteConnectionOptions::Docker(o) = &options {
                return DisconnectAction::Return(return_devcontainer_to_host(o, saved));
            }
            DisconnectAction::Show(Host::RemoteServerProject(options, server_not_running))
        },
    }
}

/// The buttons that are shown beside the one that closes the window.
#[derive(Clone, Copy, Debug, PartialEq, Eq, Structural)]
pub struct OverlayButtons {
    pub can_reconnect: bool,
    pub can_return_to_host: bool,
}

/// The buttons that are shown where a connection is lost.
pub fn overlay_buttons(host: &Host) -> (r: OverlayButtons)
    ensures
        r.can_reconnect == (host is RemoteServerProject),
        r.can_return_to_host == (host is RemoteServerProject && host->RemoteServerProject_0 is Docker),
{
    match host {
        Host::CollabGuestProject => OverlayButtons {
            can_reconnect: false,
            can_return_to_host: false,
        },
        Host::RemoteServerProject(options, _) => OverlayButtons {
            can_reconnect: true,
            can_return_to_host: matches!(options, RemoteConnectionOptions::Docker(_)),
        },
    }
}

/// What is said of a lost connection to a server of the given name.
pub open spec fn overlay_text(host: Host, name: Seq<char>, restores_unsaved: bool) -> Seq<char> {
    match host {
        Host::CollabGuestProject => "Your connection to the remote project has been lost."@,
        Host::RemoteServerProject(_, server_not_running) => "Your connection to "@ + name
            + " has been lost due to the server "@ + (if server_not_running {
            "process exiting unexpectedly"@
        } else {
            "not responding"@
        }) + "."@ + (if restores_unsaved {
            "\nUnsaved changes are stored locally."@
        } else {
            ""@
        }),
    }
}

/// What is said of a lost connection to a server, which is shown as `name`.
pub fn overlay_message(host: &Host, name: &str, restore_unsaved_buffers: bool) -> (r: String)
    ensures
        r@ == overlay_text(*host, name@, restore_unsaved_buffers),
{
    match host {
        Host::CollabGuestProject => {
            "Your connection to the remote project has been lost.".to_owned()
        },
        Host::RemoteServerProject(_, server_not_running) => {
            let mut out = "Your connection to ".to_owned();
            out.append(name);
            out.append(" has been lost due to the server ");
            if *server_not_running {
                out.append("process exiting unexpectedly");
            } else {
                out.append("not responding");
            }
            out.append(".");
            if restore_unsaved_buffers {
                out.append("\nUnsaved changes are stored locally.");
            } else {
                out.append("");
            }
            out
        },
    }
}

/// A window whose container is gone goes back to the folders of the machine that
/// are saved of the same container: here, or on that machine. Where none are
/// saved it says so.
pub proof fn containers_return_to_their_machine(
    r: ContainerReturn,
    o: DockerConnectionOptionsView,
    saved: Seq<DevContainerConnectionView>,
)
    requires
        return_is(r, o, saved),
    ensures
        ({
            let key = container_key(o);
            let folders = saved_host_folders(saved, key);
            &&& key.container_id == o.container_id && key.use_podman == o.use_podman && key.host
                == devcontainer_host_view(o.host)
            &&& r is NotRecorded <==> folders is None
            &&& r is OpenLocal <==> folders is Some && o.host is Local
            &&& r matches ContainerReturn::OpenLocal(paths) ==> Some(texts(paths@)) == folders
            &&& r matches ContainerReturn::OpenRemote(to, paths) ==> Some(texts(paths@)) == folders
                && Some(to@) == host_options_view(devcontainer_host_view(o.host))
        }),
{
}

/// A lost connection is told with the server, with what became of it, and with
/// the comfort that unsaved changes are kept, where they are.
pub proof fn lost_connections_are_told(
    o: RemoteConnectionOptions,
    name: Seq<char>,
)
    ensures
        overlay_text(Host::CollabGuestProject, name, true)
            == "Your connection to the remote project has been lost."@,
        overlay_text(Host::CollabGuestProject, name, false)
            == "Your connection to the remote project has been lost."@,
        overlay_text(Host::RemoteServerProject(o, false), name, false) == "Your connection to "@ + name
            + " has been lost due to the server not responding."@,
        overlay_text(Host::RemoteServerProject(o, true), name, false) == "Your connection to "@ + name
            + " has been lost due to the server process exiting unexpectedly."@,
        overlay_text(Host::RemoteServerProject(o, false), name, true) == "Your connection to "@ + name
            + " has been lost due to the server not responding.\nUnsaved changes are stored locally."@,
        overlay_text(Host::RemoteServerProject(o, true), name, true) == "Your connection to "@ + name
            + " has been lost due to the server process exiting unexpectedly.\nUnsaved changes are stored locally."@,
{
    reveal_strlit("");
    reveal_strlit(".");
    reveal_strlit("not responding");
    reveal_strlit("process exiting unexpectedly");
    reveal_strlit(" has been lost due to the server ");
    reveal_strlit("\nUnsaved changes are stored locally.");
    reveal_strlit(" has been lost due to the server not responding.");
    reveal_strlit(" has been lost due to the server process exiting unexpectedly.");
    reveal_strlit(
        " has been lost due to the server not responding.\nUnsaved changes are stored locally.",
    );
    reveal_strlit(
        " has been lost due to the server process exiting unexpectedly.\nUnsaved changes are stored locally.",
    );
    let lead = "Your connection to "@ + name;
    let lost = " has been lost due to the server "@;
    let more = "\nUnsaved changes are stored locally."@;
    assert(lost + "not responding"@ + "."@ =~= " has been lost due to the server not responding."@);
    assert(lost + "process exiting unexpectedly"@ + "."@
        =~= " has been lost due to the server process exiting unexpectedly."@);
    assert(lost + "not responding"@ + "."@ + more
        =~= " has been lost due to the server not responding.\nUnsaved changes are stored locally."@);
    assert(lost + "process exiting unexpectedly"@ + "."@ + more
        =~= " has been lost due to the server process exiting unexpectedly.\nUnsaved changes are stored locally."@);
    assert(lead + lost + "not responding"@ + "."@ + ""@ =~= lead + (lost + "not responding"@ + "."@));
    assert(lead + lost + "process exiting unexpectedly"@ + "."@ + ""@ =~= lead + (lost
        + "process exiting unexpectedly"@ + "."@));
    assert(lead + lost + "not responding"@ + "."@ + more =~= lead + (lost + "not responding"@ + "."@
        + more));
    assert(lead + lost + "process exiting unexpectedly"@ + "."@ + more =~= lead + (lost
        + "process exiting unexpectedly"@ + "."@ + more));
}

} // verus!
