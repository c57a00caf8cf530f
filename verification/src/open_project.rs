//! Opening a project on a remote machine: the order of the steps, what a
//! failure means, and where the cursor goes in the opened files.
use crate::connection::{
    DockerConnectionOptions, RemoteConnectionOptions, RemoteConnectionOptionsView,
};
use crate::docker::{host_template, CommandTemplate};
use crate::docker_exec::{engine, DockerExecConnection};
use crate::docker_server::{command_args, Interactive};
use crate::connection::EnvVar;
use crate::model::models;
use crate::settings::{
    container_label, is_missing_dev_container_error, missing_dev_container_message,
    reports_missing,
};
use crate::text::{push_str, texts};
use vstd::prelude::*;
use vstd::string::*;

verus! {

// ---------------------------------------------------------------------------
// Failures

/// What a failure to open a project leads to.
#[derive(Clone, Debug, PartialEq, Eq)]
pub enum OpenFailure {
    /// Nothing: the window is on its way back from a container to its machine.
    Suppress,
    /// The container is gone: it is taken out of the settings, and the message
    /// is shown.
    Missing(DockerConnectionOptions, String),
    /// The message is shown, without a question.
    Notify(String),
    /// The question is put whether to try again, under the given title.
    Ask(String),
}

/// The title of the question after a failure.
pub open spec fn failure_title(o: RemoteConnectionOptionsView) -> Seq<char> {
    match o {
        RemoteConnectionOptionsView::Ssh(_) => "Failed to connect over SSH"@,
        RemoteConnectionOptionsView::Wsl(_) => "Failed to connect to WSL"@,
        RemoteConnectionOptionsView::Docker(_) => "Failed to connect to Dev Container"@,
    }
}

/// Whether `f` is what a failure with a message leads to, where `returning`
/// says whether the window is on its way back from the container.
pub open spec fn failure_is(
    f: OpenFailure,
    o: RemoteConnectionOptionsView,
    message: Seq<char>,
    returning: bool,
    on_windows: bool,
) -> bool {
    if o is Docker && returning {
        f is Suppress
    } else if o is Docker && reports_missing(o->Docker_0, message) {
        &&& f is Missing
        &&& f->Missing_0@ == o->Docker_0
        &&& f->Missing_1@ == "Saved dev container `"@ + container_label(o->Docker_0)
            + "` no longer exists and was removed from saved connections.\n"@ + message
    } else if on_windows && o is Wsl {
        f is Notify && f->Notify_0@ == failure_title(o) + ".\n"@ + message
    } else {
        f is Ask && f->Ask_0@ == failure_title(o)
    }
}

/// What a failure to open a project leads to.
pub fn open_failure(
    options: &RemoteConnectionOptions,
    err_message: &str,
    returning: bool,
    on_windows: bool,
) -> (r: OpenFailure)
    ensures
        failure_is(r, options@, err_message@, returning, on_windows),
{
    if crate::settings::should_suppress_dev_container_error_during_host_return(
        options,
        returning,
    ).is_some() {
        return OpenFailure::Suppress;
    }
    if let Some(missing) = is_missing_dev_container_error(options, err_message) {
        let message = missing_dev_container_message(&missing, err_message);
        return OpenFailure::Missing(missing, message);
    }
    let title = match options {
        RemoteConnectionOptions::Ssh(_) => "Failed to connect over SSH",
        RemoteConnectionOptions::Wsl(_) => "Failed to connect to WSL",
        RemoteConnectionOptions::Docker(_) => "Failed to connect to Dev Container",
    };
    let is_wsl = match options {
        RemoteConnectionOptions::Wsl(_) => true,
        _ => false,
    };
    if on_windows && is_wsl {
        let mut out = title.to_owned();
        out.append(".\n");
        out.append(err_message);
        return OpenFailure::Notify(out);
    }
    OpenFailure::Ask(title.to_owned())
}

/// How a failure ends.
#[derive(Clone, Copy, Debug, PartialEq, Eq, Structural)]
pub enum FailureEnd {
    /// The opening ends without a question.
    Ended,
    /// The connection is made anew.
    Retry,
    /// The opening is given up.
    GiveUp,
}

/// How a failure ends, where `retry` is the answer to the question, if one was
/// put.
pub fn failure_end(failure: &OpenFailure, retry: bool) -> (r: FailureEnd)
    ensures
        r == match *failure {
            OpenFailure::Suppress => FailureEnd::Ended,
            OpenFailure::Missing(_, _) => FailureEnd::Ended,
            OpenFailure::Notify(_) => FailureEnd::GiveUp,
            OpenFailure::Ask(_) => if retry {
                FailureEnd::Retry
            } else {
                FailureEnd::GiveUp
            },
        },
{
    match failure {
        OpenFailure::Suppress => FailureEnd::Ended,
        OpenFailure::Missing(_, _) => FailureEnd::Ended,
        OpenFailure::Notify(_) => FailureEnd::GiveUp,
        OpenFailure::Ask(_) => if retry {
            FailureEnd::Retry
        } else {
            FailureEnd::GiveUp
        },
    }
}

// ---------------------------------------------------------------------------
// The order of the steps

/// The steps of opening a project.
#[derive(Clone, Copy, Debug, PartialEq, Eq, Structural)]
pub enum OpenStep {
    /// Look for a window that has the project open.
    Find,
    /// Open the paths in that window.
    OpenInExisting,
    /// Get a window: the one that asks, or a new one.
    PrepareWindow,
    /// Show that a connection is being made.
    ShowPrompt,
    /// Connect.
    Connect,
    /// Open the paths over the new connection.
    OpenItems,
    /// Make the connection known to the extensions.
    Register,
    /// Nothing is left to do.
    Done,
}

/// What has come of a step.
#[derive(Clone, Copy, Debug, PartialEq, Eq, Structural)]
pub enum OpenEvent {
    /// A window has the project open; `alive` says whether it is connected.
    Existing { alive: bool },
    /// No window has the project open.
    NotFound,
    /// The step has been carried out.
    Succeeded,
    /// Nothing can be shown.
    NotShown,
    /// The user has given the connection up.
    Cancelled,
    /// The step has failed, and the failure has ended in this way.
    Failed(FailureEnd),
}

/// The next step, and what is done on the way to it.
#[derive(Clone, Copy, Debug, PartialEq, Eq, Structural)]
pub struct OpenTransition {
    pub next: OpenStep,
    /// Whether the window is closed.
    pub close_window: bool,
    /// Whether the local project that stays is asked to be trusted.
    pub track_trust: bool,
}

/// The step alone.
pub open spec fn just_step(next: OpenStep) -> OpenTransition {
    OpenTransition { next, close_window: false, track_trust: false }
}

/// The next step after an event. `created_new_window` says whether the window
/// was opened for this project.
pub open spec fn opened(step: OpenStep, event: OpenEvent, created_new_window: bool) -> OpenTransition {
    match (step, event) {
        (OpenStep::Find, OpenEvent::Existing { alive }) => just_step(
            if alive {
                OpenStep::OpenInExisting
            } else {
                OpenStep::PrepareWindow
            },
        ),
        (OpenStep::Find, OpenEvent::NotFound) => just_step(OpenStep::PrepareWindow),
        (OpenStep::OpenInExisting, OpenEvent::Succeeded) => just_step(OpenStep::Done),
        (OpenStep::PrepareWindow, OpenEvent::Succeeded) => just_step(OpenStep::ShowPrompt),
        (OpenStep::ShowPrompt, OpenEvent::Succeeded) => just_step(OpenStep::Connect),
        (OpenStep::ShowPrompt, OpenEvent::NotShown) => just_step(OpenStep::Register),
        (OpenStep::Connect, OpenEvent::Succeeded) => just_step(OpenStep::OpenItems),
        (OpenStep::Connect, OpenEvent::Cancelled) => just_step(OpenStep::Register),
        (OpenStep::Connect, OpenEvent::Failed(end)) => if end == FailureEnd::Retry {
            just_step(OpenStep::ShowPrompt)
        } else {
            OpenTransition {
                next: OpenStep::Done,
                close_window: created_new_window,
                track_trust: false,
            }
        },
        (OpenStep::OpenItems, OpenEvent::Succeeded) => just_step(OpenStep::Register),
        (OpenStep::OpenItems, OpenEvent::Failed(end)) => match end {
            FailureEnd::Retry => just_step(OpenStep::ShowPrompt),
            FailureEnd::Ended => OpenTransition {
                next: OpenStep::Done,
                close_window: created_new_window,
                track_trust: false,
            },
            FailureEnd::GiveUp => OpenTransition {
                next: OpenStep::Register,
                close_window: created_new_window,
                track_trust: true,
            },
        },
        (OpenStep::Register, OpenEvent::Succeeded) => just_step(OpenStep::Done),
        _ => just_step(step),
    }
}

/// The next step after an event.
pub fn open_remote_project(step: OpenStep, event: OpenEvent, created_new_window: bool) -> (r:
    OpenTransition)
    ensures
        r == opened(step, event, created_new_window),
{
    let next = match (step, event) {
        (OpenStep::Find, OpenEvent::Existing { alive }) => if alive {
            OpenStep::OpenInExisting
        } else {
            OpenStep::PrepareWindow
        },
        (OpenStep::Find, OpenEvent::NotFound) => OpenStep::PrepareWindow,
        (OpenStep::OpenInExisting, OpenEvent::Succeeded) => OpenStep::Done,
        (OpenStep::PrepareWindow, OpenEvent::Succeeded) => OpenStep::ShowPrompt,
        (OpenStep::ShowPrompt, OpenEvent::Succeeded) => OpenStep::Connect,
        (OpenStep::ShowPrompt, OpenEvent::NotShown) => OpenStep::Register,
        (OpenStep::Connect, OpenEvent::Succeeded) => OpenStep::OpenItems,
        (OpenStep::Connect, OpenEvent::Cancelled) => OpenStep::Register,
        (OpenStep::Connect, OpenEvent::Failed(end)) => {
            if end == FailureEnd::Retry {
                OpenStep::ShowPrompt
            } else {
                return OpenTransition {
                    next: OpenStep::Done,
                    close_window: created_new_window,
                    track_trust: false,
                };
            }
        },
        (OpenStep::OpenItems, OpenEvent::Succeeded) => OpenStep::Register,
        (OpenStep::OpenItems, OpenEvent::Failed(end)) => {
            match end {
                FailureEnd::Retry => OpenStep::ShowPrompt,
                FailureEnd::Ended => {
                    return OpenTransition {
                        next: OpenStep::Done,
                        close_window: created_new_window,
                        track_trust: false,
                    };
                },
                FailureEnd::GiveUp => {
                    return OpenTransition {
                        next: OpenStep::Register,
                        close_window: created_new_window,
                        track_trust: true,
                    };
                },
            }
        },
        (OpenStep::Register, OpenEvent::Succeeded) => OpenStep::Done,
        _ => step,
    };
    OpenTransition { next, close_window: false, track_trust: false }
}

/// A window whose connection is dead is of no use: the project is opened as if
/// no window had it open.
pub proof fn dead_connection_is_made_anew(created_new_window: bool)
    ensures
        opened(OpenStep::Find, OpenEvent::Existing { alive: false }, created_new_window) == opened(
            OpenStep::Find,
            OpenEvent::NotFound,
            created_new_window,
        ),
{
}

/// A window that was there before is never closed, and a window is closed only
/// after a failure that is not tried again.
pub proof fn only_new_windows_are_closed(step: OpenStep, event: OpenEvent, created_new_window: bool)
    ensures
        opened(step, event, created_new_window).close_window ==> created_new_window && event is Failed
            && event != OpenEvent::Failed(FailureEnd::Retry),
{
}

/// Trying again always begins with showing that a connection is being made.
pub proof fn retry_starts_over(step: OpenStep, created_new_window: bool)
    requires
        step == OpenStep::Connect || step == OpenStep::OpenItems,
    ensures
        opened(step, OpenEvent::Failed(FailureEnd::Retry), created_new_window) == just_step(
            OpenStep::ShowPrompt,
        ),
{
}

/// The paths are opened only over a connection that has been made: on the way
/// to them stands the step that connects, or a window that is connected.
pub proof fn items_need_a_connection(step: OpenStep, event: OpenEvent, created_new_window: bool)
    ensures
        opened(step, event, created_new_window).next == OpenStep::OpenItems && step
            != OpenStep::OpenItems ==> step == OpenStep::Connect && event == OpenEvent::Succeeded,
        opened(step, event, created_new_window).next == OpenStep::OpenInExisting && step
            != OpenStep::OpenInExisting ==> event == (OpenEvent::Existing { alive: true }),
{
}

/// A project that a connected window has open is opened in that window: no
/// other window is prepared, and none is closed.
pub proof fn open_window_is_used(created_new_window: bool)
    ensures
        opened(OpenStep::Find, OpenEvent::Existing { alive: true }, created_new_window)
            == just_step(OpenStep::OpenInExisting),
        opened(OpenStep::OpenInExisting, OpenEvent::Succeeded, created_new_window) == just_step(
            OpenStep::Done,
        ),
{
}

/// How far a step stands in the order of the steps.
pub open spec fn open_rank(step: OpenStep) -> int {
    match step {
        OpenStep::Find => 0,
        OpenStep::PrepareWindow => 1,
        OpenStep::ShowPrompt => 2,
        OpenStep::Connect => 3,
        OpenStep::OpenItems => 4,
        OpenStep::OpenInExisting => 5,
        OpenStep::Register => 5,
        OpenStep::Done => 6,
    }
}

/// Whether an event can be what has come of a step.
pub open spec fn open_event_fits(step: OpenStep, event: OpenEvent) -> bool {
    match step {
        OpenStep::Find => event is Existing || event is NotFound,
        OpenStep::ShowPrompt => event is Succeeded || event is NotShown,
        OpenStep::Connect => event is Succeeded || event is Cancelled || event is Failed,
        OpenStep::OpenItems => event is Succeeded || event is Failed,
        OpenStep::Done => false,
        _ => event is Succeeded,
    }
}

/// Opening comes to an end: every outcome leads on in the order of the steps,
/// but for the wish to try again.
pub proof fn opening_comes_to_an_end(step: OpenStep, event: OpenEvent, created_new_window: bool)
    requires
        open_event_fits(step, event),
        event != OpenEvent::Failed(FailureEnd::Retry),
    ensures
        open_rank(opened(step, event, created_new_window).next) > open_rank(step),
        open_rank(opened(step, event, created_new_window).next) <= open_rank(OpenStep::Done),
{
}

// ---------------------------------------------------------------------------
// Paths with positions

/// A path, with the row and the column that were named behind it, if any.
#[derive(Clone, Debug, PartialEq, Eq)]
pub struct PathWithPosition {
    pub path: String,
    pub row: Option<u32>,
    pub column: Option<u32>,
}

/// The model of a [`PathWithPosition`].
#[verifier::ext_equal]
pub struct PathWithPositionView {
    pub path: Seq<char>,
    pub row: Option<u32>,
    pub column: Option<u32>,
}

impl View for PathWithPosition {
    type V = PathWithPositionView;

    open spec fn view(&self) -> PathWithPositionView {
        PathWithPositionView { path: self.path@, row: self.row, column: self.column }
    }
}

/// What a path turns out to be, given what it reads as and whether it exists as
/// it stands. A path that exists is taken as it stands; one that does not, and
/// names a row, is the path without the row.
pub open spec fn resolved(
    path: Seq<char>,
    parsed: Option<PathWithPositionView>,
    exists_as_is: bool,
) -> PathWithPositionView {
    match parsed {
        Some(p) => if p.row is Some && !exists_as_is {
            p
        } else {
            PathWithPositionView { path, row: None, column: None }
        },
        None => PathWithPositionView { path, row: None, column: None },
    }
}

/// The model of what a path reads as.
pub open spec fn parsed_view(p: Option<PathWithPosition>) -> Option<PathWithPositionView> {
    match p {
        Some(x) => Some(x@),
        None => None,
    }
}

/// Whether it matters that a path exists as it stands: where it names a row.
pub fn needs_existence_check(parsed: &Option<PathWithPosition>) -> (r: bool)
    ensures
        r == (parsed_view(*parsed) is Some && parsed_view(*parsed)->0.row is Some),
{
    match parsed {
        Some(p) => p.row.is_some(),
        None => false,
    }
}

/// What the paths turn out to be, given what each reads as, and whether it
/// exists as it stands.
pub fn determine_paths_with_positions(
    paths: &Vec<String>,
    parsed: &Vec<Option<PathWithPosition>>,
    exists_as_is: &Vec<bool>,
) -> (r: (Vec<String>, Vec<PathWithPosition>))
    requires
        paths.len() == parsed.len(),
        paths.len() == exists_as_is.len(),
    ensures
        r.0.len() == paths.len(),
        r.1.len() == paths.len(),
        forall|i: int|
            0 <= i < paths.len() ==> (#[trigger] r.1@[i])@ == resolved(
                paths@[i]@,
                parsed_view(parsed@[i]),
                exists_as_is@[i],
            ),
        forall|i: int| 0 <= i < paths.len() ==> (#[trigger] r.0@[i])@ == r.1@[i]@.path,
{
    let mut resolved_paths: Vec<String> = Vec::new();
    let mut positions: Vec<PathWithPosition> = Vec::new();
    let mut i: usize = 0;
    while i < paths.len()
        invariant
            i <= paths.len(),
            paths.len() == parsed.len(),
            paths.len() == exists_as_is.len(),
            resolved_paths.len() == i,
            positions.len() == i,
            forall|k: int|
                0 <= k < i ==> (#[trigger] positions@[k])@ == resolved(
                    paths@[k]@,
                    parsed_view(parsed@[k]),
                    exists_as_is@[k],
                ),
            forall|k: int| 0 <= k < i ==> (#[trigger] resolved_paths@[k])@ == positions@[k]@.path,
        decreases paths.len() - i,
    {
        let plain = PathWithPosition { path: paths[i].clone(), row: None, column: None };
        let position = match &parsed[i] {
            Some(p) => if p.row.is_some() && !exists_as_is[i] {
                PathWithPosition { path: p.path.clone(), row: p.row, column: p.column }
            } else {
                plain
            },
            None => plain,
        };
        resolved_paths.push(position.path.clone());
        positions.push(position);
        i = i + 1;
    }
    (resolved_paths, positions)
}

/// The program that says whether a path exists, and its arguments.
pub fn path_exists_call(path: &str) -> (r: (String, Vec<String>))
    ensures
        r.0@ == "test"@,
        texts(r.1@) == seq!["-e"@, path@],
{
    let mut args: Vec<String> = Vec::new();
    push_str(&mut args, "-e");
    push_str(&mut args, path);
    assert(texts(args@) =~= seq!["-e"@, path@]);
    ("test".to_owned(), args)
}

/// The command that says whether a path exists in a container.
pub fn path_exists(connection: &DockerExecConnection, path: &str, bridge_wsl: bool) -> (r:
    CommandTemplate)
    ensures
        r@ == host_template(
            engine(connection@.connection_options),
            connection@.connection_options.host,
            command_args(
                connection@,
                Some("test"@),
                seq!["-e"@, path@],
                Seq::empty(),
                None,
                Interactive::No,
            ),
            bridge_wsl,
        ),
{
    let (program, args) = path_exists_call(path);
    let env: Vec<EnvVar> = Vec::new();
    assert(models(env@) =~= Seq::empty());
    connection.build_command_bridged(Some(program), &args, &env, None, Interactive::No, bridge_wsl)
}

/// What was opened for a path.
#[derive(Clone, Copy, Debug, PartialEq, Eq, Structural)]
pub enum OpenedItem {
    /// Nothing.
    Nothing,
    /// An editor of text.
    Editor,
    /// Something else.
    Other,
}

/// Where the cursor goes in one of the opened items; rows and columns are
/// counted from zero.
#[derive(Clone, Copy, Debug, PartialEq, Eq, Structural)]
pub struct CursorTarget {
    pub item: usize,
    pub row: u32,
    pub column: u32,
}

/// Where the cursor goes in an opened item, if anywhere: rows and columns are
/// named from one on, and a column that is not named is the first.
pub open spec fn cursor_target(
    item: int,
    opened: OpenedItem,
    position: PathWithPositionView,
) -> Option<CursorTarget> {
    if opened == OpenedItem::Editor && position.row is Some {
        Some(
            CursorTarget {
                item: item as usize,
                row: from_zero(position.row->0),
                column: match position.column {
                    Some(c) => from_zero(c),
                    None => 0,
                },
            },
        )
    } else {
        None
    }
}

/// A number that is counted from one, counted from zero.
pub open spec fn from_zero(n: u32) -> u32 {
    if n == 0 {
        0
    } else {
        (n - 1) as u32
    }
}

/// Where the cursor goes in the opened items, in order.
pub open spec fn cursor_targets(
    items: Seq<OpenedItem>,
    positions: Seq<PathWithPositionView>,
    n: nat,
) -> Seq<CursorTarget>
    decreases n,
{
    if n == 0 {
        Seq::empty()
    } else {
        let head = cursor_targets(items, positions, (n - 1) as nat);
        match cursor_target(n - 1, items[n - 1], positions[n - 1]) {
            Some(t) => head.push(t),
            None => head,
        }
    }
}

/// How many items have both something opened and a position.
pub open spec fn paired(a: nat, b: nat) -> nat {
    if a <= b {
        a
    } else {
        b
    }
}

/// Where the cursor goes in the opened items, in order.
pub fn navigate_to_positions(items: &Vec<OpenedItem>, positions: &Vec<PathWithPosition>) -> (r: Vec<
    CursorTarget,
>)
    ensures
        r@ == cursor_targets(
            items@,
            models(positions@),
            paired(items@.len(), positions@.len()),
        ),
{
    let mut out: Vec<CursorTarget> = Vec::new();
    let n: usize = if items.len() <= positions.len() {
        items.len()
    } else {
        positions.len()
    };
    let mut i: usize = 0;
    while i < n
        invariant
            i <= n,
            n <= items.len(),
            n <= positions.len(),
            out@ == cursor_targets(items@, models(positions@), i as nat),
        decreases n - i,
    {
        let p = &positions[i];
        assert(models(positions@)[i as int] == p@);
        if items[i] == OpenedItem::Editor {
            if let Some(row) = p.row {
                let column: u32 = match p.column {
                    Some(c) => c,
                    None => 0,
                };
                out.push(
                    CursorTarget {
                        item: i,
                        row: if row == 0 {
                            0
                        } else {
                            row - 1
                        },
                        column: if column == 0 {
                            0
                        } else {
                            column - 1
                        },
                    },
                );
            }
        }
        i = i + 1;
    }
    out
}

/// A path that exists as it stands is opened as it stands, and the cursor goes
/// nowhere in it.
pub proof fn existing_path_is_taken_as_it_stands(
    path: Seq<char>,
    parsed: Option<PathWithPositionView>,
    item: int,
    opened: OpenedItem,
)
    ensures
        resolved(path, parsed, true).path == path,
        cursor_target(item, opened, resolved(path, parsed, true)) is None,
{
}

proof fn targets_are_the_named_ones(
    items: Seq<OpenedItem>,
    positions: Seq<PathWithPositionView>,
    n: nat,
)
    requires
        n <= items.len() <= usize::MAX,
        n <= positions.len(),
    ensures
        ({
            let all = cursor_targets(items, positions, n);
            &&& forall|k: int| 0 <= k < all.len() ==> (#[trigger] all[k]).item < n
            &&& forall|j: int, k: int|
                0 <= j < k < all.len() ==> (#[trigger] all[j]).item < (#[trigger] all[k]).item
            &&& forall|k: int|
                0 <= k < all.len() ==> leads_to(
                    #[trigger] all[k],
                    items[all[k].item as int],
                    positions[all[k].item as int],
                )
            &&& forall|i: int|
                0 <= i < n && (#[trigger] items[i]) == OpenedItem::Editor && positions[i].row is Some
                    ==> exists|k: int| 0 <= k < all.len() && (#[trigger] all[k]).item == i
        }),
    decreases n,
{
    if n > 0 {
        let m = (n - 1) as nat;
        targets_are_the_named_ones(items, positions, m);
        let head = cursor_targets(items, positions, m);
        let all = cursor_targets(items, positions, n);
        assert forall|i: int|
            0 <= i < n && (#[trigger] items[i]) == OpenedItem::Editor
                && positions[i].row is Some implies exists|k: int|
            0 <= k < all.len() && (#[trigger] all[k]).item == i by {
            if i < m {
                let k = choose|k: int| 0 <= k < head.len() && (#[trigger] head[k]).item == i;
                assert(all[k].item == i);
            } else {
                assert(all[all.len() - 1].item == i);
            }
        }
    }
}

/// Whether a target stands where a position says: in an editor, in the row that
/// the position names, and in its column, or the first; both counted from zero.
pub open spec fn leads_to(
    t: CursorTarget,
    item: OpenedItem,
    position: PathWithPositionView,
) -> bool {
    &&& item == OpenedItem::Editor
    &&& position.row matches Some(r) && (r >= 1 ==> t.row + 1 == r) && (r < 1 ==> t.row == 0)
    &&& match position.column {
        Some(c) => (c >= 1 ==> t.column + 1 == c) && (c < 1 ==> t.column == 0),
        None => t.column == 0,
    }
}

/// Every editor whose position names a row, with a column or without, has one
/// target and no more, and it stands where the position says.
pub proof fn named_rows_are_gone_to(
    items: Seq<OpenedItem>,
    positions: Seq<PathWithPositionView>,
    i: int,
)
    requires
        items.len() <= usize::MAX,
        0 <= i < items.len(),
        i < positions.len(),
        items[i] is Editor,
        positions[i].row is Some,
    ensures
        ({
            let all = cursor_targets(items, positions, paired(items.len(), positions.len()));
            exists|k: int|
                #![trigger all[k]]
                {
                    &&& 0 <= k < all.len()
                    &&& all[k].item == i
                    &&& leads_to(all[k], items[i], positions[i])
                    &&& forall|j: int| 0 <= j < all.len() && j != k ==> (#[trigger] all[j]).item != i
                }
        }),
{
    let n = paired(items.len(), positions.len());
    targets_are_the_named_ones(items, positions, n);
    let all = cursor_targets(items, positions, n);
    let k = choose|k: int| 0 <= k < all.len() && (#[trigger] all[k]).item == i;
    assert(leads_to(all[k], items[i], positions[i]));
    assert forall|j: int| 0 <= j < all.len() && j != k implies (#[trigger] all[j]).item != i by {
        if j < k {
            assert(all[j].item < all[k].item);
        } else {
            assert(all[k].item < all[j].item);
        }
    }
}

/// Nothing else has a target: each stands for an item that is an editor and
/// whose position names a row, and they come in the order of the items.
pub proof fn other_items_are_left_alone(
    items: Seq<OpenedItem>,
    positions: Seq<PathWithPositionView>,
    j: int,
    k: int,
)
    requires
        items.len() <= usize::MAX,
        0 <= j < k < cursor_targets(
            items,
            positions,
            paired(items.len(), positions.len()),
        ).len(),
    ensures
        ({
            let all = cursor_targets(items, positions, paired(items.len(), positions.len()));
            let a = all[j].item as int;
            let b = all[k].item as int;
            &&& a < b < items.len() && b < positions.len()
            &&& items[a] is Editor && items[b] is Editor
            &&& positions[a].row is Some && positions[b].row is Some
        }),
{
    let n = paired(items.len(), positions.len());
    targets_are_the_named_ones(items, positions, n);
    let all = cursor_targets(items, positions, n);
    assert(leads_to(all[j], items[all[j].item as int], positions[all[j].item as int]));
    assert(leads_to(all[k], items[all[k].item as int], positions[all[k].item as int]));
}

/// The cursor is moved only where there is an editor with a named row.
pub proof fn targets_need_a_named_row(
    items: Seq<OpenedItem>,
    positions: Seq<PathWithPositionView>,
    k: int,
)
    requires
        items.len() <= usize::MAX,
        0 <= k < cursor_targets(items, positions, paired(items.len(), positions.len())).len(),
    ensures
        ({
            let t = cursor_targets(items, positions, paired(items.len(), positions.len()))[k];
            &&& t.item < items.len() && t.item < positions.len()
            &&& leads_to(t, items[t.item as int], positions[t.item as int])
        }),
{
    let n = paired(items.len(), positions.len());
    targets_are_the_named_ones(items, positions, n);
    let all = cursor_targets(items, positions, n);
    assert(leads_to(all[k], items[all[k].item as int], positions[all[k].item as int]));
}

/// A path that does not exist as it stands gives way to what it reads as where
/// that names a row, with the row and the column; one that names no row is
/// taken as it stands.
pub proof fn missing_path_is_read(path: Seq<char>, parsed: PathWithPositionView)
    ensures
        parsed.row is Some ==> resolved(path, Some(parsed), false) == parsed,
        parsed.row is None ==> resolved(path, Some(parsed), false).path == path && resolved(
            path,
            Some(parsed),
            false,
        ).row is None,
        resolved(path, None, false).path == path,
        resolved(path, None, false).row is None,
{
}

/// What a failure leads to: nothing while a window leaves its container; the
/// container's removal where it is gone, told with the error; on Windows a
/// message with the error for its distributions; in every other case a
/// question under the title of the kind of machine.
pub proof fn failures_are_told(
    f: OpenFailure,
    o: RemoteConnectionOptionsView,
    message: Seq<char>,
    returning: bool,
    on_windows: bool,
)
    requires
        failure_is(f, o, message, returning, on_windows),
    ensures
        o is Docker && returning <==> f is Suppress,
        f is Missing <==> o is Docker && !returning && reports_missing(o->Docker_0, message),
        f matches OpenFailure::Missing(gone, told) ==> {
            &&& gone@ == o->Docker_0
            &&& told@ == "Saved dev container `"@ + container_label(o->Docker_0)
                + "` no longer exists and was removed from saved connections.\n"@ + message
        },
        f is Notify <==> o is Wsl && on_windows,
        f matches OpenFailure::Notify(told) ==> told@ == "Failed to connect to WSL.\n"@ + message,
        f matches OpenFailure::Ask(title) ==> match o {
            RemoteConnectionOptionsView::Ssh(_) => title@ == "Failed to connect over SSH"@,
            RemoteConnectionOptionsView::Wsl(_) => title@ == "Failed to connect to WSL"@,
            RemoteConnectionOptionsView::Docker(_) => title@
                == "Failed to connect to Dev Container"@,
        },
{
    reveal_strlit("Failed to connect to WSL");
    reveal_strlit(".\n");
    reveal_strlit("Failed to connect to WSL.\n");
    assert("Failed to connect to WSL"@ + ".\n"@ =~= "Failed to connect to WSL.\n"@);
}

/// Each step that goes well leads to the next one: a window, the word that a
/// connection is made, the connection, the paths, the extensions. What cannot be
/// shown, and what is given up by the user, leads to the extensions at once.
pub proof fn steps_follow_each_other(fresh: bool)
    ensures
        ({
            let after = |step: OpenStep, event: OpenEvent| opened(step, event, fresh);
            let well = OpenEvent::Succeeded;
            &&& after(OpenStep::Find, OpenEvent::NotFound).next is PrepareWindow
            &&& after(OpenStep::PrepareWindow, well).next is ShowPrompt
            &&& after(OpenStep::ShowPrompt, well).next is Connect
            &&& after(OpenStep::Connect, well).next is OpenItems
            &&& after(OpenStep::OpenItems, well).next is Register
            &&& after(OpenStep::Register, well).next is Done
            &&& after(OpenStep::ShowPrompt, OpenEvent::NotShown).next is Register
            &&& after(OpenStep::Connect, OpenEvent::Cancelled).next is Register
        }),
{
}

/// A failure that is not tried again closes the window that was opened for the
/// project. Only paths that cannot be opened and are given up leave a local
/// project behind, whose trust is then asked for.
pub proof fn failures_end_the_opening(end: FailureEnd, fresh: bool)
    requires
        !(end is Retry),
    ensures
        ({
            let a = opened(OpenStep::Connect, OpenEvent::Failed(end), fresh);
            let b = opened(OpenStep::OpenItems, OpenEvent::Failed(end), fresh);
            &&& a.next is Done && a.close_window == fresh && !a.track_trust
            &&& b.close_window == fresh
            &&& b.track_trust <==> end is GiveUp
            &&& end is GiveUp ==> b.next is Register
            &&& end is Ended ==> b.next is Done
        }),
{
}

/// A window is closed, and trust asked for, only where something has failed.
pub proof fn only_failures_close_and_ask(step: OpenStep, event: OpenEvent, fresh: bool)
    requires
        !(event is Failed),
    ensures
        !opened(step, event, fresh).close_window,
        !opened(step, event, fresh).track_trust,
{
}

} // verus!
