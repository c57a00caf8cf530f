//! How far the creation of a development container has come, what is shown of
//! it, and what may help where it has failed.
use crate::connection::{
    docker_options_of, Connection, DevContainerConnection, RemoteConnectionOptions,
};
use crate::model::Model;
use crate::settings::{
    or_none, with_dev_container, RemoteSettingsContent, RemoteSettingsContentView,
};
use crate::text::{
    chars_of, has_part, lowered, occurs_at, opt_text, position_of, push_str, string_of,
    text_contains, texts, to_ascii_lower,
};
use vstd::prelude::*;
use vstd::string::*;

verus! {

// ---------------------------------------------------------------------------
// Hints

/// A list of hints with one more, where it does not hold it yet.
pub open spec fn with_hint(list: Seq<Seq<char>>, hint: Seq<char>) -> Seq<Seq<char>> {
    if list.contains(hint) {
        list
    } else {
        list.push(hint)
    }
}

/// A list of hints with others behind it, each once.
pub open spec fn with_hints(list: Seq<Seq<char>>, hints: Seq<Seq<char>>) -> Seq<Seq<char>>
    decreases hints.len(),
{
    if hints.len() == 0 {
        list
    } else {
        with_hint(with_hints(list, hints.drop_last()), hints.last())
    }
}

/// The hints for a missing command line of development containers.
pub open spec fn cli_hints() -> Seq<Seq<char>> {
    seq![
        "Install the Dev Container CLI on the project host: npm install -g @devcontainers/cli"@,
        "Verify it is on PATH: devcontainer --version"@,
        "Quick WSL check (if applicable): wsl -d <distro> -- sh -lc 'command -v devcontainer'"@,
        "Ensure PATH is set for login shells (e.g. ~/.bash_profile, ~/.profile, ~/.zprofile)."@,
        "If using mise, add ~/.local/share/mise/bin and ~/.local/share/mise/shims to PATH in your login shell config."@,
        "Run the commands on the host where the project lives."@,
        "Ensure npm is installed on the project host: npm --version"@,
    ]
}

/// The hints for a missing container engine.
pub open spec fn engine_hints() -> Seq<Seq<char>> {
    seq![
        "Install Docker or Podman on the project host and ensure it is on PATH."@,
        "Verify it is available: docker --version (or podman --version)."@,
        "Verify the daemon is running: docker info (or podman info)."@,
        "Run the commands on the host where the project lives."@,
    ]
}

/// The hints for a missing configuration.
pub open spec fn definition_hints() -> Seq<Seq<char>> {
    seq!["Ensure .devcontainer/devcontainer.json exists in the project root."@]
}

/// The hints for a broken configuration.
pub open spec fn syntax_hints() -> Seq<Seq<char>> {
    seq!["Fix JSON syntax errors in .devcontainer/devcontainer.json."@]
}

/// The hints for a remote server that cannot be fetched.
pub open spec fn download_hints() -> Seq<Seq<char>> {
    seq!["Ensure the container has outbound internet access and curl or wget installed."@]
}

/// Whether an error is about the command line of development containers.
pub open spec fn about_cli(message: Seq<char>) -> bool {
    has_part(message, "Dev Container CLI not available"@) || has_part(
        lowered(message),
        "devcontainer cli"@,
    )
}

/// Whether an error is about the container engine.
pub open spec fn about_engine(message: Seq<char>) -> bool {
    let low = lowered(message);
    has_part(low, "docker/podman not available"@) || has_part(low, "docker info failed"@)
        || has_part(low, "podman info failed"@) || has_part(message, "Docker CLI not found"@)
        || has_part(low, "docker cli not available"@) || has_part(low, "unable to run docker"@)
}

/// Whether an error is about fetching the remote server.
pub open spec fn about_download(message: Seq<char>) -> bool {
    let low = lowered(message);
    has_part(low, "failed to download the remote server binary"@) || has_part(
        low,
        "cannot upload local files to a container over ssh"@,
    ) || has_part(low, "uploading a local binary over ssh is not supported"@)
}

/// The hints, or none.
pub open spec fn hints_if(applies: bool, hints: Seq<Seq<char>>) -> Seq<Seq<char>> {
    if applies {
        hints
    } else {
        Seq::empty()
    }
}

/// What may help against an error, in order and each once.
pub open spec fn error_hints(message: Seq<char>) -> Seq<Seq<char>> {
    let a = with_hints(Seq::empty(), hints_if(about_cli(message), cli_hints()));
    let b = with_hints(a, hints_if(about_engine(message), engine_hints()));
    let c = with_hints(
        b,
        hints_if(has_part(message, "No valid dev container definition"@), definition_hints()),
    );
    let d = with_hints(
        c,
        hints_if(
            has_part(message, "Failed to parse file .devcontainer/devcontainer.json"@),
            syntax_hints(),
        ),
    );
    with_hints(d, hints_if(about_download(message), download_hints()))
}

proof fn hints_are_held(list: Seq<Seq<char>>, hints: Seq<Seq<char>>, h: Seq<char>)
    ensures
        with_hints(list, hints).contains(h) <==> list.contains(h) || hints.contains(h),
    decreases hints.len(),
{
    if hints.len() > 0 {
        let head = hints.drop_last();
        let last = hints.last();
        hints_are_held(list, head, h);
        let before = with_hints(list, head);
        if hints.contains(h) {
            let k = choose|k: int| 0 <= k < hints.len() && hints[k] == h;
            if k < head.len() {
                assert(head[k] == h);
            }
        }
        if head.contains(h) {
            let k = choose|k: int| 0 <= k < head.len() && head[k] == h;
            assert(hints[k] == h);
        }
        assert(hints[hints.len() - 1] == last);
        if !before.contains(last) {
            let all = before.push(last);
            assert(all[before.len() as int] == last);
            if before.contains(h) {
                let k = choose|k: int| 0 <= k < before.len() && before[k] == h;
                assert(all[k] == h);
            }
            if all.contains(h) {
                let k = choose|k: int| 0 <= k < all.len() && all[k] == h;
                if k < before.len() {
                    assert(before[k] == h);
                }
            }
        }
    }
}

proof fn parts_stay(message: Seq<char>, longer: Seq<char>, part: Seq<char>)
    requires
        has_part(longer, message),
    ensures
        has_part(message, part) ==> has_part(longer, part),
        has_part(lowered(message), part) ==> has_part(lowered(longer), part),
{
    let at = choose|at: int| occurs_at(longer, message, at);
    if has_part(message, part) {
        let k = choose|k: int| occurs_at(message, part, k);
        assert(longer.subrange(at + k, at + k + part.len()) =~= longer.subrange(
            at,
            at + message.len(),
        ).subrange(k, k + part.len()));
        assert(occurs_at(longer, part, at + k));
    }
    if has_part(lowered(message), part) {
        let k = choose|k: int| occurs_at(lowered(message), part, k);
        let low = lowered(longer);
        assert forall|i: int| 0 <= i < part.len() implies low.subrange(at + k, at + k + part.len())[
            i
        ] == part[i] by {
            assert(part[i] == lowered(message).subrange(k, k + part.len())[i]);
            assert(message[k + i] == longer.subrange(at, at + message.len())[k + i]);
        }
        assert(low.subrange(at + k, at + k + part.len()) =~= part);
        assert(occurs_at(low, part, at + k));
    }
}

/// An error that holds another one has all of its hints, and perhaps more.
pub proof fn longer_errors_lose_no_hint(message: Seq<char>, longer: Seq<char>, hint: Seq<char>)
    requires
        has_part(longer, message),
        error_hints(message).contains(hint),
    ensures
        error_hints(longer).contains(hint),
{
    parts_stay(message, longer, "Dev Container CLI not available"@);
    parts_stay(message, longer, "devcontainer cli"@);
    parts_stay(message, longer, "docker/podman not available"@);
    parts_stay(message, longer, "docker info failed"@);
    parts_stay(message, longer, "podman info failed"@);
    parts_stay(message, longer, "Docker CLI not found"@);
    parts_stay(message, longer, "docker cli not available"@);
    parts_stay(message, longer, "unable to run docker"@);
    parts_stay(message, longer, "No valid dev container definition"@);
    parts_stay(message, longer, "Failed to parse file .devcontainer/devcontainer.json"@);
    parts_stay(message, longer, "failed to download the remote server binary"@);
    parts_stay(message, longer, "cannot upload local files to a container over ssh"@);
    parts_stay(message, longer, "uploading a local binary over ssh is not supported"@);
    held_hints(message, hint);
    held_hints(longer, hint);
}

proof fn held_hints(message: Seq<char>, hint: Seq<char>)
    ensures
        error_hints(message).contains(hint) <==> {
            ||| about_cli(message) && cli_hints().contains(hint)
            ||| about_engine(message) && engine_hints().contains(hint)
            ||| has_part(message, "No valid dev container definition"@)
                && definition_hints().contains(hint)
            ||| has_part(message, "Failed to parse file .devcontainer/devcontainer.json"@)
                && syntax_hints().contains(hint)
            ||| about_download(message) && download_hints().contains(hint)
        },
{
    let none = Seq::<Seq<char>>::empty();
    let ha = hints_if(about_cli(message), cli_hints());
    let a = with_hints(none, ha);
    let hb = hints_if(about_engine(message), engine_hints());
    let b = with_hints(a, hb);
    let hc = hints_if(
        has_part(message, "No valid dev container definition"@),
        definition_hints(),
    );
    let c = with_hints(b, hc);
    let hd = hints_if(
        has_part(message, "Failed to parse file .devcontainer/devcontainer.json"@),
        syntax_hints(),
    );
    let d = with_hints(c, hd);
    let he = hints_if(about_download(message), download_hints());
    hints_are_held(none, ha, hint);
    hints_are_held(a, hb, hint);
    hints_are_held(b, hc, hint);
    hints_are_held(c, hd, hint);
    hints_are_held(d, he, hint);
    assert(!none.contains(hint));
}

fn push_hint(hints: &mut Vec<String>, hint: &str)
    ensures
        texts(final(hints)@) == with_hint(texts(old(hints)@), hint@),
{
    match position_of(hints, hint) {
        Some(i) => {
            assert(texts(hints@)[i as int] == hint@);
        },
        None => {
            push_str(hints, hint);
        },
    }
}

fn push_all_hints(hints: &mut Vec<String>, more: &Vec<String>)
    ensures
        texts(final(hints)@) == with_hints(texts(old(hints)@), texts(more@)),
{
    let ghost all = texts(more@);
    let mut i: usize = 0;
    while i < more.len()
        invariant
            i <= more.len(),
            all == texts(more@),
            texts(hints@) == with_hints(texts(old(hints)@), all.take(i as int)),
        decreases more.len() - i,
    {
        push_hint(hints, more[i].as_str());
        i = i + 1;
        proof {
            assert(all.take(i as int).drop_last() =~= all.take(i - 1));
            assert(all.take(i as int).last() == more@[i - 1]@);
        }
    }
    assert(all.take(i as int) =~= all);
}

/// What may help against an error, in order and each once.
pub fn devcontainer_error_hints(message: &str) -> (r: Vec<String>)
    ensures
        texts(r@) == error_hints(message@),
{
    let chars = chars_of(message);
    let low_text = string_of(to_ascii_lower(chars.as_slice()).as_slice());
    let low = low_text.as_str();
    let mut hints: Vec<String> = Vec::new();
    assert(texts(hints@) =~= Seq::empty());

    let mut more: Vec<String> = Vec::new();
    if text_contains(message, "Dev Container CLI not available") || text_contains(
        low,
        "devcontainer cli",
    ) {
        push_str(&mut more, "Install the Dev Container CLI on the project host: npm install -g @devcontainers/cli");
        push_str(&mut more, "Verify it is on PATH: devcontainer --version");
        push_str(&mut more, "Quick WSL check (if applicable): wsl -d <distro> -- sh -lc 'command -v devcontainer'");
        push_str(&mut more, "Ensure PATH is set for login shells (e.g. ~/.bash_profile, ~/.profile, ~/.zprofile).");
        push_str(&mut more, "If using mise, add ~/.local/share/mise/bin and ~/.local/share/mise/shims to PATH in your login shell config.");
        push_str(&mut more, "Run the commands on the host where the project lives.");
        push_str(&mut more, "Ensure npm is installed on the project host: npm --version");
    }
    assert(texts(more@) =~= hints_if(about_cli(message@), cli_hints()));
    push_all_hints(&mut hints, &more);

    let mut more: Vec<String> = Vec::new();
    if text_contains(low, "docker/podman not available") || text_contains(low, "docker info failed")
        || text_contains(low, "podman info failed") || text_contains(
        message,
        "Docker CLI not found",
    ) || text_contains(low, "docker cli not available") || text_contains(
        low,
        "unable to run docker",
    ) {
        push_str(&mut more, "Install Docker or Podman on the project host and ensure it is on PATH.");
        push_str(&mut more, "Verify it is available: docker --version (or podman --version).");
        push_str(&mut more, "Verify the daemon is running: docker info (or podman info).");
        push_str(&mut more, "Run the commands on the host where the project lives.");
    }
    assert(texts(more@) =~= hints_if(about_engine(message@), engine_hints()));
    push_all_hints(&mut hints, &more);

    let mut more: Vec<String> = Vec::new();
    let missing = text_contains(message, "No valid dev container definition");
    if missing {
        push_str(&mut more, "Ensure .devcontainer/devcontainer.json exists in the project root.");
    }
    assert(texts(more@) =~= hints_if(missing, definition_hints()));
    push_all_hints(&mut hints, &more);

    let mut more: Vec<String> = Vec::new();
    let broken = text_contains(message, "Failed to parse file .devcontainer/devcontainer.json");
    if broken {
        push_str(&mut more, "Fix JSON syntax errors in .devcontainer/devcontainer.json.");
    }
    assert(texts(more@) =~= hints_if(broken, syntax_hints()));
    push_all_hints(&mut hints, &more);

    let mut more: Vec<String> = Vec::new();
    if text_contains(low, "failed to download the remote server binary") || text_contains(
        low,
        "cannot upload local files to a container over ssh",
    ) || text_contains(low, "uploading a local binary over ssh is not supported") {
        push_str(
            &mut more,
            "Ensure the container has outbound internet access and curl or wget installed.",
        );
    }
    assert(texts(more@) =~= hints_if(about_download(message@), download_hints()));
    push_all_hints(&mut hints, &more);
    hints
}

/// No hint is given twice.
pub proof fn hints_are_given_once(message: Seq<char>)
    ensures
        error_hints(message).no_duplicates(),
{
    let a = with_hints(Seq::empty(), hints_if(about_cli(message), cli_hints()));
    let b = with_hints(a, hints_if(about_engine(message), engine_hints()));
    let missing = hints_if(
        has_part(message, "No valid dev container definition"@),
        definition_hints(),
    );
    let broken = hints_if(
        has_part(message, "Failed to parse file .devcontainer/devcontainer.json"@),
        syntax_hints(),
    );
    let c = with_hints(b, missing);
    let d = with_hints(c, broken);
    with_hints_once(Seq::empty(), hints_if(about_cli(message), cli_hints()));
    with_hints_once(a, hints_if(about_engine(message), engine_hints()));
    with_hints_once(b, missing);
    with_hints_once(c, broken);
    with_hints_once(d, hints_if(about_download(message), download_hints()));
}

proof fn with_hints_once(list: Seq<Seq<char>>, hints: Seq<Seq<char>>)
    requires
        list.no_duplicates(),
    ensures
        with_hints(list, hints).no_duplicates(),
    decreases hints.len(),
{
    if hints.len() > 0 {
        with_hints_once(list, hints.drop_last());
        let so_far = with_hints(list, hints.drop_last());
        let all = with_hints(list, hints);
        assert forall|i: int, j: int| 0 <= i < all.len() && 0 <= j < all.len() && i != j implies all[i]
            != all[j] by {
            if !so_far.contains(hints.last()) {
                if i < so_far.len() && j < so_far.len() {
                    assert(so_far[i] != so_far[j]);
                } else if i < so_far.len() {
                    assert(so_far.contains(so_far[i]));
                } else {
                    assert(so_far.contains(so_far[j]));
                }
            }
        }
    }
}

// ---------------------------------------------------------------------------
// The steps of the creation

/// A step of the creation as it is reported.
#[derive(Clone, Copy, Debug, PartialEq, Eq, Structural)]
pub enum DevContainerBuildStep {
    CheckDocker,
    CheckDevcontainerCli,
    DevcontainerUp,
    ReadConfiguration,
}

/// How far a step has come.
#[derive(Clone, Copy, Debug, PartialEq, Eq, Structural)]
pub enum DevContainerStepStatus {
    Pending,
    Running,
    Completed,
    Failed,
}

/// How far the creation has come.
#[derive(Clone, Copy, Debug, PartialEq, Eq, Structural)]
pub enum DevContainerBuildStatus {
    Running,
    Success,
    Failed,
}

/// Where a line of the log comes from.
#[derive(Clone, Copy, Debug, PartialEq, Eq, Structural)]
pub enum DevContainerLogStream {
    Info,
    Stdout,
    Stderr,
}

/// A line of the log.
#[derive(Clone, Debug, PartialEq, Eq)]
pub struct DevContainerLogLine {
    pub stream: DevContainerLogStream,
    pub line: String,
}

/// How far the creation has come: the three steps that are shown, how many
/// checks of the environment have been completed, the step that is shown as the
/// present one, and the log.
#[derive(Clone, Debug, PartialEq, Eq)]
pub struct DevContainerBuildState {
    pub environment: DevContainerStepStatus,
    pub build: DevContainerStepStatus,
    pub connect: DevContainerStepStatus,
    pub prepare_completed: usize,
    pub selected_step: usize,
    pub status: DevContainerBuildStatus,
    pub log_contents: String,
}

/// The model of a [`DevContainerBuildState`].
#[verifier::ext_equal]
pub struct BuildView {
    pub environment: DevContainerStepStatus,
    pub build: DevContainerStepStatus,
    pub connect: DevContainerStepStatus,
    pub prepare_completed: usize,
    pub selected_step: usize,
    pub status: DevContainerBuildStatus,
    pub log_contents: Seq<char>,
}

impl View for DevContainerBuildState {
    type V = BuildView;

    open spec fn view(&self) -> BuildView {
        BuildView {
            environment: self.environment,
            build: self.build,
            connect: self.connect,
            prepare_completed: self.prepare_completed,
            selected_step: self.selected_step,
            status: self.status,
            log_contents: self.log_contents@,
        }
    }
}

/// The place of a reported step among the three that are shown: both checks of
/// the environment are one.
pub open spec fn shown_step(step: DevContainerBuildStep) -> usize {
    match step {
        DevContainerBuildStep::CheckDocker => 0,
        DevContainerBuildStep::CheckDevcontainerCli => 0,
        DevContainerBuildStep::DevcontainerUp => 1,
        DevContainerBuildStep::ReadConfiguration => 2,
    }
}

/// The state in which the creation begins.
pub open spec fn fresh_build() -> BuildView {
    BuildView {
        environment: DevContainerStepStatus::Pending,
        build: DevContainerStepStatus::Pending,
        connect: DevContainerStepStatus::Pending,
        prepare_completed: 0,
        selected_step: 0,
        status: DevContainerBuildStatus::Running,
        log_contents: Seq::empty(),
    }
}

/// A state with the status of one shown step changed.
pub open spec fn with_step(s: BuildView, index: usize, status: DevContainerStepStatus) -> BuildView {
    if index == 0 {
        BuildView { environment: status, ..s }
    } else if index == 1 {
        BuildView { build: status, ..s }
    } else {
        BuildView { connect: status, ..s }
    }
}

/// The state after a step has begun.
pub open spec fn step_started(s: BuildView, step: DevContainerBuildStep) -> BuildView {
    with_step(
        BuildView { selected_step: shown_step(step), ..s },
        shown_step(step),
        DevContainerStepStatus::Running,
    )
}

/// The state after a step has been completed: the environment is done after
/// two checks, and the creation after the configuration has been read.
pub open spec fn step_completed(s: BuildView, step: DevContainerBuildStep) -> BuildView {
    let t = BuildView { selected_step: shown_step(step), ..s };
    match step {
        DevContainerBuildStep::DevcontainerUp => with_step(t, 1, DevContainerStepStatus::Completed),
        DevContainerBuildStep::ReadConfiguration => with_step(
            BuildView { status: DevContainerBuildStatus::Success, ..t },
            2,
            DevContainerStepStatus::Completed,
        ),
        _ => {
            let count = (s.prepare_completed + 1) as usize;
            BuildView {
                prepare_completed: count,
                environment: if count >= 2 {
                    DevContainerStepStatus::Completed
                } else {
                    t.environment
                },
                ..t
            }
        },
    }
}

/// The state after a step, and with it the creation, has failed.
pub open spec fn step_failed(s: BuildView, step: DevContainerBuildStep) -> BuildView {
    with_step(
        BuildView {
            selected_step: shown_step(step),
            status: DevContainerBuildStatus::Failed,
            ..s
        },
        shown_step(step),
        DevContainerStepStatus::Failed,
    )
}

/// A line as it is put into the log: marked with where it comes from, and ended
/// by a line feed.
pub open spec fn log_entry(line: DevContainerLogLine) -> Seq<char> {
    let marked = match line.stream {
        DevContainerLogStream::Info => "[info] "@ + line.line@,
        DevContainerLogStream::Stdout => line.line@,
        DevContainerLogStream::Stderr => "[stderr] "@ + line.line@,
    };
    if marked.len() > 0 && marked.last() == '\n' {
        marked
    } else {
        marked.push('\n')
    }
}

impl DevContainerBuildState {
    /// The present step is one of the three.
    pub open spec fn wf(&self) -> bool {
        self.selected_step < 3
    }

    /// The place of a reported step among the three that are shown.
    pub fn step_index(step: DevContainerBuildStep) -> (r: usize)
        ensures
            r == shown_step(step),
            r < 3,
    {
        match step {
            DevContainerBuildStep::CheckDocker => 0,
            DevContainerBuildStep::CheckDevcontainerCli => 0,
            DevContainerBuildStep::DevcontainerUp => 1,
            DevContainerBuildStep::ReadConfiguration => 2,
        }
    }

    /// The state in which the creation begins.
    pub fn new() -> (r: Self)
        ensures
            r.wf(),
            r@ == fresh_build(),
    {
        DevContainerBuildState {
            environment: DevContainerStepStatus::Pending,
            build: DevContainerStepStatus::Pending,
            connect: DevContainerStepStatus::Pending,
            prepare_completed: 0,
            selected_step: 0,
            status: DevContainerBuildStatus::Running,
            log_contents: String::new(),
        }
    }

    /// Takes in that a step has begun.
    pub fn start_step(&mut self, step: DevContainerBuildStep)
        ensures
            final(self).wf(),
            final(self)@ == step_started(old(self)@, step),
    {
        self.selected_step = Self::step_index(step);
        match step {
            DevContainerBuildStep::DevcontainerUp => {
                self.build = DevContainerStepStatus::Running;
            },
            DevContainerBuildStep::ReadConfiguration => {
                self.connect = DevContainerStepStatus::Running;
            },
            _ => {
                self.environment = DevContainerStepStatus::Running;
            },
        }
    }

    /// Takes in that a step has been completed.
    pub fn complete_step(&mut self, step: DevContainerBuildStep)
        requires
            old(self)@.prepare_completed < usize::MAX,
        ensures
            final(self).wf(),
            final(self)@ == step_completed(old(self)@, step),
    {
        self.selected_step = Self::step_index(step);
        match step {
            DevContainerBuildStep::DevcontainerUp => {
                self.build = DevContainerStepStatus::Completed;
            },
            DevContainerBuildStep::ReadConfiguration => {
                self.connect = DevContainerStepStatus::Completed;
                self.status = DevContainerBuildStatus::Success;
            },
            _ => {
                self.prepare_completed = self.prepare_completed + 1;
                if self.prepare_completed >= 2 {
                    self.environment = DevContainerStepStatus::Completed;
                }
            },
        }
    }

    /// Takes in that a step has failed.
    pub fn fail_step(&mut self, step: DevContainerBuildStep)
        ensures
            final(self).wf(),
            final(self)@ == step_failed(old(self)@, step),
    {
        self.selected_step = Self::step_index(step);
        match step {
            DevContainerBuildStep::DevcontainerUp => {
                self.build = DevContainerStepStatus::Failed;
            },
            DevContainerBuildStep::ReadConfiguration => {
                self.connect = DevContainerStepStatus::Failed;
            },
            _ => {
                self.environment = DevContainerStepStatus::Failed;
            },
        }
        self.status = DevContainerBuildStatus::Failed;
    }

    /// Puts a line into the log.
    pub fn append_log_line(&mut self, line: DevContainerLogLine)
        ensures
            final(self).wf() == old(self).wf(),
            final(self)@ == (BuildView {
                log_contents: old(self)@.log_contents + log_entry(line),
                ..old(self)@
            }),
    {
        let mut formatted = match line.stream {
            DevContainerLogStream::Info => {
                let mut s = "[info] ".to_owned();
                s.append(line.line.as_str());
                s
            },
            DevContainerLogStream::Stdout => line.line.clone(),
            DevContainerLogStream::Stderr => {
                let mut s = "[stderr] ".to_owned();
                s.append(line.line.as_str());
                s
            },
        };
        let chars = chars_of(formatted.as_str());
        let ended = chars.len() > 0 && chars[chars.len() - 1] == '\n';
        if !ended {
            formatted.push('\n');
        }
        self.log_contents.append(formatted.as_str());
    }

    /// Shows the step before the present one.
    pub fn select_previous_step(&mut self)
        ensures
            old(self).wf() ==> final(self).wf(),
            final(self)@ == (BuildView {
                selected_step: if old(self)@.selected_step > 0 {
                    (old(self)@.selected_step - 1) as usize
                } else {
                    0
                },
                ..old(self)@
            }),
    {
        if self.selected_step > 0 {
            self.selected_step = self.selected_step - 1;
        }
    }
}

/// The environment is shown as done only once both checks have been completed,
/// whatever else is reported.
pub open spec fn environment_is_earned(s: BuildView) -> bool {
    s.environment == DevContainerStepStatus::Completed ==> s.prepare_completed >= 2
}

/// That the environment is done only after two checks holds in the beginning
/// and is kept by every report.
pub proof fn environment_stays_earned(s: BuildView, step: DevContainerBuildStep)
    requires
        environment_is_earned(s),
        s.prepare_completed < usize::MAX,
    ensures
        environment_is_earned(fresh_build()),
        environment_is_earned(step_started(s, step)),
        environment_is_earned(step_completed(s, step)),
        environment_is_earned(step_failed(s, step)),
{
}

/// The creation succeeds only by having read the configuration, and only a
/// failure of a step lets it fail.
pub proof fn build_status_is_earned(s: BuildView, step: DevContainerBuildStep)
    ensures
        step_started(s, step).status == s.status,
        step_completed(s, step).status == (if step == DevContainerBuildStep::ReadConfiguration {
            DevContainerBuildStatus::Success
        } else {
            s.status
        }),
        step_failed(s, step).status == DevContainerBuildStatus::Failed,
{
}

// ---------------------------------------------------------------------------
// The creation

/// How far the creation of a development container has come.
#[derive(Clone, Debug, PartialEq, Eq)]
pub enum DevContainerCreationProgress {
    SelectingConfig,
    Creating,
    Success,
    Error(String),
}

/// The model of a [`DevContainerCreationProgress`].
#[verifier::ext_equal]
pub enum ProgressView {
    SelectingConfig,
    Creating,
    Success,
    Error(Seq<char>),
}

impl View for DevContainerCreationProgress {
    type V = ProgressView;

    open spec fn view(&self) -> ProgressView {
        match *self {
            DevContainerCreationProgress::SelectingConfig => ProgressView::SelectingConfig,
            DevContainerCreationProgress::Creating => ProgressView::Creating,
            DevContainerCreationProgress::Success => ProgressView::Success,
            DevContainerCreationProgress::Error(message) => ProgressView::Error(message@),
        }
    }
}

/// The creation of a development container.
#[derive(Clone, Debug, PartialEq, Eq)]
pub struct CreateRemoteDevContainer {
    pub progress: DevContainerCreationProgress,
    pub build_state: Option<DevContainerBuildState>,
}

/// The model of a [`CreateRemoteDevContainer`].
#[verifier::ext_equal]
pub struct CreationView {
    pub progress: ProgressView,
    pub build_state: Option<BuildView>,
}

impl View for CreateRemoteDevContainer {
    type V = CreationView;

    open spec fn view(&self) -> CreationView {
        CreationView {
            progress: self.progress@,
            build_state: match self.build_state {
                Some(b) => Some(b@),
                None => None,
            },
        }
    }
}

/// What is reported of the creation.
#[derive(Clone, Debug, PartialEq, Eq)]
pub enum DevContainerProgressEvent {
    StepStarted(DevContainerBuildStep),
    StepCompleted(DevContainerBuildStep),
    StepFailed(DevContainerBuildStep, String),
    LogLine(DevContainerLogLine),
}

/// The present state of the steps, or the one in which they begin.
pub open spec fn build_or_fresh(c: CreationView) -> BuildView {
    match c.build_state {
        Some(b) => b,
        None => fresh_build(),
    }
}

/// A line of the log that reports an error.
pub open spec fn error_entry(message: Seq<char>) -> Seq<char> {
    let marked = "[stderr] "@ + message;
    if marked.len() > 0 && marked.last() == '\n' {
        marked
    } else {
        marked.push('\n')
    }
}

/// The creation after a report.
pub open spec fn reported(c: CreationView, event: DevContainerProgressEvent) -> CreationView {
    let b = build_or_fresh(c);
    match event {
        DevContainerProgressEvent::StepStarted(step) => CreationView {
            progress: if c.progress == ProgressView::SelectingConfig {
                ProgressView::Creating
            } else {
                c.progress
            },
            build_state: Some(step_started(b, step)),
        },
        DevContainerProgressEvent::StepCompleted(step) => CreationView {
            progress: if step_completed(b, step).status == DevContainerBuildStatus::Success {
                ProgressView::Success
            } else {
                c.progress
            },
            build_state: Some(step_completed(b, step)),
        },
        DevContainerProgressEvent::StepFailed(step, message) => {
            let f = step_failed(b, step);
            CreationView {
                progress: ProgressView::Error(message@),
                build_state: Some(
                    BuildView { log_contents: f.log_contents + error_entry(message@), ..f },
                ),
            }
        },
        DevContainerProgressEvent::LogLine(line) => CreationView {
            progress: c.progress,
            build_state: Some(BuildView { log_contents: b.log_contents + log_entry(line), ..b }),
        },
    }
}

/// The creation after it could not be begun.
pub open spec fn start_failed(c: CreationView, message: Seq<char>) -> CreationView {
    let b = build_or_fresh(c);
    CreationView {
        progress: ProgressView::Error(message),
        build_state: Some(BuildView { log_contents: b.log_contents + error_entry(message), ..b }),
    }
}

/// The creation after the container could not be opened.
pub open spec fn open_failed(c: CreationView, message: Seq<char>) -> CreationView {
    let f = step_failed(build_or_fresh(c), DevContainerBuildStep::ReadConfiguration);
    CreationView {
        progress: ProgressView::Error(message),
        build_state: Some(BuildView { log_contents: f.log_contents + error_entry(message), ..f }),
    }
}

impl CreateRemoteDevContainer {
    /// The creation at a given point, without steps.
    pub fn new(progress: DevContainerCreationProgress) -> (r: Self)
        ensures
            r@ == (CreationView { progress: progress@, build_state: None }),
    {
        CreateRemoteDevContainer { progress, build_state: None }
    }

    /// The creation at another point; the steps begin once the configuration
    /// has been chosen.
    pub fn with_progress(self, progress: DevContainerCreationProgress) -> (r: Self)
        ensures
            r@ == (CreationView {
                progress: progress@,
                build_state: if progress@ == ProgressView::SelectingConfig {
                    self@.build_state
                } else {
                    Some(build_or_fresh(self@))
                },
            }),
    {
        let selecting = matches!(progress, DevContainerCreationProgress::SelectingConfig);
        let build_state = match self.build_state {
            Some(b) => Some(b),
            None => if selecting {
                None
            } else {
                Some(DevContainerBuildState::new())
            },
        };
        CreateRemoteDevContainer { progress, build_state }
    }

    fn take_build(&mut self) -> (r: DevContainerBuildState)
        ensures
            r@ == build_or_fresh(old(self)@),
            final(self).progress == old(self).progress,
            final(self).build_state is None,
    {
        match self.build_state.take() {
            Some(b) => b,
            None => DevContainerBuildState::new(),
        }
    }

    /// Takes a report in.
    pub fn handle_devcontainer_progress_event(&mut self, event: DevContainerProgressEvent)
        requires
            build_or_fresh(old(self)@).prepare_completed < usize::MAX,
        ensures
            final(self)@ == reported(old(self)@, event),
    {
        let mut build = self.take_build();
        match event {
            DevContainerProgressEvent::StepStarted(step) => {
                build.start_step(step);
                if matches!(self.progress, DevContainerCreationProgress::SelectingConfig) {
                    self.progress = DevContainerCreationProgress::Creating;
                }
            },
            DevContainerProgressEvent::StepCompleted(step) => {
                build.complete_step(step);
                if build.status == DevContainerBuildStatus::Success {
                    self.progress = DevContainerCreationProgress::Success;
                }
            },
            DevContainerProgressEvent::StepFailed(step, message) => {
                build.fail_step(step);
                build.append_log_line(
                    DevContainerLogLine {
                        stream: DevContainerLogStream::Stderr,
                        line: message.clone(),
                    },
                );
                self.progress = DevContainerCreationProgress::Error(message);
            },
            DevContainerProgressEvent::LogLine(line) => {
                build.append_log_line(line);
            },
        }
        self.build_state = Some(build);
    }

    /// Takes in that the creation could not be begun.
    pub fn start_failed(&mut self, message: String)
        ensures
            final(self)@ == start_failed(old(self)@, message@),
    {
        let mut build = self.take_build();
        build.append_log_line(
            DevContainerLogLine { stream: DevContainerLogStream::Stderr, line: message.clone() },
        );
        self.build_state = Some(build);
        self.progress = DevContainerCreationProgress::Error(message);
    }

    /// Takes in that the container has been opened.
    pub fn opened(&mut self)
        ensures
            final(self)@ == (CreationView { progress: ProgressView::Success, ..old(self)@ }),
    {
        self.progress = DevContainerCreationProgress::Success;
    }

    /// Takes in that the container could not be opened.
    pub fn open_failed(&mut self, message: String)
        ensures
            final(self)@ == open_failed(old(self)@, message@),
    {
        let mut build = self.take_build();
        build.fail_step(DevContainerBuildStep::ReadConfiguration);
        build.append_log_line(
            DevContainerLogLine { stream: DevContainerLogStream::Stderr, line: message.clone() },
        );
        self.build_state = Some(build);
        self.progress = DevContainerCreationProgress::Error(message);
    }
}

/// Saves a development container that has been created, and gives the options
/// and the folder with which it is opened.
pub fn open_dev_container(
    settings: &mut RemoteSettingsContent,
    connection: DevContainerConnection,
    starting_dir: String,
    host_starting_dir: Option<String>,
    config_path: Option<String>,
) -> (r: (RemoteConnectionOptions, Vec<String>))
    ensures
        final(settings)@ == (RemoteSettingsContentView {
            dev_container_connections: Some(
                with_dev_container(
                    or_none(old(settings)@.dev_container_connections),
                    connection@,
                    starting_dir@,
                    opt_text(host_starting_dir),
                    opt_text(config_path),
                ),
            ),
            ..old(settings)@
        }),
        r.0@ == RemoteConnectionOptions::Docker(docker_options_of(connection))@,
        texts(r.1@) == seq![starting_dir@],
{
    let copy = connection.dup();
    let ghost copied = copy;
    let options = RemoteConnectionOptions::from(Connection::DevContainer(copy));
    proof {
        crate::connection::options_follow_the_model(copied, connection);
    }
    let mut paths: Vec<String> = Vec::new();
    push_str(&mut paths, starting_dir.as_str());
    assert(texts(paths@) =~= seq![starting_dir@]);
    settings.save_dev_container_connection(connection, starting_dir, host_starting_dir, config_path);
    (options, paths)
}

// ---------------------------------------------------------------------------
// What is shown

/// A step as it is shown.
#[derive(Clone, Debug, PartialEq, Eq)]
pub struct StepRow {
    pub label: String,
    pub status: String,
    /// Whether the step is at work.
    pub animated: bool,
    /// Whether it is the present step.
    pub current: bool,
}

/// What the page of the creation shows.
#[derive(Clone, Debug, PartialEq, Eq)]
pub enum SetupPage {
    /// The choice of a configuration.
    SelectConfig,
    /// That no report has come yet.
    Waiting,
    /// The steps.
    Steps {
        status: String,
        animated: bool,
        rows: Vec<StepRow>,
        /// The error and what may help, line by line.
        error: Option<Vec<String>>,
        /// The log, which can be copied.
        log: String,
        /// Whether the page may be left as finished.
        finish_enabled: bool,
    },
}

/// How the status of the creation is shown.
pub open spec fn build_status_text(s: DevContainerBuildStatus) -> Seq<char> {
    match s {
        DevContainerBuildStatus::Running => "Running"@,
        DevContainerBuildStatus::Success => "Success"@,
        DevContainerBuildStatus::Failed => "Failed"@,
    }
}

/// How the status of a step is shown.
pub open spec fn step_status_text(s: DevContainerStepStatus) -> Seq<char> {
    match s {
        DevContainerStepStatus::Pending => "Pending"@,
        DevContainerStepStatus::Running => "Running"@,
        DevContainerStepStatus::Completed => "Done"@,
        DevContainerStepStatus::Failed => "Failed"@,
    }
}

/// How the three steps are called.
pub open spec fn step_label(index: int) -> Seq<char> {
    if index == 0 {
        "1. Environment checks"@
    } else if index == 1 {
        "2. Build dev container"@
    } else {
        "3. Read config and connect"@
    }
}

/// The status of one of the three steps.
pub open spec fn step_status(b: BuildView, index: int) -> DevContainerStepStatus {
    if index == 0 {
        b.environment
    } else if index == 1 {
        b.build
    } else {
        b.connect
    }
}

/// Whether a row shows one of the three steps.
pub open spec fn row_shows(row: StepRow, b: BuildView, index: int) -> bool {
    &&& row.label@ == step_label(index)
    &&& row.status@ == step_status_text(step_status(b, index))
    &&& row.animated == (step_status(b, index) == DevContainerStepStatus::Running)
    &&& row.current == (index == b.selected_step)
}

/// The lines of an error: the error, and below a heading the hints.
pub open spec fn error_lines(message: Seq<char>) -> Seq<Seq<char>> {
    let hints = error_hints(message);
    if hints.len() == 0 {
        seq![message]
    } else {
        seq![message, "Suggested fixes:"@] + Seq::new(hints.len(), |i: int| "• "@ + hints[i])
    }
}

/// Whether a page shows a creation.
pub open spec fn page_shows(page: SetupPage, c: CreationView) -> bool {
    if c.progress == ProgressView::SelectingConfig {
        page is SelectConfig
    } else {
        match c.build_state {
            None => page is Waiting,
            Some(b) => {
                &&& page is Steps
                &&& page->status@ == build_status_text(b.status)
                &&& page->animated == (b.status == DevContainerBuildStatus::Running)
                &&& page->rows@.len() == 3
                &&& forall|i: int| 0 <= i < 3 ==> row_shows(#[trigger] page->rows@[i], b, i)
                &&& match c.progress {
                    ProgressView::Error(message) => page->error is Some && texts(
                        page->error->0@,
                    ) == error_lines(message),
                    _ => page->error is None,
                }
                &&& page->log@ == b.log_contents
                &&& page->finish_enabled == (b.status != DevContainerBuildStatus::Running)
            },
        }
    }
}

fn step_row(label: &str, status: DevContainerStepStatus, current: bool) -> (r: StepRow)
    ensures
        r.label@ == label@,
        r.status@ == step_status_text(status),
        r.animated == (status == DevContainerStepStatus::Running),
        r.current == current,
{
    StepRow {
        label: label.to_owned(),
        status: match status {
            DevContainerStepStatus::Pending => "Pending".to_owned(),
            DevContainerStepStatus::Running => "Running".to_owned(),
            DevContainerStepStatus::Completed => "Done".to_owned(),
            DevContainerStepStatus::Failed => "Failed".to_owned(),
        },
        animated: status == DevContainerStepStatus::Running,
        current,
    }
}

fn error_text_lines(message: &String) -> (r: Vec<String>)
    ensures
        texts(r@) == error_lines(message@),
{
    let hints = devcontainer_error_hints(message.as_str());
    let ghost all = texts(hints@);
    let mut out: Vec<String> = Vec::new();
    push_str(&mut out, message.as_str());
    if hints.len() == 0 {
        assert(texts(out@) =~= seq![message@]);
        return out;
    }
    push_str(&mut out, "Suggested fixes:");
    let ghost lead = seq![message@, "Suggested fixes:"@];
    assert(texts(out@) =~= lead);
    let mut i: usize = 0;
    while i < hints.len()
        invariant
            i <= hints.len(),
            all == texts(hints@),
            texts(out@) == lead + Seq::new(i as nat, |k: int| "• "@ + all[k]),
        decreases hints.len() - i,
    {
        let mut line = "• ".to_owned();
        line.append(hints[i].as_str());
        push_str(&mut out, line.as_str());
        i = i + 1;
        assert(texts(out@) =~= lead + Seq::new(i as nat, |k: int| "• "@ + all[k]));
    }
    assert(Seq::new(i as nat, |k: int| "• "@ + all[k]) =~= Seq::new(
        all.len(),
        |k: int| "• "@ + all[k],
    ));
    out
}

/// What the page of the creation shows.
pub fn render_create_dev_container(state: &CreateRemoteDevContainer) -> (r: SetupPage)
    ensures
        page_shows(r, state@),
{
    if matches!(state.progress, DevContainerCreationProgress::SelectingConfig) {
        return SetupPage::SelectConfig;
    }
    match &state.build_state {
        None => SetupPage::Waiting,
        Some(b) => {
            let mut rows: Vec<StepRow> = Vec::new();
            rows.push(step_row("1. Environment checks", b.environment, b.selected_step == 0));
            rows.push(step_row("2. Build dev container", b.build, b.selected_step == 1));
            rows.push(step_row("3. Read config and connect", b.connect, b.selected_step == 2));
            let error = match &state.progress {
                DevContainerCreationProgress::Error(message) => Some(error_text_lines(message)),
                _ => None,
            };
            SetupPage::Steps {
                status: match b.status {
                    DevContainerBuildStatus::Running => "Running".to_owned(),
                    DevContainerBuildStatus::Success => "Success".to_owned(),
                    DevContainerBuildStatus::Failed => "Failed".to_owned(),
                },
                animated: b.status == DevContainerBuildStatus::Running,
                rows,
                error,
                log: b.log_contents.clone(),
                finish_enabled: b.status != DevContainerBuildStatus::Running,
            }
        },
    }
}

// ---------------------------------------------------------------------------
// What the steps do

proof fn hint_is_among(list: Seq<Seq<char>>, hints: Seq<Seq<char>>, x: Seq<char>)
    ensures
        with_hints(list, hints).contains(x) <==> list.contains(x) || hints.contains(x),
    decreases hints.len(),
{
    if hints.len() > 0 {
        let head = hints.drop_last();
        let last = hints.last();
        hint_is_among(list, head, x);
        let before = with_hints(list, head);
        assert(hints =~= head.push(last));
        if head.contains(x) {
            let k = choose|k: int| 0 <= k < head.len() && head[k] == x;
            assert(hints[k] == x);
        }
        if hints.contains(x) && x != last {
            let k = choose|k: int| 0 <= k < hints.len() && hints[k] == x;
            assert(head[k] == x);
        }
        if x == last {
            assert(hints[hints.len() - 1] == x);
        }
        if !before.contains(last) {
            if before.contains(x) {
                let k = choose|k: int| 0 <= k < before.len() && before[k] == x;
                assert(before.push(last)[k] == x);
            }
            if x == last {
                assert(before.push(last)[before.len() as int] == x);
            }
            if before.push(last).contains(x) && x != last {
                let k = choose|k: int|
                    0 <= k < before.push(last).len() && before.push(last)[k] == x;
                assert(before[k] == x);
            }
        }
    }
}

/// A hint is given just where the error is about what it helps with: the command
/// line tool, the engine, a missing or a wrong definition, or the download.
pub proof fn hints_follow_the_error(message: Seq<char>, hint: Seq<char>)
    ensures
        error_hints(message).contains(hint) <==> (about_cli(message) && cli_hints().contains(hint))
            || (about_engine(message) && engine_hints().contains(hint)) || (has_part(
            message,
            "No valid dev container definition"@,
        ) && hint == "Ensure .devcontainer/devcontainer.json exists in the project root."@) || (
        has_part(message, "Failed to parse file .devcontainer/devcontainer.json"@) && hint
            == "Fix JSON syntax errors in .devcontainer/devcontainer.json."@) || (about_download(
            message,
        ) && hint
            == "Ensure the container has outbound internet access and curl or wget installed."@),
{
    let none = Seq::<Seq<char>>::empty();
    let a = with_hints(none, hints_if(about_cli(message), cli_hints()));
    let b = with_hints(a, hints_if(about_engine(message), engine_hints()));
    let p = has_part(message, "No valid dev container definition"@);
    let q = has_part(message, "Failed to parse file .devcontainer/devcontainer.json"@);
    let c = with_hints(b, hints_if(p, definition_hints()));
    let d = with_hints(c, hints_if(q, syntax_hints()));
    hint_is_among(none, hints_if(about_cli(message), cli_hints()), hint);
    hint_is_among(a, hints_if(about_engine(message), engine_hints()), hint);
    hint_is_among(b, hints_if(p, definition_hints()), hint);
    hint_is_among(c, hints_if(q, syntax_hints()), hint);
    hint_is_among(d, hints_if(about_download(message), download_hints()), hint);
    just_one(definition_hints(), hint);
    just_one(syntax_hints(), hint);
    just_one(download_hints(), hint);
}

proof fn just_one(list: Seq<Seq<char>>, x: Seq<char>)
    requires
        list.len() == 1,
    ensures
        list.contains(x) <==> x == list[0],
{
    if x == list[0] {
        assert(list[0] == x);
    }
}

/// What an error is about is known by words in it, whatever stands around them
/// and in any case.
pub proof fn errors_are_known_by_their_words(a: Seq<char>, b: Seq<char>)
    ensures
        about_cli(a + "Dev Container CLI not available"@ + b),
        about_cli(a + "devcontainer cli"@ + b),
        about_engine(a + "docker/podman not available"@ + b),
        about_engine(a + "docker info failed"@ + b),
        about_engine(a + "podman info failed"@ + b),
        about_engine(a + "Docker CLI not found"@ + b),
        about_engine(a + "docker cli not available"@ + b),
        about_engine(a + "unable to run docker"@ + b),
        about_download(a + "failed to download the remote server binary"@ + b),
        about_download(a + "cannot upload local files to a container over ssh"@ + b),
        about_download(a + "uploading a local binary over ssh is not supported"@ + b),
{
    reveal_strlit("devcontainer cli");
    reveal_strlit("docker/podman not available");
    reveal_strlit("docker info failed");
    reveal_strlit("podman info failed");
    reveal_strlit("docker cli not available");
    reveal_strlit("unable to run docker");
    reveal_strlit("failed to download the remote server binary");
    reveal_strlit("cannot upload local files to a container over ssh");
    reveal_strlit("uploading a local binary over ssh is not supported");
    words_stand_in(a, "Dev Container CLI not available"@, b);
    words_stand_in(a, "Docker CLI not found"@, b);
    crate::docker::small_part_is_found(a, "devcontainer cli"@, b);
    crate::docker::small_part_is_found(a, "docker/podman not available"@, b);
    crate::docker::small_part_is_found(a, "docker info failed"@, b);
    crate::docker::small_part_is_found(a, "podman info failed"@, b);
    crate::docker::small_part_is_found(a, "docker cli not available"@, b);
    crate::docker::small_part_is_found(a, "unable to run docker"@, b);
    crate::docker::small_part_is_found(a, "failed to download the remote server binary"@, b);
    crate::docker::small_part_is_found(a, "cannot upload local files to a container over ssh"@, b);
    crate::docker::small_part_is_found(a, "uploading a local binary over ssh is not supported"@, b);
}

proof fn words_stand_in(a: Seq<char>, part: Seq<char>, b: Seq<char>)
    ensures
        has_part(a + part + b, part),
{
    let s = a + part + b;
    assert(s.subrange(a.len() as int, (a.len() + part.len()) as int) =~= part);
    assert(crate::text::occurs_at(s, part, a.len() as int));
}

/// The two checks are one step, building is the second and reading the
/// configuration the third. Starting a step shows it at work, failing shows it
/// failed, and neither touches the others or the log.
pub proof fn steps_are_shown_at_work(s: BuildView, step: DevContainerBuildStep)
    ensures
        ({
            let a = step_started(s, step);
            let f = step_failed(s, step);
            let checks = step is CheckDocker || step is CheckDevcontainerCli;
            let up = step is DevcontainerUp;
            let read = step is ReadConfiguration;
            &&& a.log_contents == s.log_contents && f.log_contents == s.log_contents
            &&& a.prepare_completed == s.prepare_completed && f.prepare_completed
                == s.prepare_completed
            &&& checks ==> a.selected_step == 0 && a.environment is Running && f.environment is Failed
            &&& up ==> a.selected_step == 1 && a.build is Running && f.build is Failed
            &&& read ==> a.selected_step == 2 && a.connect is Running && f.connect is Failed
            &&& a.selected_step == f.selected_step
            &&& !checks ==> a.environment == s.environment && f.environment == s.environment
            &&& !up ==> a.build == s.build && f.build == s.build
            &&& !read ==> a.connect == s.connect && f.connect == s.connect
        }),
{
}

/// A step that is done is shown as done; the checks are where both are done.
pub proof fn steps_are_shown_as_done(s: BuildView, step: DevContainerBuildStep)
    requires
        s.prepare_completed < usize::MAX,
    ensures
        ({
            let c = step_completed(s, step);
            let checks = step is CheckDocker || step is CheckDevcontainerCli;
            &&& c.log_contents == s.log_contents
            &&& checks ==> c.selected_step == 0 && c.prepare_completed == s.prepare_completed + 1
                && c.build == s.build && c.connect == s.connect
            &&& checks && s.prepare_completed >= 1 ==> c.environment is Completed
            &&& checks && s.prepare_completed == 0 ==> c.environment == s.environment
            &&& step is DevcontainerUp ==> c.selected_step == 1 && c.build is Completed
                && c.environment == s.environment && c.connect == s.connect
            &&& step is ReadConfiguration ==> c.selected_step == 2 && c.connect is Completed
                && c.environment == s.environment && c.build == s.build
            &&& !checks ==> c.prepare_completed == s.prepare_completed
        }),
{
}

/// A build begins with nothing done.
pub proof fn builds_begin_afresh()
    ensures
        ({
            let b = fresh_build();
            &&& b.environment is Pending && b.build is Pending && b.connect is Pending
            &&& b.prepare_completed == 0 && b.selected_step == 0 && b.status is Running
            &&& b.log_contents.len() == 0
        }),
{
}

/// A line of the log ends in the end of a line, once, and says where it comes
/// from where it is not the plain output.
pub proof fn log_lines_are_marked(line: DevContainerLogLine)
    ensures
        log_entry(line).last() == '\n',
        ({
            let full = line.line@.len() > 0 && line.line@.last() == '\n';
            let text = if full {
                line.line@
            } else {
                line.line@.push('\n')
            };
            &&& line.stream is Stdout ==> log_entry(line) == text
            &&& line.stream is Info ==> log_entry(line) == seq!['[', 'i', 'n', 'f', 'o', ']', ' ']
                + text
            &&& line.stream is Stderr ==> log_entry(line) == seq![
                '[',
                's',
                't',
                'd',
                'e',
                'r',
                'r',
                ']',
                ' ',
            ] + text
        }),
{
    reveal_strlit("[info] ");
    reveal_strlit("[stderr] ");
    let l = line.line@;
    assert("[info] "@ =~= seq!['[', 'i', 'n', 'f', 'o', ']', ' ']);
    assert("[stderr] "@ =~= seq!['[', 's', 't', 'd', 'e', 'r', 'r', ']', ' ']);
    assert(("[info] "@ + l).push('\n') =~= "[info] "@ + l.push('\n'));
    assert(("[stderr] "@ + l).push('\n') =~= "[stderr] "@ + l.push('\n'));
    if l.len() > 0 {
        assert(("[info] "@ + l).last() == l.last());
        assert(("[stderr] "@ + l).last() == l.last());
    }
}

/// What is reported shows: a step that fails ends the creation with its message,
/// which also stands in the log; the last step done ends it well; a line of the
/// log is added at its end.
pub proof fn reports_are_taken_in(c: CreationView, event: DevContainerProgressEvent)
    ensures
        ({
            let d = reported(c, event);
            let old = build_or_fresh(c).log_contents;
            &&& d.build_state is Some
            &&& event matches DevContainerProgressEvent::StepStarted(_) ==> d.build_state->0.log_contents
                == old && (c.progress is SelectingConfig ==> d.progress is Creating) && (!(
            c.progress is SelectingConfig) ==> d.progress == c.progress)
            &&& event matches DevContainerProgressEvent::StepFailed(step, m) ==> d.progress
                == ProgressView::Error(m@) && d.build_state->0.status is Failed && has_part(
                d.build_state->0.log_contents,
                m@,
            ) && d.build_state->0.log_contents.take(old.len() as int) == old
            &&& event matches DevContainerProgressEvent::StepCompleted(step) ==> (
            step is ReadConfiguration ==> d.progress is Success)
            &&& event matches DevContainerProgressEvent::LogLine(line) ==> d.progress == c.progress
                && d.build_state->0.log_contents == old + log_entry(line)
        }),
{
    let old = build_or_fresh(c).log_contents;
    if let DevContainerProgressEvent::StepFailed(step, m) = event {
        error_is_logged(old, m@);
    }
}

proof fn error_is_logged(old: Seq<char>, m: Seq<char>)
    ensures
        has_part(old + error_entry(m), m),
        (old + error_entry(m)).take(old.len() as int) == old,
        ends_with_line(old + error_entry(m)),
{
    let all = old + error_entry(m);
    let n = old.len() + "[stderr] "@.len();
    reveal_strlit("[stderr] ");
    assert(all.subrange(n as int, (n + m.len()) as int) =~= m);
    assert(crate::text::occurs_at(all, m, n as int));
    assert(all.take(old.len() as int) =~= old);
}

/// Whether a text ends in the end of a line.
pub open spec fn ends_with_line(s: Seq<char>) -> bool {
    s.len() > 0 && s.last() == '\n'
}

/// A creation that could not begin, and one that could not be opened, end with
/// the message, which also stands in the log; the latter fails in its last step.
pub proof fn failures_end_the_creation(c: CreationView, m: Seq<char>)
    ensures
        ({
            let a = start_failed(c, m);
            let b = open_failed(c, m);
            &&& a.progress == ProgressView::Error(m) && b.progress == ProgressView::Error(m)
            &&& a.build_state is Some && b.build_state is Some
            &&& has_part(a.build_state->0.log_contents, m)
            &&& has_part(b.build_state->0.log_contents, m)
            &&& b.build_state->0.connect is Failed && b.build_state->0.status is Failed
            &&& a.build_state->0.status == build_or_fresh(c).status
        }),
{
    error_is_logged(build_or_fresh(c).log_contents, m);
}

/// The page shows the choice of a configuration, then the three steps with their
/// states and the log; an error is shown with the hints for it, each behind a
/// bullet. The page can be left when nothing runs any more.
pub proof fn setup_pages_show_the_steps(page: SetupPage, c: CreationView, b: BuildView)
    requires
        page_shows(page, c),
        c.build_state == Some(b),
        !(c.progress is SelectingConfig),
    ensures
        page is Steps,
        page->rows@[0].label@ == "1. Environment checks"@,
        page->rows@[1].label@ == "2. Build dev container"@,
        page->rows@[2].label@ == "3. Read config and connect"@,
        page->rows@[0].status@ == step_status_text(b.environment),
        page->rows@[1].status@ == step_status_text(b.build),
        page->rows@[2].status@ == step_status_text(b.connect),
        page->rows@[0].current <==> b.selected_step == 0,
        page->rows@[1].current <==> b.selected_step == 1,
        page->rows@[2].current <==> b.selected_step == 2,
        page->rows@[0].animated <==> b.environment is Running,
        page->rows@[1].animated <==> b.build is Running,
        page->rows@[2].animated <==> b.connect is Running,
        page->log@ == b.log_contents,
        page->finish_enabled <==> !(b.status is Running),
        page->animated <==> b.status is Running,
        c.progress is Error <==> page->error is Some,
        b.status is Running ==> page->status@ == "Running"@,
        b.status is Success ==> page->status@ == "Success"@,
        b.status is Failed ==> page->status@ == "Failed"@,
{
    assert(row_shows(page->rows@[0], b, 0));
    assert(row_shows(page->rows@[1], b, 1));
    assert(row_shows(page->rows@[2], b, 2));
}

/// The states of a step have names, and an error stands before the hints for it.
pub proof fn errors_stand_before_their_hints(message: Seq<char>, i: int)
    ensures
        step_status_text(DevContainerStepStatus::Pending) == "Pending"@,
        step_status_text(DevContainerStepStatus::Running) == "Running"@,
        step_status_text(DevContainerStepStatus::Completed) == "Done"@,
        step_status_text(DevContainerStepStatus::Failed) == "Failed"@,
        error_lines(message)[0] == message,
        error_hints(message).len() == 0 ==> error_lines(message).len() == 1,
        error_hints(message).len() > 0 ==> error_lines(message).len() == error_hints(message).len()
            + 2 && error_lines(message)[1] == "Suggested fixes:"@,
        0 <= i < error_hints(message).len() ==> error_lines(message)[i + 2] == seq!['•', ' ']
            + error_hints(message)[i],
{
    reveal_strlit("• ");
    assert("• "@ =~= seq!['•', ' ']);
}

} // verus!
