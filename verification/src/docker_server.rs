//! Installing the remote server in a container, starting its proxy and running
//! commands beside it.
use crate::connection::{DockerConnectionOptions, DockerConnectionOptionsView, EnvVar, EnvVarView};
use crate::docker::{
    format_local_path_for_docker_host, host_command, host_docker_command_template,
    host_docker_command_template_bridged, host_path, host_template, new_host_docker_command,
    reports_no_user, should_fallback_to_container_default_user_message, small_part_is_found,
    CommandTemplate, HostCommand,
};
use crate::docker_exec::{
    engine, env_args, every_variable_is_handed_over, exec_args, push_env_args, style_of, user_args,
    width, DockerExecConnection, DockerExecView, PathStyle, ReleaseChannel,
};
use crate::model::models;
use crate::shell::{quoted, shlex_quoted, try_quote};
use crate::text::{
    begins, chars_of, decimal, decimal_of, ends, ends_with, has_part, lowered, opt_str, opt_text,
    push_all, push_str, replace_char, replaced, signed_decimal, signed_decimal_of, string_of,
    text_begins, text_contains, texts, to_ascii_lower, trim_text, trimmed,
};
use vstd::prelude::*;
use vstd::slice::*;
use vstd::string::*;

verus! {

// ---------------------------------------------------------------------------
// Files

/// A path of the container, which is kept with slashes, as it is written there.
pub open spec fn shown_path(path: Seq<char>, style: PathStyle) -> Seq<char> {
    match style {
        PathStyle::Posix => path,
        PathStyle::Windows => replaced(path, '/', '\\'),
    }
}

/// A path of the container as it is written there.
pub fn show_path(path: &str, style: PathStyle) -> (r: String)
    ensures
        r@ == shown_path(path@, style),
{
    match style {
        PathStyle::Posix => path.to_owned(),
        PathStyle::Windows => {
            let chars = chars_of(path);
            string_of(replace_char(chars.as_slice(), '/', '\\').as_slice())
        },
    }
}

/// Where the server binary goes: below the server's directory.
pub open spec fn server_path(server_dir: Seq<char>, binary_name: Seq<char>) -> Seq<char> {
    server_dir + "/"@ + binary_name
}

/// Where the packed server binary is put before it is unpacked.
pub open spec fn packed_path(server_dir: Seq<char>, binary_name: Seq<char>, pid: u32) -> Seq<char> {
    server_dir + "/"@ + binary_name + "-download-"@ + decimal(pid as nat) + ".gz"@
}

/// Where a server binary that was built here is put before it is moved.
pub open spec fn built_path(server_dir: Seq<char>, file_name: Seq<char>, pid: u32) -> Seq<char> {
    server_dir + "/"@ + "download-"@ + decimal(pid as nat) + "-"@ + file_name
}

/// Where the server binary goes.
pub fn server_binary_path(server_dir: &str, binary_name: &str) -> (r: String)
    ensures
        r@ == server_path(server_dir@, binary_name@),
{
    let mut out = server_dir.to_owned();
    out.append("/");
    out.append(binary_name);
    out
}

/// Where the packed server binary is put by the process `pid`.
pub fn packed_binary_path(server_dir: &str, binary_name: &str, pid: u32) -> (r: String)
    ensures
        r@ == packed_path(server_dir@, binary_name@, pid),
{
    let mut out = server_dir.to_owned();
    out.append("/");
    out.append(binary_name);
    out.append("-download-");
    out.append(decimal_of(pid as u64).as_str());
    out.append(".gz");
    out
}

/// Where a server binary that was built here is put by the process `pid`.
pub fn built_binary_path(server_dir: &str, file_name: &str, pid: u32) -> (r: String)
    ensures
        r@ == built_path(server_dir@, file_name@, pid),
{
    let mut out = server_dir.to_owned();
    out.append("/");
    out.append("download-");
    out.append(decimal_of(pid as u64).as_str());
    out.append("-");
    out.append(file_name);
    out
}

// ---------------------------------------------------------------------------
// The order of the installation

/// The steps of installing the server.
#[derive(Clone, Copy, Debug, PartialEq, Eq, Structural)]
pub enum InstallStep {
    /// Run the binary that may be there already.
    Check,
    /// Ask whether a binary has been built from source here.
    Build { exists: bool },
    /// Upload the binary that was built here.
    UploadBuilt,
    /// Put the binary that was built here into its place.
    ExtractBuilt,
    /// Ask for the address of a packed binary.
    AskUrl,
    /// Download the packed binary in the container.
    DownloadOnServer,
    /// Download the packed binary to this machine.
    DownloadLocally,
    /// Upload the packed binary.
    UploadDownloaded,
    /// Unpack the binary into its place.
    ExtractDownloaded,
    /// The binary is in its place.
    Done,
}

/// What has come of a step of the installation.
#[derive(Clone, Debug, PartialEq, Eq)]
pub enum InstallEvent {
    /// Whether the binary in the container runs.
    Checked(bool),
    /// Whether a binary has been built from source.
    Built(bool),
    /// Whether there is an address to download from.
    Url(bool),
    /// The step has been carried out.
    Succeeded,
    /// The step has failed with an error.
    Failed(String),
}

/// The error where there is no binary and none can be fetched: development
/// builds are not published.
pub open spec fn no_server_message(path: Seq<char>) -> Seq<char> {
    "ZED_BUILD_REMOTE_SERVER is not set and no remote server exists at ("@ + path + ")"@
}

/// The next step of the installation, or the error that ends it. `path` is how
/// the place of the binary is shown.
pub open spec fn installed(
    step: InstallStep,
    channel: ReleaseChannel,
    upload_over_exec: bool,
    path: Seq<char>,
    event: InstallEvent,
) -> Result<InstallStep, Seq<char>> {
    match (step, event) {
        (InstallStep::Check, InstallEvent::Checked(exists)) => Ok(InstallStep::Build { exists }),
        (InstallStep::Build { exists }, InstallEvent::Built(built)) => if built {
            Ok(InstallStep::UploadBuilt)
        } else if exists {
            Ok(InstallStep::Done)
        } else if channel == ReleaseChannel::Dev {
            Err(no_server_message(path))
        } else if upload_over_exec {
            Ok(InstallStep::DownloadLocally)
        } else {
            Ok(InstallStep::AskUrl)
        },
        (InstallStep::UploadBuilt, InstallEvent::Succeeded) => Ok(InstallStep::ExtractBuilt),
        (InstallStep::ExtractBuilt, InstallEvent::Succeeded) => Ok(InstallStep::Done),
        (InstallStep::AskUrl, InstallEvent::Url(found)) => if found {
            Ok(InstallStep::DownloadOnServer)
        } else {
            Ok(InstallStep::DownloadLocally)
        },
        (InstallStep::DownloadOnServer, InstallEvent::Succeeded) => Ok(
            InstallStep::ExtractDownloaded,
        ),
        (InstallStep::DownloadOnServer, InstallEvent::Failed(_)) => Ok(
            InstallStep::DownloadLocally,
        ),
        (InstallStep::DownloadLocally, InstallEvent::Succeeded) => Ok(
            InstallStep::UploadDownloaded,
        ),
        (InstallStep::UploadDownloaded, InstallEvent::Succeeded) => Ok(
            InstallStep::ExtractDownloaded,
        ),
        (InstallStep::ExtractDownloaded, InstallEvent::Succeeded) => Ok(InstallStep::Done),
        (_, InstallEvent::Failed(e)) => Err(step_context(step) + e@),
        _ => Ok(step),
    }
}

/// What the error of a step says of the step.
pub open spec fn step_context(step: InstallStep) -> Seq<char> {
    match step {
        InstallStep::DownloadLocally => "downloading server binary locally: "@,
        InstallStep::UploadDownloaded => "uploading server binary: "@,
        InstallStep::ExtractDownloaded => "extracting server binary: "@,
        _ => ""@,
    }
}

/// The next step of the installation, or the error that ends it.
pub fn install_next(
    step: InstallStep,
    channel: ReleaseChannel,
    upload_over_exec: bool,
    path: &str,
    event: InstallEvent,
) -> (r: Result<InstallStep, String>)
    ensures
        match installed(step, channel, upload_over_exec, path@, event) {
            Ok(next) => r == Ok::<InstallStep, String>(next),
            Err(e) => r is Err && r->Err_0@ == e,
        },
{
    match (step, event) {
        (InstallStep::Check, InstallEvent::Checked(exists)) => Ok(InstallStep::Build { exists }),
        (InstallStep::Build { exists }, InstallEvent::Built(built)) => {
            if built {
                Ok(InstallStep::UploadBuilt)
            } else if exists {
                Ok(InstallStep::Done)
            } else if channel == ReleaseChannel::Dev {
                let mut out =
                    "ZED_BUILD_REMOTE_SERVER is not set and no remote server exists at (".to_owned();
                out.append(path);
                out.append(")");
                Err(out)
            } else if upload_over_exec {
                Ok(InstallStep::DownloadLocally)
            } else {
                Ok(InstallStep::AskUrl)
            }
        },
        (InstallStep::UploadBuilt, InstallEvent::Succeeded) => Ok(InstallStep::ExtractBuilt),
        (InstallStep::ExtractBuilt, InstallEvent::Succeeded) => Ok(InstallStep::Done),
        (InstallStep::AskUrl, InstallEvent::Url(found)) => if found {
            Ok(InstallStep::DownloadOnServer)
        } else {
            Ok(InstallStep::DownloadLocally)
        },
        (InstallStep::DownloadOnServer, InstallEvent::Succeeded) => Ok(
            InstallStep::ExtractDownloaded,
        ),
        (InstallStep::DownloadOnServer, InstallEvent::Failed(_)) => Ok(
            InstallStep::DownloadLocally,
        ),
        (InstallStep::DownloadLocally, InstallEvent::Succeeded) => Ok(
            InstallStep::UploadDownloaded,
        ),
        (InstallStep::UploadDownloaded, InstallEvent::Succeeded) => Ok(
            InstallStep::ExtractDownloaded,
        ),
        (InstallStep::ExtractDownloaded, InstallEvent::Succeeded) => Ok(InstallStep::Done),
        (_, InstallEvent::Failed(e)) => {
            let mut out = match step {
                InstallStep::DownloadLocally => "downloading server binary locally: ".to_owned(),
                InstallStep::UploadDownloaded => "uploading server binary: ".to_owned(),
                InstallStep::ExtractDownloaded => "extracting server binary: ".to_owned(),
                _ => "".to_owned(),
            };
            out.append(e.as_str());
            Err(out)
        },
        _ => Ok(step),
    }
}

/// The installation ends well only where the binary was there, or after it has
/// been put into its place.
pub proof fn install_ends_with_a_binary(
    step: InstallStep,
    channel: ReleaseChannel,
    upload_over_exec: bool,
    path: Seq<char>,
    event: InstallEvent,
)
    requires
        step != InstallStep::Done,
        installed(step, channel, upload_over_exec, path, event) == Ok::<InstallStep, Seq<char>>(
            InstallStep::Done,
        ),
    ensures
        step == (InstallStep::Build { exists: true }) || ((step == InstallStep::ExtractBuilt || step
            == InstallStep::ExtractDownloaded) && event == InstallEvent::Succeeded),
{
}

/// A binary that cannot be downloaded in the container is downloaded here and
/// uploaded, whatever the error was.
pub proof fn failed_download_is_made_up_for(
    channel: ReleaseChannel,
    upload_over_exec: bool,
    path: Seq<char>,
    error: String,
)
    ensures
        installed(
            InstallStep::DownloadOnServer,
            channel,
            upload_over_exec,
            path,
            InstallEvent::Failed(error),
        ) == Ok::<InstallStep, Seq<char>>(InstallStep::DownloadLocally),
        installed(
            InstallStep::DownloadLocally,
            channel,
            upload_over_exec,
            path,
            InstallEvent::Succeeded,
        ) == Ok::<InstallStep, Seq<char>>(InstallStep::UploadDownloaded),
{
}

/// How far a step stands in the order of the installation.
pub open spec fn install_rank(step: InstallStep) -> int {
    match step {
        InstallStep::Check => 0,
        InstallStep::Build { .. } => 1,
        InstallStep::UploadBuilt => 2,
        InstallStep::ExtractBuilt => 3,
        InstallStep::AskUrl => 2,
        InstallStep::DownloadOnServer => 3,
        InstallStep::DownloadLocally => 4,
        InstallStep::UploadDownloaded => 5,
        InstallStep::ExtractDownloaded => 6,
        InstallStep::Done => 7,
    }
}

/// Whether an event can be what has come of a step of the installation.
pub open spec fn install_event_fits(step: InstallStep, event: InstallEvent) -> bool {
    event is Failed || match step {
        InstallStep::Check => event is Checked,
        InstallStep::Build { .. } => event is Built,
        InstallStep::AskUrl => event is Url,
        _ => event is Succeeded,
    }
}

/// The installation comes to an end: every outcome of a step leads on in the
/// order of the steps, or ends it with an error.
pub proof fn installing_comes_to_an_end(
    step: InstallStep,
    channel: ReleaseChannel,
    upload_over_exec: bool,
    path: Seq<char>,
    event: InstallEvent,
)
    requires
        step != InstallStep::Done,
        install_event_fits(step, event),
    ensures
        installed(step, channel, upload_over_exec, path, event) matches Ok(next) ==> install_rank(
            step,
        ) < install_rank(next) <= install_rank(InstallStep::Done),
{
}

/// Whether the server that is fetched is to have the version of this program;
/// on the nightly channel it is the newest one.
pub fn wants_own_version(channel: ReleaseChannel) -> (r: bool)
    ensures
        r == (channel == ReleaseChannel::Preview || channel == ReleaseChannel::Stable),
{
    match channel {
        ReleaseChannel::Nightly => false,
        ReleaseChannel::Dev => false,
        _ => true,
    }
}

// ---------------------------------------------------------------------------
// Unpacking

/// The path without the ending of a packed file, where it has that ending.
pub open spec fn unpacked(path: Seq<char>) -> Option<Seq<char>> {
    if ends(path, ".gz"@) {
        Some(path.take(path.len() - 3))
    } else {
        None
    }
}

/// The path without the ending of a packed file, where it has that ending.
pub fn unpacked_path(path: &str) -> (r: Option<String>)
    ensures
        opt_text(r) == unpacked(path@),
{
    let chars = chars_of(path);
    let suffix = chars_of(".gz");
    proof {
        reveal_strlit(".gz");
    }
    if ends_with(chars.as_slice(), suffix.as_slice()) {
        let head = slice_subrange(chars.as_slice(), 0, chars.len() - 3);
        assert(head@ =~= path@.take(path@.len() - 3));
        Some(string_of(head))
    } else {
        None
    }
}

/// The script that puts the binary into its place. All names are quoted for
/// the shell; `unpacked` is given where the file is packed.
pub open spec fn place_script(
    mode: Seq<char>,
    file: Seq<char>,
    unpacked: Option<Seq<char>>,
    dst: Seq<char>,
) -> Seq<char> {
    match unpacked {
        Some(u) => "gunzip -f "@ + file + " && chmod "@ + mode + " "@ + u + " && mv "@ + u + " "@
            + dst,
        None => "chmod "@ + mode + " "@ + file + " && mv "@ + file + " "@ + dst,
    }
}

/// The script that puts the binary into its place.
///
/// Each name is given as it is quoted for the shell; one that cannot be quoted
/// is missing, and is an error. `unpacked` is given where the file is packed.
pub fn extract_script(
    mode: Option<&str>,
    file: Option<&str>,
    unpacked: Option<Option<&str>>,
    dst: Option<&str>,
) -> (r: Result<String, String>)
    ensures
        ({
            let quoted = mode is Some && file is Some && dst is Some && unpacked != Some(
                None::<&str>,
            );
            match r {
                Ok(script) => quoted && script@ == place_script(
                    mode->0@,
                    file->0@,
                    match unpacked {
                        Some(Some(u)) => Some(u@),
                        _ => None,
                    },
                    dst->0@,
                ),
                Err(e) => !quoted && e@ == "shell quoting"@,
            }
        }),
{
    match (mode, file, dst) {
        (Some(mode), Some(file), Some(dst)) => match unpacked {
            Some(Some(u)) => {
                let mut out = "gunzip -f ".to_owned();
                out.append(file);
                out.append(" && chmod ");
                out.append(mode);
                out.append(" ");
                out.append(u);
                out.append(" && mv ");
                out.append(u);
                out.append(" ");
                out.append(dst);
                Ok(out)
            },
            Some(None) => Err("shell quoting".to_owned()),
            None => {
                let mut out = "chmod ".to_owned();
                out.append(mode);
                out.append(" ");
                out.append(file);
                out.append(" && mv ");
                out.append(file);
                out.append(" ");
                out.append(dst);
                Ok(out)
            },
        },
        _ => Err("shell quoting".to_owned()),
    }
}

/// The permissions of the server binary, as `chmod` takes them.
pub fn server_mode() -> (r: String)
    ensures
        r@ == "755"@,
{
    "755".to_owned()
}

/// The script that puts a binary into its place: what was sent or downloaded is
/// unpacked where its name says that it is packed.
pub open spec fn binary_script(dst: Seq<char>, file: Seq<char>) -> Seq<char> {
    place_script(
        "755"@,
        shlex_quoted(file),
        match unpacked(file) {
            Some(u) => Some(shlex_quoted(u)),
            None => None,
        },
        shlex_quoted(dst),
    )
}

/// The script that puts a binary into its place.
pub fn extract_server_binary(dst_path: &str, tmp_path: &str, style: PathStyle) -> (r: Result<
    String,
    String,
>)
    ensures
        ({
            let dst = shown_path(dst_path@, style);
            let file = shown_path(tmp_path@, style);
            match r {
                Ok(script) => !dst.contains('\0') && !file.contains('\0') && script@
                    == binary_script(dst, file),
                Err(e) => (dst.contains('\0') || file.contains('\0')) && e@ == "shell quoting"@,
            }
        }),
{
    let file = show_path(tmp_path, style);
    let dst = show_path(dst_path, style);
    let mode = server_mode();
    proof {
        reveal_strlit("755");
        reveal_strlit(".gz");
    }
    let quoted_mode = try_quote(mode.as_str());
    let quoted_dst = try_quote(dst.as_str());
    let quoted_file = try_quote(file.as_str());
    let bare = unpacked_path(file.as_str());
    let quoted_bare: Option<Option<String>> = match &bare {
        Some(u) => Some(try_quote(u.as_str())),
        None => None,
    };
    proof {
        if bare is Some && bare->0@.contains('\0') {
            let i = choose|i: int| 0 <= i < bare->0@.len() && bare->0@[i] == '\0';
            assert(file@[i] == '\0');
        }
    }
    let mode_word = match &quoted_mode {
        Some(q) => Some(q.as_str()),
        None => None,
    };
    let file_word = match &quoted_file {
        Some(q) => Some(q.as_str()),
        None => None,
    };
    let dst_word = match &quoted_dst {
        Some(q) => Some(q.as_str()),
        None => None,
    };
    let bare_word = match &quoted_bare {
        Some(Some(q)) => Some(Some(q.as_str())),
        Some(None) => Some(None),
        None => None,
    };
    extract_script(mode_word, file_word, bare_word, dst_word)
}

// ---------------------------------------------------------------------------
// Uploading

/// The arguments that copy a local file into a container.
pub open spec fn copy_args(
    o: DockerConnectionOptionsView,
    src: Seq<char>,
    dst: Seq<char>,
) -> Seq<Seq<char>> {
    seq!["cp"@, "-a"@, host_path(src, o.host), o.container_id + ":"@ + dst]
}

/// The arguments that give a file of a container to its user.
pub open spec fn chown_args(o: DockerConnectionOptionsView, dst: Seq<char>) -> Seq<Seq<char>> {
    seq!["exec"@, o.container_id, "chown"@, o.remote_user + ":"@ + o.remote_user, dst]
}

/// The command that copies a local file into a container.
pub fn upload_copy_command(
    docker_cli: &str,
    options: &DockerConnectionOptions,
    src_path: &str,
    dst_path: &str,
    bridge_wsl: bool,
) -> (r: HostCommand)
    ensures
        r@ == host_command(
            docker_cli@,
            options@.host,
            copy_args(options@, src_path@, dst_path@),
            bridge_wsl,
        ),
{
    let mut args: Vec<String> = Vec::new();
    push_str(&mut args, "cp");
    push_str(&mut args, "-a");
    let src = format_local_path_for_docker_host(src_path, &options.host);
    push_str(&mut args, src.as_str());
    let mut target = options.container_id.clone();
    target.append(":");
    target.append(dst_path);
    push_str(&mut args, target.as_str());
    assert(texts(args@) =~= copy_args(options@, src_path@, dst_path@));
    new_host_docker_command(docker_cli, &options.host, &args, bridge_wsl)
}

/// What comes of copying a file: an error where the command has failed.
pub fn upload_copy_outcome(
    options: &DockerConnectionOptions,
    src_path: &str,
    dst_path: &str,
    success: bool,
    stderr: &str,
) -> (r: Result<(), String>)
    ensures
        match r {
            Ok(_) => success,
            Err(e) => !success && e@ == "failed to upload via docker cp "@ + host_path(
                src_path@,
                options@.host,
            ) + " -> "@ + dst_path@ + ": "@ + stderr@,
        },
{
    if success {
        Ok(())
    } else {
        let mut out = "failed to upload via docker cp ".to_owned();
        out.append(format_local_path_for_docker_host(src_path, &options.host).as_str());
        out.append(" -> ");
        out.append(dst_path);
        out.append(": ");
        out.append(stderr);
        Err(out)
    }
}

/// The command that gives a file of a container to its user.
pub fn upload_chown_command(
    docker_cli: &str,
    options: &DockerConnectionOptions,
    dst_path: &str,
    bridge_wsl: bool,
) -> (r: HostCommand)
    ensures
        r@ == host_command(docker_cli@, options@.host, chown_args(options@, dst_path@), bridge_wsl),
{
    let mut args: Vec<String> = Vec::new();
    push_str(&mut args, "exec");
    push_str(&mut args, options.container_id.as_str());
    push_str(&mut args, "chown");
    let mut owner = options.remote_user.clone();
    owner.append(":");
    owner.append(options.remote_user.as_str());
    push_str(&mut args, owner.as_str());
    push_str(&mut args, dst_path);
    assert(texts(args@) =~= chown_args(options@, dst_path@));
    new_host_docker_command(docker_cli, &options.host, &args, bridge_wsl)
}

/// What comes of giving a file to a user: an error where the command has
/// failed, but for a user whom the container does not know.
pub fn upload_chown_outcome(success: bool, stderr: &str) -> (r: Result<(), String>)
    ensures
        match r {
            Ok(_) => success || reports_no_user(stderr@),
            Err(e) => !success && !reports_no_user(stderr@) && e@
                == "failed to change ownership for zed_remote_server via chown: "@ + stderr@,
        },
{
    if success || should_fallback_to_container_default_user_message(stderr) {
        Ok(())
    } else {
        let mut out = "failed to change ownership for zed_remote_server via chown: ".to_owned();
        out.append(stderr);
        Err(out)
    }
}

// ---------------------------------------------------------------------------
// Downloading in the container

/// The steps of downloading a file in the container.
#[derive(Clone, Copy, Debug, PartialEq, Eq, Structural)]
pub enum DownloadStep {
    /// Make the directory.
    MakeDir,
    /// Download with `curl`.
    Curl,
    /// Ask whether `curl` is there, after it has failed.
    WhichCurl,
    /// Download with `wget`.
    Wget,
    /// Ask whether `wget` is there, after it has failed.
    WhichWget,
    /// The file is there.
    Done,
}

/// The program of a step, its working directory and its arguments.
pub open spec fn download_call(
    step: DownloadStep,
    c: DockerExecView,
    url: Seq<char>,
    server_dir: Seq<char>,
    file: Seq<char>,
) -> Option<(Seq<char>, Option<Seq<char>>, Seq<Seq<char>>)> {
    let dir = Some(c.remote_dir_for_server);
    let style = style_of(c);
    match step {
        DownloadStep::MakeDir => Some(("mkdir"@, dir, seq!["-p"@, shown_path(server_dir, style)])),
        DownloadStep::Curl => Some(
            ("curl"@, dir, seq!["-f"@, "-L"@, url, "-o"@, shown_path(file, style)]),
        ),
        DownloadStep::WhichCurl => Some(("which"@, None, seq!["curl"@])),
        DownloadStep::Wget => Some(("wget"@, dir, seq![url, "-O"@, shown_path(file, style)])),
        DownloadStep::WhichWget => Some(("which"@, None, seq!["wget"@])),
        DownloadStep::Done => None,
    }
}

/// The next step of a download and the error that is held back, or the error
/// that ends it. An error of `curl` or `wget` counts only where that program is
/// there; otherwise the next program is tried.
pub open spec fn downloaded(
    step: DownloadStep,
    held: Seq<char>,
    outcome: Result<Seq<char>, Seq<char>>,
) -> Result<(DownloadStep, Seq<char>), Seq<char>> {
    match (step, outcome) {
        (DownloadStep::MakeDir, Ok(_)) => Ok((DownloadStep::Curl, held)),
        (DownloadStep::MakeDir, Err(e)) => Err(e),
        (DownloadStep::Curl, Ok(_)) => Ok((DownloadStep::Done, held)),
        (DownloadStep::Curl, Err(e)) => Ok((DownloadStep::WhichCurl, e)),
        (DownloadStep::WhichCurl, Ok(_)) => Err(held),
        (DownloadStep::WhichCurl, Err(_)) => Ok((DownloadStep::Wget, held)),
        (DownloadStep::Wget, Ok(_)) => Ok((DownloadStep::Done, held)),
        (DownloadStep::Wget, Err(e)) => Ok((DownloadStep::WhichWget, e)),
        (DownloadStep::WhichWget, Ok(_)) => Err(held),
        (DownloadStep::WhichWget, Err(_)) => Err("Neither curl nor wget is available"@),
        (DownloadStep::Done, _) => Ok((DownloadStep::Done, held)),
    }
}

/// The next step of a download and the error that is held back, or the error
/// that ends it.
pub fn download_next(step: DownloadStep, held: String, outcome: Result<String, String>) -> (r:
    Result<(DownloadStep, String), String>)
    ensures
        match downloaded(step, held@, crate::docker_exec::outcome_text(outcome)) {
            Ok((next, e)) => r is Ok && r->Ok_0.0 == next && r->Ok_0.1@ == e,
            Err(e) => r is Err && r->Err_0@ == e,
        },
{
    match (step, outcome) {
        (DownloadStep::MakeDir, Ok(_)) => Ok((DownloadStep::Curl, held)),
        (DownloadStep::MakeDir, Err(e)) => Err(e),
        (DownloadStep::Curl, Ok(_)) => Ok((DownloadStep::Done, held)),
        (DownloadStep::Curl, Err(e)) => Ok((DownloadStep::WhichCurl, e)),
        (DownloadStep::WhichCurl, Ok(_)) => Err(held),
        (DownloadStep::WhichCurl, Err(_)) => Ok((DownloadStep::Wget, held)),
        (DownloadStep::Wget, Ok(_)) => Ok((DownloadStep::Done, held)),
        (DownloadStep::Wget, Err(e)) => Ok((DownloadStep::WhichWget, e)),
        (DownloadStep::WhichWget, Ok(_)) => Err(held),
        (DownloadStep::WhichWget, Err(_)) => Err("Neither curl nor wget is available".to_owned()),
        (DownloadStep::Done, _) => Ok((DownloadStep::Done, held)),
    }
}

/// The error of a download is that of a program that is there, that of the
/// directory, or that there is no program for it.
pub proof fn download_error_is_real(
    step: DownloadStep,
    held: Seq<char>,
    outcome: Result<Seq<char>, Seq<char>>,
)
    requires
        downloaded(step, held, outcome) is Err,
    ensures
        match step {
            DownloadStep::MakeDir => outcome == Err::<Seq<char>, Seq<char>>(
                downloaded(step, held, outcome)->Err_0,
            ),
            DownloadStep::WhichCurl => outcome is Ok && downloaded(step, held, outcome)->Err_0
                == held,
            DownloadStep::WhichWget => outcome is Ok ==> downloaded(step, held, outcome)->Err_0
                == held,
            _ => false,
        },
{
}

/// How far a step stands in the order of a download.
pub open spec fn download_rank(step: DownloadStep) -> int {
    match step {
        DownloadStep::MakeDir => 0,
        DownloadStep::Curl => 1,
        DownloadStep::WhichCurl => 2,
        DownloadStep::Wget => 3,
        DownloadStep::WhichWget => 4,
        DownloadStep::Done => 5,
    }
}

/// A download comes to an end: every outcome leads on in the order of the
/// steps, or ends it with an error.
pub proof fn downloading_comes_to_an_end(
    step: DownloadStep,
    held: Seq<char>,
    outcome: Result<Seq<char>, Seq<char>>,
)
    requires
        step != DownloadStep::Done,
    ensures
        downloaded(step, held, outcome) matches Ok((next, _)) ==> download_rank(step)
            < download_rank(next) <= download_rank(DownloadStep::Done),
{
}

// ---------------------------------------------------------------------------
// Ending the proxy

/// Whether the output of a command that ends a process says that the process
/// was gone already.
pub open spec fn reports_gone(output: Seq<char>) -> bool {
    let m = lowered(output);
    has_part(m, "no such process"@) || has_part(m, "not found"@) || has_part(
        m,
        "no running instance"@,
    ) || has_part(m, "cannot find the process"@)
}

/// The command that ends a process, on Windows or elsewhere.
pub open spec fn kill_call(pid: u32, on_windows: bool) -> (Seq<char>, Seq<Seq<char>>) {
    if on_windows {
        ("taskkill"@, seq!["/PID"@, decimal(pid as nat), "/T"@, "/F"@])
    } else {
        ("kill"@, seq![decimal(pid as nat)])
    }
}

/// The command that ends a process, on Windows or elsewhere.
pub fn kill_command(pid: u32, on_windows: bool) -> (r: (String, Vec<String>))
    ensures
        (r.0@, texts(r.1@)) == kill_call(pid, on_windows),
{
    let number = decimal_of(pid as u64);
    let mut args: Vec<String> = Vec::new();
    if on_windows {
        push_str(&mut args, "/PID");
        push_str(&mut args, number.as_str());
        push_str(&mut args, "/T");
        push_str(&mut args, "/F");
        assert(texts(args@) =~= kill_call(pid, on_windows).1);
        ("taskkill".to_owned(), args)
    } else {
        push_str(&mut args, number.as_str());
        assert(texts(args@) =~= kill_call(pid, on_windows).1);
        ("kill".to_owned(), args)
    }
}

/// The error where a process could not be ended.
pub open spec fn kill_message(pid: u32, reason: Seq<char>) -> Seq<char> {
    "Failed to kill process "@ + decimal(pid as nat) + ": "@ + reason
}

/// The error where the command that ends a process could not be run.
pub fn kill_error(pid: u32, reason: &str) -> (r: String)
    ensures
        r@ == kill_message(pid, reason@),
{
    let mut out = "Failed to kill process ".to_owned();
    out.append(decimal_of(pid as u64).as_str());
    out.append(": ");
    out.append(reason);
    out
}

/// What comes of ending a process: an error where the command has failed, but
/// for a process that was gone already.
pub fn kill_outcome(pid: u32, success: bool, stdout: &str, stderr: &str) -> (r: Result<(), String>)
    ensures
        ({
            let combined = stdout@ + "\n"@ + stderr@;
            match r {
                Ok(_) => success || reports_gone(combined),
                Err(e) => !success && !reports_gone(combined) && e@ == kill_message(
                    pid,
                    trimmed(combined),
                ),
            }
        }),
{
    if success {
        return Ok(());
    }
    let mut combined = stdout.to_owned();
    combined.append("\n");
    combined.append(stderr);
    let chars = chars_of(combined.as_str());
    let low = string_of(to_ascii_lower(chars.as_slice()).as_slice());
    if text_contains(low.as_str(), "no such process") || text_contains(low.as_str(), "not found")
        || text_contains(low.as_str(), "no running instance") || text_contains(
        low.as_str(),
        "cannot find the process",
    ) {
        return Ok(());
    }
    Err(kill_error(pid, trim_text(combined.as_str()).as_str()))
}

// ---------------------------------------------------------------------------
// The proxy and other commands

/// One of the variables that are handed on to the proxy, where it is set.
pub open spec fn handed_on(name: Seq<char>, value: Option<Seq<char>>) -> Seq<Seq<char>> {
    match value {
        Some(v) => seq!["-e"@, name + "="@ + v],
        None => Seq::empty(),
    }
}

/// The arguments that start the proxy.
pub open spec fn proxy_args(
    c: DockerExecView,
    binary: Seq<char>,
    rust_log: Option<Seq<char>>,
    rust_backtrace: Option<Seq<char>>,
    minidumps: Option<Seq<char>>,
    identifier: Seq<char>,
    reconnect: bool,
) -> Seq<Seq<char>> {
    let start = seq!["exec"@] + env_args(c.connection_options.remote_env) + handed_on(
        "RUST_LOG"@,
        rust_log,
    ) + handed_on("RUST_BACKTRACE"@, rust_backtrace) + handed_on(
        "ZED_GENERATE_MINIDUMPS"@,
        minidumps,
    ) + seq!["-w"@, c.remote_dir_for_server, "-i"@] + user_args(c.exec_user) + seq![
        c.connection_options.container_id,
        shown_path(binary, style_of(c)),
        "proxy"@,
        "--identifier"@,
        identifier,
    ];
    if reconnect {
        start.push("--reconnect"@)
    } else {
        start
    }
}

fn hand_on(args: &mut Vec<String>, name: &str, value: Option<&str>)
    ensures
        texts(final(args)@) == texts(old(args)@) + handed_on(name@, opt_str(value)),
{
    match value {
        Some(v) => {
            push_str(args, "-e");
            let mut pair = name.to_owned();
            pair.append("=");
            pair.append(v);
            push_str(args, pair.as_str());
        },
        None => {},
    }
    assert(texts(args@) =~= texts(old(args)@) + handed_on(name@, opt_str(value)));
}

/// Whether a command is run with a terminal.
#[derive(Clone, Copy, Debug, PartialEq, Eq, Structural)]
pub enum Interactive {
    Yes,
    No,
}

/// The text without the slashes at its beginning.
pub open spec fn without_slashes(s: Seq<char>) -> Seq<char>
    decreases s.len(),
{
    if s.len() > 0 && s[0] == '/' {
        without_slashes(s.skip(1))
    } else {
        s
    }
}

fn strip_slashes(s: &[char]) -> (r: &[char])
    ensures
        r@ == without_slashes(s@),
{
    let mut i: usize = 0;
    assert(s@.skip(0) =~= s@);
    while i < s.len() && s[i] == '/'
        invariant
            i <= s.len(),
            without_slashes(s@) == without_slashes(s@.skip(i as int)),
        decreases s.len() - i,
    {
        assert(s@.skip(i as int).skip(1) =~= s@.skip(i + 1));
        i = i + 1;
    }
    let out = slice_subrange(s, i, s.len());
    assert(out@ =~= s@.skip(i as int));
    out
}

/// A working directory as it is given to the container engine: one below the
/// home directory is written with the variable that holds it.
pub open spec fn working_path(dir: Seq<char>) -> Seq<char> {
    if begins(dir, "~/"@) {
        "$HOME/"@ + without_slashes(dir.skip(1))
    } else {
        dir
    }
}

/// The arguments that run a command in the container: the program with its
/// arguments, or a login shell where there is none.
pub open spec fn command_args(
    c: DockerExecView,
    program: Option<Seq<char>>,
    args: Seq<Seq<char>>,
    env: Seq<EnvVarView>,
    working_dir: Option<Seq<char>>,
    interactive: Interactive,
) -> Seq<Seq<char>> {
    let dir = match working_dir {
        Some(d) => seq!["-w"@, working_path(d)],
        None => Seq::empty(),
    };
    let flag = match interactive {
        Interactive::Yes => "-it"@,
        Interactive::No => "-i"@,
    };
    let inner = match program {
        Some(p) => seq![p] + args,
        None => seq![c.shell, "-l"@],
    };
    seq!["exec"@] + user_args(c.exec_user) + dir + env_args(c.connection_options.remote_env)
        + env_args(env) + seq![flag, c.connection_options.container_id] + inner
}

impl DockerExecConnection {
    /// The first step of the installation, which needs to know the system
    /// inside the container.
    pub fn install_start(&self) -> (r: Result<InstallStep, String>)
        ensures
            match r {
                Ok(step) => self@.remote_platform is Some && step == InstallStep::Check,
                Err(e) => self@.remote_platform is None && e@
                    == "No remote platform defined; cannot proceed."@,
            },
    {
        if self.remote_platform.is_some() {
            Ok(InstallStep::Check)
        } else {
            Err("No remote platform defined; cannot proceed.".to_owned())
        }
    }

    /// The command that runs the binary that may be there already.
    pub fn check_binary_command(&self, binary: &str, bridge_wsl: bool) -> (r: HostCommand)
        ensures
            r@ == host_command(
                engine(self@.connection_options),
                self@.connection_options.host,
                exec_args(
                    self@,
                    shown_path(binary@, style_of(self@)),
                    Some(self@.remote_dir_for_server),
                    Seq::empty(),
                    seq!["version"@],
                ),
                bridge_wsl,
            ),
    {
        let env: Vec<EnvVar> = Vec::new();
        assert(models(env@) =~= Seq::empty());
        let mut args: Vec<String> = Vec::new();
        push_str(&mut args, "version");
        assert(texts(args@) =~= seq!["version"@]);
        let program = show_path(binary, self.path_style());
        self.run_docker_exec(
            program.as_str(),
            Some(self.remote_dir_for_server.as_str()),
            &env,
            &args,
            bridge_wsl,
        )
    }

    /// The command that runs a script in the directory of the server.
    pub fn script_command(&self, script: &str, bridge_wsl: bool) -> (r: HostCommand)
        ensures
            r@ == host_command(
                engine(self@.connection_options),
                self@.connection_options.host,
                exec_args(
                    self@,
                    "sh"@,
                    Some(self@.remote_dir_for_server),
                    Seq::empty(),
                    seq!["-c"@, script@],
                ),
                bridge_wsl,
            ),
    {
        let env: Vec<EnvVar> = Vec::new();
        assert(models(env@) =~= Seq::empty());
        let mut args: Vec<String> = Vec::new();
        push_str(&mut args, "-c");
        push_str(&mut args, script);
        assert(texts(args@) =~= seq!["-c"@, script@]);
        self.run_docker_exec(
            "sh",
            Some(self.remote_dir_for_server.as_str()),
            &env,
            &args,
            bridge_wsl,
        )
    }

    /// The full path of a file of the server in the container.
    pub fn full_server_path(&self, path: &str) -> (r: String)
        ensures
            r@ == self@.remote_dir_for_server + "/"@ + shown_path(path@, style_of(self@)),
    {
        let mut out = self.remote_dir_for_server.clone();
        out.append("/");
        out.append(show_path(path, self.path_style()).as_str());
        out
    }

    /// The command of a step of a download; none where the file is there.
    pub fn download_command(
        &self,
        step: DownloadStep,
        url: &str,
        server_dir: &str,
        file: &str,
        bridge_wsl: bool,
    ) -> (r: Option<HostCommand>)
        ensures
            match download_call(step, self@, url@, server_dir@, file@) {
                Some((program, dir, args)) => r is Some && r->0@ == host_command(
                    engine(self@.connection_options),
                    self@.connection_options.host,
                    exec_args(self@, program, dir, Seq::empty(), args),
                    bridge_wsl,
                ),
                None => r is None,
            },
    {
        let env: Vec<EnvVar> = Vec::new();
        assert(models(env@) =~= Seq::empty());
        let mut args: Vec<String> = Vec::new();
        let style = self.path_style();
        let dir = Some(self.remote_dir_for_server.as_str());
        match step {
            DownloadStep::MakeDir => {
                push_str(&mut args, "-p");
                push_str(&mut args, show_path(server_dir, style).as_str());
                assert(texts(args@) =~= seq!["-p"@, shown_path(server_dir@, style)]);
                Some(self.run_docker_exec("mkdir", dir, &env, &args, bridge_wsl))
            },
            DownloadStep::Curl => {
                push_str(&mut args, "-f");
                push_str(&mut args, "-L");
                push_str(&mut args, url);
                push_str(&mut args, "-o");
                push_str(&mut args, show_path(file, style).as_str());
                assert(texts(args@) =~= seq!["-f"@, "-L"@, url@, "-o"@, shown_path(file@, style)]);
                Some(self.run_docker_exec("curl", dir, &env, &args, bridge_wsl))
            },
            DownloadStep::WhichCurl => {
                push_str(&mut args, "curl");
                assert(texts(args@) =~= seq!["curl"@]);
                Some(self.run_docker_exec("which", None, &env, &args, bridge_wsl))
            },
            DownloadStep::Wget => {
                push_str(&mut args, url);
                push_str(&mut args, "-O");
                push_str(&mut args, show_path(file, style).as_str());
                assert(texts(args@) =~= seq![url@, "-O"@, shown_path(file@, style)]);
                Some(self.run_docker_exec("wget", dir, &env, &args, bridge_wsl))
            },
            DownloadStep::WhichWget => {
                push_str(&mut args, "wget");
                assert(texts(args@) =~= seq!["wget"@]);
                Some(self.run_docker_exec("which", None, &env, &args, bridge_wsl))
            },
            DownloadStep::Done => None,
        }
    }

    /// Forgets the proxy and gives its process, so that it is ended once only.
    pub fn take_proxy(&mut self) -> (r: Option<u32>)
        ensures
            r == old(self)@.proxy_process,
            final(self)@ == (DockerExecView { proxy_process: None, ..old(self)@ }),
    {
        self.proxy_process.take()
    }

    /// Remembers the process of the proxy.
    pub fn proxy_started(&mut self, pid: u32)
        ensures
            final(self)@ == (DockerExecView { proxy_process: Some(pid), ..old(self)@ }),
    {
        self.proxy_process = Some(pid);
    }

    /// The command that starts the proxy, with the variables that are handed on
    /// to it where they are set.
    pub fn start_proxy(
        &self,
        rust_log: Option<&str>,
        rust_backtrace: Option<&str>,
        minidumps: Option<&str>,
        unique_identifier: &str,
        reconnect: bool,
        bridge_wsl: bool,
    ) -> (r: Result<HostCommand, String>)
        ensures
            match r {
                Ok(command) => self@.remote_binary is Some && command@ == host_command(
                    engine(self@.connection_options),
                    self@.connection_options.host,
                    proxy_args(
                        self@,
                        self@.remote_binary->0,
                        opt_str(rust_log),
                        opt_str(rust_backtrace),
                        opt_str(minidumps),
                        unique_identifier@,
                        reconnect,
                    ),
                    bridge_wsl,
                ),
                Err(e) => self@.remote_binary is None && e@ == "Remote binary path not set"@,
            },
    {
        let binary = match &self.remote_binary {
            Some(binary) => binary,
            None => return Err("Remote binary path not set".to_owned()),
        };
        let mut args: Vec<String> = Vec::new();
        push_str(&mut args, "exec");
        push_env_args(&mut args, &self.connection_options.remote_env);
        hand_on(&mut args, "RUST_LOG", rust_log);
        hand_on(&mut args, "RUST_BACKTRACE", rust_backtrace);
        hand_on(&mut args, "ZED_GENERATE_MINIDUMPS", minidumps);
        push_str(&mut args, "-w");
        push_str(&mut args, self.remote_dir_for_server.as_str());
        push_str(&mut args, "-i");
        self.append_exec_user_arg(&mut args);
        push_str(&mut args, self.connection_options.container_id.as_str());
        push_str(&mut args, show_path(binary.as_str(), self.path_style()).as_str());
        push_str(&mut args, "proxy");
        push_str(&mut args, "--identifier");
        push_str(&mut args, unique_identifier);
        if reconnect {
            push_str(&mut args, "--reconnect");
        }
        assert(texts(args@) =~= proxy_args(
            self@,
            binary@,
            opt_str(rust_log),
            opt_str(rust_backtrace),
            opt_str(minidumps),
            unique_identifier@,
            reconnect,
        ));
        Ok(
            new_host_docker_command(
                self.docker_cli(),
                &self.connection_options.host,
                &args,
                bridge_wsl,
            ),
        )
    }

    /// The arguments that run a command in the container.
    #[verifier::rlimit(30)]
    fn build_command_args(
        &self,
        program: Option<String>,
        args: &Vec<String>,
        env: &Vec<EnvVar>,
        working_dir: Option<String>,
        interactive: Interactive,
    ) -> (r: Vec<String>)
        ensures
            texts(r@) == command_args(
                self@,
                opt_text(program),
                texts(args@),
                models(env@),
                opt_text(working_dir),
                interactive,
            ),
    {
        let mut out: Vec<String> = Vec::new();
        push_str(&mut out, "exec");
        self.append_exec_user_arg(&mut out);
        if let Some(dir) = &working_dir {
            push_str(&mut out, "-w");
            let shown = shorten_home(dir.as_str());
            push_str(&mut out, shown.as_str());
        }
        push_env_args(&mut out, &self.connection_options.remote_env);
        push_env_args(&mut out, env);
        match interactive {
            Interactive::Yes => push_str(&mut out, "-it"),
            Interactive::No => push_str(&mut out, "-i"),
        }
        push_str(&mut out, self.connection_options.container_id.as_str());
        match &program {
            Some(p) => {
                push_str(&mut out, p.as_str());
                push_all(&mut out, args);
            },
            None => {
                push_str(&mut out, self.shell.as_str());
                push_str(&mut out, "-l");
            },
        }
        assert(texts(out@) =~= command_args(
            self@,
            opt_text(program),
            texts(args@),
            models(env@),
            opt_text(working_dir),
            interactive,
        ));
        out
    }

    /// The command that runs a program, or a login shell, in the container,
    /// where `bridge_wsl` says whether WSL is entered through `wsl.exe`.
    pub fn build_command_bridged(
        &self,
        program: Option<String>,
        args: &Vec<String>,
        env: &Vec<EnvVar>,
        working_dir: Option<String>,
        interactive: Interactive,
        bridge_wsl: bool,
    ) -> (r: CommandTemplate)
        ensures
            r@ == host_template(
                engine(self@.connection_options),
                self@.connection_options.host,
                command_args(
                    self@,
                    opt_text(program),
                    texts(args@),
                    models(env@),
                    opt_text(working_dir),
                    interactive,
                ),
                bridge_wsl,
            ),
    {
        let all = self.build_command_args(program, args, env, working_dir, interactive);
        host_docker_command_template_bridged(
            self.docker_cli(),
            &self.connection_options.host,
            all,
            bridge_wsl,
        )
    }

    /// The command that runs a program, or a login shell, in the container. On
    /// Windows WSL is entered through `wsl.exe`.
    pub fn build_command(
        &self,
        program: Option<String>,
        args: &Vec<String>,
        env: &Vec<EnvVar>,
        working_dir: Option<String>,
        interactive: Interactive,
    ) -> (r: CommandTemplate)
        ensures
            ({
                let inner = command_args(
                    self@,
                    opt_text(program),
                    texts(args@),
                    models(env@),
                    opt_text(working_dir),
                    interactive,
                );
                let cli = engine(self@.connection_options);
                let host = self@.connection_options.host;
                &&& r@ == host_template(cli, host, inner, true) || r@ == host_template(
                    cli,
                    host,
                    inner,
                    false,
                )
                &&& !(host is Wsl) ==> r@ == host_template(cli, host, inner, true)
            }),
    {
        let all = self.build_command_args(program, args, env, working_dir, interactive);
        host_docker_command_template(self.docker_cli(), &self.connection_options.host, all)
    }

    /// Ports cannot be forwarded into a container.
    pub fn build_forward_ports_command(&self) -> (r: Result<CommandTemplate, String>)
        ensures
            r is Err,
            r->Err_0@ == "Not currently supported for docker_exec"@,
    {
        Err("Not currently supported for docker_exec".to_owned())
    }
}

fn shorten_home(dir: &str) -> (r: String)
    ensures
        r@ == working_path(dir@),
{
    proof {
        reveal_strlit("~/");
    }
    if text_begins(dir, "~/") {
        let chars = chars_of(dir);
        let tail = slice_subrange(chars.as_slice(), 1, chars.len());
        assert(tail@ =~= dir@.skip(1));
        let rest = strip_slashes(tail);
        let mut out = "$HOME/".to_owned();
        out.append(string_of(rest).as_str());
        out
    } else {
        dir.to_owned()
    }
}

/// What comes of the proxy's end: an error where its status is not zero.
pub fn proxy_exit(status: i32) -> (r: Result<i32, String>)
    ensures
        match r {
            Ok(s) => status == 0 && s == 0,
            Err(e) => status != 0 && e@ == "Remote server exited with status "@ + signed_decimal(
                status as int,
            ),
        },
{
    if status != 0 {
        let mut out = "Remote server exited with status ".to_owned();
        out.append(signed_decimal_of(status).as_str());
        Err(out)
    } else {
        Ok(0)
    }
}

// ---------------------------------------------------------------------------
// What reaches the container

/// A command in the container is given the user, the directory and every
/// variable, those of the container before its own, each as `-e` and
/// `name=value`. The flag and the container's id follow; behind them stands the
/// program with its arguments, unchanged and last, or the user's shell as a
/// login shell.
pub proof fn commands_reach_the_container(
    c: DockerExecView,
    program: Option<Seq<char>>,
    given: Seq<Seq<char>>,
    env: Seq<EnvVarView>,
    directory: Option<Seq<char>>,
    interactive: Interactive,
    i: int,
)
    ensures
        ({
            let all = command_args(c, program, given, env, directory, interactive);
            let own = c.connection_options.remote_env;
            let place = 1 + width(c.exec_user);
            let first = place + width(directory);
            let second = first + 2 * own.len();
            let id = second + 2 * env.len() + 1;
            &&& all[0] == "exec"@
            &&& c.exec_user matches Some(u) ==> all[1] == "-u"@ && all[2] == u
            &&& directory matches Some(d) ==> all[place] == "-w"@ && all[place + 1]
                == working_path(d)
            &&& 0 <= i < own.len() ==> all[first + 2 * i] == "-e"@ && all[first + 2 * i + 1]
                == own[i].name + "="@ + own[i].value
            &&& 0 <= i < env.len() ==> all[second + 2 * i] == "-e"@ && all[second + 2 * i + 1]
                == env[i].name + "="@ + env[i].value
            &&& interactive == Interactive::Yes ==> all[id - 1] == "-it"@
            &&& interactive == Interactive::No ==> all[id - 1] == "-i"@
            &&& all[id] == c.connection_options.container_id
            &&& match program {
                Some(p) => {
                    &&& all.len() == id + 2 + given.len()
                    &&& all[id + 1] == p
                    &&& 0 <= i < given.len() ==> all[id + 2 + i] == given[i]
                },
                None => {
                    &&& all.len() == id + 3
                    &&& all[id + 1] == c.shell
                    &&& all[id + 2] == "-l"@
                },
            }
        }),
{
    let own = c.connection_options.remote_env;
    env_args_have_two_each(own);
    env_args_have_two_each(env);
    if 0 <= i < own.len() {
        every_variable_is_handed_over(own, i);
    }
    if 0 <= i < env.len() {
        every_variable_is_handed_over(env, i);
    }
}

proof fn env_args_have_two_each(env: Seq<EnvVarView>)
    ensures
        env_args(env).len() == 2 * env.len(),
{
    if env.len() > 0 {
        every_variable_is_handed_over(env, 0);
    }
}

/// A directory below the home directory is written with the variable for it,
/// without further slashes between, and any other stays as it is.
pub proof fn home_is_written_as_a_variable(below: Seq<char>, other: Seq<char>)
    requires
        below.len() == 0 || below[0] != '/',
        other.len() < 2 || other[0] != '~' || other[1] != '/',
    ensures
        working_path(seq!['~', '/'] + below) == seq!['$', 'H', 'O', 'M', 'E', '/'] + below,
        working_path(seq!['~', '/', '/'] + below) == seq!['$', 'H', 'O', 'M', 'E', '/'] + below,
        working_path(other) == other,
{
    reveal_strlit("~/");
    reveal_strlit("$HOME/");
    assert("~/"@ =~= seq!['~', '/']);
    assert("$HOME/"@ =~= seq!['$', 'H', 'O', 'M', 'E', '/']);
    let a = seq!['~', '/'] + below;
    assert(a.take(2) =~= seq!['~', '/']);
    assert(a.skip(1).skip(1) =~= below);
    assert(without_slashes(a.skip(1)) == without_slashes(below));
    let b = seq!['~', '/', '/'] + below;
    assert(b.take(2) =~= seq!['~', '/']);
    assert(b.skip(1).skip(1) =~= seq!['/'] + below);
    assert((seq!['/'] + below).skip(1) =~= below);
    assert(without_slashes(b.skip(1)) == without_slashes(seq!['/'] + below));
    if begins(other, "~/"@) {
        assert(other.take(2)[0] == '~' && other.take(2)[1] == '/');
    }
}

/// The proxy is run by the server binary in the server's directory and as the
/// user, with the identifier behind its option; each variable that is set is
/// handed on under its own name, behind those of the container. `--reconnect`
/// stands at the end just where a proxy is to be found again.
pub proof fn proxy_is_started(
    c: DockerExecView,
    binary: Seq<char>,
    log: Option<Seq<char>>,
    trace: Option<Seq<char>>,
    dumps: Option<Seq<char>>,
    identifier: Seq<char>,
    reconnect: bool,
    i: int,
)
    ensures
        ({
            let all = proxy_args(c, binary, log, trace, dumps, identifier, reconnect);
            let own = c.connection_options.remote_env;
            let a: int = 1 + 2 * own.len() as int;
            let b = a + width(log);
            let d = b + width(trace);
            let w = d + width(dumps);
            let id = w + 3 + width(c.exec_user);
            &&& all[0] == "exec"@
            &&& 0 <= i < own.len() ==> all[1 + 2 * i] == "-e"@ && all[2 + 2 * i] == own[i].name
                + "="@ + own[i].value
            &&& log matches Some(v) ==> all[a] == "-e"@ && all[a + 1] == "RUST_LOG="@ + v
            &&& trace matches Some(v) ==> all[b] == "-e"@ && all[b + 1] == "RUST_BACKTRACE="@ + v
            &&& dumps matches Some(v) ==> all[d] == "-e"@ && all[d + 1]
                == "ZED_GENERATE_MINIDUMPS="@ + v
            &&& all[w] == "-w"@ && all[w + 1] == c.remote_dir_for_server && all[w + 2] == "-i"@
            &&& c.exec_user matches Some(u) ==> all[w + 3] == "-u"@ && all[w + 4] == u
            &&& all[id] == c.connection_options.container_id
            &&& style_of(c) == PathStyle::Posix ==> all[id + 1] == binary
            &&& all[id + 2] == "proxy"@ && all[id + 3] == "--identifier"@
            &&& all[id + 4] == identifier
            &&& reconnect ==> all.len() == id + 6 && all[id + 5] == "--reconnect"@
            &&& !reconnect ==> all.len() == id + 5
        }),
{
    let own = c.connection_options.remote_env;
    env_args_have_two_each(own);
    if 0 <= i < own.len() {
        every_variable_is_handed_over(own, i);
    }
    reveal_strlit("RUST_LOG");
    reveal_strlit("RUST_LOG=");
    reveal_strlit("RUST_BACKTRACE");
    reveal_strlit("RUST_BACKTRACE=");
    reveal_strlit("ZED_GENERATE_MINIDUMPS");
    reveal_strlit("ZED_GENERATE_MINIDUMPS=");
    reveal_strlit("=");
    assert("RUST_LOG"@ + "="@ =~= "RUST_LOG="@);
    assert("RUST_BACKTRACE"@ + "="@ =~= "RUST_BACKTRACE="@);
    assert("ZED_GENERATE_MINIDUMPS"@ + "="@ =~= "ZED_GENERATE_MINIDUMPS="@);
}

/// Paths stay as they are where the container writes them with slashes, and
/// elsewhere differ only in that backslashes stand for the slashes.
pub proof fn paths_keep_their_parts(path: Seq<char>, i: int)
    requires
        0 <= i < path.len(),
    ensures
        shown_path(path, PathStyle::Posix) == path,
        shown_path(path, PathStyle::Windows).len() == path.len(),
        path[i] != '/' ==> shown_path(path, PathStyle::Windows)[i] == path[i],
        path[i] == '/' ==> shown_path(path, PathStyle::Windows)[i] == '\\',
{
}

/// The binary stands below the server's directory, and what is put there before
/// it has another name, one for each process.
pub proof fn files_of_the_server_differ(dir: Seq<char>, name: Seq<char>, pid: u32)
    ensures
        server_path(dir, name).take(dir.len() as int) == dir,
        server_path(dir, name)[dir.len() as int] == '/',
        server_path(dir, name).skip(dir.len() as int + 1) == name,
        begins(packed_path(dir, name, pid), server_path(dir, name)),
        packed_path(dir, name, pid) != server_path(dir, name),
        ends(packed_path(dir, name, pid), decimal(pid as nat) + seq!['.', 'g', 'z']),
        unpacked(packed_path(dir, name, pid)) is Some,
        built_path(dir, name, pid) == dir + "/download-"@ + decimal(pid as nat) + seq!['-'] + name,
{
    reveal_strlit("/");
    reveal_strlit("-download-");
    reveal_strlit("/download-");
    reveal_strlit("download-");
    reveal_strlit(".gz");
    reveal_strlit("-");
    let s = server_path(dir, name);
    let p = packed_path(dir, name, pid);
    let tail = decimal(pid as nat) + seq!['.', 'g', 'z'];
    assert(".gz"@ =~= seq!['.', 'g', 'z']);
    assert(s.take(dir.len() as int) =~= dir);
    assert(s.skip(dir.len() as int + 1) =~= name);
    assert(p.take(s.len() as int) =~= s);
    assert(p.skip(p.len() - tail.len()) =~= tail);
    assert(p.skip(p.len() - 3) =~= ".gz"@);
    assert("/"@ + "download-"@ =~= "/download-"@);
    assert(built_path(dir, name, pid) =~= dir + ("/"@ + "download-"@) + decimal(pid as nat) + "-"@
        + name);
    assert("-"@ =~= seq!['-']);
}

/// The binary that is put into its place is the one that was sent: a packed file
/// is unpacked first and then moved under its name without the ending, any other
/// is moved itself. It can be run before it stands in its place.
pub proof fn sent_binaries_are_put_in_place(dst: Seq<char>, file: Seq<char>)
    ensures
        binary_script(dst, file + seq!['.', 'g', 'z']) == "gunzip -f "@ + shlex_quoted(
            file + seq!['.', 'g', 'z'],
        ) + " && chmod 755 "@ + shlex_quoted(file) + " && mv "@ + shlex_quoted(file) + " "@
            + shlex_quoted(dst),
        (file.len() < 3 || file.last() != 'z') ==> binary_script(dst, file) == "chmod 755 "@
            + shlex_quoted(file) + " && mv "@ + shlex_quoted(file) + " "@ + shlex_quoted(dst),
{
    reveal_strlit(".gz");
    reveal_strlit("755");
    reveal_strlit("chmod ");
    reveal_strlit(" && chmod ");
    reveal_strlit("chmod 755 ");
    reveal_strlit(" && chmod 755 ");
    reveal_strlit(" ");
    let packed = file + seq!['.', 'g', 'z'];
    assert(".gz"@ =~= seq!['.', 'g', 'z']);
    assert(packed.skip(packed.len() - 3) =~= ".gz"@);
    assert(packed.take(packed.len() - 3) =~= file);
    assert(unpacked(packed) == Some(file));
    assert(" && chmod "@ + "755"@ + " "@ =~= " && chmod 755 "@);
    assert("chmod "@ + "755"@ + " "@ =~= "chmod 755 "@);
    let q = shlex_quoted(packed);
    let u = shlex_quoted(file);
    let d = shlex_quoted(dst);
    assert(binary_script(dst, packed) =~= "gunzip -f "@ + q + (" && chmod "@ + "755"@ + " "@) + u
        + " && mv "@ + u + " "@ + d);
    if ends(file, ".gz"@) {
        assert(file.skip(file.len() - 3)[2] == 'z');
    } else {
        assert(unpacked(file) is None);
        assert(binary_script(dst, file) =~= ("chmod "@ + "755"@ + " "@) + u + " && mv "@ + u + " "@
            + d);
    }
}

/// A local file is copied from where the engine's machine finds it into the
/// container, and then given to the container's user and group.
pub proof fn files_are_copied_and_given(
    o: DockerConnectionOptionsView,
    src: Seq<char>,
    dst: Seq<char>,
)
    ensures
        ({
            let copy = copy_args(o, src, dst);
            let own = chown_args(o, dst);
            &&& copy.len() == 4 && copy[0] == "cp"@ && copy[1] == "-a"@
            &&& copy[2] == host_path(src, o.host)
            &&& copy[3] == o.container_id.push(':') + dst
            &&& own.len() == 5 && own[0] == "exec"@ && own[1] == o.container_id
            &&& own[2] == "chown"@ && own[4] == dst
            &&& own[3] == o.remote_user.push(':') + o.remote_user
        }),
{
    reveal_strlit(":");
    assert(o.container_id + ":"@ + dst =~= o.container_id.push(':') + dst);
    assert(o.remote_user + ":"@ + o.remote_user =~= o.remote_user.push(':') + o.remote_user);
}

/// What is asked for is fetched from its address into its file, by either
/// program and in the server's directory, which is made first; whether a
/// program is there is asked of `which`.
pub proof fn downloads_fetch_the_address(
    c: DockerExecView,
    url: Seq<char>,
    dir: Seq<char>,
    file: Seq<char>,
)
    requires
        style_of(c) == PathStyle::Posix,
    ensures
        ({
            let made = download_call(DownloadStep::MakeDir, c, url, dir, file);
            let curl = download_call(DownloadStep::Curl, c, url, dir, file);
            let wget = download_call(DownloadStep::Wget, c, url, dir, file);
            let a = download_call(DownloadStep::WhichCurl, c, url, dir, file);
            let b = download_call(DownloadStep::WhichWget, c, url, dir, file);
            let here = Some(c.remote_dir_for_server);
            &&& made is Some && (made->0).0 == "mkdir"@ && (made->0).1 == here
            &&& (made->0).2.len() == 2 && (made->0).2[0] == "-p"@ && (made->0).2[1] == dir
            &&& curl is Some && (curl->0).0 == "curl"@ && (curl->0).1 == here
            &&& (curl->0).2.len() == 5 && (curl->0).2[0] == "-f"@ && (curl->0).2[1] == "-L"@
            &&& (curl->0).2[2] == url && (curl->0).2[3] == "-o"@ && (curl->0).2[4] == file
            &&& wget is Some && (wget->0).0 == "wget"@ && (wget->0).1 == here
            &&& (wget->0).2.len() == 3 && (wget->0).2[0] == url && (wget->0).2[1] == "-O"@
            &&& (wget->0).2[2] == file
            &&& a is Some && (a->0).0 == "which"@ && (a->0).2 == seq!["curl"@]
            &&& b is Some && (b->0).0 == "which"@ && (b->0).2 == seq!["wget"@]
            &&& (a->0).1 is None && (b->0).1 is None
            &&& download_call(DownloadStep::Done, c, url, dir, file) is None
        }),
{
}

/// A download that works with either program is done; the second is tried just
/// where the first has failed and is not there.
pub proof fn second_program_makes_up_for_the_first(
    held: Seq<char>,
    out: Seq<char>,
    error: Seq<char>,
    missing: Seq<char>,
)
    ensures
        downloaded(DownloadStep::MakeDir, held, Ok(out)) matches Ok((s, _)) && s
            == DownloadStep::Curl,
        downloaded(DownloadStep::Curl, held, Ok(out)) matches Ok((s, _)) && s == DownloadStep::Done,
        downloaded(DownloadStep::Curl, held, Err(error)) == Ok::<
            (DownloadStep, Seq<char>),
            Seq<char>,
        >((DownloadStep::WhichCurl, error)),
        downloaded(DownloadStep::WhichCurl, error, Ok(out)) is Err,
        downloaded(DownloadStep::WhichCurl, error, Err(missing)) matches Ok((s, _)) && s
            == DownloadStep::Wget,
        downloaded(DownloadStep::Wget, held, Ok(out)) matches Ok((s, _)) && s == DownloadStep::Done,
        downloaded(DownloadStep::Wget, held, Err(error)) == Ok::<
            (DownloadStep, Seq<char>),
            Seq<char>,
        >((DownloadStep::WhichWget, error)),
        downloaded(DownloadStep::WhichWget, error, Err(missing)) == Err::<
            (DownloadStep, Seq<char>),
            Seq<char>,
        >("Neither curl nor wget is available"@),
        downloaded(DownloadStep::WhichWget, error, Ok(out)) == Err::<
            (DownloadStep, Seq<char>),
            Seq<char>,
        >(error),
{
}

/// Which binary is installed: one that was built here comes before one that is
/// there; one that is there is kept; without either a development build ends
/// with an error that shows the place, and any other build is downloaded, in
/// the container where that is allowed and an address is known, else here.
pub proof fn binaries_are_chosen(
    exists: bool,
    channel: ReleaseChannel,
    upload: bool,
    path: Seq<char>,
)
    ensures
        ({
            let after = |built: bool| installed(
                InstallStep::Build { exists },
                channel,
                upload,
                path,
                InstallEvent::Built(built),
            );
            &&& installed(
                InstallStep::Check,
                channel,
                upload,
                path,
                InstallEvent::Checked(exists),
            ) == Ok::<InstallStep, Seq<char>>(InstallStep::Build { exists })
            &&& after(true) == Ok::<InstallStep, Seq<char>>(InstallStep::UploadBuilt)
            &&& exists ==> after(false) == Ok::<InstallStep, Seq<char>>(InstallStep::Done)
            &&& !exists && channel == ReleaseChannel::Dev ==> after(false) is Err && has_part(
                after(false)->Err_0,
                path,
            )
            &&& !exists && channel != ReleaseChannel::Dev && upload ==> after(false) == Ok::<
                InstallStep,
                Seq<char>,
            >(InstallStep::DownloadLocally)
            &&& !exists && channel != ReleaseChannel::Dev && !upload ==> after(false) == Ok::<
                InstallStep,
                Seq<char>,
            >(InstallStep::AskUrl)
        }),
        installed(InstallStep::AskUrl, channel, upload, path, InstallEvent::Url(true)) == Ok::<
            InstallStep,
            Seq<char>,
        >(InstallStep::DownloadOnServer),
        installed(InstallStep::AskUrl, channel, upload, path, InstallEvent::Url(false)) == Ok::<
            InstallStep,
            Seq<char>,
        >(InstallStep::DownloadLocally),
{
    let lead = "ZED_BUILD_REMOTE_SERVER is not set and no remote server exists at ("@;
    let m = no_server_message(path);
    let at = lead.len() as int;
    assert(m.subrange(at, at + path.len()) =~= path);
    assert(crate::text::occurs_at(m, path, at));
}

/// What was built or fetched is sent where it is not in the container yet, and
/// then put into its place; an error ends the installation and is part of what
/// is told.
pub proof fn binaries_are_sent_and_placed(
    channel: ReleaseChannel,
    upload: bool,
    path: Seq<char>,
    step: InstallStep,
    error: String,
)
    ensures
        ({
            let next = |s: InstallStep| installed(s, channel, upload, path, InstallEvent::Succeeded);
            &&& next(InstallStep::UploadBuilt) == Ok::<InstallStep, Seq<char>>(
                InstallStep::ExtractBuilt,
            )
            &&& next(InstallStep::ExtractBuilt) == Ok::<InstallStep, Seq<char>>(InstallStep::Done)
            &&& next(InstallStep::DownloadOnServer) == Ok::<InstallStep, Seq<char>>(
                InstallStep::ExtractDownloaded,
            )
            &&& next(InstallStep::UploadDownloaded) == Ok::<InstallStep, Seq<char>>(
                InstallStep::ExtractDownloaded,
            )
            &&& next(InstallStep::ExtractDownloaded) == Ok::<InstallStep, Seq<char>>(
                InstallStep::Done,
            )
        }),
        step != InstallStep::DownloadOnServer ==> {
            let r = installed(step, channel, upload, path, InstallEvent::Failed(error));
            r is Err && ends(r->Err_0, error@)
        },
{
    let context = step_context(step);
    assert((context + error@).skip(context.len() as int) =~= error@);
}

/// A process is ended by its number, with what it has started on Windows.
pub proof fn processes_are_ended_by_number(pid: u32)
    ensures
        kill_call(pid, true).0 == "taskkill"@,
        kill_call(pid, true).1.len() == 4,
        kill_call(pid, true).1[0] == "/PID"@,
        kill_call(pid, true).1[1] == decimal(pid as nat),
        kill_call(pid, true).1[2] == "/T"@,
        kill_call(pid, true).1[3] == "/F"@,
        kill_call(pid, false).0 == "kill"@,
        kill_call(pid, false).1.len() == 1,
        kill_call(pid, false).1[0] == decimal(pid as nat),
{
}

/// An output says that a process was gone in any of four ways, whatever stands
/// around them.
pub proof fn gone_processes_are_recognised(before: Seq<char>, behind: Seq<char>)
    ensures
        reports_gone(before + "no such process"@ + behind),
        reports_gone(before + "not found"@ + behind),
        reports_gone(before + "no running instance"@ + behind),
        reports_gone(before + "cannot find the process"@ + behind),
        forall|m: Seq<char>| #[trigger] reports_gone(m) == reports_gone(lowered(m)),
{
    reveal_strlit("no such process");
    reveal_strlit("not found");
    reveal_strlit("no running instance");
    reveal_strlit("cannot find the process");
    small_part_is_found(before, "no such process"@, behind);
    small_part_is_found(before, "not found"@, behind);
    small_part_is_found(before, "no running instance"@, behind);
    small_part_is_found(before, "cannot find the process"@, behind);
    assert forall|m: Seq<char>| #[trigger] reports_gone(m) == reports_gone(lowered(m)) by {
        assert(lowered(lowered(m)) =~= lowered(m));
    }
}

/// What goes wrong while the server is installed or ended is told with what was
/// being done.
pub proof fn failures_name_what_was_done(pid: u32, reason: Seq<char>)
    ensures
        kill_message(pid, reason) == "Failed to kill process "@ + decimal(pid as nat) + seq![':', ' ']
            + reason,
        step_context(InstallStep::DownloadLocally) == "downloading server binary locally: "@,
        step_context(InstallStep::UploadDownloaded) == "uploading server binary: "@,
        step_context(InstallStep::ExtractDownloaded) == "extracting server binary: "@,
{
    reveal_strlit(": ");
    assert(": "@ =~= seq![':', ' ']);
}

} // verus!
