//! The container engine's command line: which program is run with which
//! arguments on which machine, and how local paths are written there.
use crate::connection::{
    ssh_args, ssh_target, DockerHost, DockerHostView, EnvVar, EnvVarView, SshConnectionOptions,
    SshConnectionOptionsView, WslConnectionOptions, WslConnectionOptionsView,
};
use crate::model::{dup_all, models, same_all, Model};
use crate::text::{
    begins, begins_with, chars_of, copy_list, copy_text, has_part, join, joined, just, lowered,
    pieces, pieces_not_empty, push_all, push_str, replace_char, replaced, same_ignoring_case,
    same_list, same_text, slices, split_at_char, string_of, text_contains, texts, texts_push,
    to_ascii_lower, lower, char_lower,
};
use vstd::prelude::*;
use vstd::slice::*;
use vstd::string::*;

verus! {

/// A command to run: the program, its arguments and its environment.
#[derive(Clone, Debug, PartialEq, Eq)]
pub struct CommandTemplate {
    pub program: String,
    pub args: Vec<String>,
    pub env: Vec<EnvVar>,
}

/// The model of a [`CommandTemplate`].
#[verifier::ext_equal]
pub struct CommandTemplateView {
    pub program: Seq<char>,
    pub args: Seq<Seq<char>>,
    pub env: Seq<EnvVarView>,
}

impl View for CommandTemplate {
    type V = CommandTemplateView;

    open spec fn view(&self) -> CommandTemplateView {
        CommandTemplateView {
            program: self.program@,
            args: texts(self.args@),
            env: models(self.env@),
        }
    }
}

impl Model for CommandTemplate {
    fn dup(&self) -> (r: Self) {
        CommandTemplate {
            program: copy_text(&self.program),
            args: copy_list(&self.args),
            env: dup_all(&self.env),
        }
    }

    fn same(&self, other: &Self) -> (r: bool) {
        same_text(self.program.as_str(), other.program.as_str())
            && same_list(&self.args, &other.args)
            && same_all(&self.env, &other.env)
    }
}

/// A command of the container engine on its machine, and whether it is run in
/// the directory for temporary files.
#[derive(Clone, Debug, PartialEq, Eq)]
pub struct HostCommand {
    pub program: String,
    pub args: Vec<String>,
    pub in_temp_dir: bool,
}

/// The model of a [`HostCommand`].
#[verifier::ext_equal]
pub struct HostCommandView {
    pub program: Seq<char>,
    pub args: Seq<Seq<char>>,
    pub in_temp_dir: bool,
}

impl View for HostCommand {
    type V = HostCommandView;

    open spec fn view(&self) -> HostCommandView {
        HostCommandView {
            program: self.program@,
            args: texts(self.args@),
            in_temp_dir: self.in_temp_dir,
        }
    }
}

impl Model for HostCommand {
    fn dup(&self) -> (r: Self) {
        HostCommand {
            program: copy_text(&self.program),
            args: copy_list(&self.args),
            in_temp_dir: self.in_temp_dir,
        }
    }

    fn same(&self, other: &Self) -> (r: bool) {
        same_text(self.program.as_str(), other.program.as_str())
            && same_list(&self.args, &other.args)
            && self.in_temp_dir == other.in_temp_dir
    }
}

// ---------------------------------------------------------------------------
// Prefixes

/// The arguments by which `wsl.exe` runs the container engine.
pub open spec fn wsl_prefix(docker_cli: Seq<char>, o: WslConnectionOptionsView) -> Seq<Seq<char>> {
    let user = match o.user {
        Some(user) => seq!["--user"@, user],
        None => Seq::empty(),
    };
    user + seq!["--distribution"@, o.distro_name, "--cd"@, "~"@, "--exec"@, docker_cli]
}

/// The arguments by which `ssh` runs the container engine.
pub open spec fn ssh_prefix(docker_cli: Seq<char>, o: SshConnectionOptionsView) -> Seq<Seq<char>> {
    ssh_args(o).push(ssh_target(o)).push(docker_cli)
}

/// The program that runs the container engine on a machine, and the arguments
/// that come before the engine's own. WSL is entered through `wsl.exe` only
/// where `bridge_wsl` says so.
pub open spec fn host_prefix(
    docker_cli: Seq<char>,
    host: DockerHostView,
    bridge_wsl: bool,
) -> (Seq<char>, Seq<Seq<char>>) {
    match host {
        DockerHostView::Local => (docker_cli, Seq::empty()),
        DockerHostView::Ssh(o) => ("ssh"@, ssh_prefix(docker_cli, o)),
        DockerHostView::Wsl(o) => if bridge_wsl {
            ("wsl.exe"@, wsl_prefix(docker_cli, o))
        } else {
            (docker_cli, Seq::empty())
        },
    }
}

/// The program and the arguments that run the container engine in a WSL
/// distribution.
pub fn wsl_docker_command_prefix(docker_cli: &str, options: &WslConnectionOptions) -> (r: (
    String,
    Vec<String>,
))
    ensures
        r.0@ == "wsl.exe"@,
        texts(r.1@) == wsl_prefix(docker_cli@, options@),
{
    let mut args: Vec<String> = Vec::new();
    if let Some(user) = &options.user {
        push_str(&mut args, "--user");
        push_str(&mut args, user.as_str());
    }
    push_str(&mut args, "--distribution");
    push_str(&mut args, options.distro_name.as_str());
    push_str(&mut args, "--cd");
    push_str(&mut args, "~");
    push_str(&mut args, "--exec");
    push_str(&mut args, docker_cli);
    assert(texts(args@) =~= wsl_prefix(docker_cli@, options@));
    ("wsl.exe".to_owned(), args)
}

/// The program and the arguments that run the container engine over SSH.
pub fn ssh_docker_command_prefix(docker_cli: &str, options: &SshConnectionOptions) -> (r: (
    String,
    Vec<String>,
))
    ensures
        r.0@ == "ssh"@,
        texts(r.1@) == ssh_prefix(docker_cli@, options@),
{
    let mut args = options.additional_args();
    let target = options.ssh_destination();
    push_str(&mut args, target.as_str());
    push_str(&mut args, docker_cli);
    ("ssh".to_owned(), args)
}

fn host_command_prefix(docker_cli: &str, host: &DockerHost, bridge_wsl: bool) -> (r: (
    String,
    Vec<String>,
))
    ensures
        (r.0@, texts(r.1@)) == host_prefix(docker_cli@, host@, bridge_wsl),
{
    let none: Vec<String> = Vec::new();
    assert(texts(none@) =~= Seq::empty());
    match host {
        DockerHost::Local => (docker_cli.to_owned(), none),
        DockerHost::Ssh(options) => ssh_docker_command_prefix(docker_cli, options),
        DockerHost::Wsl(options) => if bridge_wsl {
            wsl_docker_command_prefix(docker_cli, options)
        } else {
            (docker_cli.to_owned(), none)
        },
    }
}

/// `std::path::is_separator` says whether the backslash separates the parts of
/// a path on the machine that the program runs on: it does on Windows. What it
/// returns depends on that machine, so nothing is claimed of it.
#[verifier::external_body]
fn backslash_separates() -> bool {
    std::path::is_separator('\\')
}

/// Whether commands for WSL have to go through `wsl.exe`: on Windows.
pub(crate) fn should_bridge_wsl_commands() -> bool {
    backslash_separates()
}

/// The template that [`host_docker_command_template`] gives on a machine where
/// WSL is entered through `wsl.exe`, or not.
pub open spec fn host_template(
    docker_cli: Seq<char>,
    host: DockerHostView,
    docker_args: Seq<Seq<char>>,
    bridge_wsl: bool,
) -> CommandTemplateView {
    let prefix = host_prefix(docker_cli, host, bridge_wsl);
    CommandTemplateView { program: prefix.0, args: prefix.1 + docker_args, env: Seq::empty() }
}

/// The command that runs the container engine on its machine with the given
/// arguments, where `bridge_wsl` says whether WSL is entered through `wsl.exe`.
pub fn host_docker_command_template_bridged(
    docker_cli: &str,
    host: &DockerHost,
    docker_args: Vec<String>,
    bridge_wsl: bool,
) -> (r: CommandTemplate)
    ensures
        r@ == host_template(docker_cli@, host@, texts(docker_args@), bridge_wsl),
{
    let (program, mut args) = host_command_prefix(docker_cli, host, bridge_wsl);
    push_all(&mut args, &docker_args);
    let env: Vec<EnvVar> = Vec::new();
    assert(models(env@) =~= Seq::empty());
    CommandTemplate { program, args, env }
}

/// The command that runs the container engine on its machine with the given
/// arguments. On Windows WSL is entered through `wsl.exe`.
pub fn host_docker_command_template(
    docker_cli: &str,
    host: &DockerHost,
    docker_args: Vec<String>,
) -> (r: CommandTemplate)
    ensures
        r@ == host_template(docker_cli@, host@, texts(docker_args@), true) || r@ == host_template(
            docker_cli@,
            host@,
            texts(docker_args@),
            false,
        ),
        !(host is Wsl) ==> r@ == host_template(docker_cli@, host@, texts(docker_args@), true),
{
    let bridge_wsl = should_bridge_wsl_commands();
    host_docker_command_template_bridged(docker_cli, host, docker_args, bridge_wsl)
}

/// The command of the container engine with the given arguments: one that goes
/// to another machine is run in the directory for temporary files.
pub open spec fn host_command(
    docker_cli: Seq<char>,
    host: DockerHostView,
    docker_args: Seq<Seq<char>>,
    bridge_wsl: bool,
) -> HostCommandView {
    let prefix = host_prefix(docker_cli, host, bridge_wsl);
    HostCommandView {
        program: prefix.0,
        args: prefix.1 + docker_args,
        in_temp_dir: host is Ssh || (host is Wsl && bridge_wsl),
    }
}

/// The command of the container engine with the given arguments.
pub fn new_host_docker_command(
    docker_cli: &str,
    host: &DockerHost,
    docker_args: &Vec<String>,
    bridge_wsl: bool,
) -> (r: HostCommand)
    ensures
        r@ == host_command(docker_cli@, host@, texts(docker_args@), bridge_wsl),
{
    let (program, mut args) = host_command_prefix(docker_cli, host, bridge_wsl);
    push_all(&mut args, docker_args);
    let in_temp_dir = match host {
        DockerHost::Local => false,
        DockerHost::Ssh(_) => true,
        DockerHost::Wsl(_) => bridge_wsl,
    };
    HostCommand { program, args, in_temp_dir }
}

/// The arguments of the container engine always come last and unchanged, on
/// whichever machine it runs.
pub proof fn engine_arguments_come_last(
    docker_cli: Seq<char>,
    host: DockerHostView,
    docker_args: Seq<Seq<char>>,
    bridge_wsl: bool,
)
    ensures
        ({
            let args = host_template(docker_cli, host, docker_args, bridge_wsl).args;
            &&& args.len() >= docker_args.len()
            &&& args.skip(args.len() - docker_args.len()) == docker_args
        }),
{
    let args = host_template(docker_cli, host, docker_args, bridge_wsl).args;
    assert(args.skip(args.len() - docker_args.len()) =~= docker_args);
}

// ---------------------------------------------------------------------------
// Paths

/// Two backslashes.
pub open spec fn unc_lead() -> Seq<char> {
    seq!['\\', '\\']
}

/// The beginning of a verbatim path, `\\?\`.
pub open spec fn verbatim_lead() -> Seq<char> {
    seq!['\\', '\\', '?', '\\']
}

/// The beginning of a verbatim network path, `\\?\UNC\`.
pub open spec fn verbatim_unc_lead() -> Seq<char> {
    seq!['\\', '\\', '?', '\\', 'U', 'N', 'C', '\\']
}

/// The path inside a WSL distribution for a network path into it: the parts
/// behind the host and the distribution. The host is `wsl$` or
/// `wsl.localhost`; case does not matter.
pub open spec fn unc_to_posix(path: Seq<char>, distro_name: Seq<char>) -> Option<Seq<char>> {
    let parts = pieces(path.skip(2), just('\\'));
    if begins(path, unc_lead()) && parts.len() >= 2 && (lowered(parts[0]) == lowered("wsl$"@)
        || lowered(parts[0]) == lowered("wsl.localhost"@)) && lowered(parts[1]) == lowered(
        distro_name,
    ) {
        Some("/"@ + joined(parts.skip(2).filter(|w: Seq<char>| w.len() > 0), "/"@))
    } else {
        None
    }
}

/// The non-empty slices of a list from `from` on, as strings.
fn full_parts_from(parts: &Vec<&[char]>, from: usize) -> (r: Vec<String>)
    requires
        from <= parts.len(),
    ensures
        texts(r@) == slices(parts@).skip(from as int).filter(|w: Seq<char>| w.len() > 0),
{
    let ghost full = |w: Seq<char>| w.len() > 0;
    let ghost all = slices(parts@).skip(from as int);
    let mut out: Vec<String> = Vec::new();
    let mut i: usize = from;
    proof {
        reveal(Seq::filter);
        assert(texts(out@) =~= all.take(0).filter(full));
    }
    while i < parts.len()
        invariant
            from <= i <= parts.len(),
            all == slices(parts@).skip(from as int),
            full == (|w: Seq<char>| w.len() > 0),
            texts(out@) == all.take(i - from).filter(full),
        decreases parts.len() - i,
    {
        broadcast use texts_push;

        let part = parts[i];
        proof {
            assert(all.take(i + 1 - from) =~= all.take(i - from).push(part@));
            crate::text::filter_push(all.take(i - from), part@, full);
        }
        if part.len() > 0 {
            out.push(string_of(part));
        }
        i = i + 1;
    }
    assert(all.take(i - from) =~= all);
    out
}

/// The path inside a WSL distribution for a network path into it.
pub fn wsl_unc_path_to_posix(path: &str, distro_name: &str) -> (r: Option<String>)
    ensures
        crate::text::opt_text(r) == unc_to_posix(path@, distro_name@),
{
    let chars = chars_of(path);
    let lead: [char; 2] = ['\\', '\\'];
    assert(lead@ =~= unc_lead());
    if !begins_with(chars.as_slice(), lead.as_slice()) {
        return None;
    }
    let rest = slice_subrange(chars.as_slice(), 2, chars.len());
    assert(rest@ =~= path@.skip(2));
    let parts = split_at_char(rest, '\\');
    let ghost view = slices(parts@);
    if parts.len() < 2 {
        return None;
    }
    let dollar = chars_of("wsl$");
    let localhost = chars_of("wsl.localhost");
    let distro = chars_of(distro_name);
    assert(view[0] == parts@[0]@ && view[1] == parts@[1]@);
    if !(same_ignoring_case(parts[0], dollar.as_slice()) || same_ignoring_case(
        parts[0],
        localhost.as_slice(),
    )) {
        return None;
    }
    if !same_ignoring_case(parts[1], distro.as_slice()) {
        return None;
    }
    let remainder = join(&full_parts_from(&parts, 2), "/");
    let mut out = "/".to_owned();
    out.append(remainder.as_str());
    Some(out)
}

/// The path under which WSL mounts a path of a Windows drive: `C:\x` becomes
/// `/mnt/c/x`.
pub open spec fn drive_to_mount(path: Seq<char>) -> Option<Seq<char>> {
    if path.len() >= 3 && (path[0] as u32) < 128 && path[1] == ':' && path[2] == '\\' {
        Some(
            "/mnt/"@.push(lower(path[0])).push('/') + replaced(path.skip(3), '\\', '/'),
        )
    } else {
        None
    }
}

/// The path under which WSL mounts a path of a Windows drive.
pub fn windows_path_to_wsl_mount(path: &str) -> (r: Option<String>)
    ensures
        crate::text::opt_text(r) == drive_to_mount(path@),
{
    let chars = chars_of(path);
    if chars.len() < 3 || (chars[0] as u32) >= 128 || chars[1] != ':' || chars[2] != '\\' {
        return None;
    }
    let mut out = "/mnt/".to_owned();
    out.push(char_lower(chars[0]));
    out.push('/');
    let rest = slice_subrange(chars.as_slice(), 3, chars.len());
    assert(rest@ =~= path@.skip(3));
    let tail = string_of(replace_char(rest, '\\', '/').as_slice());
    out.append(tail.as_str());
    Some(out)
}

/// A local path without the marks of verbatim paths.
pub open spec fn unmarked(path: Seq<char>) -> Seq<char> {
    let rewritten = if begins(path, verbatim_unc_lead()) {
        unc_lead() + path.skip(8)
    } else {
        path
    };
    if begins(rewritten, verbatim_lead()) {
        rewritten.skip(4)
    } else {
        rewritten
    }
}

/// A local path as a WSL distribution writes it. The marks of verbatim paths
/// are dropped; a path that begins with a slash stays, a network path into the
/// distribution and a path of a drive are converted, and in any other path the
/// backslashes become slashes.
pub open spec fn wsl_path(path: Seq<char>, distro_name: Seq<char>) -> Seq<char> {
    let raw = unmarked(path);
    let windows = replaced(raw, '/', '\\');
    if raw.len() > 0 && raw[0] == '/' {
        replaced(raw, '\\', '/')
    } else if unc_to_posix(windows, distro_name) is Some {
        unc_to_posix(windows, distro_name)->0
    } else if drive_to_mount(windows) is Some {
        drive_to_mount(windows)->0
    } else {
        replaced(windows, '\\', '/')
    }
}

/// A local path as a WSL distribution writes it.
pub fn format_local_path_for_wsl_host(path: &str, options: &WslConnectionOptions) -> (r: String)
    ensures
        r@ == wsl_path(path@, options@.distro_name),
{
    let chars = chars_of(path);
    let verbatim_unc: [char; 8] = ['\\', '\\', '?', '\\', 'U', 'N', 'C', '\\'];
    let verbatim: [char; 4] = ['\\', '\\', '?', '\\'];
    assert(verbatim_unc@ =~= verbatim_unc_lead());
    assert(verbatim@ =~= verbatim_lead());
    let mut rewritten: Vec<char> = Vec::new();
    if begins_with(chars.as_slice(), verbatim_unc.as_slice()) {
        rewritten.push('\\');
        rewritten.push('\\');
        let mut i: usize = 8;
        while i < chars.len()
            invariant
                8 <= i <= chars.len(),
                rewritten@ == unc_lead() + chars@.subrange(8, i as int),
            decreases chars.len() - i,
        {
            rewritten.push(chars[i]);
            i = i + 1;
        }
        assert(rewritten@ =~= unc_lead() + path@.skip(8));
    } else {
        rewritten = chars;
    }
    let raw = if begins_with(rewritten.as_slice(), verbatim.as_slice()) {
        slice_subrange(rewritten.as_slice(), 4, rewritten.len())
    } else {
        rewritten.as_slice()
    };
    proof {
        if begins(rewritten@, verbatim_lead()) {
            assert(raw@ =~= rewritten@.skip(4));
        }
    }
    if raw.len() > 0 && raw[0] == '/' {
        return string_of(replace_char(raw, '\\', '/').as_slice());
    }
    let windows = replace_char(raw, '/', '\\');
    let text = string_of(windows.as_slice());
    if let Some(converted) = wsl_unc_path_to_posix(text.as_str(), options.distro_name.as_str()) {
        return converted;
    }
    if let Some(mounted) = windows_path_to_wsl_mount(text.as_str()) {
        return mounted;
    }
    string_of(replace_char(windows.as_slice(), '\\', '/').as_slice())
}

/// A local path as the machine of the container engine writes it.
pub open spec fn host_path(path: Seq<char>, host: DockerHostView) -> Seq<char> {
    match host {
        DockerHostView::Wsl(o) => wsl_path(path, o.distro_name),
        _ => path,
    }
}

/// A local path as the machine of the container engine writes it.
pub fn format_local_path_for_docker_host(path: &str, host: &DockerHost) -> (r: String)
    ensures
        r@ == host_path(path@, host@),
{
    match host {
        DockerHost::Wsl(options) => format_local_path_for_wsl_host(path, options),
        _ => path.to_owned(),
    }
}

/// A path written for WSL holds no backslash, unless the backslash stands
/// where the letter of a drive belongs.
pub proof fn wsl_paths_have_no_backslash(path: Seq<char>, distro_name: Seq<char>)
    requires
        !begins(replaced(unmarked(path), '/', '\\'), seq!['\\', ':', '\\']),
    ensures
        !wsl_path(path, distro_name).contains('\\'),
{
    let raw = unmarked(path);
    let windows = replaced(raw, '/', '\\');
    reveal_strlit("/");
    reveal_strlit("/mnt/");
    let out = wsl_path(path, distro_name);
    if raw.len() > 0 && raw[0] == '/' {
    } else if unc_to_posix(windows, distro_name) is Some {
        converted_paths_are_absolute(windows, distro_name);
    } else if drive_to_mount(windows) is Some {
        assert(windows.take(3) =~= seq![windows[0], ':', '\\']);
        assert(windows[0] != '\\');
        let lead = "/mnt/"@.push(lower(windows[0])).push('/');
        assert(lead.len() == 7);
        assert forall|k: int| 0 <= k < out.len() implies out[k] != '\\' by {
            if k < 5 {
                assert(out[k] == "/mnt/"@[k]);
            } else if k >= 7 {
                assert(out[k] == replaced(windows.skip(3), '\\', '/')[k - 7]);
            }
        }
    }
}

/// A path that has been written for WSL is written the same way again, unless a
/// backslash stands where the letter of a drive belongs.
pub proof fn wsl_paths_stay(path: Seq<char>, distro_name: Seq<char>)
    requires
        begins(unmarked(path), seq!['/']) || !begins(
            replaced(unmarked(path), '/', '\\'),
            seq!['\\', ':', '\\'],
        ),
    ensures
        wsl_path(wsl_path(path, distro_name), distro_name) == wsl_path(path, distro_name),
{
    let raw = unmarked(path);
    let windows = replaced(raw, '/', '\\');
    let out = wsl_path(path, distro_name);
    reveal_strlit("/mnt/");
    if raw.len() > 0 && raw[0] == '/' {
        assert(forall|k: int| 0 <= k < out.len() ==> out[k] != '\\');
    } else {
        if begins(raw, seq!['/']) {
            assert(raw.take(1)[0] == '/');
        }
        wsl_paths_have_no_backslash(path, distro_name);
        assert forall|k: int| 0 <= k < out.len() implies out[k] != '\\' by {
            if out[k] == '\\' {
                assert(out.contains(out[k]));
            }
        }
        if unc_to_posix(windows, distro_name) is Some {
            converted_paths_are_absolute(windows, distro_name);
        } else if drive_to_mount(windows) is Some {
            assert(out[0] == "/mnt/"@[0]);
        }
    }
    if begins(out, verbatim_unc_lead()) {
        assert(out.take(8)[0] == '\\');
    }
    if begins(out, verbatim_lead()) {
        assert(out.take(4)[0] == '\\');
    }
    assert(unmarked(out) == out);
    if out.len() > 0 && out[0] == '/' {
        assert(replaced(out, '\\', '/') =~= out);
    } else {
        assert(replaced(out, '/', '\\') =~= windows);
    }
}

/// A network path into a distribution becomes an absolute path without a
/// backslash.
pub proof fn converted_paths_are_absolute(path: Seq<char>, distro_name: Seq<char>)
    requires
        unc_to_posix(path, distro_name) is Some,
    ensures
        unc_to_posix(path, distro_name)->0.len() > 0,
        unc_to_posix(path, distro_name)->0[0] == '/',
        !unc_to_posix(path, distro_name)->0.contains('\\'),
{
    reveal_strlit("/");
    let parts = pieces(path.skip(2), just('\\'));
    let kept = parts.skip(2).filter(|w: Seq<char>| w.len() > 0);
    let full = |w: Seq<char>| w.len() > 0;
    pieces_without(path.skip(2), '\\');
    assert forall|k: int| 0 <= k < kept.len() implies !(#[trigger] kept[k]).contains('\\') by {
        crate::settings::filter_member(parts.skip(2), full, k);
        let j = choose|j: int| 0 <= j < parts.skip(2).len() && parts.skip(2)[j] == kept[k];
        assert(parts[j + 2] == kept[k]);
    }
    joined_without(kept, "/"@, '\\');
}

/// No piece holds the character at which a text is split.
pub proof fn pieces_without(s: Seq<char>, c: char)
    ensures
        forall|k: int|
            0 <= k < pieces(s, just(c)).len() ==> !(#[trigger] pieces(s, just(c))[k]).contains(c),
    decreases s.len(),
{
    if s.len() > 0 {
        pieces_without(s.drop_last(), c);
        pieces_not_empty(s.drop_last(), just(c));
        let rest = pieces(s.drop_last(), just(c));
        let all = pieces(s, just(c));
        assert forall|k: int| 0 <= k < all.len() implies !(#[trigger] all[k]).contains(c) by {
            if k < all.len() - 1 {
                assert(all[k] == rest[k]);
            } else if !just(c)(s.last()) {
                let last = rest[rest.len() - 1];
                assert(!last.contains(c));
                assert(all[k] == last.push(s.last()));
                if all[k].contains(c) {
                    let j = choose|j: int| 0 <= j < all[k].len() && all[k][j] == c;
                    if j < last.len() {
                        assert(last[j] == c);
                    }
                }
            }
        }
    }
}

/// Joining texts without a character by a text without it gives none with it.
pub proof fn joined_without(list: Seq<Seq<char>>, sep: Seq<char>, c: char)
    requires
        forall|k: int| 0 <= k < list.len() ==> !(#[trigger] list[k]).contains(c),
        !sep.contains(c),
    ensures
        !joined(list, sep).contains(c),
    decreases list.len(),
{
    if list.len() == 1 {
        assert(!list[0].contains(c));
    } else if list.len() > 1 {
        let head = list.drop_last();
        assert forall|k: int| 0 <= k < head.len() implies !(#[trigger] head[k]).contains(c) by {
            assert(!list[k].contains(c));
        }
        joined_without(head, sep, c);
        let h = joined(head, sep);
        let all = h + sep + list.last();
        assert(!list[list.len() - 1].contains(c));
        if all.contains(c) {
            let j = choose|j: int| 0 <= j < all.len() && all[j] == c;
            if j < h.len() {
                assert(h[j] == c);
            } else if j < h.len() + sep.len() {
                assert(sep[j - h.len()] == c);
            } else {
                assert(list.last()[j - h.len() - sep.len()] == c);
            }
        }
    }
}

// ---------------------------------------------------------------------------
// Users

/// Whether an error of the container engine says that the asked-for user does
/// not exist in the container.
pub open spec fn reports_no_user(message: Seq<char>) -> bool {
    let m = lowered(message);
    has_part(m, "unable to find user"@) || has_part(m, "no matching entries in passwd file"@)
        || has_part(m, "invalid user"@)
}

/// Whether an error of the container engine says that the asked-for user does
/// not exist in the container, so that the container's own user is taken.
pub fn should_fallback_to_container_default_user_message(message: &str) -> (r: bool)
    ensures
        r == reports_no_user(message@),
{
    let chars = chars_of(message);
    let low = string_of(to_ascii_lower(chars.as_slice()).as_slice());
    text_contains(low.as_str(), "unable to find user") || text_contains(
        low.as_str(),
        "no matching entries in passwd file",
    ) || text_contains(low.as_str(), "invalid user")
}

/// The text of an error.
#[derive(Clone, Debug, PartialEq, Eq)]
pub struct CommandError {
    pub message: String,
}

/// Whether an error says that the asked-for user does not exist in the
/// container, so that the container's own user is taken.
pub fn should_fallback_to_container_default_user(err: &CommandError) -> (r: bool)
    ensures
        r == reports_no_user(err.message@),
{
    should_fallback_to_container_default_user_message(err.message.as_str())
}

// ---------------------------------------------------------------------------
// Where the engine runs

/// On this machine the engine is run itself, with just its arguments; over SSH
/// it is run by `ssh` behind the server's address; through WSL by `wsl.exe` in
/// the distribution and as its user. A command that leaves the machine is run
/// in the directory for temporary files.
pub proof fn engine_runs_on_its_machine(
    cli: Seq<char>,
    host: DockerHostView,
    given: Seq<Seq<char>>,
    bridge_wsl: bool,
)
    ensures
        ({
            let c = host_command(cli, host, given, bridge_wsl);
            let t = host_template(cli, host, given, bridge_wsl);
            let n = c.args.len() - given.len();
            &&& t.program == c.program && t.args == c.args && t.env.len() == 0
            &&& n >= 0 && c.args.skip(n) == given
            &&& match host {
                DockerHostView::Local => c.program == cli && n == 0 && !c.in_temp_dir,
                DockerHostView::Ssh(o) => {
                    &&& c.program == "ssh"@ && c.in_temp_dir
                    &&& n >= 2 && c.args[n - 1] == cli && c.args[n - 2] == ssh_target(o)
                    &&& c.args.take(n - 2) == ssh_args(o)
                },
                DockerHostView::Wsl(o) => if bridge_wsl {
                    &&& c.program == "wsl.exe"@ && c.in_temp_dir
                    &&& n == (if o.user is Some {
                        8int
                    } else {
                        6int
                    })
                    &&& o.user matches Some(u) ==> c.args[0] == "--user"@ && c.args[1] == u
                    &&& c.args[n - 6] == "--distribution"@ && c.args[n - 5] == o.distro_name
                    &&& c.args[n - 4] == "--cd"@ && c.args[n - 3] == "~"@
                    &&& c.args[n - 2] == "--exec"@ && c.args[n - 1] == cli
                } else {
                    c.program == cli && n == 0 && !c.in_temp_dir
                },
            }
        }),
{
    let c = host_command(cli, host, given, bridge_wsl);
    let n = c.args.len() - given.len();
    assert(c.args.skip(n) =~= given);
    match host {
        DockerHostView::Ssh(o) => {
            assert(c.args.take(n - 2) =~= ssh_args(o));
        },
        _ => {},
    }
}

/// A path that begins with a slash is only freed of backslashes; a path of a
/// drive goes below the place where WSL mounts that drive, by its small letter.
pub proof fn drives_are_mounted(path: Seq<char>, drive: char, distro_name: Seq<char>)
    requires
        'A' <= drive <= 'Z' || 'a' <= drive <= 'z',
        forall|i: int| 0 <= i < path.len() ==> path[i] != '\\',
    ensures
        wsl_path(seq!['/'] + path, distro_name) == seq!['/'] + path,
        wsl_path(seq![drive, ':', '/'] + path, distro_name) == seq!['/', 'm', 'n', 't', '/'].push(
            lower(drive),
        ).push('/') + path,
{
    reveal_strlit("/mnt/");
    assert("/mnt/"@ =~= seq!['/', 'm', 'n', 't', '/']);
    let a = seq!['/'] + path;
    if begins(a, verbatim_unc_lead()) {
        assert(a.take(8)[0] == '\\');
    }
    if begins(a, verbatim_lead()) {
        assert(a.take(4)[0] == '\\');
    }
    assert(unmarked(a) == a);
    assert(replaced(a, '\\', '/') =~= a);
    let b = seq![drive, ':', '/'] + path;
    if begins(b, verbatim_unc_lead()) {
        assert(b.take(8)[0] == '\\');
    }
    if begins(b, verbatim_lead()) {
        assert(b.take(4)[0] == '\\');
    }
    assert(unmarked(b) == b);
    let w = replaced(b, '/', '\\');
    if begins(w, unc_lead()) {
        assert(w.take(2)[0] == '\\');
    }
    assert(w.len() >= 3 && w[0] == drive && w[1] == ':' && w[2] == '\\');
    assert(replaced(w.skip(3), '\\', '/') =~= path);
}

/// Paths stay as they are for an engine on this machine or over SSH, and are
/// written for its distribution in WSL.
pub proof fn only_wsl_paths_are_rewritten(path: Seq<char>, host: DockerHostView)
    ensures
        !(host is Wsl) ==> host_path(path, host) == path,
        host matches DockerHostView::Wsl(o) ==> host_path(path, host) == wsl_path(
            path,
            o.distro_name,
        ),
{
}

/// An error speaks of an unknown user however it is written in capitals, and
/// whatever stands around it.
pub proof fn unknown_users_are_recognised(before: Seq<char>, behind: Seq<char>)
    ensures
        reports_no_user(before + "unable to find user"@ + behind),
        reports_no_user(before + "no matching entries in passwd file"@ + behind),
        reports_no_user(before + "invalid user"@ + behind),
        forall|m: Seq<char>| #[trigger] reports_no_user(m) == reports_no_user(lowered(m)),
{
    reveal_strlit("unable to find user");
    reveal_strlit("no matching entries in passwd file");
    reveal_strlit("invalid user");
    small_part_is_found(before, "unable to find user"@, behind);
    small_part_is_found(before, "no matching entries in passwd file"@, behind);
    small_part_is_found(before, "invalid user"@, behind);
    assert forall|m: Seq<char>| #[trigger] reports_no_user(m) == reports_no_user(lowered(m)) by {
        assert(lowered(lowered(m)) =~= lowered(m));
    }
}

/// A text in small letters is found in the small letters of what it stands in.
pub proof fn small_part_is_found(before: Seq<char>, part: Seq<char>, behind: Seq<char>)
    requires
        forall|i: int| 0 <= i < part.len() ==> lower(#[trigger] part[i]) == part[i],
    ensures
        has_part(lowered(before + part + behind), part),
{
    let all = lowered(before + part + behind);
    let at = before.len() as int;
    assert(all.subrange(at, at + part.len()) =~= part);
    assert(crate::text::occurs_at(all, part, at));
}

/// The marks of verbatim paths are dropped: a network path keeps its two
/// backslashes, and any other path is what stands behind the mark.
pub proof fn verbatim_marks_are_dropped(rest: Seq<char>, other: Seq<char>)
    requires
        rest.len() > 0,
        rest[0] != 'U' && rest[0] != '?',
        other.len() < 3 || other[2] != '?',
    ensures
        unmarked(seq!['\\', '\\', '?', '\\'] + rest) == rest,
        unmarked(seq!['\\', '\\', '?', '\\', 'U', 'N', 'C', '\\'] + rest) == seq!['\\', '\\']
            + rest,
        unmarked(other) == other,
{
    let a = seq!['\\', '\\', '?', '\\'] + rest;
    if begins(a, verbatim_unc_lead()) {
        assert(a.take(8)[4] == 'U');
        assert(a[4] == rest[0]);
    }
    assert(a.take(4) =~= verbatim_lead());
    assert(a.skip(4) =~= rest);
    let b = seq!['\\', '\\', '?', '\\', 'U', 'N', 'C', '\\'] + rest;
    assert(b.take(8) =~= verbatim_unc_lead());
    assert(b.skip(8) =~= rest);
    let c = unc_lead() + rest;
    if begins(c, verbatim_lead()) {
        assert(c.take(4)[2] == '?');
        assert(c[2] == rest[0]);
    }
    if begins(other, verbatim_unc_lead()) {
        assert(other.take(8)[2] == '?');
    }
    if begins(other, verbatim_lead()) {
        assert(other.take(4)[2] == '?');
    }
}

/// A network path leads into a distribution where its host is one of the two of
/// WSL and its share is the distribution, both in any case; what stands behind
/// is the path there.
pub proof fn network_paths_lead_into_wsl(
    host: Seq<char>,
    name: Seq<char>,
    asked: Seq<char>,
    below: Seq<char>,
)
    requires
        below.len() > 0,
        forall|k: int| 0 <= k < host.len() ==> #[trigger] host[k] != '\\',
        forall|k: int| 0 <= k < name.len() ==> #[trigger] name[k] != '\\',
        forall|k: int| 0 <= k < below.len() ==> #[trigger] below[k] != '\\',
    ensures
        ({
            let path = seq!['\\', '\\'] + host.push('\\') + name.push('\\') + below;
            let wsl = lowered(host) == seq!['w', 's', 'l', '$'] || lowered(host) == seq!['w', 's', 'l',
                '.', 'l', 'o', 'c', 'a', 'l', 'h', 'o', 's', 't'];
            &&& wsl && lowered(name) == lowered(asked) ==> unc_to_posix(path, asked) == Some(
                seq!['/'] + below,
            )
            &&& !wsl || lowered(name) != lowered(asked) ==> unc_to_posix(path, asked) is None
        }),
{
    reveal_strlit("wsl$");
    reveal_strlit("wsl.localhost");
    reveal_strlit("/");
    let path = seq!['\\', '\\'] + host.push('\\') + name.push('\\') + below;
    let rest = path.skip(2);
    let sep = just('\\');
    let full = |w: Seq<char>| w.len() > 0;
    assert(path.take(2) =~= unc_lead());
    assert forall|k: int| 0 <= k < host.len() implies !sep(#[trigger] host[k]) by {
        assert(host[k] != '\\');
    }
    assert forall|k: int| 0 <= k < name.len() implies !sep(#[trigger] name[k]) by {
        assert(name[k] != '\\');
    }
    assert forall|k: int| 0 <= k < below.len() implies !sep(#[trigger] below[k]) by {
        assert(below[k] != '\\');
    }
    crate::text::pieces_of_one(host, sep);
    crate::text::pieces_push(host, '\\', name, sep);
    crate::text::pieces_push(host.push('\\') + name, '\\', below, sep);
    assert(rest =~= (host.push('\\') + name).push('\\') + below);
    let parts = pieces(rest, sep);
    assert(parts =~= seq![host, name, below]);
    assert(parts.skip(2) =~= seq![below]);
    reveal(Seq::filter);
    assert(seq![below].drop_last() =~= Seq::empty());
    assert(seq![below].filter(full) =~= seq![below]);
    assert(joined(seq![below], "/"@) == below);
    assert(lowered("wsl$"@) =~= seq!['w', 's', 'l', '$']);
    assert(lowered("wsl.localhost"@) =~= seq!['w', 's', 'l', '.', 'l', 'o', 'c', 'a', 'l', 'h', 'o',
        's', 't']);
    assert("/"@ =~= seq!['/']);
}

} // verus!
