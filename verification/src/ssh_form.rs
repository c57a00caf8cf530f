//! The form by which an SSH server is added: reading its fields, filling it
//! from what is known of a server, and the saved password that goes with it.
use crate::connection::{
    default_nickname, default_ssh_nickname, no_ssh_options, shown_connection, SshConnection,
    SshConnectionOptions, SshConnectionOptionsView, SshConnectionView, SshPortForwardOption,
    SshPortForwardOptionView,
};
use crate::model::{models, models_push, Model};
use crate::ssh_config::{SshConfigEntries, SshConfigEntryView};
use crate::text::{
    any_of, begins, begins_with, chars_of, copy_opt, copy_text, cut_last, decimal, decimal_of,
    is_space, join, joined, just, opt_text, parse_port, pieces, pieces_of_one, pieces_push,
    push_str, rsplit_once, same_text, slices, spelled_port, split_at_any, split_at_char, string_of,
    text_begins, texts, texts_push, trim, trim_text, trimmed, trimmed_start,
    written_port_is_read_back,
};
use vstd::prelude::*;
use vstd::slice::*;
use vstd::string::*;

verus! {

// ---------------------------------------------------------------------------
// Port forwards

/// A port that a part of a port forward spells, or the error.
spec fn forward_port(s: Seq<char>) -> Result<u16, Seq<char>> {
    match spelled_port(s) {
        Some(port) => Ok(port),
        None => Err("parsing port number: "@ + s),
    }
}

/// The port forward that a text describes, or why it describes none. Promised
/// is how the two forms are read, `local_port:remote_host:remote_port` and
/// `local_host:local_port:remote_host:remote_port`, see
/// [`forwards_of_three_parts_are_read`] and [`forwards_of_four_parts_are_read`];
/// what is said of other texts is not.
pub closed spec fn forward_of(spec: Seq<char>) -> Result<SshPortForwardOptionView, Seq<char>> {
    let parts = pieces(spec, just(':'));
    if parts.len() == 4 {
        match (forward_port(parts[1]), forward_port(parts[3])) {
            (Err(e), _) => Err(e),
            (_, Err(e)) => Err(e),
            (Ok(local_port), Ok(remote_port)) => Ok(
                SshPortForwardOptionView {
                    local_host: Some(parts[0]),
                    local_port,
                    remote_host: Some(parts[2]),
                    remote_port,
                },
            ),
        }
    } else if parts.len() == 3 {
        match (forward_port(parts[0]), forward_port(parts[2])) {
            (Err(e), _) => Err(e),
            (_, Err(e)) => Err(e),
            (Ok(local_port), Ok(remote_port)) => Ok(
                SshPortForwardOptionView {
                    local_host: None,
                    local_port,
                    remote_host: Some(parts[1]),
                    remote_port,
                },
            ),
        }
    } else {
        Err("Invalid port forward format"@)
    }
}

/// A text of three parts is read where its outer parts spell ports: the parts
/// are the local port, the remote host and the remote port.
pub proof fn forwards_of_three_parts_are_read(spec: Seq<char>)
    requires
        pieces(spec, just(':')).len() == 3,
        !spec.contains('['),
        spelled_port(pieces(spec, just(':'))[0]) is Some,
        spelled_port(pieces(spec, just(':'))[2]) is Some,
    ensures
        forward_of(spec) == Ok::<SshPortForwardOptionView, Seq<char>>(
            SshPortForwardOptionView {
                local_host: None,
                local_port: spelled_port(pieces(spec, just(':'))[0])->0,
                remote_host: Some(pieces(spec, just(':'))[1]),
                remote_port: spelled_port(pieces(spec, just(':'))[2])->0,
            },
        ),
{
}

/// A text of four parts is read where its second and last parts spell ports:
/// the parts are the local host and port, and the remote host and port.
pub proof fn forwards_of_four_parts_are_read(spec: Seq<char>)
    requires
        pieces(spec, just(':')).len() == 4,
        !spec.contains('['),
        spelled_port(pieces(spec, just(':'))[1]) is Some,
        spelled_port(pieces(spec, just(':'))[3]) is Some,
    ensures
        forward_of(spec) == Ok::<SshPortForwardOptionView, Seq<char>>(
            SshPortForwardOptionView {
                local_host: Some(pieces(spec, just(':'))[0]),
                local_port: spelled_port(pieces(spec, just(':'))[1])->0,
                remote_host: Some(pieces(spec, just(':'))[2]),
                remote_port: spelled_port(pieces(spec, just(':'))[3])->0,
            },
        ),
{
}

fn parse_forward_port(s: &[char]) -> (r: Result<u16, String>)
    ensures
        match r {
            Ok(port) => forward_port(s@) == Ok::<u16, Seq<char>>(port),
            Err(e) => forward_port(s@) == Err::<u16, Seq<char>>(e@),
        },
{
    match parse_port(s) {
        Some(port) => Ok(port),
        None => {
            let mut out = "parsing port number: ".to_owned();
            out.append(string_of(s).as_str());
            Err(out)
        },
    }
}

/// The port forward that a text describes.
pub fn parse_port_forward_spec(spec: &str) -> (r: Result<SshPortForwardOption, String>)
    ensures
        match r {
            Ok(f) => forward_of(spec@) == Ok::<SshPortForwardOptionView, Seq<char>>(f@),
            Err(e) => forward_of(spec@) == Err::<SshPortForwardOptionView, Seq<char>>(e@),
        },
{
    let chars = chars_of(spec);
    let parts = split_at_char(chars.as_slice(), ':');
    let ghost view = slices(parts@);
    if parts.len() == 4 {
        assert(view[0] == parts@[0]@ && view[1] == parts@[1]@ && view[2] == parts@[2]@ && view[3]
            == parts@[3]@);
        let local_port = match parse_forward_port(parts[1]) {
            Ok(port) => port,
            Err(e) => return Err(e),
        };
        let remote_port = match parse_forward_port(parts[3]) {
            Ok(port) => port,
            Err(e) => return Err(e),
        };
        Ok(
            SshPortForwardOption {
                local_host: Some(string_of(parts[0])),
                local_port,
                remote_host: Some(string_of(parts[2])),
                remote_port,
            },
        )
    } else if parts.len() == 3 {
        assert(view[0] == parts@[0]@ && view[1] == parts@[1]@ && view[2] == parts@[2]@);
        let local_port = match parse_forward_port(parts[0]) {
            Ok(port) => port,
            Err(e) => return Err(e),
        };
        let remote_port = match parse_forward_port(parts[2]) {
            Ok(port) => port,
            Err(e) => return Err(e),
        };
        Ok(
            SshPortForwardOption {
                local_host: None,
                local_port,
                remote_host: Some(string_of(parts[1])),
                remote_port,
            },
        )
    } else {
        Err("Invalid port forward format".to_owned())
    }
}

/// The marks between port forwards.
pub open spec fn forward_marks() -> Seq<char> {
    seq![',', '\n', ';']
}

/// What a piece of a list of port forwards describes: the piece without outer
/// space and without the option `-L` before it.
pub open spec fn forward_text(piece: Seq<char>) -> Seq<char> {
    let s = trimmed(piece);
    if begins(s, "-L"@) {
        trimmed(s.skip(2))
    } else {
        s
    }
}

/// The error of one port forward, which is counted from one.
pub open spec fn forward_error(number: nat, error: Seq<char>) -> Seq<char> {
    "Port forward "@ + decimal(number) + ": "@ + error
}

/// The port forwards that a list of pieces describes, and the errors. Empty
/// pieces count, but say nothing.
pub open spec fn read_forwards(list: Seq<Seq<char>>) -> (
    Seq<SshPortForwardOptionView>,
    Seq<Seq<char>>,
)
    decreases list.len(),
{
    if list.len() == 0 {
        (Seq::empty(), Seq::empty())
    } else {
        let (forwards, errors) = read_forwards(list.drop_last());
        if trimmed(list.last()).len() == 0 {
            (forwards, errors)
        } else {
            match forward_of(forward_text(list.last())) {
                Ok(f) => (forwards.push(f), errors),
                Err(e) => (forwards, errors.push(forward_error(list.len(), e))),
            }
        }
    }
}

/// The port forwards that a text describes, and the errors.
pub open spec fn forwards_of(input: Seq<char>) -> (
    Seq<SshPortForwardOptionView>,
    Seq<Seq<char>>,
) {
    read_forwards(pieces(input, any_of(forward_marks())))
}

/// The port forwards that a text describes, and the errors.
pub fn parse_port_forwards(input: &str) -> (r: (Vec<SshPortForwardOption>, Vec<String>))
    ensures
        (models(r.0@), texts(r.1@)) == forwards_of(input@),
{
    let chars = chars_of(input);
    let marks: [char; 3] = [',', '\n', ';'];
    assert(marks@ =~= forward_marks());
    let parts = split_at_any(chars.as_slice(), marks.as_slice());
    let ghost view = slices(parts@);
    let mut forwards: Vec<SshPortForwardOption> = Vec::new();
    let mut errors: Vec<String> = Vec::new();
    let option = chars_of("-L");
    proof {
        reveal_strlit("-L");
        assert(models(forwards@) =~= Seq::empty());
        assert(texts(errors@) =~= Seq::empty());
    }
    let mut i: usize = 0;
    while i < parts.len()
        invariant
            i <= parts.len(),
            view == slices(parts@),
            option@ == "-L"@,
            "-L"@.len() == 2,
            (models(forwards@), texts(errors@)) == read_forwards(view.take(i as int)),
        decreases parts.len() - i,
    {
        broadcast use {models_push, texts_push};

        let ghost head = view.take(i + 1);
        proof {
            assert(head.drop_last() =~= view.take(i as int));
            assert(head.last() == parts@[i as int]@);
        }
        let piece = trim(parts[i]);
        if piece.len() > 0 {
            let described = if begins_with(piece, option.as_slice()) {
                let tail = slice_subrange(piece, 2, piece.len());
                assert(tail@ =~= piece@.skip(2));
                trim(tail)
            } else {
                piece
            };
            match parse_port_forward_spec(string_of(described).as_str()) {
                Ok(f) => {
                    forwards.push(f);
                },
                Err(e) => {
                    let mut out = "Port forward ".to_owned();
                    out.append(decimal_of(i as u64 + 1).as_str());
                    out.append(": ");
                    out.append(e.as_str());
                    errors.push(out);
                },
            }
        }
        i = i + 1;
    }
    assert(view.take(i as int) =~= view);
    (forwards, errors)
}

/// How a port forward is shown: both hosts and both ports, with `localhost` for
/// a host that is not given.
pub open spec fn shown_forward(f: SshPortForwardOptionView) -> Seq<char> {
    host_or_local(f.local_host) + ":"@ + decimal(f.local_port as nat) + ":"@ + host_or_local(
        f.remote_host,
    ) + ":"@ + decimal(f.remote_port as nat)
}

/// A host, or `localhost` where there is none.
pub open spec fn host_or_local(host: Option<Seq<char>>) -> Seq<char> {
    match host {
        Some(h) => h,
        None => "localhost"@,
    }
}

/// How a list of port forwards is shown.
pub open spec fn shown_forwards(list: Seq<SshPortForwardOptionView>) -> Seq<char> {
    joined(Seq::new(list.len(), |i: int| shown_forward(list[i])), ", "@)
}

/// How a port forward is shown.
pub fn show_forward(f: &SshPortForwardOption) -> (r: String)
    ensures
        r@ == shown_forward(f@),
{
    let mut out = match &f.local_host {
        Some(h) => h.clone(),
        None => "localhost".to_owned(),
    };
    out.append(":");
    out.append(decimal_of(f.local_port as u64).as_str());
    out.append(":");
    match &f.remote_host {
        Some(h) => out.append(h.as_str()),
        None => out.append("localhost"),
    }
    out.append(":");
    out.append(decimal_of(f.remote_port as u64).as_str());
    out
}

/// How a list of port forwards is shown.
pub fn show_forwards(list: &Vec<SshPortForwardOption>) -> (r: String)
    ensures
        r@ == shown_forwards(models(list@)),
{
    let mut out: Vec<String> = Vec::new();
    let mut i: usize = 0;
    let ghost all = Seq::new(list@.len(), |k: int| shown_forward(models(list@)[k]));
    while i < list.len()
        invariant
            i <= list.len(),
            all == Seq::new(list@.len(), |k: int| shown_forward(models(list@)[k])),
            texts(out@) == all.take(i as int),
        decreases list.len() - i,
    {
        broadcast use texts_push;

        out.push(show_forward(&list[i]));
        assert(all.take(i + 1) =~= all.take(i as int).push(all[i as int]));
        i = i + 1;
    }
    assert(all.take(i as int) =~= all);
    assert(all =~= Seq::new(models(list@).len(), |k: int| shown_forward(models(list@)[k])));
    join(&out, ", ")
}

/// Whether a host can stand in a list of port forwards: it holds no mark, no
/// colon, no bracket and no white space.
pub open spec fn plain_host(host: Seq<char>) -> bool {
    forall|i: int|
        0 <= i < host.len() ==> (#[trigger] host[i]) != ':' && host[i] != ',' && host[i] != ';'
            && host[i] != '[' && !is_space(host[i])
}

/// A port forward between plain hosts, which are given, is read back from what
/// is shown of it.
pub proof fn shown_forward_is_read_back(f: SshPortForwardOptionView)
    requires
        f.local_host is Some,
        f.remote_host is Some,
        plain_host(f.local_host->0),
        plain_host(f.remote_host->0),
    ensures
        forward_of(shown_forward(f)) == Ok::<SshPortForwardOptionView, Seq<char>>(f),
{
    reveal_strlit(":");
    let sep = just(':');
    let a = f.local_host->0;
    let b = decimal(f.local_port as nat);
    let c = f.remote_host->0;
    let d = decimal(f.remote_port as nat);
    crate::text::decimal_spells(f.local_port as nat);
    crate::text::decimal_spells(f.remote_port as nat);
    assert(":"@ =~= seq![':']);
    pieces_of_one(a, sep);
    assert(a + ":"@ =~= a.push(':'));
    pieces_push(a, ':', b, sep);
    let ab = a + ":"@ + b;
    assert(ab + ":"@ =~= ab.push(':'));
    pieces_push(ab, ':', c, sep);
    let abc = ab + ":"@ + c;
    assert(abc + ":"@ =~= abc.push(':'));
    pieces_push(abc, ':', d, sep);
    let parts = pieces(shown_forward(f), sep);
    assert(parts =~= seq![a, b, c, d]);
    written_port_is_read_back(f.local_port);
    written_port_is_read_back(f.remote_port);
}

/// The text of a shown port forward between plain hosts holds no mark and no
/// white space.
proof fn shown_forward_is_plain(f: SshPortForwardOptionView)
    requires
        f.local_host is Some,
        f.remote_host is Some,
        plain_host(f.local_host->0),
        plain_host(f.remote_host->0),
    ensures
        shown_forward(f).len() > 0,
        forall|i: int|
            0 <= i < shown_forward(f).len() ==> (#[trigger] shown_forward(f)[i]) != ','
                && shown_forward(f)[i] != ';' && !is_space(shown_forward(f)[i]),
{
    reveal_strlit(":");
    let a = f.local_host->0;
    let b = decimal(f.local_port as nat);
    let c = f.remote_host->0;
    let d = decimal(f.remote_port as nat);
    crate::text::decimal_spells(f.local_port as nat);
    crate::text::decimal_spells(f.remote_port as nat);
    let s = shown_forward(f);
    assert forall|i: int| 0 <= i < s.len() implies (#[trigger] s[i]) != ',' && s[i] != ';'
        && !is_space(s[i]) by {
        let n1 = a.len() as int;
        let n2 = n1 + 1 + b.len();
        let n3 = n2 + 1 + c.len();
        if i < n1 {
            assert(s[i] == a[i]);
        } else if i == n1 {
            assert(s[i] == ':');
        } else if i < n2 {
            assert(s[i] == b[i - n1 - 1]);
            assert(crate::text::is_digit(b[i - n1 - 1]));
        } else if i == n2 {
            assert(s[i] == ':');
        } else if i < n3 {
            assert(s[i] == c[i - n2 - 1]);
        } else if i == n3 {
            assert(s[i] == ':');
        } else {
            assert(s[i] == d[i - n3 - 1]);
            assert(crate::text::is_digit(d[i - n3 - 1]));
        }
    }
}

/// Whether a port forward can be read back from what is shown of it: both hosts
/// are given and plain, and the local one does not look like the option `-L`.
pub open spec fn readable_forward(f: SshPortForwardOptionView) -> bool {
    &&& f.local_host is Some
    &&& f.remote_host is Some
    &&& plain_host(f.local_host->0)
    &&& plain_host(f.remote_host->0)
    &&& !begins(shown_forward(f), "-L"@)
}

/// A shown port forward, with or without a space before it, holds no mark and
/// is read as that port forward.
proof fn shown_piece(f: SshPortForwardOptionView, piece: Seq<char>)
    requires
        readable_forward(f),
        piece == shown_forward(f) || piece == seq![' '] + shown_forward(f),
    ensures
        forall|i: int| 0 <= i < piece.len() ==> !any_of(forward_marks())(#[trigger] piece[i]),
        trimmed(piece).len() > 0,
        forward_text(piece) == shown_forward(f),
{
    let text = shown_forward(f);
    shown_forward_is_plain(f);
    assert(!is_space(text[0]) && !is_space(text[text.len() - 1]));
    assert(trimmed(text) == text);
    if piece != text {
        assert(piece.skip(1) =~= text);
        assert(trimmed_start(piece) == trimmed_start(text));
    }
    assert forall|i: int| 0 <= i < piece.len() implies !any_of(forward_marks())(
        #[trigger] piece[i],
    ) by {
        let c = piece[i];
        if piece == text {
            assert(text[i] == c);
        } else if i > 0 {
            assert(text[i - 1] == c);
        }
        assert(c != ',' && c != ';' && c != '\n');
    }
}

proof fn read_one_more(all: Seq<Seq<char>>, piece: Seq<char>, f: SshPortForwardOptionView)
    requires
        trimmed(piece).len() > 0,
        forward_text(piece) == shown_forward(f),
        readable_forward(f),
    ensures
        read_forwards(all.push(piece)) == (read_forwards(all).0.push(f), read_forwards(all).1),
{
    shown_forward_is_read_back(f);
    assert(all.push(piece).drop_last() =~= all);
}

/// Port forwards between plain hosts, which are given and of which the local
/// one does not look like the option `-L`, are read back from what is shown of
/// them.
pub proof fn shown_forwards_are_read_back(list: Seq<SshPortForwardOptionView>)
    requires
        forall|i: int| 0 <= i < list.len() ==> readable_forward(#[trigger] list[i]),
    ensures
        forwards_of(shown_forwards(list)) == (list, Seq::<Seq<char>>::empty()),
    decreases list.len(),
{
    let sep = any_of(forward_marks());
    let shown = Seq::new(list.len(), |i: int| shown_forward(list[i]));
    assert(forward_marks()[0] == ',');
    assert(sep(','));
    if list.len() == 0 {
        let none = Seq::<Seq<char>>::empty();
        let blank = none.push(Seq::empty());
        assert(pieces(Seq::<char>::empty(), sep) =~= blank);
        assert(blank.drop_last() =~= none);
        assert(trimmed(Seq::<char>::empty()).len() == 0);
        assert(read_forwards(none) == (Seq::<SshPortForwardOptionView>::empty(), none));
        assert(list =~= Seq::empty());
        assert(shown_forwards(list) =~= Seq::empty());
    } else {
        let last = list.last();
        let text = shown_forward(last);
        assert(list[list.len() - 1] == last);
        if list.len() == 1 {
            let none = Seq::<Seq<char>>::empty();
            shown_piece(last, text);
            assert(shown =~= seq![text]);
            pieces_of_one(text, sep);
            assert(seq![text] =~= none.push(text));
            read_one_more(none, text, last);
            assert(list =~= Seq::empty().push(last));
        } else {
            let head = list.drop_last();
            assert forall|i: int| 0 <= i < head.len() implies readable_forward(
                #[trigger] head[i],
            ) by {
                assert(head[i] == list[i]);
            }
            shown_forwards_are_read_back(head);
            let head_shown = Seq::new(head.len(), |i: int| shown_forward(head[i]));
            assert(shown.drop_last() =~= head_shown);
            assert(shown.last() == text);
            let before = joined(head_shown, ", "@);
            let piece = seq![' '] + text;
            assert(before + ", "@ + text =~= before.push(',') + piece) by {
                reveal_strlit(", ");
            }
            shown_piece(last, piece);
            pieces_push(before, ',', piece, sep);
            read_one_more(pieces(before, sep), piece, last);
            assert(list =~= head.push(last));
        }
    }
}

// ---------------------------------------------------------------------------
// The form

/// The user and the host of a text `user@host`; none where one of them is
/// missing. The last `@` parts them.
pub open spec fn user_and_host(value: Seq<char>) -> Option<(Seq<char>, Seq<char>)> {
    match cut_last(trimmed(value), '@') {
        Some((user, host)) => if user.len() > 0 && host.len() > 0 {
            Some((user, host))
        } else {
            None
        },
        None => None,
    }
}

/// The user and the host of a text `user@host`.
pub fn split_user_host(value: &str) -> (r: Option<(String, String)>)
    ensures
        match r {
            Some((user, host)) => user_and_host(value@) == Some((user@, host@)),
            None => user_and_host(value@) is None,
        },
{
    let chars = chars_of(value);
    let s = trim(chars.as_slice());
    match rsplit_once(s, '@') {
        Some((user, host)) => if user.len() > 0 && host.len() > 0 {
            Some((string_of(user), string_of(host)))
        } else {
            None
        },
        None => None,
    }
}

/// The texts in the fields of the form.
#[derive(Clone, Debug, PartialEq, Eq)]
pub struct ServerForm {
    pub host: String,
    pub username: String,
    pub port: String,
    pub nickname: String,
    pub password: String,
    pub identity_file: String,
    pub jump_host: String,
    pub port_forwards: String,
}

/// The model of a [`ServerForm`].
#[verifier::ext_equal]
pub struct ServerFormView {
    pub host: Seq<char>,
    pub username: Seq<char>,
    pub port: Seq<char>,
    pub nickname: Seq<char>,
    pub password: Seq<char>,
    pub identity_file: Seq<char>,
    pub jump_host: Seq<char>,
    pub port_forwards: Seq<char>,
}

impl View for ServerForm {
    type V = ServerFormView;

    open spec fn view(&self) -> ServerFormView {
        ServerFormView {
            host: self.host@,
            username: self.username@,
            port: self.port@,
            nickname: self.nickname@,
            password: self.password@,
            identity_file: self.identity_file@,
            jump_host: self.jump_host@,
            port_forwards: self.port_forwards@,
        }
    }
}

impl Model for ServerForm {
    fn dup(&self) -> (r: Self) {
        ServerForm {
            host: copy_text(&self.host),
            username: copy_text(&self.username),
            port: copy_text(&self.port),
            nickname: copy_text(&self.nickname),
            password: copy_text(&self.password),
            identity_file: copy_text(&self.identity_file),
            jump_host: copy_text(&self.jump_host),
            port_forwards: copy_text(&self.port_forwards),
        }
    }

    fn same(&self, other: &Self) -> (r: bool) {
        same_text(self.host.as_str(), other.host.as_str())
            && same_text(self.username.as_str(), other.username.as_str())
            && same_text(self.port.as_str(), other.port.as_str())
            && same_text(self.nickname.as_str(), other.nickname.as_str())
            && same_text(self.password.as_str(), other.password.as_str())
            && same_text(self.identity_file.as_str(), other.identity_file.as_str())
            && same_text(self.jump_host.as_str(), other.jump_host.as_str())
            && same_text(self.port_forwards.as_str(), other.port_forwards.as_str())
    }
}

/// What is wrong with the fields of the form.
#[derive(Clone, Debug, PartialEq, Eq)]
pub struct CreateRemoteServerFormErrors {
    pub host: Option<String>,
    pub port: Option<String>,
    pub port_forwards: Vec<String>,
}

/// The model of a [`CreateRemoteServerFormErrors`].
#[verifier::ext_equal]
pub struct CreateRemoteServerFormErrorsView {
    pub host: Option<Seq<char>>,
    pub port: Option<Seq<char>>,
    pub port_forwards: Seq<Seq<char>>,
}

impl View for CreateRemoteServerFormErrors {
    type V = CreateRemoteServerFormErrorsView;

    open spec fn view(&self) -> CreateRemoteServerFormErrorsView {
        CreateRemoteServerFormErrorsView {
            host: opt_text(self.host),
            port: opt_text(self.port),
            port_forwards: texts(self.port_forwards@),
        }
    }
}

impl Model for CreateRemoteServerFormErrors {
    fn dup(&self) -> (r: Self) {
        CreateRemoteServerFormErrors {
            host: copy_opt(&self.host),
            port: copy_opt(&self.port),
            port_forwards: crate::text::copy_list(&self.port_forwards),
        }
    }

    fn same(&self, other: &Self) -> (r: bool) {
        crate::text::same_opt(&self.host, &other.host)
            && crate::text::same_opt(&self.port, &other.port)
            && crate::text::same_list(&self.port_forwards, &other.port_forwards)
    }
}

/// Nothing is wrong with the form.
pub open spec fn no_errors() -> CreateRemoteServerFormErrorsView {
    CreateRemoteServerFormErrorsView { host: None, port: None, port_forwards: Seq::empty() }
}

impl Default for CreateRemoteServerFormErrors {
    fn default() -> (r: Self)
        ensures
            r@ == no_errors(),
    {
        let r = CreateRemoteServerFormErrors { host: None, port: None, port_forwards: Vec::new() };
        assert(texts(r.port_forwards@) =~= Seq::empty());
        r
    }
}

impl CreateRemoteServerFormErrors {
    /// Whether nothing is wrong.
    pub fn is_empty(&self) -> (r: bool)
        ensures
            r == (self@ == no_errors()),
    {
        let r = self.host.is_none() && self.port.is_none() && self.port_forwards.len() == 0;
        assert(r ==> self@ =~= no_errors());
        assert(!r ==> self@ != no_errors()) by {
            if self@ == no_errors() {
                assert(texts(self.port_forwards@).len() == 0);
            }
        }
        r
    }
}

/// The host and the user of the form. Where no user is given, the host may name
/// one before an `@`.
pub open spec fn form_address(f: ServerFormView) -> (Seq<char>, Option<Seq<char>>) {
    let host = trimmed(f.host);
    let user = trimmed(f.username);
    if user.len() > 0 {
        (host, Some(user))
    } else {
        match user_and_host(host) {
            Some((u, h)) => (h, Some(u)),
            None => (host, None),
        }
    }
}

fn read_address(form: &ServerForm) -> (r: (String, Option<String>))
    ensures
        (r.0@, opt_text(r.1)) == form_address(form@),
{
    let host = trim_text(form.host.as_str());
    let user = trim_text(form.username.as_str());
    if !user.as_str().is_empty() {
        (host, Some(user))
    } else {
        match split_user_host(host.as_str()) {
            Some((u, h)) => (h, Some(u)),
            None => (host, None),
        }
    }
}

/// The port of the form, or what is wrong with it.
pub open spec fn form_port(text: Seq<char>) -> Result<Option<u16>, Seq<char>> {
    let s = trimmed(text);
    if s.len() == 0 {
        Ok(None)
    } else {
        match spelled_port(s) {
            Some(port) => if port > 0 {
                Ok(Some(port))
            } else {
                Err("Port must be between 1 and 65535"@)
            },
            None => Err("Port must be a number"@),
        }
    }
}

fn read_port(text: &str) -> (r: Result<Option<u16>, String>)
    ensures
        match r {
            Ok(port) => form_port(text@) == Ok::<Option<u16>, Seq<char>>(port),
            Err(e) => form_port(text@) == Err::<Option<u16>, Seq<char>>(e@),
        },
{
    let chars = chars_of(text);
    let s = trim(chars.as_slice());
    if s.len() == 0 {
        return Ok(None);
    }
    match parse_port(s) {
        Some(port) => if port > 0 {
            Ok(Some(port))
        } else {
            Err("Port must be between 1 and 65535".to_owned())
        },
        None => Err("Port must be a number".to_owned()),
    }
}

/// The arguments for the identity file and the jump host, where they are given.
pub open spec fn form_args(identity_file: Seq<char>, jump_host: Seq<char>) -> Seq<Seq<char>> {
    let identity = if identity_file.len() > 0 {
        seq!["-i"@, identity_file]
    } else {
        Seq::empty()
    };
    let jump = if jump_host.len() > 0 {
        seq!["-J"@, jump_host]
    } else {
        Seq::empty()
    };
    identity + jump
}

/// What is wrong with the form.
pub open spec fn form_errors(f: ServerFormView) -> CreateRemoteServerFormErrorsView {
    CreateRemoteServerFormErrorsView {
        host: if trimmed(f.host).len() == 0 {
            Some("Host is required"@)
        } else {
            None
        },
        port: match form_port(f.port) {
            Ok(_) => None,
            Err(e) => Some(e),
        },
        port_forwards: forwards_of(trimmed(f.port_forwards)).1,
    }
}

/// The options that the form describes, where nothing is wrong with it.
pub open spec fn form_options(f: ServerFormView) -> SshConnectionOptionsView {
    let (host, username) = form_address(f);
    let port = match form_port(f.port) {
        Ok(port) => port,
        Err(_) => None,
    };
    let args = form_args(trimmed(f.identity_file), trimmed(f.jump_host));
    let forwards = forwards_of(trimmed(f.port_forwards)).0;
    let nickname = trimmed(f.nickname);
    SshConnectionOptionsView {
        host,
        username,
        port,
        nickname: if nickname.len() == 0 {
            default_nickname(host, username, port)
        } else {
            Some(nickname)
        },
        password: if f.password.len() == 0 {
            None
        } else {
            Some(f.password)
        },
        args: if args.len() == 0 {
            None
        } else {
            Some(args)
        },
        port_forwards: if forwards.len() == 0 {
            None
        } else {
            Some(forwards)
        },
        ..no_ssh_options()
    }
}

/// Trimming twice is trimming once.
pub proof fn trimmed_twice(s: Seq<char>)
    ensures
        trimmed(trimmed(s)) == trimmed(s),
{
    crate::text::trimmed_has_no_outer_space(s);
}

/// The options that the form describes, or what is wrong with it.
pub fn build_ssh_connection_from_form(form: &ServerForm) -> (r: Result<
    SshConnectionOptions,
    CreateRemoteServerFormErrors,
>)
    ensures
        match r {
            Ok(options) => form_errors(form@) == no_errors() && options@ == form_options(form@),
            Err(errors) => form_errors(form@) != no_errors() && errors@ == form_errors(form@),
        },
{
    let mut errors = CreateRemoteServerFormErrors {
        host: None,
        port: None,
        port_forwards: Vec::new(),
    };
    if trim_text(form.host.as_str()).as_str().is_empty() {
        errors.host = Some("Host is required".to_owned());
    }
    let (host, username) = read_address(form);
    let port = match read_port(form.port.as_str()) {
        Ok(port) => port,
        Err(e) => {
            errors.port = Some(e);
            None
        },
    };
    let identity_file = trim_text(form.identity_file.as_str());
    let jump_host = trim_text(form.jump_host.as_str());
    let mut args: Vec<String> = Vec::new();
    if !identity_file.as_str().is_empty() {
        push_str(&mut args, "-i");
        push_str(&mut args, identity_file.as_str());
    }
    if !jump_host.as_str().is_empty() {
        push_str(&mut args, "-J");
        push_str(&mut args, jump_host.as_str());
    }
    assert(texts(args@) =~= form_args(trimmed(form@.identity_file), trimmed(form@.jump_host)));
    let (forwards, forward_errors) = parse_port_forwards(
        trim_text(form.port_forwards.as_str()).as_str(),
    );
    errors.port_forwards = forward_errors;
    let nickname_text = trim_text(form.nickname.as_str());
    let nickname = if nickname_text.as_str().is_empty() {
        let user = match &username {
            Some(u) => Some(u.as_str()),
            None => None,
        };
        default_ssh_nickname(host.as_str(), user, port)
    } else {
        Some(nickname_text)
    };
    let options = SshConnectionOptions {
        host,
        username,
        port,
        password: if form.password.as_str().is_empty() {
            None
        } else {
            Some(form.password.clone())
        },
        args: if args.len() == 0 {
            None
        } else {
            Some(args)
        },
        port_forwards: if forwards.len() == 0 {
            None
        } else {
            Some(forwards)
        },
        connection_timeout: None,
        nickname,
        upload_binary_over_ssh: false,
    };
    assert(errors@ =~= form_errors(form@));
    if errors.is_empty() {
        assert(options@ =~= form_options(form@));
        Ok(options)
    } else {
        Err(errors)
    }
}

// ---------------------------------------------------------------------------
// Filling the form

/// The identity file and the jump host that arguments name, read from left to
/// right: the last of each kind counts, joined to its option or behind it. An
/// option at the very end names nothing.
pub open spec fn read_args(
    args: Seq<Seq<char>>,
    identity: Option<Seq<char>>,
    jump: Option<Seq<char>>,
) -> (Option<Seq<char>>, Option<Seq<char>>)
    decreases args.len(),
{
    if args.len() == 0 {
        (identity, jump)
    } else if args[0] == "-i"@ {
        if args.len() == 1 {
            (None, jump)
        } else {
            read_args(args.skip(2), Some(args[1]), jump)
        }
    } else if begins(args[0], "-i"@) {
        read_args(args.skip(1), Some(args[0].skip(2)), jump)
    } else if args[0] == "-J"@ {
        if args.len() == 1 {
            (identity, None)
        } else {
            read_args(args.skip(2), identity, Some(args[1]))
        }
    } else if begins(args[0], "-J"@) {
        read_args(args.skip(1), identity, Some(args[0].skip(2)))
    } else {
        read_args(args.skip(1), identity, jump)
    }
}

/// The identity file and the jump host that arguments name.
pub fn identity_and_jump(args: &Vec<String>) -> (r: (Option<String>, Option<String>))
    ensures
        (opt_text(r.0), opt_text(r.1)) == read_args(texts(args@), None, None),
{
    let ghost all = texts(args@);
    let mut identity: Option<String> = None;
    let mut jump: Option<String> = None;
    let mut i: usize = 0;
    proof {
        reveal_strlit("-i");
        reveal_strlit("-J");
        assert(all.skip(0) =~= all);
    }
    while i < args.len()
        invariant
            i <= args.len(),
            all == texts(args@),
            "-i"@.len() == 2,
            "-J"@.len() == 2,
            read_args(all, None, None) == read_args(
                all.skip(i as int),
                opt_text(identity),
                opt_text(jump),
            ),
        decreases args.len() - i,
    {
        let ghost rest = all.skip(i as int);
        let arg = args[i].as_str();
        proof {
            assert(rest[0] == arg@);
            assert(rest.skip(1) =~= all.skip(i + 1));
            if i + 1 < args.len() {
                assert(rest[1] == args@[i + 1]@);
                assert(rest.skip(2) =~= all.skip(i + 2));
            }
        }
        if same_text(arg, "-i") {
            if i + 1 < args.len() {
                identity = Some(args[i + 1].clone());
                i = i + 2;
            } else {
                return (None, jump);
            }
        } else if text_begins(arg, "-i") {
            let chars = chars_of(arg);
            let tail = slice_subrange(chars.as_slice(), 2, chars.len());
            assert(tail@ =~= arg@.skip(2));
            identity = Some(string_of(tail));
            i = i + 1;
        } else if same_text(arg, "-J") {
            if i + 1 < args.len() {
                jump = Some(args[i + 1].clone());
                i = i + 2;
            } else {
                return (identity, None);
            }
        } else if text_begins(arg, "-J") {
            let chars = chars_of(arg);
            let tail = slice_subrange(chars.as_slice(), 2, chars.len());
            assert(tail@ =~= arg@.skip(2));
            jump = Some(string_of(tail));
            i = i + 1;
        } else {
            i = i + 1;
        }
    }
    proof {
        assert(all.skip(i as int).len() == 0);
    }
    (identity, jump)
}

/// The identity file and the jump host of the form are read back from the
/// arguments that the form makes of them.
pub proof fn form_args_are_read_back(identity_file: Seq<char>, jump_host: Seq<char>)
    ensures
        read_args(form_args(identity_file, jump_host), None, None) == (
            if identity_file.len() > 0 {
                Some(identity_file)
            } else {
                None
            },
            if jump_host.len() > 0 {
                Some(jump_host)
            } else {
                None
            },
        ),
{
    reveal_strlit("-i");
    reveal_strlit("-J");
    let all = form_args(identity_file, jump_host);
    let jump = if jump_host.len() > 0 {
        seq!["-J"@, jump_host]
    } else {
        Seq::empty()
    };
    assert("-i"@[1] != "-J"@[1]);
    assert(!begins("-J"@, "-i"@)) by {
        if begins("-J"@, "-i"@) {
            assert("-J"@.take(2)[1] == "-i"@[1]);
        }
    }
    let id = if identity_file.len() > 0 {
        Some(identity_file)
    } else {
        None
    };
    if jump_host.len() > 0 {
        assert(jump.skip(2) =~= Seq::empty());
        assert(read_args(jump.skip(2), id, Some(jump_host)) == (id, Some(jump_host)));
        assert(jump[0] == "-J"@ && jump[1] == jump_host);
        assert(read_args(jump, id, None) == (id, Some(jump_host)));
    } else {
        assert(read_args(jump, id, None) == (id, None::<Seq<char>>));
    }
    if identity_file.len() > 0 {
        assert(all[0] == "-i"@ && all[1] == identity_file);
        assert(all.skip(2) =~= jump);
    } else {
        assert(all =~= jump);
    }
}

/// The fields of the form as they are filled from a saved server, and whether
/// the advanced fields are shown.
#[derive(Clone, Debug, PartialEq, Eq)]
pub struct FilledForm {
    pub nickname: String,
    pub host: String,
    pub username: String,
    pub port: String,
    pub identity_file: String,
    pub jump_host: String,
    pub port_forwards: String,
    pub show_advanced: bool,
}

/// A text, or the empty one where there is none.
pub open spec fn text_or_empty(s: Option<Seq<char>>) -> Seq<char> {
    match s {
        Some(x) => x,
        None => Seq::empty(),
    }
}

fn or_empty(s: Option<String>) -> (r: String)
    ensures
        r@ == text_or_empty(opt_text(s)),
{
    match s {
        Some(x) => x,
        None => String::new(),
    }
}

/// Whether `f` shows a saved server: every field holds what is saved, or
/// nothing where nothing is saved, and the advanced fields are shown where one
/// of them has been saved.
pub open spec fn shows(f: FilledForm, c: SshConnectionView) -> bool {
    let (identity, jump) = read_args(c.args, None, None);
    &&& f.nickname@ == text_or_empty(c.nickname)
    &&& f.host@ == c.host
    &&& f.username@ == text_or_empty(c.username)
    &&& f.port@ == match c.port {
        Some(port) => decimal(port as nat),
        None => Seq::empty(),
    }
    &&& f.identity_file@ == text_or_empty(identity)
    &&& f.jump_host@ == text_or_empty(jump)
    &&& f.port_forwards@ == match c.port_forwards {
        Some(list) => shown_forwards(list),
        None => Seq::empty(),
    }
    &&& f.show_advanced == (identity is Some || jump is Some || (c.port_forwards is Some
        && c.port_forwards->0.len() > 0))
}

/// The fields of the form for a saved server.
pub fn apply_saved_connection(connection: &SshConnection) -> (r: FilledForm)
    ensures
        shows(r, connection@),
{
    let (identity, jump) = identity_and_jump(&connection.args);
    let forwards = match &connection.port_forwards {
        Some(list) => show_forwards(list),
        None => String::new(),
    };
    let has_forwards = match &connection.port_forwards {
        Some(list) => list.len() > 0,
        None => false,
    };
    let show_advanced = identity.is_some() || jump.is_some() || has_forwards;
    FilledForm {
        nickname: or_empty(copy_opt(&connection.nickname)),
        host: connection.host.clone(),
        username: or_empty(copy_opt(&connection.username)),
        port: match connection.port {
            Some(port) => decimal_of(port as u64),
            None => String::new(),
        },
        identity_file: or_empty(identity),
        jump_host: or_empty(jump),
        port_forwards: forwards,
        show_advanced,
    }
}

/// What the form keeps of a text: it without outer space.
pub open spec fn form_of(f: FilledForm, password: Seq<char>) -> ServerFormView {
    ServerFormView {
        host: f.host@,
        username: f.username@,
        port: f.port@,
        nickname: f.nickname@,
        password,
        identity_file: f.identity_file@,
        jump_host: f.jump_host@,
        port_forwards: f.port_forwards@,
    }
}

/// A text of shown port forwards has no white space at either end.
proof fn shown_forwards_are_trimmed(list: Seq<SshPortForwardOptionView>)
    requires
        forall|i: int| 0 <= i < list.len() ==> readable_forward(#[trigger] list[i]),
    ensures
        trimmed(shown_forwards(list)) == shown_forwards(list),
        list.len() > 0 ==> shown_forwards(list).len() > 0 && !is_space(shown_forwards(list)[0]),
    decreases list.len(),
{
    let shown = Seq::new(list.len(), |i: int| shown_forward(list[i]));
    if list.len() == 0 {
        assert(shown_forwards(list) =~= Seq::empty());
    } else {
        let last = list[list.len() - 1];
        let text = shown_forward(last);
        shown_forward_is_plain(last);
        assert(!is_space(text[0]) && !is_space(text[text.len() - 1]));
        assert(shown.last() == text);
        let s = shown_forwards(list);
        if list.len() == 1 {
            assert(shown =~= seq![text]);
            assert(s == text);
        } else {
            let head = list.drop_last();
            assert forall|i: int| 0 <= i < head.len() implies readable_forward(
                #[trigger] head[i],
            ) by {
                assert(head[i] == list[i]);
            }
            shown_forwards_are_trimmed(head);
            assert(shown.drop_last() =~= Seq::new(head.len(), |i: int| shown_forward(head[i])));
            assert(s == shown_forwards(head) + ", "@ + text);
            assert(s[0] == shown_forwards(head)[0]);
            assert(s.last() == text.last());
        }
    }
}

/// The name that a server gets where none is given has no white space at either
/// end, where its host and its user have none.
proof fn default_nickname_is_trimmed(
    host: Seq<char>,
    username: Option<Seq<char>>,
    port: Option<u16>,
)
    requires
        host.len() > 0,
        trimmed(host) == host,
        username is Some ==> trimmed(username->0) == username->0,
    ensures
        default_nickname(host, username, port) is Some,
        default_nickname(host, username, port)->0.len() > 0,
        trimmed(default_nickname(host, username, port)->0) == default_nickname(
            host,
            username,
            port,
        )->0,
{
    crate::text::trimmed_has_no_outer_space(host);
    let name = match username {
        Some(user) => {
            crate::text::trimmed_has_no_outer_space(user);
            if user.len() > 0 {
                let name = user + "@"@ + host;
                assert(name[0] == user[0]);
                assert(name.last() == host.last());
                name
            } else {
                host
            }
        },
        None => host,
    };
    assert(name.len() > 0 && !is_space(name[0]) && !is_space(name.last()));
    match port {
        Some(p) => {
            let digits = decimal(p as nat);
            crate::text::decimal_spells(p as nat);
            let full = name + ":"@ + digits;
            assert(full[0] == name[0]);
            assert(full.last() == digits.last());
            assert(crate::text::is_digit(digits[digits.len() - 1]));
        },
        None => {},
    }
}

/// A saved server that was made by the form is read back by it: filled from
/// what has been saved of it, the form describes the same server.
///
/// No white space stands round the `@` of a host that names its user, and the
/// port forwards can be read back themselves.
pub proof fn saved_form_is_read_back(
    f: ServerFormView,
    saved: SshConnectionView,
    filled: FilledForm,
)
    requires
        form_errors(f) == no_errors(),
        trimmed(form_options(f).host) == form_options(f).host,
        form_options(f).username is Some ==> trimmed(form_options(f).username->0)
            == form_options(f).username->0,
        forall|i: int|
            0 <= i < forwards_of(trimmed(f.port_forwards)).0.len() ==> readable_forward(
                #[trigger] forwards_of(trimmed(f.port_forwards)).0[i],
            ),
        saved.host == form_options(f).host,
        saved.username == form_options(f).username,
        saved.port == form_options(f).port,
        saved.nickname == form_options(f).nickname,
        saved.args == crate::connection::args_or_none(form_options(f).args),
        saved.port_forwards == form_options(f).port_forwards,
        shows(filled, saved),
    ensures
        form_options(form_of(filled, f.password)) == form_options(f),
        form_errors(form_of(filled, f.password)) == no_errors(),
{
    let g = form_of(filled, f.password);
    let o = form_options(f);
    trimmed_twice(f.host);
    trimmed_twice(f.username);
    trimmed_twice(f.identity_file);
    trimmed_twice(f.jump_host);
    trimmed_twice(f.nickname);
    let empty = Seq::<char>::empty();
    assert(trimmed(empty) =~= empty);
    assert(o.host.len() > 0);
    default_nickname_is_trimmed(o.host, o.username, o.port);
    assert(o.nickname is Some);
    assert(trimmed(g.nickname) == o.nickname->0);
    assert(form_address(g) == (o.host, o.username));
    let identity = trimmed(f.identity_file);
    let jump = trimmed(f.jump_host);
    form_args_are_read_back(identity, jump);
    let args = form_args(identity, jump);
    if args.len() == 0 {
        assert(args =~= Seq::empty());
        if identity.len() > 0 {
            assert(args[0] == "-i"@);
        }
        if jump.len() > 0 {
            assert(args[0] == "-J"@);
        }
    }
    assert(saved.args =~= args);
    assert(trimmed(g.identity_file) =~= identity) by {
        if identity.len() == 0 {
            assert(identity =~= empty);
        }
    }
    assert(trimmed(g.jump_host) =~= jump) by {
        if jump.len() == 0 {
            assert(jump =~= empty);
        }
    }
    match o.port {
        Some(port) => {
            written_port_is_read_back(port);
        },
        None => {},
    }
    assert(form_port(g.port) == Ok::<Option<u16>, Seq<char>>(o.port));
    let list = forwards_of(trimmed(f.port_forwards)).0;
    if list.len() == 0 {
        assert(list =~= Seq::empty());
        assert(shown_forwards(list) =~= empty);
    }
    shown_forwards_are_trimmed(list);
    shown_forwards_are_read_back(list);
    assert(g.port_forwards =~= shown_forwards(list));
    assert(form_options(g) =~= o);
    assert(form_errors(g) =~= no_errors());
}

/// The user and port of the form after the settings of its host have been
/// taken over: only empty fields are filled.
pub open spec fn defaults_taken(
    f: ServerFormView,
    errors: CreateRemoteServerFormErrorsView,
    entry: SshConfigEntryView,
) -> (ServerFormView, CreateRemoteServerFormErrorsView) {
    let fills_port = entry.port is Some && trimmed(f.port).len() == 0;
    (
        ServerFormView {
            username: if entry.user is Some && trimmed(f.username).len() == 0 {
                entry.user->0
            } else {
                f.username
            },
            port: if fills_port {
                decimal(entry.port->0 as nat)
            } else {
                f.port
            },
            ..f
        },
        CreateRemoteServerFormErrorsView {
            host: None,
            port: if fills_port {
                None
            } else {
                errors.port
            },
            ..errors
        },
    )
}

/// Takes over what the configuration says of the host of the form. Only empty
/// fields are filled. Where there is no host or nothing is said of it, the form
/// stays as it was. Returns whether anything was taken over.
pub fn use_ssh_config_defaults(
    form: &mut ServerForm,
    errors: &mut CreateRemoteServerFormErrors,
    entries: &SshConfigEntries,
) -> (r: bool)
    requires
        entries.wf(),
    ensures
        r == (trimmed(old(form)@.host).len() > 0 && entries@.dom().contains(
            trimmed(old(form)@.host),
        )),
        r ==> (final(form)@, final(errors)@) == defaults_taken(
            old(form)@,
            old(errors)@,
            entries@[trimmed(old(form)@.host)],
        ),
        !r ==> final(form)@ == old(form)@ && final(errors)@ == old(errors)@,
{
    let host = trim_text(form.host.as_str());
    if host.as_str().is_empty() {
        return false;
    }
    match entries.get(host.as_str()) {
        None => false,
        Some(entry) => {
            errors.host = None;
            if let Some(user) = &entry.user {
                if trim_text(form.username.as_str()).as_str().is_empty() {
                    form.username = user.clone();
                }
            }
            if let Some(port) = entry.port {
                if trim_text(form.port.as_str()).as_str().is_empty() {
                    form.port = decimal_of(port as u64);
                    errors.port = None;
                }
            }
            true
        },
    }
}

// ---------------------------------------------------------------------------
// Connecting

/// How a server is entered.
#[derive(Clone, Copy, Debug, PartialEq, Eq, Structural)]
pub enum CreateRemoteServerInputMode {
    Form,
    Command,
}

/// What to do with a command line that has been entered.
#[derive(Clone, Debug, PartialEq, Eq)]
pub enum CommandLineAction {
    /// Nothing has been entered.
    Ignore,
    /// Show an error.
    Reject(String),
    /// Connect.
    Connect(SshConnectionOptions),
}

/// What to do with a command line, given what it was parsed into: where the
/// options have no nickname they get the usual one.
pub fn create_ssh_server(input: &str, parsed: Result<SshConnectionOptions, String>) -> (r:
    CommandLineAction)
    ensures
        match r {
            CommandLineAction::Ignore => trimmed(input@).len() == 0,
            CommandLineAction::Reject(message) => trimmed(input@).len() > 0 && parsed is Err
                && message@ == "could not parse: "@ + parsed->Err_0@,
            CommandLineAction::Connect(options) => trimmed(input@).len() > 0 && parsed is Ok
                && options@ == named_options(parsed->Ok_0@),
        },
{
    if trim_text(input).as_str().is_empty() {
        return CommandLineAction::Ignore;
    }
    match parsed {
        Ok(options) => {
            let mut options = options;
            if options.nickname.is_none() {
                let user = match &options.username {
                    Some(u) => Some(u.as_str()),
                    None => None,
                };
                options.nickname = default_ssh_nickname(options.host.as_str(), user, options.port);
            }
            CommandLineAction::Connect(options)
        },
        Err(e) => {
            let mut out = "could not parse: ".to_owned();
            out.append(e.as_str());
            CommandLineAction::Reject(out)
        },
    }
}

/// Options with the usual nickname where they have none.
pub open spec fn named_options(o: SshConnectionOptionsView) -> SshConnectionOptionsView {
    SshConnectionOptionsView {
        nickname: if o.nickname is Some {
            o.nickname
        } else {
            default_nickname(o.host, o.username, o.port)
        },
        ..o
    }
}

/// The seconds that starting the proxy may take.
pub const START_PROXY_TIMEOUT_SECS: u64 = 90;

/// The seconds that starting the proxy may take where the server is built
/// first.
pub const START_PROXY_TIMEOUT_WITH_BUILD_SECS: u64 = 360;

/// Whether the setting for building the server asks for it: it does unless it
/// is switched off.
pub open spec fn builds_server(setting: Option<Seq<char>>) -> bool {
    match setting {
        Some(v) => v != "false"@ && v != "no"@ && v != "off"@ && v != "0"@,
        None => true,
    }
}

/// The seconds that starting the proxy may take, in a build for debugging or
/// not, with the setting for building the server.
pub fn start_proxy_timeout_secs(debug_build: bool, build_setting: Option<&str>) -> (r: u64)
    ensures
        r == (if debug_build || builds_server(crate::text::opt_str(build_setting)) {
            START_PROXY_TIMEOUT_WITH_BUILD_SECS
        } else {
            START_PROXY_TIMEOUT_SECS
        }),
{
    let build = match build_setting {
        Some(v) => !(same_text(v, "false") || same_text(v, "no") || same_text(v, "off")
            || same_text(v, "0")),
        None => true,
    };
    if debug_build || build {
        START_PROXY_TIMEOUT_WITH_BUILD_SECS
    } else {
        START_PROXY_TIMEOUT_SECS
    }
}

// ---------------------------------------------------------------------------
// The saved password

/// What is known of the saved password of the server in the form.
#[derive(Clone, Copy, Debug, PartialEq, Eq, Structural)]
pub enum PasswordKeychainStatus {
    Unknown,
    Loading,
    Saved,
    NotSaved,
    Error,
}

/// The saved password of the server in the form: what is known of it, the
/// address it is saved under, the address whose password was last filled in by
/// itself, and whether the password can be seen.
#[derive(Clone, Debug, PartialEq, Eq)]
pub struct PasswordState {
    pub status: PasswordKeychainStatus,
    pub url: Option<String>,
    pub autoload_url: Option<String>,
    pub visible: bool,
}

/// The model of a [`PasswordState`].
#[verifier::ext_equal]
pub struct PasswordStateView {
    pub status: PasswordKeychainStatus,
    pub url: Option<Seq<char>>,
    pub autoload_url: Option<Seq<char>>,
    pub visible: bool,
}

impl View for PasswordState {
    type V = PasswordStateView;

    open spec fn view(&self) -> PasswordStateView {
        PasswordStateView {
            status: self.status,
            url: opt_text(self.url),
            autoload_url: opt_text(self.autoload_url),
            visible: self.visible,
        }
    }
}

/// The address under which the password of the server in the form is saved, and
/// its user. It takes a host, a user and a port; a port that is not valid is
/// left out of the address.
pub open spec fn keychain_url(f: ServerFormView) -> Option<(Seq<char>, Seq<char>)> {
    let (host, username) = form_address(f);
    let port = match form_port(f.port) {
        Ok(port) => port,
        Err(_) => None,
    };
    if trimmed(f.host).len() == 0 || trimmed(f.port).len() == 0 || username is None {
        None
    } else {
        let o = SshConnectionOptionsView { host, username, port, ..no_ssh_options() };
        Some(("ssh://"@ + shown_connection(o), username->0))
    }
}

/// The address under which the password of the server in the form is saved, and
/// its user.
pub fn ssh_keychain_url_from_form(form: &ServerForm) -> (r: Option<(String, String)>)
    ensures
        match r {
            Some((url, user)) => keychain_url(form@) == Some((url@, user@)),
            None => keychain_url(form@) is None,
        },
{
    if trim_text(form.host.as_str()).as_str().is_empty() {
        return None;
    }
    if trim_text(form.port.as_str()).as_str().is_empty() {
        return None;
    }
    let (host, username) = read_address(form);
    let port = match read_port(form.port.as_str()) {
        Ok(port) => port,
        Err(_) => None,
    };
    match username {
        None => None,
        Some(user) => {
            let options = SshConnectionOptions {
                host,
                username: Some(user.clone()),
                port,
                password: None,
                args: None,
                port_forwards: None,
                connection_timeout: None,
                nickname: None,
                upload_binary_over_ssh: false,
            };
            let mut url = "ssh://".to_owned();
            url.append(options.connection_string().as_str());
            Some((url, user))
        },
    }
}

/// What is to be read from the keychain: the address, and whether the password
/// is to be filled in.
#[derive(Clone, Debug, PartialEq, Eq)]
pub struct KeychainRead {
    pub url: String,
    pub auto_fill: bool,
}

/// The state after the form has changed, and whether a password is filled in
/// once it has been read; none where nothing is to be read.
pub open spec fn refreshed(s: PasswordStateView, f: ServerFormView) -> (
    PasswordStateView,
    Option<(Seq<char>, bool)>,
) {
    match keychain_url(f) {
        None => (
            if s.url is Some || s.status != PasswordKeychainStatus::Unknown {
                PasswordStateView {
                    status: PasswordKeychainStatus::Unknown,
                    url: None,
                    autoload_url: None,
                    ..s
                }
            } else {
                s
            },
            None,
        ),
        Some((url, _)) => if s.url == Some(url) && s.status != PasswordKeychainStatus::Unknown {
            (s, None)
        } else {
            let auto_fill = f.password.len() == 0 && s.autoload_url != Some(url);
            (
                PasswordStateView {
                    status: PasswordKeychainStatus::Loading,
                    url: Some(url),
                    autoload_url: if auto_fill {
                        Some(url)
                    } else {
                        s.autoload_url
                    },
                    ..s
                },
                Some((url, auto_fill)),
            )
        },
    }
}

/// What the keychain has answered.
#[derive(Clone, Debug, PartialEq, Eq)]
pub enum KeychainAnswer {
    /// The bytes of the password.
    Found(Vec<u8>),
    /// There is no password.
    Missing,
    /// The keychain could not be read.
    Failed,
}

/// `String::from_utf8` gives the text whose UTF-8 encoding the bytes are, and
/// fails on just the bytes that are no valid UTF-8.
#[verifier::external_body]
fn text_from_utf8(bytes: Vec<u8>) -> (r: Option<String>)
    ensures
        match r {
            Some(text) => vstd::utf8::encode_utf8(text@) == bytes@,
            None => !vstd::utf8::valid_utf8(bytes@),
        },
{
    String::from_utf8(bytes).ok()
}

/// The status after the keychain has answered.
pub open spec fn answered_status(answer: KeychainAnswer) -> PasswordKeychainStatus {
    match answer {
        KeychainAnswer::Found(bytes) => if vstd::utf8::valid_utf8(bytes@) {
            PasswordKeychainStatus::Saved
        } else {
            PasswordKeychainStatus::Error
        },
        KeychainAnswer::Missing => PasswordKeychainStatus::NotSaved,
        KeychainAnswer::Failed => PasswordKeychainStatus::Error,
    }
}

/// What is shown after the saved password was to be filled in.
pub open spec fn answered_message(answer: KeychainAnswer) -> Seq<char> {
    match answer {
        KeychainAnswer::Found(bytes) => if vstd::utf8::valid_utf8(bytes@) {
            "Password loaded from keychain."@
        } else {
            "Saved password is not valid UTF-8."@
        },
        KeychainAnswer::Missing => "No saved password for this host."@,
        KeychainAnswer::Failed => "Failed to read saved password."@,
    }
}

fn read_answer(answer: KeychainAnswer) -> (r: (PasswordKeychainStatus, Option<String>))
    ensures
        r.0 == answered_status(answer),
        r.1 is Some <==> r.0 == PasswordKeychainStatus::Saved,
        r.1 is Some ==> answer is Found && vstd::utf8::encode_utf8(r.1->0@) == answer->Found_0@,
{
    match answer {
        KeychainAnswer::Found(bytes) => {
            let ghost all = bytes@;
            match text_from_utf8(bytes) {
                Some(text) => {
                    proof {
                        vstd::utf8::encode_utf8_valid_utf8(text@);
                    }
                    (PasswordKeychainStatus::Saved, Some(text))
                },
                None => (PasswordKeychainStatus::Error, None),
            }
        },
        KeychainAnswer::Missing => (PasswordKeychainStatus::NotSaved, None),
        KeychainAnswer::Failed => (PasswordKeychainStatus::Error, None),
    }
}

impl PasswordState {
    /// Nothing is known yet.
    pub fn new() -> (r: Self)
        ensures
            r@ == (PasswordStateView {
                status: PasswordKeychainStatus::Unknown,
                url: None,
                autoload_url: None,
                visible: false,
            }),
    {
        PasswordState {
            status: PasswordKeychainStatus::Unknown,
            url: None,
            autoload_url: None,
            visible: false,
        }
    }

    /// Takes in that the form has changed, and gives what is to be read from
    /// the keychain.
    pub fn maybe_refresh_password_state(&mut self, form: &ServerForm) -> (r: Option<KeychainRead>)
        ensures
            final(self)@ == refreshed(old(self)@, form@).0,
            match refreshed(old(self)@, form@).1 {
                Some((url, auto_fill)) => r is Some && r->0.url@ == url && r->0.auto_fill
                    == auto_fill,
                None => r is None,
            },
    {
        match ssh_keychain_url_from_form(form) {
            None => {
                if self.url.is_some() || self.status != PasswordKeychainStatus::Unknown {
                    self.url = None;
                    self.status = PasswordKeychainStatus::Unknown;
                    self.autoload_url = None;
                }
                None
            },
            Some((url, _)) => {
                let known = match &self.url {
                    Some(u) => same_text(u.as_str(), url.as_str()),
                    None => false,
                };
                if known && self.status != PasswordKeychainStatus::Unknown {
                    return None;
                }
                let loaded = match &self.autoload_url {
                    Some(u) => same_text(u.as_str(), url.as_str()),
                    None => false,
                };
                let auto_fill = form.password.as_str().is_empty() && !loaded;
                self.url = Some(url.clone());
                self.status = PasswordKeychainStatus::Loading;
                if auto_fill {
                    self.autoload_url = Some(url.clone());
                }
                Some(KeychainRead { url, auto_fill })
            },
        }
    }

    /// Takes the answer to a reading in, and gives the password to fill in. An
    /// answer for another address than the present one changes nothing. The
    /// password is filled in only into an empty field.
    pub fn password_read(&mut self, read: &KeychainRead, answer: KeychainAnswer, form: &ServerForm)
        -> (r: Option<String>)
        ensures
            old(self)@.url != Some(read.url@) ==> final(self)@ == old(self)@ && r is None,
            old(self)@.url == Some(read.url@) ==> final(self)@ == (PasswordStateView {
                status: answered_status(answer),
                ..old(self)@
            }),
            r is Some <==> old(self)@.url == Some(read.url@) && answered_status(answer)
                == PasswordKeychainStatus::Saved && read.auto_fill && form@.password.len() == 0,
            r is Some ==> vstd::utf8::encode_utf8(r->0@) == answer->Found_0@,
    {
        let current = match &self.url {
            Some(u) => same_text(u.as_str(), read.url.as_str()),
            None => false,
        };
        if !current {
            return None;
        }
        let (status, password) = read_answer(answer);
        self.status = status;
        if read.auto_fill && form.password.as_str().is_empty() {
            password
        } else {
            None
        }
    }

    /// Shows a hidden password, and hides a shown one.
    pub fn toggle_password_visibility(&mut self)
        ensures
            final(self)@ == (PasswordStateView { visible: !old(self)@.visible, ..old(self)@ }),
    {
        self.visible = !self.visible;
    }

    /// Takes in what has come of filling in the saved password, and gives what
    /// is shown and the password to fill in.
    pub fn saved_password_read(&mut self, url: &str, answer: KeychainAnswer) -> (r: (
        String,
        Option<String>,
    ))
        ensures
            final(self)@ == (PasswordStateView {
                status: answered_status(answer),
                url: Some(url@),
                autoload_url: if answered_status(answer) == PasswordKeychainStatus::Saved {
                    Some(url@)
                } else {
                    old(self)@.autoload_url
                },
                ..old(self)@
            }),
            r.1 is Some <==> answered_status(answer) == PasswordKeychainStatus::Saved,
            r.1 is Some ==> vstd::utf8::encode_utf8(r.1->0@) == answer->Found_0@,
            r.0@ == answered_message(answer),
    {
        let found = matches!(answer, KeychainAnswer::Found(_));
        let missing = matches!(answer, KeychainAnswer::Missing);
        let (status, password) = read_answer(answer);
        self.status = status;
        self.url = Some(url.to_owned());
        if password.is_some() {
            self.autoload_url = Some(url.to_owned());
        }
        let message = if password.is_some() {
            "Password loaded from keychain.".to_owned()
        } else if found {
            "Saved password is not valid UTF-8.".to_owned()
        } else if missing {
            "No saved password for this host.".to_owned()
        } else {
            "Failed to read saved password.".to_owned()
        };
        (message, password)
    }

    /// Takes in whether the password could be saved, and gives what is shown.
    pub fn password_saved(&mut self, url: &str, saved: bool) -> (r: String)
        ensures
            final(self)@ == (PasswordStateView {
                status: if saved {
                    PasswordKeychainStatus::Saved
                } else {
                    PasswordKeychainStatus::Error
                },
                url: Some(url@),
                ..old(self)@
            }),
            r@ == (if saved {
                "Password saved to keychain."@
            } else {
                "Failed to save password."@
            }),
    {
        self.url = Some(url.to_owned());
        if saved {
            self.status = PasswordKeychainStatus::Saved;
            "Password saved to keychain.".to_owned()
        } else {
            self.status = PasswordKeychainStatus::Error;
            "Failed to save password.".to_owned()
        }
    }

    /// Takes in whether the saved password could be deleted, and gives what is
    /// shown.
    pub fn password_deleted(&mut self, url: &str, deleted: bool) -> (r: String)
        ensures
            final(self)@ == (PasswordStateView {
                status: if deleted {
                    PasswordKeychainStatus::NotSaved
                } else {
                    PasswordKeychainStatus::Error
                },
                url: Some(url@),
                ..old(self)@
            }),
            r@ == (if deleted {
                "Saved password deleted."@
            } else {
                "Failed to delete saved password."@
            }),
    {
        self.url = Some(url.to_owned());
        if deleted {
            self.status = PasswordKeychainStatus::NotSaved;
            "Saved password deleted.".to_owned()
        } else {
            self.status = PasswordKeychainStatus::Error;
            "Failed to delete saved password.".to_owned()
        }
    }
}

/// The address from which the saved password is filled in, or why it is not.
pub fn use_saved_password(form: &ServerForm) -> (r: Result<String, String>)
    ensures
        match r {
            Ok(url) => keychain_url(form@) is Some && form@.password.len() == 0 && url@
                == (keychain_url(form@)->0).0,
            Err(message) => if keychain_url(form@) is None {
                message@ == "Enter host, username, and port first."@
            } else {
                form@.password.len() > 0 && message@ == "Password field is not empty."@
            },
        },
{
    match ssh_keychain_url_from_form(form) {
        None => Err("Enter host, username, and port first.".to_owned()),
        Some((url, _)) => if form.password.as_str().is_empty() {
            Ok(url)
        } else {
            Err("Password field is not empty.".to_owned())
        },
    }
}

/// The address and the user under which the password of the form is saved, or
/// why it is not.
pub fn save_password_to_keychain(form: &ServerForm) -> (r: Result<(String, String), String>)
    ensures
        match r {
            Ok((url, user)) => form@.password.len() > 0 && keychain_url(form@) == Some(
                (url@, user@),
            ),
            Err(message) => if keychain_url(form@) is None {
                message@ == "Enter host, username, and port first."@
            } else {
                form@.password.len() == 0 && message@ == "Enter a password to save."@
            },
        },
{
    match ssh_keychain_url_from_form(form) {
        None => Err("Enter host, username, and port first.".to_owned()),
        Some((url, user)) => if form.password.as_str().is_empty() {
            Err("Enter a password to save.".to_owned())
        } else {
            Ok((url, user))
        },
    }
}

/// The address whose saved password is deleted, or why none is.
pub fn delete_saved_password(form: &ServerForm) -> (r: Result<String, String>)
    ensures
        match r {
            Ok(url) => keychain_url(form@) is Some && url@ == (keychain_url(form@)->0).0,
            Err(message) => keychain_url(form@) is None && message@
                == "Enter host, username, and port first."@,
        },
{
    match ssh_keychain_url_from_form(form) {
        None => Err("Enter host, username, and port first.".to_owned()),
        Some((url, _)) => Ok(url),
    }
}

/// A password is never read twice for one address while that address stays:
/// once something is known of it, a change of the form that leaves the address
/// as it is asks for nothing and changes nothing.
pub proof fn known_password_is_not_read_again(s: PasswordStateView, f: ServerFormView, g: ServerFormView)
    requires
        keychain_url(f) is Some,
        keychain_url(g) is Some,
        (keychain_url(f)->0).0 == (keychain_url(g)->0).0,
    ensures
        refreshed(refreshed(s, f).0, g) == (refreshed(s, f).0, None::<(Seq<char>, bool)>),
{
}

// ---------------------------------------------------------------------------
// What the form says

/// A text with an `@` in it is a user and a host: what stands before the last
/// one and what stands behind it, where both are there.
pub proof fn last_at_parts_user_and_host(user: Seq<char>, host: Seq<char>)
    requires
        user.len() > 0,
        host.len() > 0,
        !is_space(user[0]),
        !is_space(host.last()),
        forall|k: int| 0 <= k < host.len() ==> #[trigger] host[k] != '@',
    ensures
        user_and_host(user.push('@') + host) == Some((user, host)),
        user_and_host(host) is None,
        user_and_host(user.push('@')) is None,
        user_and_host(seq!['@'] + host) is None,
{
    let all = user.push('@') + host;
    trimmed_is_itself(all);
    assert(all.last() == host.last());
    crate::text::cut_last_at(all, '@', user.len() as int);
    assert(all.take(user.len() as int) =~= user);
    assert(all.skip(user.len() as int + 1) =~= host);
    let s = trimmed(host);
    crate::text::trimmed_has_no_outer_space(host);
    trimmed_holds_nothing_new(host, '@');
    crate::text::cut_last_at(s, '@', -1);
    let only = user.push('@');
    trimmed_is_itself(only);
    crate::text::cut_last_at(only, '@', user.len() as int);
    assert(only.skip(user.len() as int + 1) =~= Seq::empty());
    let behind = seq!['@'] + host;
    trimmed_is_itself(behind);
    assert(behind.last() == host.last());
    crate::text::cut_last_at(behind, '@', 0);
    assert(behind.take(0) =~= Seq::empty());
}

proof fn trimmed_is_itself(s: Seq<char>)
    requires
        s.len() > 0 ==> !is_space(s[0]) && !is_space(s.last()),
    ensures
        trimmed(s) == s,
{
}

proof fn trimmed_holds_nothing_new(s: Seq<char>, c: char)
    requires
        forall|k: int| 0 <= k < s.len() ==> #[trigger] s[k] != c,
    ensures
        forall|k: int| 0 <= k < trimmed(s).len() ==> #[trigger] trimmed(s)[k] != c,
{
    start_holds_nothing_new(s, c);
    end_holds_nothing_new(crate::text::trimmed_start(s), c);
}

proof fn start_holds_nothing_new(s: Seq<char>, c: char)
    requires
        forall|k: int| 0 <= k < s.len() ==> #[trigger] s[k] != c,
    ensures
        forall|k: int|
            0 <= k < crate::text::trimmed_start(s).len() ==> #[trigger] crate::text::trimmed_start(
                s,
            )[k] != c,
    decreases s.len(),
{
    if s.len() > 0 && is_space(s[0]) {
        assert forall|k: int| 0 <= k < s.skip(1).len() implies #[trigger] s.skip(1)[k] != c by {
            assert(s.skip(1)[k] == s[k + 1]);
        }
        start_holds_nothing_new(s.skip(1), c);
        let t = crate::text::trimmed_start(s.skip(1));
        assert(crate::text::trimmed_start(s) == t);
        assert forall|k: int| 0 <= k < t.len() implies #[trigger] crate::text::trimmed_start(s)[k]
            != c by {
            assert(crate::text::trimmed_start(s.skip(1))[k] != c);
        }
    }
}

proof fn end_holds_nothing_new(s: Seq<char>, c: char)
    requires
        forall|k: int| 0 <= k < s.len() ==> #[trigger] s[k] != c,
    ensures
        forall|k: int|
            0 <= k < crate::text::trimmed_end(s).len() ==> #[trigger] crate::text::trimmed_end(s)[k]
                != c,
    decreases s.len(),
{
    if s.len() > 0 && is_space(s.last()) {
        assert forall|k: int| 0 <= k < s.drop_last().len() implies #[trigger] s.drop_last()[k]
            != c by {
            assert(s.drop_last()[k] == s[k]);
        }
        end_holds_nothing_new(s.drop_last(), c);
        let t = crate::text::trimmed_end(s.drop_last());
        assert(crate::text::trimmed_end(s) == t);
        assert forall|k: int| 0 <= k < t.len() implies #[trigger] crate::text::trimmed_end(s)[k]
            != c by {
            assert(crate::text::trimmed_end(s.drop_last())[k] != c);
        }
    }
}

/// A user that is entered stands before one in the host, and the host is then
/// taken whole; without one the host is parted at its last `@`.
pub proof fn entered_user_goes_first(f: ServerFormView, user: Seq<char>, host: Seq<char>)
    ensures
        trimmed(f.username).len() > 0 ==> form_address(f).0 == trimmed(f.host) && form_address(f).1
            == Some(trimmed(f.username)),
        trimmed(f.username).len() == 0 && user_and_host(trimmed(f.host)) == Some((user, host))
            ==> form_address(f).0 == host && form_address(f).1 == Some(user),
        trimmed(f.username).len() == 0 && user_and_host(trimmed(f.host)) is None
            ==> form_address(f).0 == trimmed(f.host) && form_address(f).1 is None,
{
}

/// A port is a number from 1 to 65535, or not entered at all.
pub proof fn ports_are_checked(text: Seq<char>, port: u16)
    requires
        port > 0,
    ensures
        form_port(decimal(port as nat)) == Ok::<Option<u16>, Seq<char>>(Some(port)),
        trimmed(text).len() == 0 ==> form_port(text) == Ok::<Option<u16>, Seq<char>>(None),
        trimmed(text).len() > 0 && spelled_port(trimmed(text)) is None ==> form_port(text) == Err::<
            Option<u16>,
            Seq<char>,
        >("Port must be a number"@),
        spelled_port(trimmed(text)) == Some(0u16) && trimmed(text).len() > 0 ==> form_port(text)
            == Err::<Option<u16>, Seq<char>>("Port must be between 1 and 65535"@),
        form_port(text) matches Ok(Some(p)) ==> p > 0 && spelled_port(trimmed(text)) == Some(p),
{
    crate::text::written_port_is_read_back(port);
    crate::text::decimal_spells(port as nat);
    let s = decimal(port as nat);
    assert(crate::text::is_digit(s[0]));
    assert(crate::text::is_digit(s[s.len() - 1]));
    trimmed_is_itself(s);
}

/// The file of the identity and the host to jump over are handed to `ssh`
/// behind their options, each where it is entered.
pub proof fn identity_and_jump_are_arguments(identity: Seq<char>, jump: Seq<char>)
    requires
        identity.len() > 0,
        jump.len() > 0,
    ensures
        ({
            let both = form_args(identity, jump);
            let first = form_args(identity, Seq::empty());
            let second = form_args(Seq::empty(), jump);
            &&& both.len() == 4 && both[0] == "-i"@ && both[1] == identity
            &&& both[2] == "-J"@ && both[3] == jump
            &&& first.len() == 2 && first[0] == "-i"@ && first[1] == identity
            &&& second.len() == 2 && second[0] == "-J"@ && second[1] == jump
            &&& form_args(Seq::empty(), Seq::empty()).len() == 0
        }),
{
}

/// The options of a form hold what was entered, without the space around it;
/// the password is taken as it stands. What was left empty is left out, but for
/// the name, which is then made of the address.
pub proof fn options_hold_what_was_entered(f: ServerFormView)
    ensures
        ({
            let o = form_options(f);
            let forwards = forwards_of(trimmed(f.port_forwards)).0;
            &&& (o.host, o.username) == form_address(f)
            &&& form_port(f.port) matches Ok(p) ==> o.port == p
            &&& trimmed(f.nickname).len() > 0 ==> o.nickname == Some(trimmed(f.nickname))
            &&& trimmed(f.nickname).len() == 0 ==> o.nickname == default_nickname(
                o.host,
                o.username,
                o.port,
            )
            &&& f.password.len() > 0 ==> o.password == Some(f.password)
            &&& f.password.len() == 0 ==> o.password is None
            &&& o.args is None <==> trimmed(f.identity_file).len() == 0 && trimmed(f.jump_host).len()
                == 0
            &&& o.args matches Some(a) ==> a == form_args(
                trimmed(f.identity_file),
                trimmed(f.jump_host),
            )
            &&& forwards.len() > 0 ==> o.port_forwards == Some(forwards)
            &&& forwards.len() == 0 ==> o.port_forwards is None
            &&& o.connection_timeout is None && !o.upload_binary_over_ssh
        }),
{
}

/// A form is refused for a missing host, a bad port and bad port forwards, each
/// of them told, and for nothing else.
pub proof fn bad_forms_are_refused(f: ServerFormView)
    ensures
        ({
            let e = form_errors(f);
            &&& e.host is Some <==> trimmed(f.host).len() == 0
            &&& e.host matches Some(m) ==> m == "Host is required"@
            &&& e.port is Some <==> form_port(f.port) is Err
            &&& e.port matches Some(m) ==> form_port(f.port) == Err::<Option<u16>, Seq<char>>(m)
            &&& e.port_forwards == forwards_of(trimmed(f.port_forwards)).1
            &&& e == no_errors() <==> trimmed(f.host).len() > 0 && form_port(f.port) is Ok
                && forwards_of(trimmed(f.port_forwards)).1.len() == 0
        }),
{
    let e = form_errors(f);
    if e.port_forwards.len() == 0 {
        assert(e.port_forwards =~= Seq::empty());
    }
}

/// Port forwards may be parted by a comma, a semicolon or the end of a line:
/// those of a text with such a mark in it are those before it and those behind.
pub proof fn forwards_are_parted_by_marks(a: Seq<char>, mark: char, b: Seq<char>)
    requires
        mark == ',' || mark == ';' || mark == '\n',
    ensures
        forwards_of(a.push(mark) + b).0 == forwards_of(a).0 + forwards_of(b).0,
        forwards_of(a.push(mark) + b).1.len() == forwards_of(a).1.len() + forwards_of(b).1.len(),
{
    let sep = any_of(forward_marks());
    assert(forward_marks()[0] == ',' && forward_marks()[1] == '\n' && forward_marks()[2] == ';');
    assert(sep(mark));
    crate::ssh_config::pieces_of_joined(a, mark, b, sep);
    forwards_of_both(pieces(a, sep), pieces(b, sep));
}

proof fn forwards_of_both(a: Seq<Seq<char>>, b: Seq<Seq<char>>)
    ensures
        read_forwards(a + b).0 == read_forwards(a).0 + read_forwards(b).0,
        read_forwards(a + b).1.len() == read_forwards(a).1.len() + read_forwards(b).1.len(),
    decreases b.len(),
{
    if b.len() == 0 {
        assert(a + b =~= a);
        assert(read_forwards(a).0 + read_forwards(b).0 =~= read_forwards(a).0);
    } else {
        let head = b.drop_last();
        forwards_of_both(a, head);
        assert((a + b).drop_last() =~= a + head);
        assert((a + b).last() == b.last());
        assert(read_forwards(a + b).0 =~= read_forwards(a).0 + read_forwards(b).0);
    }
}

/// A port forward may stand behind `-L`, with space around it; one that cannot
/// be read is told with its number, and an empty one is passed over.
pub proof fn forwards_are_read_or_told(list: Seq<Seq<char>>, piece: Seq<char>, bare: Seq<char>)
    requires
        bare.len() > 0 ==> !is_space(bare.last()),
    ensures
        forward_text(seq!['-', 'L'] + bare) == trimmed(bare),
        trimmed(piece).len() == 0 ==> read_forwards(list.push(piece)) == read_forwards(list),
        trimmed(piece).len() > 0 ==> match forward_of(forward_text(piece)) {
            Ok(f) => read_forwards(list.push(piece)).0 == read_forwards(list).0.push(f)
                && read_forwards(list.push(piece)).1 == read_forwards(list).1,
            Err(e) => read_forwards(list.push(piece)).0 == read_forwards(list).0 && read_forwards(
                list.push(piece),
            ).1 == read_forwards(list).1.push(
                "Port forward "@ + decimal(list.len() + 1) + ": "@ + e,
            ),
        },
{
    reveal_strlit("-L");
    let s = seq!['-', 'L'] + bare;
    assert(s.last() == (if bare.len() > 0 {
        bare.last()
    } else {
        'L'
    }));
    trimmed_is_itself(s);
    assert("-L"@ =~= seq!['-', 'L']);
    assert(s.take(2) =~= "-L"@);
    assert(s.skip(2) =~= bare);
    assert(list.push(piece).drop_last() =~= list);
    assert(list.push(piece).last() == piece);
}

/// A port forward is shown as host, port, host, port with colons between, where
/// `localhost` stands for a host that is not named.
pub proof fn forwards_are_shown_in_four_parts(f: SshPortForwardOptionView)
    ensures
        f.local_host is Some && f.remote_host is Some ==> shown_forward(f)
            == f.local_host->0.push(':') + decimal(f.local_port as nat).push(':')
            + f.remote_host->0.push(':') + decimal(f.remote_port as nat),
        f.local_host is None ==> shown_forward(f) == shown_forward(
            (SshPortForwardOptionView { local_host: Some("localhost"@), ..f }),
        ),
        f.remote_host is None ==> shown_forward(f) == shown_forward(
            (SshPortForwardOptionView { remote_host: Some("localhost"@), ..f }),
        ),
{
    reveal_strlit(":");
    if f.local_host is Some && f.remote_host is Some {
        assert(shown_forward(f) =~= f.local_host->0.push(':') + decimal(f.local_port as nat).push(':')
            + f.remote_host->0.push(':') + decimal(f.remote_port as nat));
    }
}

/// Of the arguments of `ssh` the form shows the file behind `-i` and the host
/// behind `-J`, whether or not they stand in one word with the option; the last
/// of each counts, and other arguments are passed over.
pub proof fn arguments_are_read_one_by_one(
    v: Seq<char>,
    other: Seq<char>,
    rest: Seq<Seq<char>>,
    identity: Option<Seq<char>>,
    jump: Option<Seq<char>>,
)
    requires
        v.len() > 0,
        !(other.len() >= 2 && other[0] == '-' && (other[1] == 'i' || other[1] == 'J')),
    ensures
        read_args(seq!["-i"@, v] + rest, identity, jump) == read_args(rest, Some(v), jump),
        read_args(seq!["-J"@, v] + rest, identity, jump) == read_args(rest, identity, Some(v)),
        read_args(seq![seq!['-', 'i'] + v] + rest, identity, jump) == read_args(
            rest,
            Some(v),
            jump,
        ),
        read_args(seq![seq!['-', 'J'] + v] + rest, identity, jump) == read_args(
            rest,
            identity,
            Some(v),
        ),
        read_args(seq![other] + rest, identity, jump) == read_args(rest, identity, jump),
        read_args(Seq::empty(), identity, jump) == (identity, jump),
{
    reveal_strlit("-i");
    reveal_strlit("-J");
    assert("-i"@ =~= seq!['-', 'i']);
    assert("-J"@ =~= seq!['-', 'J']);
    assert((seq!["-i"@, v] + rest).skip(2) =~= rest);
    assert((seq!["-J"@, v] + rest).skip(2) =~= rest);
    let a = seq!['-', 'i'] + v;
    let b = seq!['-', 'J'] + v;
    assert(a.take(2) =~= "-i"@);
    assert(b.take(2) =~= "-J"@);
    assert(b.take(2)[1] != "-i"@[1]);
    assert(a.skip(2) =~= v);
    assert(b.skip(2) =~= v);
    assert((seq![a] + rest).skip(1) =~= rest);
    assert((seq![b] + rest).skip(1) =~= rest);
    assert((seq![other] + rest).skip(1) =~= rest);
    assert("-J"@[1] != "-i"@[1]);
    if begins(other, "-i"@) {
        assert(other.take(2)[0] == '-' && other.take(2)[1] == 'i');
    }
    if begins(other, "-J"@) {
        assert(other.take(2)[0] == '-' && other.take(2)[1] == 'J');
    }
}

/// A form that is filled from a saved server shows its name, its address and
/// its port forwards, and nothing for what it does not have. The further fields
/// are shown where one of them is filled.
pub proof fn filled_forms_show_the_server(filled: FilledForm, c: SshConnectionView)
    requires
        shows(filled, c),
    ensures
        filled.host@ == c.host,
        c.nickname matches Some(n) ==> filled.nickname@ == n,
        c.nickname is None ==> filled.nickname@.len() == 0,
        c.username matches Some(u) ==> filled.username@ == u,
        c.username is None ==> filled.username@.len() == 0,
        c.port matches Some(p) ==> filled.port@ == decimal(p as nat),
        c.port is None ==> filled.port@.len() == 0,
        c.port_forwards matches Some(list) ==> filled.port_forwards@ == shown_forwards(list),
        c.port_forwards is None ==> filled.port_forwards@.len() == 0,
        read_args(c.args, None, None).0 matches Some(i) ==> filled.identity_file@ == i
            && filled.show_advanced,
        read_args(c.args, None, None).1 matches Some(j) ==> filled.jump_host@ == j
            && filled.show_advanced,
        c.port_forwards matches Some(list) ==> list.len() > 0 ==> filled.show_advanced,
        filled.show_advanced ==> read_args(c.args, None, None).0 is Some || read_args(
            c.args,
            None,
            None,
        ).1 is Some || c.port_forwards is Some,
{
}

/// What the configuration says of a host fills the user and the port that are
/// still empty, and nothing else; the errors that this mends are gone.
pub proof fn defaults_fill_what_is_empty(
    f: ServerFormView,
    errors: CreateRemoteServerFormErrorsView,
    entry: SshConfigEntryView,
)
    ensures
        ({
            let (g, e) = defaults_taken(f, errors, entry);
            &&& g.host == f.host && g.nickname == f.nickname && g.password == f.password
            &&& g.identity_file == f.identity_file && g.jump_host == f.jump_host
            &&& g.port_forwards == f.port_forwards
            &&& trimmed(f.username).len() > 0 || entry.user is None ==> g.username == f.username
            &&& trimmed(f.username).len() == 0 ==> (entry.user matches Some(u) ==> g.username == u)
            &&& trimmed(f.port).len() > 0 || entry.port is None ==> g.port == f.port && e.port
                == errors.port
            &&& trimmed(f.port).len() == 0 ==> (entry.port matches Some(p) ==> g.port == decimal(
                p as nat,
            ) && e.port is None)
            &&& e.host is None && e.port_forwards == errors.port_forwards
        }),
{
}

/// A command line gives a server its name by its address where it names none,
/// and nothing else is changed.
pub proof fn commands_name_their_servers(o: SshConnectionOptionsView)
    ensures
        o.nickname is Some ==> named_options(o) == o,
        o.nickname is None ==> named_options(o).nickname == default_nickname(
            o.host,
            o.username,
            o.port,
        ),
        (SshConnectionOptionsView { nickname: o.nickname, ..named_options(o) }) == o,
{
}

/// Building the server is switched off by one of four words alone.
pub proof fn building_is_on_by_default(value: Seq<char>)
    ensures
        builds_server(None),
        builds_server(Some(value)) <==> !(value == seq!['f', 'a', 'l', 's', 'e'] || value == seq![
            'n',
            'o',
        ] || value == seq!['o', 'f', 'f'] || value == seq!['0']),
{
    reveal_strlit("false");
    reveal_strlit("no");
    reveal_strlit("off");
    reveal_strlit("0");
    assert("false"@ =~= seq!['f', 'a', 'l', 's', 'e']);
    assert("no"@ =~= seq!['n', 'o']);
    assert("off"@ =~= seq!['o', 'f', 'f']);
    assert("0"@ =~= seq!['0']);
}

/// A password is kept under the user and the address, and only where host, user
/// and port have been entered. It does not depend on anything else in the form.
pub proof fn passwords_are_kept_by_address(f: ServerFormView, g: ServerFormView)
    ensures
        keychain_url(f) is Some <==> trimmed(f.host).len() > 0 && trimmed(f.port).len() > 0
            && form_address(f).1 is Some,
        keychain_url(f) matches Some((url, user)) ==> Some(user) == form_address(f).1 && begins(
            url,
            "ssh://"@,
        ),
        f.host == g.host && f.username == g.username && f.port == g.port ==> keychain_url(f)
            == keychain_url(g),
{
    if keychain_url(f) is Some {
        let url = (keychain_url(f)->0).0;
        assert(url.take("ssh://"@.len() as int) =~= "ssh://"@);
    }
}

/// A change of the form asks the keychain once for each address: not where the
/// address is not complete, and not again where the answer is known. A password
/// is filled in by itself only into an empty field, and once for an address.
pub proof fn keychain_is_asked_once(s: PasswordStateView, f: ServerFormView)
    ensures
        ({
            let (t, ask) = refreshed(s, f);
            &&& t.visible == s.visible
            &&& keychain_url(f) is None ==> ask is None && t.status is Unknown && t.url is None
            &&& keychain_url(f) matches Some((url, _)) ==> {
                let known = s.url == Some(url) && !(s.status is Unknown);
                &&& t.url == Some(url)
                &&& ask is None <==> known
                &&& known ==> t == s
                &&& !known ==> t.status is Loading
                &&& ask matches Some((u, fill)) ==> u == url && (fill <==> f.password.len() == 0
                    && s.autoload_url != Some(url)) && (fill ==> t.autoload_url == Some(url)) && (
                !fill ==> t.autoload_url == s.autoload_url)
            }
        }),
{
}

/// What the keychain answers is shown as what it is.
pub proof fn answers_are_told(bytes: Vec<u8>)
    ensures
        answered_status(KeychainAnswer::Missing) is NotSaved,
        answered_message(KeychainAnswer::Missing) == "No saved password for this host."@,
        answered_status(KeychainAnswer::Failed) is Error,
        answered_message(KeychainAnswer::Failed) == "Failed to read saved password."@,
        vstd::utf8::valid_utf8(bytes@) ==> answered_status(KeychainAnswer::Found(bytes)) is Saved
            && answered_message(KeychainAnswer::Found(bytes)) == "Password loaded from keychain."@,
        !vstd::utf8::valid_utf8(bytes@) ==> answered_status(KeychainAnswer::Found(bytes)) is Error
            && answered_message(KeychainAnswer::Found(bytes))
            == "Saved password is not valid UTF-8."@,
{
}

/// Starting the server may take a minute and a half, or six minutes where it is
/// built first.
pub proof fn starting_takes_its_time()
    ensures
        START_PROXY_TIMEOUT_SECS == 90,
        START_PROXY_TIMEOUT_WITH_BUILD_SECS == 6 * 60,
{
}

} // verus!
