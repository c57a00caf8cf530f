//! The page on which an SSH server is added, as it is shown: what it offers
//! from the settings and the SSH configuration.
use crate::connection::{
    shown_connection, ssh_options_follow_the_model, ssh_options_view, SshConnection,
    SshConnectionOptions, SshConnectionView,
};
use crate::create_state::{
    password_refreshed, port_filled, turned, usual_port, CreateRemoteServer, CreateView,
    QuickPickTab,
};
use crate::model::{models, models_push, same_u16, Model};
use crate::remote_entries::{
    finds, followed_by, followed_by_paths, host_is_saved, not_saved, port_text, query_finds,
    search_text, RemoteEntry, RemoteEntryView,
};
use crate::servers_page::{page_count, page_end, page_start, total_pages};
use crate::settings::{is_server, RemoteSettings, RemoteSettingsView};
use crate::ssh_config::{SshConfigEntries, SshConfigEntryView};
use crate::ssh_form::{
    identity_and_jump, keychain_url, read_args, refreshed, show_forward, shown_forward,
    ssh_keychain_url_from_form, KeychainRead, PasswordKeychainStatus,
    ServerFormView,
};
use crate::text::{
    decimal, decimal_of, join, joined, lowercase, opt_text, position_of, push_str, same_opt,
    same_text, texts, trim_text, trimmed, unicode_lower,
};
use vstd::prelude::*;
use vstd::string::*;

verus! {

// ---------------------------------------------------------------------------
// What is offered

/// How many saved connections or hosts are shown at a time.
pub const SAVED_CONNECTIONS_LIMIT: usize = 5;

/// How many earlier entries a field offers.
pub const HISTORY_MENU_LIMIT: usize = 10;

/// The saved connections without repetitions: of those with one host, user and
/// port, the first.
pub open spec fn deduped(list: Seq<SshConnectionView>) -> Seq<SshConnectionView>
    decreases list.len(),
{
    if list.len() == 0 {
        Seq::empty()
    } else {
        let head = deduped(list.drop_last());
        let last = list.last();
        if has_server(head, last) {
            head
        } else {
            head.push(last)
        }
    }
}

/// Whether a list holds a connection to the server of another one.
pub open spec fn has_server(list: Seq<SshConnectionView>, c: SshConnectionView) -> bool {
    exists|i: int|
        0 <= i < list.len() && is_server(c.host, c.username, c.port)(#[trigger] list[i])
}

fn holds_server(list: &Vec<SshConnection>, c: &SshConnection) -> (r: bool)
    ensures
        r == has_server(models(list@), c@),
{
    let ghost p = is_server(c@.host, c@.username, c@.port);
    let mut i: usize = 0;
    while i < list.len()
        invariant
            i <= list.len(),
            p == is_server(c@.host, c@.username, c@.port),
            forall|k: int| 0 <= k < i ==> !p(#[trigger] models(list@)[k]),
        decreases list.len() - i,
    {
        let s = &list[i];
        if same_text(s.host.as_str(), c.host.as_str()) && same_opt(&s.username, &c.username)
            && same_u16(s.port, c.port) {
            assert(p(models(list@)[i as int]));
            return true;
        }
        assert(!p(models(list@)[i as int]));
        i = i + 1;
    }
    false
}

/// The saved connections without repetitions.
pub fn dedup_connections(list: &Vec<SshConnection>) -> (r: Vec<SshConnection>)
    ensures
        models(r@) == deduped(models(list@)),
{
    broadcast use models_push;

    let ghost all = models(list@);
    let mut out: Vec<SshConnection> = Vec::new();
    let mut i: usize = 0;
    assert(models(out@) =~= deduped(all.take(0)));
    while i < list.len()
        invariant
            i <= list.len(),
            all == models(list@),
            models(out@) == deduped(all.take(i as int)),
        decreases list.len() - i,
    {
        proof {
            assert(all.take(i + 1).drop_last() =~= all.take(i as int));
            assert(all.take(i + 1).last() == list@[i as int]@);
        }
        if !holds_server(&out, &list[i]) {
            out.push(list[i].dup());
        }
        i = i + 1;
    }
    assert(all.take(i as int) =~= all);
    out
}

/// Dropping repetitions leaves no server twice, takes nothing in that was not
/// there, and loses no server.
pub proof fn deduped_keeps_each_server_once(list: Seq<SshConnectionView>)
    ensures
        forall|i: int, j: int|
            0 <= i < j < deduped(list).len() ==> !is_server(
                (#[trigger] deduped(list)[j]).host,
                deduped(list)[j].username,
                deduped(list)[j].port,
            )(#[trigger] deduped(list)[i]),
        forall|i: int| 0 <= i < deduped(list).len() ==> list.contains(#[trigger] deduped(list)[i]),
        forall|i: int| 0 <= i < list.len() ==> has_server(deduped(list), #[trigger] list[i]),
    decreases list.len(),
{
    if list.len() > 0 {
        let head = list.drop_last();
        let last = list.last();
        let old = deduped(head);
        let new = deduped(list);
        deduped_keeps_each_server_once(head);
        assert forall|i: int, j: int| 0 <= i < j < new.len() implies !is_server(
            (#[trigger] new[j]).host,
            new[j].username,
            new[j].port,
        )(#[trigger] new[i]) by {
            assert(new[i] == old[i]);
            if j < old.len() {
                assert(new[j] == old[j]);
            } else {
                assert(!has_server(old, last));
            }
        }
        assert forall|i: int| 0 <= i < new.len() implies list.contains(#[trigger] new[i]) by {
            if i < old.len() {
                assert(new[i] == old[i]);
                let k = choose|k: int| 0 <= k < head.len() && head[k] == old[i];
                assert(list[k] == new[i]);
            } else {
                assert(list[list.len() - 1] == new[i]);
            }
        }
        assert forall|i: int| 0 <= i < list.len() implies has_server(new, #[trigger] list[i]) by {
            if i < head.len() {
                assert(head[i] == list[i]);
                let c = list[i];
                let p = is_server(c.host, c.username, c.port);
                let k = choose|k: int| 0 <= k < old.len() && p(#[trigger] old[k]);
                assert(new[k] == old[k]);
                assert(p(new[k]));
            } else if !has_server(old, last) {
                let p = is_server(last.host, last.username, last.port);
                assert(p(new[old.len() as int]));
            }
        }
    }
}

/// The different texts of a list, in the order in which they first occur.
pub open spec fn distinct(list: Seq<Seq<char>>) -> Seq<Seq<char>>
    decreases list.len(),
{
    if list.len() == 0 {
        Seq::empty()
    } else {
        let head = distinct(list.drop_last());
        if head.contains(list.last()) {
            head
        } else {
            head.push(list.last())
        }
    }
}

/// The first of the different texts of a list.
pub open spec fn history(list: Seq<Seq<char>>) -> Seq<Seq<char>> {
    let d = distinct(list);
    if d.len() <= HISTORY_MENU_LIMIT {
        d
    } else {
        d.take(HISTORY_MENU_LIMIT as int)
    }
}

/// The first of the different texts of a list.
pub fn history_of(list: &Vec<String>) -> (r: Vec<String>)
    ensures
        texts(r@) == history(texts(list@)),
{
    let ghost all = texts(list@);
    let mut out: Vec<String> = Vec::new();
    let mut i: usize = 0;
    assert(texts(out@) =~= history(all.take(0)));
    while i < list.len()
        invariant
            i <= list.len(),
            all == texts(list@),
            texts(out@) == history(all.take(i as int)),
        decreases list.len() - i,
    {
        let ghost d = distinct(all.take(i as int));
        proof {
            assert(all.take(i + 1).drop_last() =~= all.take(i as int));
            assert(all.take(i + 1).last() == list@[i as int]@);
        }
        if out.len() < HISTORY_MENU_LIMIT {
            match position_of(&out, list[i].as_str()) {
                Some(k) => {
                    assert(texts(out@)[k as int] == list@[i as int]@);
                },
                None => {
                    push_str(&mut out, list[i].as_str());
                },
            }
        } else {
            assert(history(all.take(i + 1)) =~= history(all.take(i as int)));
        }
        i = i + 1;
    }
    assert(all.take(i as int) =~= all);
    out
}

/// The hosts of connections.
pub open spec fn hosts_of(list: Seq<SshConnectionView>) -> Seq<Seq<char>> {
    Seq::new(list.len(), |i: int| list[i].host)
}

/// The users of connections, where they have one.
pub open spec fn users_of(list: Seq<SshConnectionView>) -> Seq<Seq<char>>
    decreases list.len(),
{
    if list.len() == 0 {
        Seq::empty()
    } else {
        match list.last().username {
            Some(u) => users_of(list.drop_last()).push(u),
            None => users_of(list.drop_last()),
        }
    }
}

/// The ports of connections, where they have one.
pub open spec fn ports_of(list: Seq<SshConnectionView>) -> Seq<Seq<char>>
    decreases list.len(),
{
    if list.len() == 0 {
        Seq::empty()
    } else {
        match list.last().port {
            Some(p) => ports_of(list.drop_last()).push(decimal(p as nat)),
            None => ports_of(list.drop_last()),
        }
    }
}

fn collect_fields(list: &Vec<SshConnection>) -> (r: (Vec<String>, Vec<String>, Vec<String>))
    ensures
        texts(r.0@) == hosts_of(models(list@)),
        texts(r.1@) == users_of(models(list@)),
        texts(r.2@) == ports_of(models(list@)),
{
    let ghost all = models(list@);
    let mut hosts: Vec<String> = Vec::new();
    let mut users: Vec<String> = Vec::new();
    let mut ports: Vec<String> = Vec::new();
    let mut i: usize = 0;
    proof {
        assert(texts(hosts@) =~= hosts_of(all.take(0)));
        assert(texts(users@) =~= Seq::empty());
        assert(texts(ports@) =~= Seq::empty());
    }
    while i < list.len()
        invariant
            i <= list.len(),
            all == models(list@),
            texts(hosts@) == hosts_of(all.take(i as int)),
            texts(users@) == users_of(all.take(i as int)),
            texts(ports@) == ports_of(all.take(i as int)),
        decreases list.len() - i,
    {
        let c = &list[i];
        proof {
            assert(all.take(i + 1).drop_last() =~= all.take(i as int));
            assert(all.take(i + 1).last() == c@);
            assert(hosts_of(all.take(i + 1)) =~= hosts_of(all.take(i as int)).push(c@.host));
        }
        push_str(&mut hosts, c.host.as_str());
        if let Some(u) = &c.username {
            push_str(&mut users, u.as_str());
        }
        if let Some(p) = c.port {
            push_str(&mut ports, decimal_of(p as u64).as_str());
        }
        i = i + 1;
    }
    assert(all.take(i as int) =~= all);
    (hosts, users, ports)
}

// ---------------------------------------------------------------------------
// The SSH configuration

/// What the SSH configuration says of a host, in parts.
pub open spec fn hint_parts(e: SshConfigEntryView) -> Seq<Seq<char>> {
    let user = match e.user {
        Some(u) => seq!["user "@ + u],
        None => Seq::empty(),
    };
    let port = match e.port {
        Some(p) => seq!["port "@ + decimal(p as nat)],
        None => Seq::empty(),
    };
    let host = match e.hostname {
        Some(h) => seq!["host "@ + h],
        None => Seq::empty(),
    };
    user + port + host
}

/// What is shown of the host in the form, where the SSH configuration is read
/// and says something of it.
pub open spec fn config_hint(
    read_ssh_config: bool,
    host: Seq<char>,
    entries: Map<Seq<char>, SshConfigEntryView>,
) -> Option<Seq<char>> {
    if read_ssh_config && entries.dom().contains(host) {
        let parts = hint_parts(entries[host]);
        if parts.len() == 0 {
            Some("From SSH config"@)
        } else {
            Some("From SSH config: "@ + joined(parts, ", "@))
        }
    } else {
        None
    }
}

/// What is shown of the host in the form.
pub fn ssh_config_hint(read_ssh_config: bool, host: &str, entries: &SshConfigEntries) -> (r: Option<
    String,
>)
    requires
        entries.wf(),
    ensures
        opt_text(r) == config_hint(read_ssh_config, host@, entries@),
{
    if !read_ssh_config {
        return None;
    }
    match entries.get(host) {
        None => None,
        Some(e) => {
            let mut parts: Vec<String> = Vec::new();
            if let Some(u) = &e.user {
                let mut s = "user ".to_owned();
                s.append(u.as_str());
                push_str(&mut parts, s.as_str());
            }
            if let Some(p) = e.port {
                let mut s = "port ".to_owned();
                s.append(decimal_of(p as u64).as_str());
                push_str(&mut parts, s.as_str());
            }
            if let Some(h) = &e.hostname {
                let mut s = "host ".to_owned();
                s.append(h.as_str());
                push_str(&mut parts, s.as_str());
            }
            assert(texts(parts@) =~= hint_parts(e@));
            if parts.len() == 0 {
                Some("From SSH config".to_owned())
            } else {
                let mut out = "From SSH config: ".to_owned();
                out.append(join(&parts, ", ").as_str());
                Some(out)
            }
        },
    }
}

/// How a host of the SSH configuration is reached, as it is shown: with the
/// usual user and port where none is given.
pub open spec fn config_detail(
    host: Seq<char>,
    entries: Map<Seq<char>, SshConfigEntryView>,
) -> Seq<char> {
    if entries.dom().contains(host) {
        let e = entries[host];
        let user = match e.user {
            Some(u) => u,
            None => "user"@,
        };
        let name = match e.hostname {
            Some(h) => h,
            None => e.host,
        };
        let port = match e.port {
            Some(p) => decimal(p as nat),
            None => decimal(22),
        };
        user + "@"@ + name + ":"@ + port
    } else {
        host
    }
}

/// How a host of the SSH configuration is reached, as it is shown.
pub fn ssh_config_detail(host: &str, entries: &SshConfigEntries) -> (r: String)
    requires
        entries.wf(),
    ensures
        r@ == config_detail(host@, entries@),
{
    match entries.get(host) {
        None => host.to_owned(),
        Some(e) => {
            let mut out = match &e.user {
                Some(u) => u.clone(),
                None => "user".to_owned(),
            };
            out.append("@");
            match &e.hostname {
                Some(h) => out.append(h.as_str()),
                None => out.append(e.host.as_str()),
            }
            out.append(":");
            let port: u64 = match e.port {
                Some(p) => p as u64,
                None => 22,
            };
            out.append(decimal_of(port).as_str());
            out
        },
    }
}

/// The command that reaches a host of the SSH configuration.
pub fn config_host_command(host: &str) -> (r: String)
    ensures
        r@ == "ssh "@ + host@,
{
    let mut out = "ssh ".to_owned();
    out.append(host);
    out
}

// ---------------------------------------------------------------------------
// Saved connections

/// The port forwards of a connection as they are shown.
pub open spec fn forward_texts(c: SshConnectionView) -> Seq<Seq<char>> {
    match c.port_forwards {
        Some(list) => Seq::new(list.len(), |i: int| shown_forward(list[i])),
        None => Seq::empty(),
    }
}

/// The text in which a saved connection is searched.
pub open spec fn saved_search_text(c: SshConnectionView) -> Seq<char> {
    let names = followed_by(
        followed_by(followed_by(c.host, c.username), port_text(c.port)),
        c.nickname,
    );
    followed_by(
        followed_by_paths(followed_by_paths(names, c.args), forward_texts(c)),
        Some(shown_connection(ssh_options_view(c))),
    )
}

fn follow_all(text: &mut String, list: &Vec<String>)
    ensures
        final(text)@ == followed_by_paths(old(text)@, texts(list@)),
{
    let ghost start = text@;
    let ghost all = texts(list@);
    let mut i: usize = 0;
    while i < list.len()
        invariant
            i <= list.len(),
            all == texts(list@),
            text@ == followed_by_paths(start, all.take(i as int)),
        decreases list.len() - i,
    {
        text.push(' ');
        text.append(list[i].as_str());
        i = i + 1;
        proof {
            assert(all.take(i as int).drop_last() =~= all.take(i - 1));
            assert(all.take(i as int).last() == list@[i - 1]@);
        }
    }
    assert(all.take(i as int) =~= all);
}

fn forward_text_list(c: &SshConnection) -> (r: Vec<String>)
    ensures
        texts(r@) == forward_texts(c@),
{
    let mut out: Vec<String> = Vec::new();
    match &c.port_forwards {
        Some(list) => {
            let ghost all = forward_texts(c@);
            let mut i: usize = 0;
            assert(texts(out@) =~= all.take(0));
            while i < list.len()
                invariant
                    i <= list.len(),
                    c.port_forwards == Some(*list),
                    all == forward_texts(c@),
                    texts(out@) == all.take(i as int),
                decreases list.len() - i,
            {
                push_str(&mut out, show_forward(&list[i]).as_str());
                i = i + 1;
                assert(all.take(i as int) =~= all.take(i - 1).push(all[i - 1]));
            }
            assert(all.take(i as int) =~= all);
        },
        None => {
            assert(texts(out@) =~= Seq::empty());
        },
    }
    out
}

/// The text in which a saved connection is searched.
pub fn connection_search_text(c: &SshConnection) -> (r: String)
    ensures
        r@ == saved_search_text(c@),
{
    let mut out = c.host.clone();
    if let Some(u) = &c.username {
        out.push(' ');
        out.append(u.as_str());
    }
    if let Some(p) = c.port {
        out.push(' ');
        out.append(decimal_of(p as u64).as_str());
    }
    if let Some(n) = &c.nickname {
        out.push(' ');
        out.append(n.as_str());
    }
    follow_all(&mut out, &c.args);
    let forwards = forward_text_list(c);
    follow_all(&mut out, &forwards);
    let copy = c.dup();
    let options = SshConnectionOptions::from(copy);
    assert(options@ == ssh_options_view(c@)) by {
        broadcast use ssh_options_follow_the_model;

    }
    out.push(' ');
    out.append(options.connection_string().as_str());
    out
}

/// What is shown of a saved connection below its name: how it is reached, and
/// the identity file, the jump host and the number of port forwards.
pub open spec fn saved_detail(c: SshConnectionView) -> Seq<char> {
    let (identity, jump) = read_args(c.args, None, None);
    let a = match identity {
        Some(f) => seq!["identity "@ + f],
        None => Seq::empty(),
    };
    let b = match jump {
        Some(j) => seq!["jump "@ + j],
        None => Seq::empty(),
    };
    let d = match c.port_forwards {
        Some(list) => if list.len() > 0 {
            seq![decimal(list.len()) + " forwards"@]
        } else {
            Seq::empty()
        },
        None => Seq::empty(),
    };
    let extras = a + b + d;
    let reached = shown_connection(ssh_options_view(c));
    if extras.len() == 0 {
        reached
    } else {
        reached + " | "@ + joined(extras, " | "@)
    }
}

/// What is shown of a saved connection below its name.
pub fn connection_detail(c: &SshConnection) -> (r: String)
    ensures
        r@ == saved_detail(c@),
{
    let options = SshConnectionOptions::from(c.dup());
    assert(options@ == ssh_options_view(c@)) by {
        broadcast use ssh_options_follow_the_model;

    }
    let mut out = options.connection_string();
    let (identity, jump) = identity_and_jump(&c.args);
    let mut extras: Vec<String> = Vec::new();
    if let Some(f) = &identity {
        let mut s = "identity ".to_owned();
        s.append(f.as_str());
        push_str(&mut extras, s.as_str());
    }
    if let Some(j) = &jump {
        let mut s = "jump ".to_owned();
        s.append(j.as_str());
        push_str(&mut extras, s.as_str());
    }
    if let Some(list) = &c.port_forwards {
        if list.len() > 0 {
            let mut s = decimal_of(list.len() as u64);
            s.append(" forwards");
            push_str(&mut extras, s.as_str());
        }
    }
    let ghost d = match c@.port_forwards {
        Some(list) => if list.len() > 0 {
            seq![decimal(list.len()) + " forwards"@]
        } else {
            Seq::empty()
        },
        None => Seq::empty(),
    };
    let ghost parts = (match opt_text(identity) {
        Some(f) => seq!["identity "@ + f],
        None => Seq::empty(),
    }) + (match opt_text(jump) {
        Some(j) => seq!["jump "@ + j],
        None => Seq::empty(),
    }) + d;
    assert(texts(extras@) =~= parts);
    if extras.len() > 0 {
        out.append(" | ");
        out.append(join(&extras, " | ").as_str());
    }
    out
}

/// How a saved connection is called: by its nickname, or by its host.
pub open spec fn saved_title(c: SshConnectionView) -> Seq<char> {
    match c.nickname {
        Some(n) => n,
        None => c.host,
    }
}

// ---------------------------------------------------------------------------
// Quick picks

/// One line to pick.
#[derive(Clone, Debug, PartialEq, Eq)]
pub struct PickRow {
    pub title: String,
    pub detail: String,
}

/// What a list to pick from shows: the lines of one page, how many lines there
/// are in all, the pages, and what is said of the list.
#[derive(Clone, Debug, PartialEq, Eq)]
pub struct QuickPick {
    pub rows: Vec<PickRow>,
    pub total: usize,
    pub message: Option<String>,
    pub pager: Pager,
}

/// How a list to pick from is searched and turned over.
#[derive(Clone, Debug, PartialEq, Eq)]
pub struct Pager {
    pub total_pages: usize,
    pub page: usize,
    /// Which page is shown, where there are several.
    pub label: Option<String>,
    pub can_go_back: bool,
    pub can_go_on: bool,
    /// Whether a search is shown that can be cleared.
    pub can_clear_search: bool,
}

/// The page that is shown: the stored one, or the last where there are fewer.
pub open spec fn clamped_page(n: nat, stored: nat) -> nat {
    if page_count(n) == 0 {
        0
    } else if stored < page_count(n) {
        stored
    } else {
        (page_count(n) - 1) as nat
    }
}

/// The page that is shown, and the places of its first line and behind its
/// last.
pub fn page_range(n: usize, stored: usize) -> (r: (usize, usize, usize))
    ensures
        r.0 == clamped_page(n as nat, stored as nat),
        r.1 == page_start(n as nat, clamped_page(n as nat, stored as nat)),
        r.2 == page_end(n as nat, clamped_page(n as nat, stored as nat)),
        r.1 <= r.2 <= n,
        n > 0 ==> r.1 < r.2,
{
    let pages: usize = total_pages(n);
    let page: usize = if pages == 0 {
        0
    } else if stored < pages {
        stored
    } else {
        pages - 1
    };
    let start: usize = page * 5;
    let end: usize = if n - start > 5 {
        start + 5
    } else {
        n
    };
    (page, start, end)
}

/// Whether a pager shows the stored page of so many lines.
pub open spec fn pager_fits(p: Pager, n: nat, stored: nat, searching: bool) -> bool {
    let page = clamped_page(n, stored);
    &&& p.total_pages == page_count(n)
    &&& p.page == page
    &&& opt_text(p.label) == (if page_count(n) > 1 {
        Some("Page "@ + decimal(page + 1) + " of "@ + decimal(page_count(n)))
    } else {
        None
    })
    &&& p.can_go_back == (page > 0)
    &&& p.can_go_on == (page + 1 < page_count(n))
    &&& p.can_clear_search == searching
}

fn pager_of(n: usize, page: usize, searching: bool, Ghost(stored): Ghost<nat>) -> (r: Pager)
    requires
        page == clamped_page(n as nat, stored),
    ensures
        pager_fits(r, n as nat, stored, searching),
{
    let pages: usize = total_pages(n);
    let label = if pages > 1 {
        let mut out = "Page ".to_owned();
        out.append(decimal_of(page as u64 + 1).as_str());
        out.append(" of ");
        out.append(decimal_of(pages as u64).as_str());
        Some(out)
    } else {
        None
    };
    Pager {
        total_pages: pages,
        page,
        label,
        can_go_back: page > 0,
        can_go_on: pages > 0 && page < pages - 1,
        can_clear_search: searching,
    }
}

/// Picks the hosts that a search finds.
pub open spec fn host_found(
    query: Seq<char>,
    entries: Map<Seq<char>, SshConfigEntryView>,
) -> spec_fn(Seq<char>) -> bool {
    |h: Seq<char>|
        finds(query, unicode_lower(search_text(RemoteEntryView::SshConfig { host: h }, entries)))
}

/// The hosts of the SSH configuration to pick from: those under which no server
/// is saved and that the search finds.
pub open spec fn pickable_hosts(
    hosts: Seq<Seq<char>>,
    saved: Seq<SshConnectionView>,
    query: Seq<char>,
    entries: Map<Seq<char>, SshConfigEntryView>,
) -> Seq<Seq<char>> {
    hosts.filter(not_saved(saved)).filter(host_found(query, entries))
}

fn list_pickable_hosts(
    hosts: &Vec<String>,
    saved: &Vec<SshConnection>,
    query: &str,
    entries: &SshConfigEntries,
) -> (r: Vec<String>)
    requires
        entries.wf(),
    ensures
        texts(r@) == pickable_hosts(texts(hosts@), models(saved@), query@, entries@),
{
    let ghost all = texts(hosts@);
    let ghost p = not_saved(models(saved@));
    let ghost q = host_found(query@, entries@);
    let mut out: Vec<String> = Vec::new();
    let mut i: usize = 0;
    proof {
        reveal(Seq::filter);
        assert(texts(out@) =~= all.take(0).filter(p).filter(q));
    }
    while i < hosts.len()
        invariant
            i <= hosts.len(),
            entries.wf(),
            all == texts(hosts@),
            p == not_saved(models(saved@)),
            q == host_found(query@, entries@),
            texts(out@) == all.take(i as int).filter(p).filter(q),
        decreases hosts.len() - i,
    {
        let ghost h = all[i as int];
        proof {
            assert(all.take(i + 1) =~= all.take(i as int).push(h));
            crate::text::filter_push(all.take(i as int), h, p);
            if p(h) {
                crate::text::filter_push(all.take(i as int).filter(p), h, q);
            }
        }
        if !host_is_saved(saved, hosts[i].as_str()) {
            let entry = RemoteEntry::SshConfig { host: hosts[i].clone() };
            assert(entry@ == RemoteEntryView::SshConfig { host: h });
            if crate::remote_entries::matches_search_query(&entry, query, entries) {
                push_str(&mut out, hosts[i].as_str());
            }
        }
        i = i + 1;
    }
    assert(all.take(i as int) =~= all);
    out
}

/// Whether a list shows the hosts of the SSH configuration to pick from.
pub open spec fn shows_hosts(
    q: QuickPick,
    hosts: Seq<Seq<char>>,
    entries: Map<Seq<char>, SshConfigEntryView>,
    stored: nat,
    searching: bool,
) -> bool {
    let n = hosts.len();
    let page = clamped_page(n, stored);
    let start = page_start(n, page);
    &&& q.total == n
    &&& pager_fits(q.pager, n, stored, searching)
    &&& q.rows@.len() == page_end(n, page) - start
    &&& forall|i: int|
        0 <= i < q.rows@.len() ==> (#[trigger] q.rows@[i]).title@ == hosts[start + i]
            && q.rows@[i].detail@ == config_detail(hosts[start + i], entries)
    &&& opt_text(q.message) == (if n > 0 {
        None
    } else if searching {
        Some("No SSH config hosts match your search."@)
    } else {
        Some("No SSH config hosts found."@)
    })
}

/// The hosts of the SSH configuration to pick from, for a search in lower case.
pub fn pick_config_hosts(
    hosts: &Vec<String>,
    saved: &Vec<SshConnection>,
    query: &str,
    entries: &SshConfigEntries,
    stored_page: usize,
) -> (r: QuickPick)
    requires
        entries.wf(),
    ensures
        shows_hosts(
            r,
            pickable_hosts(texts(hosts@), models(saved@), query@, entries@),
            entries@,
            stored_page as nat,
            query@.len() > 0,
        ),
{
    let list = list_pickable_hosts(hosts, saved, query, entries);
    let ghost all = texts(list@);
    let n: usize = list.len();
    let (page, start, end) = page_range(n, stored_page);
    let mut rows: Vec<PickRow> = Vec::new();
    let mut k: usize = start;
    while k < end
        invariant
            start <= k <= end <= n,
            n == list.len(),
            all == texts(list@),
            entries.wf(),
            rows.len() == k - start,
            forall|i: int|
                0 <= i < rows.len() ==> (#[trigger] rows@[i]).title@ == all[start + i]
                    && rows@[i].detail@ == config_detail(all[start + i], entries@),
        decreases end - k,
    {
        rows.push(
            PickRow {
                title: list[k].clone(),
                detail: ssh_config_detail(list[k].as_str(), entries),
            },
        );
        k = k + 1;
    }
    let message = if n > 0 {
        None
    } else if query.is_empty() {
        Some("No SSH config hosts found.".to_owned())
    } else {
        Some("No SSH config hosts match your search.".to_owned())
    };
    let pager = pager_of(n, page, !query.is_empty(), Ghost(stored_page as nat));
    QuickPick { rows, total: n, message, pager }
}

/// Picks the saved connections that a search finds.
pub open spec fn saved_found(query: Seq<char>) -> spec_fn(SshConnectionView) -> bool {
    |c: SshConnectionView| finds(query, unicode_lower(saved_search_text(c)))
}

fn list_found(saved: &Vec<SshConnection>, query: &str) -> (r: Vec<SshConnection>)
    ensures
        models(r@) == models(saved@).filter(saved_found(query@)),
{
    broadcast use models_push;

    let ghost all = models(saved@);
    let ghost p = saved_found(query@);
    let mut out: Vec<SshConnection> = Vec::new();
    let mut i: usize = 0;
    proof {
        reveal(Seq::filter);
        assert(models(out@) =~= all.take(0).filter(p));
    }
    while i < saved.len()
        invariant
            i <= saved.len(),
            all == models(saved@),
            p == saved_found(query@),
            models(out@) == all.take(i as int).filter(p),
        decreases saved.len() - i,
    {
        proof {
            assert(all.take(i + 1) =~= all.take(i as int).push(all[i as int]));
            crate::text::filter_push(all.take(i as int), all[i as int], p);
        }
        let low = lowercase(connection_search_text(&saved[i]).as_str());
        if query_finds(query, low.as_str()) {
            out.push(saved[i].dup());
        }
        i = i + 1;
    }
    assert(all.take(i as int) =~= all);
    out
}

/// What is said of a list of saved connections: that there are none, or that
/// not all are shown.
pub open spec fn saved_message(n: nat, shown: nat, searching: bool) -> Option<Seq<char>> {
    if n == 0 {
        if searching {
            Some("No saved connections match your search."@)
        } else {
            Some("No saved connections yet."@)
        }
    } else if n > shown {
        Some(
            "Showing "@ + decimal(shown) + " of "@ + decimal(n) + if searching {
                " matching connections."@
            } else {
                " saved connections."@
            },
        )
    } else {
        None
    }
}

/// Whether a list shows saved connections.
pub open spec fn shows_saved(
    q: QuickPick,
    found: Seq<SshConnectionView>,
    stored: nat,
    searching: bool,
) -> bool {
    let n = found.len();
    let page = clamped_page(n, stored);
    let start = page_start(n, page);
    &&& q.total == n
    &&& pager_fits(q.pager, n, stored, searching)
    &&& q.rows@.len() == page_end(n, page) - start
    &&& forall|i: int|
        0 <= i < q.rows@.len() ==> (#[trigger] q.rows@[i]).title@ == saved_title(found[start + i])
            && q.rows@[i].detail@ == saved_detail(found[start + i])
    &&& opt_text(q.message) == saved_message(n, q.rows@.len(), searching)
}

/// The saved connections to pick from, for a search in lower case.
pub fn pick_saved_connections(saved: &Vec<SshConnection>, query: &str, stored_page: usize) -> (r:
    QuickPick)
    ensures
        shows_saved(
            r,
            models(saved@).filter(saved_found(query@)),
            stored_page as nat,
            query@.len() > 0,
        ),
{
    let list = list_found(saved, query);
    let ghost all = models(list@);
    let n: usize = list.len();
    let (page, start, end) = page_range(n, stored_page);
    let mut rows: Vec<PickRow> = Vec::new();
    let mut k: usize = start;
    while k < end
        invariant
            start <= k <= end <= n,
            n == list.len(),
            all == models(list@),
            rows.len() == k - start,
            forall|i: int|
                0 <= i < rows.len() ==> (#[trigger] rows@[i]).title@ == saved_title(all[start + i])
                    && rows@[i].detail@ == saved_detail(all[start + i]),
        decreases end - k,
    {
        let title = match &list[k].nickname {
            Some(name) => name.clone(),
            None => list[k].host.clone(),
        };
        rows.push(PickRow { title, detail: connection_detail(&list[k]) });
        k = k + 1;
    }
    let shown: usize = end - start;
    let message = if n == 0 {
        if query.is_empty() {
            Some("No saved connections yet.".to_owned())
        } else {
            Some("No saved connections match your search.".to_owned())
        }
    } else if n > shown {
        let mut out = "Showing ".to_owned();
        out.append(decimal_of(shown as u64).as_str());
        out.append(" of ");
        out.append(decimal_of(n as u64).as_str());
        if query.is_empty() {
            out.append(" saved connections.");
        } else {
            out.append(" matching connections.");
        }
        Some(out)
    } else {
        None
    };
    let pager = pager_of(n, page, !query.is_empty(), Ghost(stored_page as nat));
    QuickPick { rows, total: n, message, pager }
}

// ---------------------------------------------------------------------------
// The page

/// What can be done with the saved password, and what is said of it.
#[derive(Clone, Debug, PartialEq, Eq)]
pub struct PasswordControls {
    pub can_toggle: bool,
    pub can_use_saved: bool,
    pub can_save: bool,
    pub can_delete: bool,
    pub toggle_tooltip: String,
    pub status: String,
}

/// What is said of the saved password.
pub open spec fn password_status_text(ready: bool, status: PasswordKeychainStatus) -> Seq<char> {
    if !ready {
        "Enter host, username, and port to check keychain."@
    } else {
        match status {
            PasswordKeychainStatus::Unknown => "Stored in the system keychain."@,
            PasswordKeychainStatus::Loading => "Checking keychain..."@,
            PasswordKeychainStatus::Saved => "Saved in keychain."@,
            PasswordKeychainStatus::NotSaved => "Not saved."@,
            PasswordKeychainStatus::Error => "Keychain error."@,
        }
    }
}

/// Whether the controls of the password fit a page.
pub open spec fn controls_fit(c: PasswordControls, s: CreateView) -> bool {
    let ready = keychain_url(s.form) is Some;
    let busy = s.has_prompt || s.creating;
    let empty = s.form.password.len() == 0;
    &&& c.can_toggle == !busy
    &&& c.can_use_saved == (ready && empty && !busy)
    &&& c.can_save == (ready && !empty && !busy)
    &&& c.can_delete == (ready && !busy)
    &&& c.toggle_tooltip@ == (if s.password.visible {
        "Hide password"@
    } else {
        "Show password"@
    })
    &&& c.status@ == password_status_text(ready, s.password.status)
}

/// What can be done with the saved password, and what is said of it.
pub fn password_controls(state: &CreateRemoteServer) -> (r: PasswordControls)
    ensures
        controls_fit(r, state@),
{
    let ready = ssh_keychain_url_from_form(&state.form).is_some();
    let busy = state.has_prompt || state.creating;
    let empty = state.form.password.as_str().is_empty();
    let status = if !ready {
        "Enter host, username, and port to check keychain.".to_owned()
    } else {
        match state.password.status {
            PasswordKeychainStatus::Unknown => "Stored in the system keychain.".to_owned(),
            PasswordKeychainStatus::Loading => "Checking keychain...".to_owned(),
            PasswordKeychainStatus::Saved => "Saved in keychain.".to_owned(),
            PasswordKeychainStatus::NotSaved => "Not saved.".to_owned(),
            PasswordKeychainStatus::Error => "Keychain error.".to_owned(),
        }
    };
    PasswordControls {
        can_toggle: !busy,
        can_use_saved: ready && empty && !busy,
        can_save: ready && !empty && !busy,
        can_delete: ready && !busy,
        toggle_tooltip: if state.password.visible {
            "Hide password".to_owned()
        } else {
            "Show password".to_owned()
        },
        status,
    }
}

/// What stands below the form.
#[derive(Clone, Debug, PartialEq, Eq)]
pub enum LowerPart {
    /// The question of the connection.
    Prompt,
    /// What is wrong with the command line.
    AddressError(String),
    /// A list to pick from.
    Pick(QuickPickTab, QuickPick),
}

/// What the page shows.
#[derive(Clone, Debug, PartialEq, Eq)]
pub struct CreatePage {
    pub host_history: Vec<String>,
    pub username_history: Vec<String>,
    pub port_history: Vec<String>,
    pub config_hint: Option<String>,
    pub password: PasswordControls,
    /// Whether the buttons that save and connect can be pressed.
    pub buttons_enabled: bool,
    /// Whether there are saved connections to delete.
    pub can_delete_all: bool,
    pub lower: LowerPart,
}

/// The list to pick from: hosts of the SSH configuration only where it is read.
pub open spec fn effective_tab(s: CreateView, read_ssh_config: bool) -> QuickPickTab {
    if read_ssh_config {
        s.quick_pick_tab
    } else {
        QuickPickTab::SavedConnections
    }
}

/// Whether what stands below the form fits a page.
pub open spec fn lower_fits(
    lower: LowerPart,
    s: CreateView,
    settings: RemoteSettingsView,
    hosts: Seq<Seq<char>>,
    entries: Map<Seq<char>, SshConfigEntryView>,
) -> bool {
    let saved = deduped(settings.ssh_connections);
    let host_query = unicode_lower(trimmed(s.ssh_config_search));
    let saved_query = unicode_lower(trimmed(s.saved_connections_search));
    if s.has_prompt {
        lower is Prompt
    } else if s.address_error is Some {
        lower is AddressError && lower->AddressError_0@ == s.address_error->0
    } else {
        &&& lower is Pick
        &&& lower->Pick_0 == effective_tab(s, settings.read_ssh_config)
        &&& match lower->Pick_0 {
            QuickPickTab::SshConfig => shows_hosts(
                lower->Pick_1,
                pickable_hosts(hosts, saved, host_query, entries),
                entries,
                s.ssh_config_hosts_page as nat,
                host_query.len() > 0,
            ),
            QuickPickTab::SavedConnections => shows_saved(
                lower->Pick_1,
                saved.filter(saved_found(saved_query)),
                s.saved_connections_page as nat,
                saved_query.len() > 0,
            ),
        }
    }
}

/// Whether a page is what is shown of a state.
pub open spec fn create_page_is(
    p: CreatePage,
    s: CreateView,
    settings: RemoteSettingsView,
    hosts: Seq<Seq<char>>,
    entries: Map<Seq<char>, SshConfigEntryView>,
) -> bool {
    let saved = deduped(settings.ssh_connections);
    &&& texts(p.host_history@) == history(hosts_of(saved))
    &&& texts(p.username_history@) == history(users_of(saved))
    &&& texts(p.port_history@) == history(ports_of(saved))
    &&& opt_text(p.config_hint) == config_hint(
        settings.read_ssh_config,
        trimmed(s.form.host),
        entries,
    )
    &&& controls_fit(p.password, s)
    &&& p.buttons_enabled == !(s.has_prompt || s.creating)
    &&& p.can_delete_all == (saved.len() > 0)
    &&& lower_fits(p.lower, s, settings, hosts, entries)
}

fn lower_part(
    state: &CreateRemoteServer,
    saved: &Vec<SshConnection>,
    read_ssh_config: bool,
    ssh_config_servers: &Vec<String>,
    entries: &SshConfigEntries,
    Ghost(settings): Ghost<RemoteSettingsView>,
) -> (r: LowerPart)
    requires
        entries.wf(),
        models(saved@) == deduped(settings.ssh_connections),
        settings.read_ssh_config == read_ssh_config,
    ensures
        lower_fits(r, state@, settings, texts(ssh_config_servers@), entries@),
{
    if state.has_prompt {
        return LowerPart::Prompt;
    }
    if let Some(error) = &state.address_error {
        return LowerPart::AddressError(error.clone());
    }
    let tab = if read_ssh_config {
        state.quick_pick_tab
    } else {
        QuickPickTab::SavedConnections
    };
    match tab {
        QuickPickTab::SshConfig => {
            let query = lowercase(trim_text(state.ssh_config_search.as_str()).as_str());
            LowerPart::Pick(
                tab,
                pick_config_hosts(
                    ssh_config_servers,
                    saved,
                    query.as_str(),
                    entries,
                    state.ssh_config_hosts_page,
                ),
            )
        },
        QuickPickTab::SavedConnections => {
            let query = lowercase(trim_text(state.saved_connections_search.as_str()).as_str());
            LowerPart::Pick(
                tab,
                pick_saved_connections(saved, query.as_str(), state.saved_connections_page),
            )
        },
    }
}

fn shown_page(
    state: &CreateRemoteServer,
    settings: &RemoteSettings,
    ssh_config_servers: &Vec<String>,
    entries: &SshConfigEntries,
) -> (r: CreatePage)
    requires
        entries.wf(),
    ensures
        create_page_is(r, state@, settings@, texts(ssh_config_servers@), entries@),
{
    let saved = dedup_connections(&settings.ssh_connections);
    let (hosts, users, ports) = collect_fields(&saved);
    let host = trim_text(state.form.host.as_str());
    let lower = lower_part(
        state,
        &saved,
        settings.read_ssh_config,
        ssh_config_servers,
        entries,
        Ghost(settings@),
    );
    CreatePage {
        host_history: history_of(&hosts),
        username_history: history_of(&users),
        port_history: history_of(&ports),
        config_hint: ssh_config_hint(settings.read_ssh_config, host.as_str(), entries),
        password: password_controls(state),
        buttons_enabled: !(state.has_prompt || state.creating),
        can_delete_all: saved.len() > 0,
        lower,
    }
}

/// Shows the page, and gives what is to be read from the keychain. An empty
/// field for the port gets the usual one. The page shows the state as it was
/// entered, with that port; what is then known of the saved password is taken
/// in behind it.
pub fn render_create_remote_server(
    state: &mut CreateRemoteServer,
    settings: &RemoteSettings,
    ssh_config_servers: &Vec<String>,
    entries: &SshConfigEntries,
) -> (r: (CreatePage, Option<KeychainRead>))
    requires
        entries.wf(),
    ensures
        final(state)@ == password_refreshed(port_filled(old(state)@)),
        final(state)@.form == (ServerFormView {
            port: usual_port(old(state)@.form.port),
            ..old(state)@.form
        }),
        create_page_is(
            r.0,
            (CreateView { creating: false, ..port_filled(old(state)@) }),
            settings@,
            texts(ssh_config_servers@),
            entries@,
        ),
        match refreshed(old(state)@.password, port_filled(old(state)@).form).1 {
            Some((url, auto_fill)) => r.1 is Some && (r.1->0).url@ == url && (r.1->0).auto_fill
                == auto_fill,
            None => r.1 is None,
        },
{
    state.fill_usual_port();
    let shown = state.snapshot();
    let read = state.maybe_refresh_password_state();
    (shown_page(&shown, settings, ssh_config_servers, entries), read)
}

/// Where nothing new is learnt of the saved password, the page that is shown is
/// that of the state that stays.
pub proof fn shown_page_fits_the_state(
    p: CreatePage,
    s: CreateView,
    settings: RemoteSettingsView,
    hosts: Seq<Seq<char>>,
    entries: Map<Seq<char>, SshConfigEntryView>,
)
    requires
        !s.creating,
        create_page_is(
            p,
            (CreateView { creating: false, ..port_filled(s) }),
            settings,
            hosts,
            entries,
        ),
        refreshed(s.password, port_filled(s).form) == (s.password, None::<(Seq<char>, bool)>),
    ensures
        create_page_is(p, password_refreshed(port_filled(s)), settings, hosts, entries),
{
}

/// A page that can be turned over is shown turned over.
pub proof fn turned_page_is_shown(p: Pager, n: nat, stored: nat, searching: bool)
    requires
        pager_fits(p, n, stored, searching),
    ensures
        p.can_go_on ==> clamped_page(n, turned(p.page, true) as nat) == p.page + 1,
        p.can_go_back ==> clamped_page(n, turned(p.page, false) as nat) == p.page - 1,
{
}

/// Without a search all saved connections can be picked.
pub proof fn empty_search_finds_all(list: Seq<SshConnectionView>)
    ensures
        list.filter(saved_found(Seq::empty())) == list,
    decreases list.len(),
{
    reveal(Seq::filter);
    let p = saved_found(Seq::empty());
    if list.len() > 0 {
        empty_search_finds_all(list.drop_last());
        assert(p(list.last()));
        assert(list.drop_last().push(list.last()) =~= list);
    } else {
        assert(list.filter(p) =~= list);
    }
}

// ---------------------------------------------------------------------------
// What the page shows

/// Of entries that are repeated the first stays, and the order is kept.
pub proof fn repeated_entries_are_shown_once(list: Seq<Seq<char>>)
    ensures
        forall|i: int, j: int|
            0 <= i < j < distinct(list).len() ==> #[trigger] distinct(list)[i]
                != #[trigger] distinct(list)[j],
        forall|x: Seq<char>| #[trigger] distinct(list).contains(x) <==> list.contains(x),
        list.no_duplicates() ==> distinct(list) == list,
    decreases list.len(),
{
    if list.len() > 0 {
        let head = list.drop_last();
        let last = list.last();
        let d = distinct(head);
        repeated_entries_are_shown_once(head);
        assert(list =~= head.push(last));
        assert forall|x: Seq<char>| #[trigger] distinct(list).contains(x) <==> list.contains(x) by {
            if head.contains(x) {
                let k = choose|k: int| 0 <= k < head.len() && head[k] == x;
                assert(list[k] == x);
                assert(d.contains(x));
                let j = choose|j: int| 0 <= j < d.len() && d[j] == x;
                assert(distinct(list)[j] == x);
            }
            if list.contains(x) && x != last {
                let k = choose|k: int| 0 <= k < list.len() && list[k] == x;
                assert(head[k] == x);
            }
            if x == last {
                assert(list[list.len() - 1] == x);
                if !d.contains(last) {
                    assert(distinct(list)[d.len() as int] == x);
                }
            }
            if distinct(list).contains(x) && x != last {
                let j = choose|j: int| 0 <= j < distinct(list).len() && distinct(list)[j] == x;
                assert(d[j] == x);
                assert(d.contains(x));
            }
        }
        if list.no_duplicates() {
            assert(head.no_duplicates());
            if head.contains(last) {
                let k = choose|k: int| 0 <= k < head.len() && head[k] == last;
                assert(list[k] == list[list.len() - 1]);
            }
        }
    } else {
        assert(distinct(list) =~= list);
    }
}

/// A field offers up to ten earlier entries, the first ones.
pub proof fn ten_entries_are_offered(list: Seq<Seq<char>>)
    ensures
        history(list).len() <= 10,
        distinct(list).len() <= 10 ==> history(list) == distinct(list),
        distinct(list).len() > 10 ==> history(list) == distinct(list).take(10),
{
}

/// The users and ports that are offered are those of the saved servers that have
/// one, in order.
pub proof fn offered_users_and_ports(list: Seq<SshConnectionView>, c: SshConnectionView)
    ensures
        users_of(Seq::empty()).len() == 0,
        ports_of(Seq::empty()).len() == 0,
        c.username matches Some(u) ==> users_of(list.push(c)) == users_of(list).push(u),
        c.username is None ==> users_of(list.push(c)) == users_of(list),
        c.port matches Some(p) ==> ports_of(list.push(c)) == ports_of(list).push(decimal(p as nat)),
        c.port is None ==> ports_of(list.push(c)) == ports_of(list),
        hosts_of(list.push(c)) == hosts_of(list).push(c.host),
{
    assert(list.push(c).drop_last() =~= list);
    assert(list.push(c).last() == c);
    assert(hosts_of(list.push(c)) =~= hosts_of(list).push(c.host));
}

/// What the configuration says of a host is shown as a hint: the user, the port
/// and the name of the machine, as far as they are known.
pub proof fn hints_say_what_is_known(
    host: Seq<char>,
    entries: Map<Seq<char>, SshConfigEntryView>,
)
    requires
        entries.dom().contains(host),
    ensures
        ({
            let e = entries[host];
            let hint = config_hint(true, host, entries);
            &&& config_hint(false, host, entries) is None
            &&& hint is Some
            &&& e.user is None && e.port is None && e.hostname is None ==> hint == Some(
                "From SSH config"@,
            )
            &&& e.user is Some && e.port is None && e.hostname is None ==> hint == Some(
                "From SSH config: user "@ + e.user->0,
            )
            &&& e.user is None && e.port is Some && e.hostname is None ==> hint == Some(
                "From SSH config: port "@ + decimal(e.port->0 as nat),
            )
            &&& e.user is None && e.port is None && e.hostname is Some ==> hint == Some(
                "From SSH config: host "@ + e.hostname->0,
            )
            &&& e.user is Some && e.port is Some && e.hostname is Some ==> hint == Some(
                "From SSH config: user "@ + e.user->0 + ", port "@ + decimal(e.port->0 as nat)
                    + ", host "@ + e.hostname->0,
            )
        }),
        config_hint(true, host, Map::empty()) is None,
{
    reveal_strlit("From SSH config: ");
    reveal_strlit("From SSH config: user ");
    reveal_strlit("From SSH config: port ");
    reveal_strlit("From SSH config: host ");
    reveal_strlit("user ");
    reveal_strlit("port ");
    reveal_strlit("host ");
    reveal_strlit(", ");
    reveal_strlit(", port ");
    reveal_strlit(", host ");
    let e = entries[host];
    let parts = hint_parts(e);
    let sep = ", "@;
    assert("From SSH config: "@ + "user "@ =~= "From SSH config: user "@);
    assert("From SSH config: "@ + "port "@ =~= "From SSH config: port "@);
    assert("From SSH config: "@ + "host "@ =~= "From SSH config: host "@);
    assert(", "@ + "port "@ =~= ", port "@);
    assert(", "@ + "host "@ =~= ", host "@);
    reveal_with_fuel(joined, 4);
    if e.user is Some && e.port is None && e.hostname is None {
        assert(parts =~= seq!["user "@ + e.user->0]);
        assert("From SSH config: "@ + ("user "@ + e.user->0) =~= "From SSH config: user "@
            + e.user->0);
    }
    if e.user is None && e.port is Some && e.hostname is None {
        let p = decimal(e.port->0 as nat);
        assert(parts =~= seq!["port "@ + p]);
        assert("From SSH config: "@ + ("port "@ + p) =~= "From SSH config: port "@ + p);
    }
    if e.user is None && e.port is None && e.hostname is Some {
        assert(parts =~= seq!["host "@ + e.hostname->0]);
        assert("From SSH config: "@ + ("host "@ + e.hostname->0) =~= "From SSH config: host "@
            + e.hostname->0);
    }
    if e.user is Some && e.port is Some && e.hostname is Some {
        let a = "user "@ + e.user->0;
        let b = "port "@ + decimal(e.port->0 as nat);
        let c = "host "@ + e.hostname->0;
        assert(parts =~= seq![a, b, c]);
        assert(parts.drop_last() =~= seq![a, b]);
        assert(parts.drop_last().drop_last() =~= seq![a]);
        assert(joined(parts, sep) =~= a + sep + b + sep + c);
        assert("From SSH config: "@ + (a + sep + b + sep + c) =~= "From SSH config: user "@
            + e.user->0 + ", port "@ + decimal(e.port->0 as nat) + ", host "@ + e.hostname->0);
    }
}

/// A host of the configuration is shown with its user, machine and port; what is
/// not known is shown as a user, the host itself and the usual port.
pub proof fn config_hosts_are_detailed(
    host: Seq<char>,
    entries: Map<Seq<char>, SshConfigEntryView>,
)
    ensures
        !entries.dom().contains(host) ==> config_detail(host, entries) == host,
        entries.dom().contains(host) ==> {
            let e = entries[host];
            &&& e.user is Some && e.hostname is Some && e.port is Some ==> config_detail(host, entries)
                == e.user->0.push('@') + e.hostname->0.push(':') + decimal(e.port->0 as nat)
            &&& e.user is None && e.hostname is None && e.port is None ==> config_detail(host, entries)
                == "user@"@ + e.host.push(':') + decimal(22)
        },
{
    reveal_strlit("@");
    reveal_strlit(":");
    reveal_strlit("user");
    reveal_strlit("user@");
    assert("user"@ + "@"@ =~= "user@"@);
    if entries.dom().contains(host) {
        let e = entries[host];
        if e.user is Some && e.hostname is Some && e.port is Some {
            assert(config_detail(host, entries) =~= e.user->0.push('@') + e.hostname->0.push(':')
                + decimal(e.port->0 as nat));
        }
        if e.user is None && e.hostname is None && e.port is None {
            assert(config_detail(host, entries) =~= "user@"@ + e.host.push(':') + decimal(22));
        }
    }
}

/// A saved server is shown under its nickname, or its host, with how it is
/// reached; the identity, the host to jump over and the number of port forwards
/// follow where it has them.
pub proof fn saved_servers_are_detailed(c: SshConnectionView)
    ensures
        ({
            let (identity, jump) = read_args(c.args, None, None);
            let none = c.port_forwards is None || c.port_forwards->0.len() == 0;
            let reached = shown_connection(ssh_options_view(c));
            &&& c.nickname matches Some(n) ==> saved_title(c) == n
            &&& c.nickname is None ==> saved_title(c) == c.host
            &&& identity is None && jump is None && none ==> saved_detail(c) == reached
            &&& identity is Some && jump is None && none ==> saved_detail(c) == reached
                + " | identity "@ + identity->0
            &&& identity is None && jump is Some && none ==> saved_detail(c) == reached
                + " | jump "@ + jump->0
            &&& identity is None && jump is None && !none ==> saved_detail(c) == reached + " | "@
                + decimal(c.port_forwards->0.len()) + " forwards"@
        }),
{
    reveal_strlit(" | ");
    reveal_strlit("identity ");
    reveal_strlit("jump ");
    reveal_strlit(" | identity ");
    reveal_strlit(" | jump ");
    let (identity, jump) = read_args(c.args, None, None);
    let none = c.port_forwards is None || c.port_forwards->0.len() == 0;
    let reached = shown_connection(ssh_options_view(c));
    assert(" | "@ + "identity "@ =~= " | identity "@);
    assert(" | "@ + "jump "@ =~= " | jump "@);
    if identity is Some && jump is None && none {
        let e = seq!["identity "@ + identity->0];
        assert(e + Seq::<Seq<char>>::empty() + Seq::<Seq<char>>::empty() =~= e);
        assert(saved_detail(c) =~= reached + " | identity "@ + identity->0);
    }
    if identity is None && jump is Some && none {
        let e = seq!["jump "@ + jump->0];
        assert(Seq::<Seq<char>>::empty() + e + Seq::<Seq<char>>::empty() =~= e);
        assert(saved_detail(c) =~= reached + " | jump "@ + jump->0);
    }
    if identity is None && jump is None && !none {
        let e = seq![decimal(c.port_forwards->0.len()) + " forwards"@];
        assert(Seq::<Seq<char>>::empty() + Seq::<Seq<char>>::empty() + e =~= e);
        assert(saved_detail(c) =~= reached + " | "@ + decimal(c.port_forwards->0.len())
            + " forwards"@);
    }
}

/// The page that is shown is the one that was turned to, or the last one where
/// there are fewer; five rows stand on a page, and the last one holds the rest.
pub proof fn pages_hold_five_rows(n: nat, stored: nat)
    ensures
        ({
            let page = clamped_page(n, stored);
            let first = page_start(n, page);
            let end = page_end(n, page);
            &&& n > 0 ==> first == 5 * page && first < n && first < end <= n
            &&& n > 0 ==> end - first <= 5
            &&& end < n ==> end - first == 5
            &&& stored * 5 < n ==> page == stored
            &&& n > 0 && stored * 5 >= n ==> end == n
            &&& n == 0 ==> page == 0 && end == first
        }),
{
}

/// The controls under a list say which page is shown and lead to its neighbours.
pub proof fn pagers_lead_to_the_neighbours(p: Pager, n: nat, stored: nat, searching: bool)
    requires
        pager_fits(p, n, stored, searching),
    ensures
        p.can_go_back <==> p.page > 0,
        p.can_go_on <==> p.page + 1 < p.total_pages,
        p.label is Some <==> p.total_pages > 1,
        p.label matches Some(l) ==> l@ == "Page "@ + decimal((p.page + 1) as nat) + " of "@
            + decimal(p.total_pages as nat),
        p.can_clear_search <==> searching,
        p.total_pages * 5 >= n,
        n > 0 ==> (p.total_pages - 1) * 5 < n,
        n == 0 ==> p.total_pages == 0,
{
}

/// The hosts to pick from are those of the configuration that are not saved and
/// that the search finds, in order.
pub proof fn pickable_hosts_are_new_and_found(
    hosts: Seq<Seq<char>>,
    saved: Seq<SshConnectionView>,
    query: Seq<char>,
    entries: Map<Seq<char>, SshConfigEntryView>,
    h: Seq<char>,
)
    ensures
        pickable_hosts(hosts, saved, query, entries).contains(h) <==> hosts.contains(h) && not_saved(
            saved,
        )(h) && finds(
            query,
            unicode_lower(search_text(RemoteEntryView::SshConfig { host: h }, entries)),
        ),
{
    crate::settings::kept_are_the_picked(hosts, not_saved(saved), h);
    crate::settings::kept_are_the_picked(
        hosts.filter(not_saved(saved)),
        host_found(query, entries),
        h,
    );
}

/// The list of hosts to pick from shows those of the page, each with its
/// detail, and says where there are none.
pub proof fn host_rows_are_shown(
    q: QuickPick,
    hosts: Seq<Seq<char>>,
    entries: Map<Seq<char>, SshConfigEntryView>,
    stored: nat,
    searching: bool,
    i: int,
)
    requires
        shows_hosts(q, hosts, entries, stored, searching),
    ensures
        q.total == hosts.len(),
        hosts.len() == 0 && searching ==> opt_text(q.message) == Some(
            "No SSH config hosts match your search."@,
        ),
        hosts.len() == 0 && !searching ==> opt_text(q.message) == Some(
            "No SSH config hosts found."@,
        ),
        hosts.len() > 0 ==> q.message is None,
        0 <= i < 5 && 5 * q.pager.page + i < hosts.len() ==> i < q.rows@.len() && q.rows@[i].title@
            == hosts[5 * q.pager.page + i] && q.rows@[i].detail@ == config_detail(
            hosts[5 * q.pager.page + i],
            entries,
        ),
        q.rows@.len() <= 5,
{
    if 0 <= i < 5 && 5 * q.pager.page + i < hosts.len() {
        assert(q.rows@[i].title@ == hosts[5 * q.pager.page + i]);
    }
}

/// The list of saved servers to pick from shows those of the page, each under
/// its title and with its detail, and says how many there are where not all of
/// them fit.
pub proof fn saved_rows_are_shown(
    q: QuickPick,
    found: Seq<SshConnectionView>,
    stored: nat,
    searching: bool,
    i: int,
)
    requires
        shows_saved(q, found, stored, searching),
    ensures
        q.total == found.len(),
        found.len() == 0 && searching ==> opt_text(q.message) == Some(
            "No saved connections match your search."@,
        ),
        found.len() == 0 && !searching ==> opt_text(q.message) == Some(
            "No saved connections yet."@,
        ),
        0 < found.len() <= 5 ==> q.message is None,
        found.len() > 5 && searching ==> opt_text(q.message) == Some(
            "Showing "@ + decimal(q.rows@.len()) + " of "@ + decimal(found.len())
                + " matching connections."@,
        ),
        found.len() > 5 && !searching ==> opt_text(q.message) == Some(
            "Showing "@ + decimal(q.rows@.len()) + " of "@ + decimal(found.len())
                + " saved connections."@,
        ),
        0 <= i < 5 && 5 * q.pager.page + i < found.len() ==> i < q.rows@.len() && q.rows@[i].title@
            == saved_title(found[5 * q.pager.page + i]) && q.rows@[i].detail@ == saved_detail(
            found[5 * q.pager.page + i],
        ),
        q.rows@.len() <= 5,
{
    if 0 <= i < 5 && 5 * q.pager.page + i < found.len() {
        assert(q.rows@[i].title@ == saved_title(found[5 * q.pager.page + i]));
    }
}

/// What can be done with the password: a saved one is used for an empty field,
/// one that was entered is saved, each where the address is known; nothing while
/// a connection is made.
pub proof fn password_controls_fit_the_form(c: PasswordControls, s: CreateView)
    requires
        controls_fit(c, s),
    ensures
        ({
            let known = keychain_url(s.form) is Some;
            &&& s.has_prompt || s.creating ==> !c.can_toggle && !c.can_use_saved && !c.can_save
                && !c.can_delete
            &&& !s.has_prompt && !s.creating ==> c.can_toggle && (c.can_delete <==> known) && (
            c.can_save <==> known && s.form.password.len() > 0) && (c.can_use_saved <==> known
                && s.form.password.len() == 0)
            &&& s.password.visible ==> c.toggle_tooltip@ == "Hide password"@
            &&& !s.password.visible ==> c.toggle_tooltip@ == "Show password"@
            &&& !known ==> c.status@ == "Enter host, username, and port to check keychain."@
            &&& known ==> match s.password.status {
                PasswordKeychainStatus::Unknown => c.status@ == "Stored in the system keychain."@,
                PasswordKeychainStatus::Loading => c.status@ == "Checking keychain..."@,
                PasswordKeychainStatus::Saved => c.status@ == "Saved in keychain."@,
                PasswordKeychainStatus::NotSaved => c.status@ == "Not saved."@,
                PasswordKeychainStatus::Error => c.status@ == "Keychain error."@,
            }
        }),
{
}

/// The lower part of the page shows the question of a connection, else the error
/// of the command line, else a list; the hosts of the configuration only where
/// it is read. The buttons wait while a connection is made.
pub proof fn lower_part_shows_what_matters(
    p: CreatePage,
    s: CreateView,
    settings: RemoteSettingsView,
    hosts: Seq<Seq<char>>,
    entries: Map<Seq<char>, SshConfigEntryView>,
)
    requires
        create_page_is(p, s, settings, hosts, entries),
    ensures
        s.has_prompt <==> p.lower is Prompt,
        p.lower is AddressError <==> !s.has_prompt && s.address_error is Some,
        p.lower matches LowerPart::AddressError(m) ==> Some(m@) == s.address_error,
        p.lower matches LowerPart::Pick(tab, _) ==> (settings.read_ssh_config ==> tab
            == s.quick_pick_tab) && (!settings.read_ssh_config ==> tab is SavedConnections),
        p.buttons_enabled <==> !s.has_prompt && !s.creating,
        p.can_delete_all <==> deduped(settings.ssh_connections).len() > 0,
        !settings.read_ssh_config ==> p.config_hint is None,
        p.host_history@.len() <= 10,
        p.username_history@.len() <= 10,
        p.port_history@.len() <= 10,
{
    ten_entries_are_offered(hosts_of(deduped(settings.ssh_connections)));
    ten_entries_are_offered(users_of(deduped(settings.ssh_connections)));
    ten_entries_are_offered(ports_of(deduped(settings.ssh_connections)));
    assert(texts(p.host_history@).len() == p.host_history@.len());
    assert(texts(p.username_history@).len() == p.username_history@.len());
    assert(texts(p.port_history@).len() == p.port_history@.len());
}

/// A saved server is found by its host and by everything else that is known of
/// it: its user, its port, its nickname and its arguments.
pub proof fn saved_servers_are_found_by_their_parts(c: SshConnectionView)
    ensures
        begins_text(saved_search_text(c), c.host),
{
    let names = followed_by(
        followed_by(followed_by(c.host, c.username), port_text(c.port)),
        c.nickname,
    );
    following_keeps_the_beginning(names, c.args);
    following_keeps_the_beginning(followed_by_paths(names, c.args), forward_texts(c));
}

/// Whether a text begins with another.
pub open spec fn begins_text(s: Seq<char>, head: Seq<char>) -> bool {
    s.len() >= head.len() && forall|k: int| 0 <= k < head.len() ==> #[trigger] s[k] == head[k]
}

proof fn following_keeps_the_beginning(s: Seq<char>, list: Seq<Seq<char>>)
    ensures
        begins_text(followed_by_paths(s, list), s),
    decreases list.len(),
{
    if list.len() > 0 {
        following_keeps_the_beginning(s, list.drop_last());
    }
}

} // verus!
