//! Reading the hosts and the per-host settings of an OpenSSH client
//! configuration.
use crate::text::{
    ascending, char_is_space, chars_of, copy_opt, find_char, filter_push, insert_text, is_space,
    join, joined, lines, lowered, opt_text, same_ignoring_case, slices, split_lines, split_once,
    split_words, spelled_port, string_of, texts, texts_push, trim_end, trim_start, trimmed_end,
    trimmed_start, words, parse_port, before, begins, begins_with, copy_text, cut_once,
    first_of, first_of_bounds, first_of_unique, just, pieces, pieces_not_empty, without_return,
};
use vstd::prelude::*;
use vstd::slice::*;

verus! {

/// What a configuration says about one host.
#[derive(Debug)]
pub struct SshConfigEntry {
    pub host: String,
    pub hostname: Option<String>,
    pub user: Option<String>,
    pub port: Option<u16>,
}

/// The model of an [`SshConfigEntry`].
pub struct SshConfigEntryView {
    pub host: Seq<char>,
    pub hostname: Option<Seq<char>>,
    pub user: Option<Seq<char>>,
    pub port: Option<u16>,
}

impl View for SshConfigEntry {
    type V = SshConfigEntryView;

    open spec fn view(&self) -> SshConfigEntryView {
        SshConfigEntryView {
            host: self.host@,
            hostname: opt_text(self.hostname),
            user: opt_text(self.user),
            port: self.port,
        }
    }
}

impl Clone for SshConfigEntry {
    fn clone(&self) -> (r: Self)
        ensures
            r@ == self@,
    {
        SshConfigEntry {
            host: copy_text(&self.host),
            hostname: copy_opt(&self.hostname),
            user: copy_opt(&self.user),
            port: self.port,
        }
    }
}

impl Default for SshConfigEntry {
    fn default() -> (r: Self)
        ensures
            r@ == blank_entry(Seq::empty()),
    {
        SshConfigEntry { host: String::new(), hostname: None, user: None, port: None }
    }
}

/// The entry of a host of which nothing has been said yet.
pub open spec fn blank_entry(host: Seq<char>) -> SshConfigEntryView {
    SshConfigEntryView { host, hostname: None, user: None, port: None }
}

/// A line without the space at its beginning and without its comment; where
/// there was a comment, also without the space before it.
pub open spec fn bare_line(line: Seq<char>) -> Seq<char> {
    let s = trimmed_start(line);
    match cut_once(s, '#') {
        Some((head, _)) => trimmed_end(head),
        None => s,
    }
}

fn strip_comment(line: &[char]) -> (r: &[char])
    ensures
        r@ == bare_line(line@),
{
    let s = trim_start(line);
    match split_once(s, '#') {
        Some((head, _)) => trim_end(head),
        None => s,
    }
}

/// Whether the text goes on behind a backslash at its end.
pub open spec fn goes_on(line: Seq<char>) -> bool {
    let s = trimmed_end(line);
    s.len() > 0 && s.last() == '\\'
}

fn line_goes_on(line: &[char]) -> (r: bool)
    ensures
        r == goes_on(line@),
{
    let s = trim_end(line);
    s.len() > 0 && s[s.len() - 1] == '\\'
}

/// Whether a field names a host: it is no exclusion and no pattern with `*`.
pub open spec fn names_host(field: Seq<char>) -> bool {
    !(field.len() > 0 && field[0] == '!') && !field.contains('*')
}

fn field_names_host(field: &[char]) -> (r: bool)
    ensures
        r == names_host(field@),
{
    if field.len() > 0 && field[0] == '!' {
        return false;
    }
    let at: usize = find_char(field, '*');
    proof {
        first_of_bounds(field@, '*');
        if at < field.len() {
            assert(field@.contains('*'));
        }
    }
    at == field.len()
}

// ---------------------------------------------------------------------------
// Host names

/// The fields of a line that name hosts, in order.
pub open spec fn host_fields(line: Seq<char>) -> Seq<Seq<char>> {
    words(line).filter(|w: Seq<char>| names_host(w))
}

/// The hosts that the fields of a line name.
pub open spec fn named_hosts(line: Seq<char>) -> Set<Seq<char>> {
    host_fields(line).to_set()
}

/// How far the search for hosts has come: the hosts found, and whether the
/// list of hosts goes on in the next line.
pub struct HostScan {
    pub hosts: Set<Seq<char>>,
    pub open: bool,
}

/// The search for hosts after one more line.
///
/// A line that begins with `Host` and white space names hosts. A list of hosts
/// stays open behind a backslash: one right behind the word `Host`, or one at
/// the end of a line of an open list.
pub open spec fn scan_line(scan: HostScan, raw: Seq<char>) -> HostScan {
    let line = bare_line(raw);
    if begins(line, seq!['H', 'o', 's', 't']) {
        let rest = line.skip(4);
        let named = rest.len() > 0 && is_space(rest[0]) && rest[0] != '\n' && rest[0] != '\r';
        let open = (rest.len() > 0 && rest[0] == '\\') || (named && scan.open);
        HostScan {
            hosts: if named || open {
                scan.hosts.union(named_hosts(rest))
            } else {
                scan.hosts
            },
            open: open && goes_on(rest),
        }
    } else if scan.open {
        HostScan { hosts: scan.hosts.union(named_hosts(line)), open: goes_on(line) }
    } else {
        scan
    }
}

/// The search for hosts after the given lines.
pub open spec fn scan_lines(all: Seq<Seq<char>>) -> HostScan
    decreases all.len(),
{
    if all.len() == 0 {
        HostScan { hosts: Set::empty(), open: false }
    } else {
        scan_line(scan_lines(all.drop_last()), all.last())
    }
}

/// The hosts that a configuration names.
pub open spec fn config_hosts(config: Seq<char>) -> Set<Seq<char>> {
    scan_lines(lines(config)).hosts
}

/// Adds the hosts that the fields of `line` name to an ascending list.
pub fn parse_hosts_from(line: &[char], hosts: &mut Vec<String>)
    requires
        ascending(texts(old(hosts)@)),
    ensures
        ascending(texts(final(hosts)@)),
        texts(final(hosts)@).to_set() == texts(old(hosts)@).to_set().union(named_hosts(line@)),
{
    let fields = split_words(line);
    let ghost keep = |w: Seq<char>| names_host(w);
    let ghost all = slices(fields@);
    let ghost start = texts(hosts@).to_set();
    let mut i: usize = 0;
    proof {
        reveal(Seq::filter);
        assert(all.take(0).filter(keep).to_set() =~= Set::empty());
        assert(start =~= start.union(all.take(0).filter(keep).to_set()));
    }
    while i < fields.len()
        invariant
            i <= fields.len(),
            all == slices(fields@),
            keep == (|w: Seq<char>| names_host(w)),
            ascending(texts(hosts@)),
            texts(hosts@).to_set() == start.union(all.take(i as int).filter(keep).to_set()),
        decreases fields.len() - i,
    {
        let field = fields[i];
        let ghost kept = all.take(i as int).filter(keep);
        proof {
            assert(all.take(i + 1) =~= all.take(i as int).push(field@));
            filter_push(all.take(i as int), field@, keep);
        }
        if field_names_host(field) {
            insert_text(hosts, string_of(field));
            proof {
                push_to_set(kept, field@);
                assert(texts(hosts@).to_set() =~= start.union(kept.push(field@).to_set()));
            }
        }
        i = i + 1;
    }
    assert(all.take(i as int) =~= all);
}

/// Pushing a value adds it to the values held.
pub proof fn push_to_set<A>(s: Seq<A>, x: A)
    ensures
        s.push(x).to_set() == s.to_set().insert(x),
{
    assert forall|y: A| s.push(x).to_set().contains(y) == s.to_set().insert(x).contains(y) by {
        if s.push(x).contains(y) {
            let k = choose|k: int| 0 <= k < s.push(x).len() && s.push(x)[k] == y;
            if k < s.len() {
                assert(s[k] == y);
            }
        }
        if s.contains(y) {
            let k = choose|k: int| 0 <= k < s.len() && s[k] == y;
            assert(s.push(x)[k] == y);
        }
        if y == x {
            assert(s.push(x)[s.len() as int] == x);
        }
    }
    assert(s.push(x).to_set() =~= s.to_set().insert(x));
}

/// The hosts that a configuration names, in ascending order.
pub fn parse_ssh_config_hosts(config: &str) -> (r: Vec<String>)
    ensures
        ascending(texts(r@)),
        texts(r@).to_set() == config_hosts(config@),
{
    let chars = chars_of(config);
    let all = split_lines(chars.as_slice());
    let ghost view = slices(all@);
    let mut hosts: Vec<String> = Vec::new();
    let mut open = false;
    let word: [char; 4] = ['H', 'o', 's', 't'];
    let mut i: usize = 0;
    assert(texts(hosts@).to_set() =~= Set::empty());
    while i < all.len()
        invariant
            i <= all.len(),
            view == slices(all@),
            word@ =~= seq!['H', 'o', 's', 't'],
            ascending(texts(hosts@)),
            scan_lines(view.take(i as int)) == (HostScan { hosts: texts(hosts@).to_set(), open }),
        decreases all.len() - i,
    {
        let line = strip_comment(all[i]);
        proof {
            assert(view.take(i + 1).drop_last() =~= view.take(i as int));
            assert(view.take(i + 1).last() == all@[i as int]@);
        }
        if begins_with(line, word.as_slice()) {
            let rest = slice_subrange(line, 4, line.len());
            assert(rest@ =~= line@.skip(4));
            let mut named = false;
            if rest.len() > 0 {
                let first = rest[0];
                if first == '\\' {
                    open = true;
                } else if first == '\n' || first == '\r' {
                    open = false;
                } else if char_is_space(first) {
                    named = true;
                } else {
                    open = false;
                }
            } else {
                open = false;
            }
            if named || open {
                parse_hosts_from(rest, &mut hosts);
            }
            open = open && line_goes_on(rest);
        } else if open {
            parse_hosts_from(line, &mut hosts);
            open = line_goes_on(line);
        }
        i = i + 1;
    }
    assert(view.take(i as int) =~= view);
    hosts
}

// ---------------------------------------------------------------------------
// Entries

/// The text without the backslashes at its end.
pub open spec fn without_backslashes(s: Seq<char>) -> Seq<char>
    decreases s.len(),
{
    if s.len() > 0 && s.last() == '\\' {
        without_backslashes(s.drop_last())
    } else {
        s
    }
}

fn strip_backslashes(s: &[char]) -> (r: &[char])
    ensures
        r@ == without_backslashes(s@),
{
    let mut n: usize = s.len();
    proof {
        assert(s@.take(n as int) =~= s@);
    }
    while n > 0 && s[n - 1] == '\\'
        invariant
            n <= s.len(),
            without_backslashes(s@) == without_backslashes(s@.take(n as int)),
        decreases n,
    {
        proof {
            assert(s@.take(n as int).drop_last() =~= s@.take(n - 1));
            assert(s@.take(n as int).last() == s@[n - 1]);
        }
        n = n - 1;
    }
    let out = slice_subrange(s, 0, n);
    proof {
        assert(out@ =~= s@.take(n as int));
        if n > 0 {
            assert(s@.take(n as int).last() == s@[n - 1]);
        }
    }
    out
}

/// The hosts that the fields of a line name, in order, each without the
/// backslashes at its end.
pub open spec fn listed_hosts(line: Seq<char>) -> Seq<Seq<char>> {
    let fields = host_fields(before(line, '#'));
    fields.map_values(|w: Seq<char>| without_backslashes(w)).filter(|w: Seq<char>| w.len() > 0)
}

/// The hosts that the fields of `line` name, in order.
pub fn parse_hosts_from_line(line: &[char]) -> (r: Vec<String>)
    ensures
        texts(r@) == listed_hosts(line@),
{
    let end: usize = find_char(line, '#');
    let head = slice_subrange(line, 0, end);
    assert(head@ =~= before(line@, '#'));
    let fields = split_words(head);
    let ghost all = slices(fields@);
    let ghost keep = |w: Seq<char>| names_host(w);
    let ghost strip = |w: Seq<char>| without_backslashes(w);
    let ghost full = |w: Seq<char>| w.len() > 0;
    let mut out: Vec<String> = Vec::new();
    let mut i: usize = 0;
    proof {
        reveal(Seq::filter);
        assert(all.take(0).filter(keep).map_values(strip).filter(full) =~= texts(out@));
    }
    while i < fields.len()
        invariant
            i <= fields.len(),
            all == slices(fields@),
            keep == (|w: Seq<char>| names_host(w)),
            strip == (|w: Seq<char>| without_backslashes(w)),
            full == (|w: Seq<char>| w.len() > 0),
            texts(out@) == all.take(i as int).filter(keep).map_values(strip).filter(full),
        decreases fields.len() - i,
    {
        broadcast use texts_push;

        let field = fields[i];
        let ghost kept = all.take(i as int).filter(keep);
        proof {
            assert(all.take(i + 1) =~= all.take(i as int).push(field@));
            filter_push(all.take(i as int), field@, keep);
            assert(kept.push(field@).map_values(strip) =~= kept.map_values(strip).push(
                strip(field@),
            ));
            filter_push(kept.map_values(strip), strip(field@), full);
        }
        if field_names_host(field) {
            let name = strip_backslashes(field);
            if name.len() > 0 {
                out.push(string_of(name));
            }
        }
        i = i + 1;
    }
    assert(all.take(i as int) =~= all);
    out
}

/// What follows a keyword at the beginning of a line: the rest of the line,
/// where the keyword stands there in any case and white space or nothing comes
/// behind it.
pub open spec fn after_keyword(line: Seq<char>, keyword: Seq<char>) -> Option<Seq<char>> {
    let n = keyword.len() as int;
    if line.len() >= n && lowered(line.take(n)) == lowered(keyword) && (line.len() == n
        || is_space(line[n])) {
        Some(line.skip(n))
    } else {
        None
    }
}

/// What follows the keyword `prefix`, which is compared character by
/// character, at the beginning of `value`.
pub fn strip_prefix_keyword<'a>(value: &'a [char], prefix: &[char]) -> (r: Option<&'a [char]>)
    ensures
        match r {
            Some(rest) => after_keyword(value@, prefix@) == Some(rest@),
            None => after_keyword(value@, prefix@) is None,
        },
{
    if value.len() < prefix.len() {
        return None;
    }
    let head = slice_subrange(value, 0, prefix.len());
    assert(head@ =~= value@.take(prefix.len() as int));
    let tail = slice_subrange(value, prefix.len(), value.len());
    assert(tail@ =~= value@.skip(prefix.len() as int));
    if !same_ignoring_case(head, prefix) {
        return None;
    }
    if tail.len() == 0 || char_is_space(tail[0]) {
        Some(tail)
    } else {
        None
    }
}

/// The entries of a configuration by host.
#[derive(Debug)]
pub struct SshConfigEntries {
    list: Vec<SshConfigEntry>,
}

/// The map of entries by host that a list of entries stands for.
pub open spec fn entry_map(list: Seq<SshConfigEntry>) -> Map<Seq<char>, SshConfigEntryView> {
    Map::new(
        |h: Seq<char>| exists|i: int| 0 <= i < list.len() && (#[trigger] list[i]).host@ == h,
        |h: Seq<char>|
            list[choose|i: int| 0 <= i < list.len() && (#[trigger] list[i]).host@ == h]@,
    )
}

/// No two entries speak of one host.
pub open spec fn one_entry_each(list: Seq<SshConfigEntry>) -> bool {
    forall|i: int, j: int|
        0 <= i < j < list.len() ==> (#[trigger] list[i]).host@ != (#[trigger] list[j]).host@
}

impl View for SshConfigEntries {
    type V = Map<Seq<char>, SshConfigEntryView>;

    closed spec fn view(&self) -> Map<Seq<char>, SshConfigEntryView> {
        entry_map(self.list@)
    }
}

proof fn entry_map_at(list: Seq<SshConfigEntry>, i: int)
    requires
        one_entry_each(list),
        0 <= i < list.len(),
    ensures
        entry_map(list).dom().contains(list[i].host@),
        entry_map(list)[list[i].host@] == list[i]@,
{
    let h = list[i].host@;
    assert(list[i].host@ == h);
    let k = choose|k: int| 0 <= k < list.len() && (#[trigger] list[k]).host@ == h;
    if k < i {
        assert(list[k].host@ != list[i].host@);
    } else if i < k {
        assert(list[i].host@ != list[k].host@);
    }
}

/// A map that holds every entry of a list, and nothing else, is its map.
proof fn entry_map_is(list: Seq<SshConfigEntry>, m: Map<Seq<char>, SshConfigEntryView>)
    requires
        one_entry_each(list),
        forall|i: int|
            0 <= i < list.len() ==> m.dom().contains((#[trigger] list[i]).host@)
                && m[list[i].host@] == list[i]@,
        forall|h: Seq<char>| #[trigger]
            m.dom().contains(h) ==> exists|i: int|
                0 <= i < list.len() && (#[trigger] list[i]).host@ == h,
    ensures
        entry_map(list) == m,
{
    assert forall|h: Seq<char>| #[trigger] entry_map(list).dom().contains(h) implies m.dom().contains(
        h,
    ) && entry_map(list)[h] == m[h] by {
        let i = choose|i: int| 0 <= i < list.len() && (#[trigger] list[i]).host@ == h;
        entry_map_at(list, i);
    }
    assert(entry_map(list).dom() =~= m.dom());
    assert(entry_map(list) =~= m);
}

proof fn entry_map_push(list: Seq<SshConfigEntry>, e: SshConfigEntry)
    requires
        one_entry_each(list),
        !entry_map(list).dom().contains(e.host@),
    ensures
        one_entry_each(list.push(e)),
        entry_map(list.push(e)) == entry_map(list).insert(e.host@, e@),
{
    let out = list.push(e);
    let m = entry_map(list).insert(e.host@, e@);
    assert forall|i: int, j: int| 0 <= i < j < out.len() implies (#[trigger] out[i]).host@ != (
    #[trigger] out[j]).host@ by {
        assert(list[i] == out[i]);
        entry_map_at(list, i);
        if j < list.len() {
            assert(list[i].host@ != list[j].host@);
        }
    }
    assert forall|i: int| 0 <= i < out.len() implies m.dom().contains((#[trigger] out[i]).host@)
        && m[out[i].host@] == out[i]@ by {
        if i < list.len() {
            entry_map_at(list, i);
            assert(out[i] == list[i]);
        }
    }
    assert forall|h: Seq<char>| #[trigger] m.dom().contains(h) implies exists|i: int|
        0 <= i < out.len() && (#[trigger] out[i]).host@ == h by {
        if h == e.host@ {
            assert(out[list.len() as int].host@ == h);
        } else {
            let i = choose|i: int| 0 <= i < list.len() && (#[trigger] list[i]).host@ == h;
            assert(out[i].host@ == h);
        }
    }
    entry_map_is(out, m);
}

proof fn entry_map_update(list: Seq<SshConfigEntry>, at: int, e: SshConfigEntry)
    requires
        one_entry_each(list),
        0 <= at < list.len(),
        list[at].host@ == e.host@,
    ensures
        one_entry_each(list.update(at, e)),
        entry_map(list.update(at, e)) == entry_map(list).insert(e.host@, e@),
{
    let out = list.update(at, e);
    let m = entry_map(list).insert(e.host@, e@);
    assert forall|i: int, j: int| 0 <= i < j < out.len() implies (#[trigger] out[i]).host@ != (
    #[trigger] out[j]).host@ by {
        assert(list[i].host@ != list[j].host@);
    }
    assert forall|i: int| 0 <= i < out.len() implies m.dom().contains((#[trigger] out[i]).host@)
        && m[out[i].host@] == out[i]@ by {
        entry_map_at(list, i);
        if i < at {
            assert(list[i].host@ != list[at].host@);
        } else if at < i {
            assert(list[at].host@ != list[i].host@);
        }
    }
    assert forall|h: Seq<char>| #[trigger] m.dom().contains(h) implies exists|i: int|
        0 <= i < out.len() && (#[trigger] out[i]).host@ == h by {
        if h == e.host@ {
            assert(out[at].host@ == h);
        } else {
            let i = choose|i: int| 0 <= i < list.len() && (#[trigger] list[i]).host@ == h;
            assert(out[i].host@ == h);
        }
    }
    entry_map_is(out, m);
}

impl SshConfigEntries {
    /// No two entries speak of one host.
    pub closed spec fn wf(&self) -> bool {
        one_entry_each(self.list@)
    }

    /// No entries.
    pub fn new() -> (r: Self)
        ensures
            r.wf(),
            r@ == Map::<Seq<char>, SshConfigEntryView>::empty(),
    {
        let r = SshConfigEntries { list: Vec::new() };
        assert(r@ =~= Map::<Seq<char>, SshConfigEntryView>::empty());
        r
    }

    /// How many hosts have an entry.
    pub fn len(&self) -> (r: usize)
        requires
            self.wf(),
        ensures
            r == self@.dom().len(),
            self@.dom().finite(),
    {
        proof {
            entry_count(self.list@);
        }
        self.list.len()
    }

    fn position(&self, host: &str) -> (r: Option<usize>)
        ensures
            match r {
                Some(i) => i < self.list@.len() && self.list@[i as int].host@ == host@,
                None => !self@.dom().contains(host@),
            },
    {
        let mut i: usize = 0;
        while i < self.list.len()
            invariant
                i <= self.list.len(),
                forall|k: int| 0 <= k < i ==> (#[trigger] self.list@[k]).host@ != host@,
            decreases self.list.len() - i,
        {
            if crate::text::same_text(self.list[i].host.as_str(), host) {
                return Some(i);
            }
            i = i + 1;
        }
        None
    }

    /// The entry of a host, if there is one.
    pub fn get(&self, host: &str) -> (r: Option<&SshConfigEntry>)
        requires
            self.wf(),
        ensures
            match r {
                Some(e) => self@.dom().contains(host@) && self@[host@] == e@,
                None => !self@.dom().contains(host@),
            },
    {
        match self.position(host) {
            Some(i) => {
                proof {
                    entry_map_at(self.list@, i as int);
                }
                Some(&self.list[i])
            },
            None => None,
        }
    }

    /// Stores an entry under its host, in place of the one that was there.
    pub fn insert(&mut self, entry: SshConfigEntry)
        requires
            old(self).wf(),
        ensures
            final(self).wf(),
            final(self)@ == old(self)@.insert(entry@.host, entry@),
    {
        match self.position(entry.host.as_str()) {
            Some(i) => {
                proof {
                    entry_map_update(self.list@, i as int, entry);
                }
                self.list.set(i, entry);
            },
            None => {
                proof {
                    entry_map_push(self.list@, entry);
                }
                self.list.push(entry);
            },
        }
    }

    /// Sets what one line says about one host.
    fn set(&mut self, host: &String, key: &[char], value: &String)
        requires
            old(self).wf(),
        ensures
            final(self).wf(),
            final(self)@ == old(self)@.insert(
                host@,
                with_setting(entry_or_blank(old(self)@, host@), key@, value@),
            ),
    {
        let mut entry = match self.get(host.as_str()) {
            Some(e) => e.clone(),
            None => SshConfigEntry { host: host.clone(), hostname: None, user: None, port: None },
        };
        proof {
            lemma_key_of_entry(self.list@);
        }
        let user: [char; 4] = ['u', 's', 'e', 'r'];
        let port: [char; 4] = ['p', 'o', 'r', 't'];
        let hostname: [char; 8] = ['h', 'o', 's', 't', 'n', 'a', 'm', 'e'];
        assert(user@ =~= user_key());
        assert(port@ =~= port_key());
        assert(hostname@ =~= hostname_key());
        if same_ignoring_case(key, user.as_slice()) {
            entry.user = Some(value.clone());
        } else if same_ignoring_case(key, port.as_slice()) {
            let digits = chars_of(value.as_str());
            entry.port = parse_port(digits.as_slice());
        } else if same_ignoring_case(key, hostname.as_slice()) {
            entry.hostname = Some(value.clone());
        }
        self.insert(entry);
    }

    /// The entries of `global` and of `user`, where those of `user` go first.
    pub fn merged(global: &SshConfigEntries, user: &SshConfigEntries) -> (r: SshConfigEntries)
        requires
            global.wf(),
            user.wf(),
        ensures
            r.wf(),
            r@ == global@.union_prefer_right(user@),
    {
        let mut out = SshConfigEntries::new();
        let mut i: usize = 0;
        while i < global.list.len()
            invariant
                i <= global.list.len(),
                global.wf(),
                out.wf(),
                out@ == entry_map(global.list@.take(i as int)),
            decreases global.list.len() - i,
        {
            let e = global.list[i].clone();
            proof {
                let g = global.list@;
                let head = g.take(i as int);
                assert(g.take(i + 1) =~= head.push(g[i as int]));
                assert forall|a: int, b: int| 0 <= a < b < head.len() implies (
                #[trigger] head[a]).host@ != (#[trigger] head[b]).host@ by {
                    assert(g[a].host@ != g[b].host@);
                }
                assert forall|k: int| 0 <= k < head.len() implies (#[trigger] head[k]).host@
                    != g[i as int].host@ by {
                    assert(g[k].host@ != g[i as int].host@);
                }
                entry_map_push(head, g[i as int]);
            }
            out.insert(e);
            i = i + 1;
        }
        proof {
            assert(global.list@.take(i as int) =~= global.list@);
            assert(user.list@.take(0) =~= Seq::empty());
            assert(entry_map(user.list@.take(0)) =~= Map::empty());
            assert(out@ =~= global@.union_prefer_right(Map::empty()));
        }
        let mut j: usize = 0;
        while j < user.list.len()
            invariant
                j <= user.list.len(),
                user.wf(),
                out.wf(),
                out@ == global@.union_prefer_right(entry_map(user.list@.take(j as int))),
            decreases user.list.len() - j,
        {
            let e = user.list[j].clone();
            proof {
                let g = user.list@;
                let head = g.take(j as int);
                assert(g.take(j + 1) =~= head.push(g[j as int]));
                assert forall|a: int, b: int| 0 <= a < b < head.len() implies (
                #[trigger] head[a]).host@ != (#[trigger] head[b]).host@ by {
                    assert(g[a].host@ != g[b].host@);
                }
                assert forall|k: int| 0 <= k < head.len() implies (#[trigger] head[k]).host@
                    != g[j as int].host@ by {
                    assert(g[k].host@ != g[j as int].host@);
                }
                entry_map_push(head, g[j as int]);
                assert(global@.union_prefer_right(entry_map(head)).insert(
                    g[j as int].host@,
                    g[j as int]@,
                ) =~= global@.union_prefer_right(entry_map(head).insert(
                    g[j as int].host@,
                    g[j as int]@,
                )));
            }
            out.insert(e);
            j = j + 1;
        }
        assert(user.list@.take(j as int) =~= user.list@);
        out
    }
}

proof fn lemma_key_of_entry(list: Seq<SshConfigEntry>)
    requires
        one_entry_each(list),
    ensures
        forall|h: Seq<char>| #[trigger]
            entry_map(list).dom().contains(h) ==> entry_map(list)[h].host == h,
{
    assert forall|h: Seq<char>| #[trigger] entry_map(list).dom().contains(h) implies entry_map(
        list,
    )[h].host == h by {
        let i = choose|i: int| 0 <= i < list.len() && (#[trigger] list[i]).host@ == h;
        entry_map_at(list, i);
    }
}

proof fn entry_count(list: Seq<SshConfigEntry>)
    requires
        one_entry_each(list),
    ensures
        entry_map(list).dom().finite(),
        entry_map(list).dom().len() == list.len(),
    decreases list.len(),
{
    if list.len() == 0 {
        assert(entry_map(list).dom() =~= Set::empty());
    } else {
        let head = list.drop_last();
        let last = list.last();
        assert forall|a: int, b: int| 0 <= a < b < head.len() implies (#[trigger] head[a]).host@ != (
        #[trigger] head[b]).host@ by {
            assert(list[a].host@ != list[b].host@);
        }
        assert forall|k: int| 0 <= k < head.len() implies (#[trigger] head[k]).host@
            != last.host@ by {
            assert(list[k].host@ != list[list.len() - 1].host@);
        }
        entry_count(head);
        entry_map_push(head, last);
        assert(head.push(last) =~= list);
        assert(entry_map(list).dom() =~= entry_map(head).dom().insert(last.host@));
    }
}

/// The keyword `user`.
pub open spec fn user_key() -> Seq<char> {
    seq!['u', 's', 'e', 'r']
}

/// The keyword `port`.
pub open spec fn port_key() -> Seq<char> {
    seq!['p', 'o', 'r', 't']
}

/// The keyword `hostname`.
pub open spec fn hostname_key() -> Seq<char> {
    seq!['h', 'o', 's', 't', 'n', 'a', 'm', 'e']
}

/// The entry of a host, or the blank one where it has none.
pub open spec fn entry_or_blank(
    entries: Map<Seq<char>, SshConfigEntryView>,
    host: Seq<char>,
) -> SshConfigEntryView {
    if entries.dom().contains(host) {
        entries[host]
    } else {
        blank_entry(host)
    }
}

/// An entry after one setting. A port that is no number of sixteen bits takes
/// the port away; keywords other than these three change nothing.
pub open spec fn with_setting(
    entry: SshConfigEntryView,
    key: Seq<char>,
    value: Seq<char>,
) -> SshConfigEntryView {
    if lowered(key) == lowered(user_key()) {
        SshConfigEntryView { user: Some(value), ..entry }
    } else if lowered(key) == lowered(port_key()) {
        SshConfigEntryView { port: spelled_port(value), ..entry }
    } else if lowered(key) == lowered(hostname_key()) {
        SshConfigEntryView { hostname: Some(value), ..entry }
    } else {
        entry
    }
}

/// The entries after one setting for every host of a set.
pub open spec fn with_setting_for(
    entries: Map<Seq<char>, SshConfigEntryView>,
    hosts: Set<Seq<char>>,
    key: Seq<char>,
    value: Seq<char>,
) -> Map<Seq<char>, SshConfigEntryView> {
    Map::new(
        |h: Seq<char>| entries.dom().contains(h) || hosts.contains(h),
        |h: Seq<char>|
            if hosts.contains(h) {
                with_setting(entry_or_blank(entries, h), key, value)
            } else {
                entries[h]
            },
    )
}

/// How far the reading of entries has come: the entries, the hosts that the
/// next settings are for, the hosts of a list that is not complete yet, and
/// whether that list goes on in the next line.
pub struct EntryScan {
    pub entries: Map<Seq<char>, SshConfigEntryView>,
    pub current: Seq<Seq<char>>,
    pub pending: Seq<Seq<char>>,
    pub open: bool,
}

/// The keyword `Host`.
pub open spec fn host_word() -> Seq<char> {
    seq!['H', 'o', 's', 't']
}

/// The keyword `Match`.
pub open spec fn match_word() -> Seq<char> {
    seq!['M', 'a', 't', 'c', 'h']
}

/// The reading of entries after one more line.
pub open spec fn scan_entry_line(scan: EntryScan, raw: Seq<char>) -> EntryScan {
    let line = bare_line(raw);
    let named = if scan.open {
        Some(line)
    } else {
        after_keyword(line, host_word())
    };
    let fields = words(line);
    let value = joined(fields.skip(1), seq![' ']);
    if line.len() == 0 {
        scan
    } else if named is Some {
        let hosts = scan.pending + listed_hosts(named->0);
        if goes_on(line) {
            EntryScan { pending: hosts, open: true, ..scan }
        } else {
            EntryScan { current: hosts, pending: Seq::empty(), open: false, ..scan }
        }
    } else if after_keyword(line, match_word()) is Some {
        EntryScan { current: Seq::empty(), ..scan }
    } else if fields.len() == 0 || value.len() == 0 {
        scan
    } else {
        EntryScan {
            entries: with_setting_for(scan.entries, scan.current.to_set(), fields[0], value),
            ..scan
        }
    }
}

/// The reading of entries after the given lines.
pub open spec fn scan_entry_lines(all: Seq<Seq<char>>) -> EntryScan
    decreases all.len(),
{
    if all.len() == 0 {
        EntryScan {
            entries: Map::empty(),
            current: Seq::empty(),
            pending: Seq::empty(),
            open: false,
        }
    } else {
        scan_entry_line(scan_entry_lines(all.drop_last()), all.last())
    }
}

/// The entries of a configuration by host.
pub open spec fn config_entries(config: Seq<char>) -> Map<Seq<char>, SshConfigEntryView> {
    scan_entry_lines(lines(config)).entries
}

/// Sets what one line says about every host of a list.
fn set_for_hosts(entries: &mut SshConfigEntries, hosts: &Vec<String>, key: &[char], value: &String)
    requires
        old(entries).wf(),
    ensures
        final(entries).wf(),
        final(entries)@ == with_setting_for(old(entries)@, texts(hosts@).to_set(), key@, value@),
{
    let ghost start = entries@;
    let ghost all = texts(hosts@);
    let mut i: usize = 0;
    assert(start =~= with_setting_for(start, all.take(0).to_set(), key@, value@));
    while i < hosts.len()
        invariant
            i <= hosts.len(),
            all == texts(hosts@),
            entries.wf(),
            entries@ == with_setting_for(start, all.take(i as int).to_set(), key@, value@),
        decreases hosts.len() - i,
    {
        let ghost so_far = entries@;
        entries.set(&hosts[i], key, value);
        proof {
            let head = all.take(i as int);
            let h = all[i as int];
            assert(all.take(i + 1) =~= head.push(h));
            push_to_set(head, h);
            assert(entry_or_blank(so_far, h) == (if head.to_set().contains(h) {
                with_setting(entry_or_blank(start, h), key@, value@)
            } else {
                entry_or_blank(start, h)
            }));
            assert(entries@ =~= with_setting_for(start, all.take(i + 1).to_set(), key@, value@));
        }
        i = i + 1;
    }
    assert(all.take(i as int) =~= all);
}

/// The words of a list of slices behind the first, as strings.
fn tail_strings(fields: &Vec<&[char]>) -> (r: Vec<String>)
    requires
        fields.len() > 0,
    ensures
        texts(r@) == slices(fields@).skip(1),
{
    let mut out: Vec<String> = Vec::new();
    let mut i: usize = 1;
    while i < fields.len()
        invariant
            1 <= i <= fields.len(),
            texts(out@) == slices(fields@).subrange(1, i as int),
        decreases fields.len() - i,
    {
        broadcast use texts_push;

        out.push(string_of(fields[i]));
        assert(slices(fields@).subrange(1, i + 1) =~= slices(fields@).subrange(1, i as int).push(
            slices(fields@)[i as int],
        ));
        i = i + 1;
    }
    assert(slices(fields@).subrange(1, i as int) =~= slices(fields@).skip(1));
    out
}

/// The entries of a configuration by host.
pub fn parse_ssh_config_entries(config: &str) -> (r: SshConfigEntries)
    ensures
        r.wf(),
        r@ == config_entries(config@),
{
    let chars = chars_of(config);
    let all = split_lines(chars.as_slice());
    let ghost view = slices(all@);
    let mut entries = SshConfigEntries::new();
    let mut current: Vec<String> = Vec::new();
    let mut pending: Vec<String> = Vec::new();
    let mut open = false;
    let host: [char; 4] = ['H', 'o', 's', 't'];
    let matching: [char; 5] = ['M', 'a', 't', 'c', 'h'];
    let mut i: usize = 0;
    assert(texts(current@) =~= Seq::empty());
    assert(texts(pending@) =~= Seq::empty());
    while i < all.len()
        invariant
            i <= all.len(),
            view == slices(all@),
            host@ =~= host_word(),
            matching@ =~= match_word(),
            entries.wf(),
            scan_entry_lines(view.take(i as int)) == (EntryScan {
                entries: entries@,
                current: texts(current@),
                pending: texts(pending@),
                open,
            }),
        decreases all.len() - i,
    {
        let line = strip_comment(all[i]);
        proof {
            assert(view.take(i + 1).drop_last() =~= view.take(i as int));
            assert(view.take(i + 1).last() == all@[i as int]@);
        }
        if line.len() > 0 {
            let named = if open {
                Some(line)
            } else {
                strip_prefix_keyword(line, host.as_slice())
            };
            match named {
                Some(rest) => {
                    let names = parse_hosts_from_line(rest);
                    crate::text::push_all(&mut pending, &names);
                    open = line_goes_on(line);
                    if !open {
                        current = pending;
                        pending = Vec::new();
                        assert(texts(pending@) =~= Seq::empty());
                    }
                },
                None => {
                    if strip_prefix_keyword(line, matching.as_slice()).is_some() {
                        current = Vec::new();
                        assert(texts(current@) =~= Seq::empty());
                    } else {
                        let fields = split_words(line);
                        if fields.len() > 0 {
                            let rest = tail_strings(&fields);
                            proof {
                                reveal_strlit(" ");
                                assert(" "@ =~= seq![' ']);
                            }
                            let value = join(&rest, " ");
                            if !value.as_str().is_empty() {
                                set_for_hosts(&mut entries, &current, fields[0], &value);
                            }
                        }
                    }
                },
            }
        }
        i = i + 1;
    }
    assert(view.take(i as int) =~= view);
    entries
}

// ---------------------------------------------------------------------------
// Watching the configuration

/// The two files in which the configuration stands.
#[derive(Clone, Copy, Debug, PartialEq, Eq, Structural)]
pub enum SshConfigSource {
    /// The one of the machine.
    Global,
    /// The one of the user.
    User,
}

/// What has been read of the two files of the configuration, and how many of
/// them are still watched.
#[derive(Debug)]
pub struct SshConfigWatch {
    global_hosts: Vec<String>,
    user_hosts: Vec<String>,
    global_entries: SshConfigEntries,
    user_entries: SshConfigEntries,
    running: usize,
}

/// The model of an [`SshConfigWatch`].
pub struct SshConfigWatchView {
    pub global_hosts: Set<Seq<char>>,
    pub user_hosts: Set<Seq<char>>,
    pub global_entries: Map<Seq<char>, SshConfigEntryView>,
    pub user_entries: Map<Seq<char>, SshConfigEntryView>,
    pub running: nat,
}

impl View for SshConfigWatch {
    type V = SshConfigWatchView;

    closed spec fn view(&self) -> SshConfigWatchView {
        SshConfigWatchView {
            global_hosts: texts(self.global_hosts@).to_set(),
            user_hosts: texts(self.user_hosts@).to_set(),
            global_entries: self.global_entries@,
            user_entries: self.user_entries@,
            running: self.running as nat,
        }
    }
}

/// What has been read after the new text of a file has come.
pub open spec fn after_reading(
    w: SshConfigWatchView,
    source: SshConfigSource,
    contents: Seq<char>,
) -> SshConfigWatchView {
    match source {
        SshConfigSource::Global => SshConfigWatchView {
            global_hosts: config_hosts(contents),
            global_entries: config_entries(contents),
            ..w
        },
        SshConfigSource::User => SshConfigWatchView {
            user_hosts: config_hosts(contents),
            user_entries: config_entries(contents),
            ..w
        },
    }
}

impl SshConfigWatch {
    /// The hosts ascend, and no two entries of a file speak of one host.
    pub closed spec fn wf(&self) -> bool {
        &&& ascending(texts(self.global_hosts@))
        &&& ascending(texts(self.user_hosts@))
        &&& self.global_entries.wf()
        &&& self.user_entries.wf()
    }

    /// Both files are watched, and nothing has been read.
    pub fn new() -> (r: Self)
        ensures
            r.wf(),
            r@ == (SshConfigWatchView {
                global_hosts: Set::empty(),
                user_hosts: Set::empty(),
                global_entries: Map::empty(),
                user_entries: Map::empty(),
                running: 2,
            }),
    {
        let r = SshConfigWatch {
            global_hosts: Vec::new(),
            user_hosts: Vec::new(),
            global_entries: SshConfigEntries::new(),
            user_entries: SshConfigEntries::new(),
            running: 2,
        };
        assert(texts(r.global_hosts@).to_set() =~= Set::empty());
        assert(texts(r.user_hosts@).to_set() =~= Set::empty());
        r
    }

    /// Takes in the new text of a file.
    pub fn file_read(&mut self, source: SshConfigSource, contents: &str)
        requires
            old(self).wf(),
        ensures
            final(self).wf(),
            final(self)@ == after_reading(old(self)@, source, contents@),
    {
        let hosts = parse_ssh_config_hosts(contents);
        let entries = parse_ssh_config_entries(contents);
        match source {
            SshConfigSource::Global => {
                self.global_hosts = hosts;
                self.global_entries = entries;
            },
            SshConfigSource::User => {
                self.user_hosts = hosts;
                self.user_entries = entries;
            },
        }
    }

    /// Takes in that a file is not watched any more, and says whether none is.
    pub fn file_closed(&mut self) -> (r: bool)
        requires
            old(self).wf(),
            old(self)@.running > 0,
        ensures
            final(self).wf(),
            final(self)@ == (SshConfigWatchView {
                running: (old(self)@.running - 1) as nat,
                ..old(self)@
            }),
            r == (final(self)@.running == 0),
    {
        self.running = self.running - 1;
        self.running == 0
    }

    /// The hosts of both files, in ascending order.
    pub fn hosts(&self) -> (r: Vec<String>)
        requires
            self.wf(),
        ensures
            ascending(texts(r@)),
            texts(r@).to_set() == self@.global_hosts.union(self@.user_hosts),
    {
        let mut out: Vec<String> = crate::text::copy_list(&self.global_hosts);
        let ghost all = texts(self.user_hosts@);
        let ghost start = texts(self.global_hosts@).to_set();
        let mut i: usize = 0;
        assert(all.take(0).to_set() =~= Set::empty());
        assert(start =~= start.union(all.take(0).to_set()));
        while i < self.user_hosts.len()
            invariant
                i <= self.user_hosts.len(),
                all == texts(self.user_hosts@),
                ascending(texts(out@)),
                texts(out@).to_set() == start.union(all.take(i as int).to_set()),
            decreases self.user_hosts.len() - i,
        {
            insert_text(&mut out, self.user_hosts[i].clone());
            proof {
                assert(all.take(i + 1) =~= all.take(i as int).push(all[i as int]));
                push_to_set(all.take(i as int), all[i as int]);
                assert(start.union(all.take(i as int).to_set()).insert(all[i as int]) =~= start.union(
                    all.take(i as int).to_set().insert(all[i as int]),
                ));
            }
            i = i + 1;
        }
        assert(all.take(i as int) =~= all);
        out
    }

    /// The entries of both files; what the user's file says of a host goes
    /// before what the machine's file says of it.
    pub fn entries(&self) -> (r: SshConfigEntries)
        requires
            self.wf(),
        ensures
            r.wf(),
            r@ == self@.global_entries.union_prefer_right(self@.user_entries),
    {
        SshConfigEntries::merged(&self.global_entries, &self.user_entries)
    }
}

/// Which of the two files is read first does not matter: what is held in the
/// end is the same.
pub proof fn reading_order_does_not_matter(
    w: SshConfigWatchView,
    global: Seq<char>,
    user: Seq<char>,
)
    ensures
        after_reading(
            after_reading(w, SshConfigSource::Global, global),
            SshConfigSource::User,
            user,
        ) == after_reading(
            after_reading(w, SshConfigSource::User, user),
            SshConfigSource::Global,
            global,
        ),
{
}

// ---------------------------------------------------------------------------
// What every host of a configuration is

/// No piece of a text holds a mark.
proof fn pieces_hold_no_mark(s: Seq<char>, sep: spec_fn(char) -> bool)
    ensures
        forall|k: int, i: int|
            0 <= k < pieces(s, sep).len() && 0 <= i < pieces(s, sep)[k].len() ==> !sep(
                #[trigger] pieces(s, sep)[k][i],
            ),
    decreases s.len(),
{
    if s.len() > 0 {
        pieces_hold_no_mark(s.drop_last(), sep);
        pieces_not_empty(s.drop_last(), sep);
        let head = pieces(s.drop_last(), sep);
        let all = pieces(s, sep);
        assert forall|k: int, i: int|
            0 <= k < all.len() && 0 <= i < all[k].len() implies !sep(#[trigger] all[k][i]) by {
            if k < all.len() - 1 {
                assert(all[k] == head[k]);
                assert(!sep(head[k][i]));
            } else if !sep(s.last()) {
                let last = head[head.len() - 1];
                assert(all[k] == last.push(s.last()));
                if i < last.len() {
                    assert(!sep(head[head.len() - 1][i]));
                }
            }
        }
    }
}

/// Whether a text can be the name of a host: it is not empty, holds no white
/// space, no `*` and no `#`, and does not begin with `!`.
pub open spec fn is_host_name(h: Seq<char>) -> bool {
    &&& h.len() > 0
    &&& h[0] != '!'
    &&& !h.contains('*')
    &&& !h.contains('#')
    &&& forall|i: int| 0 <= i < h.len() ==> !is_space(#[trigger] h[i])
}

/// The fields of a line without comment that name hosts are names of hosts.
proof fn fields_are_host_names(line: Seq<char>)
    requires
        forall|i: int| 0 <= i < line.len() ==> line[i] != '#',
    ensures
        forall|k: int|
            0 <= k < host_fields(line).len() ==> is_host_name(#[trigger] host_fields(line)[k]),
{
    let sep = |c: char| is_space(c);
    let full = |w: Seq<char>| w.len() > 0;
    let keep = |w: Seq<char>| names_host(w);
    let parts = pieces(line, sep);
    let all = words(line);
    let kept = host_fields(line);
    pieces_hold_no_mark(line, sep);
    pieces_hold_no_other(line, sep, '#');
    assert forall|k: int| 0 <= k < kept.len() implies is_host_name(#[trigger] kept[k]) by {
        crate::settings::filter_member(all, keep, k);
        let j = choose|j: int| 0 <= j < all.len() && all[j] == kept[k];
        crate::settings::filter_member(parts, full, j);
        let m = choose|m: int| 0 <= m < parts.len() && parts[m] == all[j];
        assert forall|i: int| 0 <= i < kept[k].len() implies !is_space(#[trigger] kept[k][i]) by {
            assert(!sep(parts[m][i]));
        }
        if kept[k].contains('#') {
            let i = choose|i: int| 0 <= i < kept[k].len() && kept[k][i] == '#';
            assert(parts[m][i] != '#');
        }
    }
}

/// Every host that a configuration names is a name of a host: no pattern, no
/// exclusion, no part of a comment, and without white space.
pub proof fn config_hosts_are_names(config: Seq<char>, h: Seq<char>)
    requires
        config_hosts(config).contains(h),
    ensures
        is_host_name(h),
{
    scanned_hosts_are_names(lines(config), h);
}

proof fn scanned_hosts_are_names(all: Seq<Seq<char>>, h: Seq<char>)
    requires
        scan_lines(all).hosts.contains(h),
    ensures
        is_host_name(h),
    decreases all.len(),
{
    if all.len() > 0 {
        let before = scan_lines(all.drop_last());
        if before.hosts.contains(h) {
            scanned_hosts_are_names(all.drop_last(), h);
        } else {
            let line = bare_line(all.last());
            bare_lines_hold_no_comment(all.last());
            let source = if begins(line, seq!['H', 'o', 's', 't']) {
                line.skip(4)
            } else {
                line
            };
            assert(named_hosts(source).contains(h));
            fields_are_host_names(source);
            let kept = host_fields(source);
            let k = choose|k: int| 0 <= k < kept.len() && kept[k] == h;
            assert(is_host_name(kept[k]));
        }
    }
}

/// The hosts that are listed for entries are names of hosts.
proof fn listed_hosts_are_names(line: Seq<char>)
    ensures
        forall|k: int|
            0 <= k < listed_hosts(line).len() ==> is_host_name(#[trigger] listed_hosts(line)[k]),
{
    let source = before(line, '#');
    let fields = host_fields(source);
    let stripped = fields.map_values(|w: Seq<char>| without_backslashes(w));
    let full = |w: Seq<char>| w.len() > 0;
    let all = listed_hosts(line);
    first_of_bounds(line, '#');
    assert forall|i: int| 0 <= i < source.len() implies source[i] != '#' by {
        assert(source[i] == line[i]);
    }
    fields_are_host_names(source);
    assert forall|k: int| 0 <= k < all.len() implies is_host_name(#[trigger] all[k]) by {
        crate::settings::filter_member(stripped, full, k);
        let j = choose|j: int| 0 <= j < stripped.len() && stripped[j] == all[k];
        assert(is_host_name(fields[j]));
        stripping_keeps_the_beginning(fields[j]);
        let n = all[k].len();
        assert(all[k] == fields[j].take(n as int));
        assert forall|i: int| 0 <= i < all[k].len() implies !is_space(#[trigger] all[k][i]) by {
            assert(!is_space(fields[j][i]));
        }
        assert(!all[k].contains('*')) by {
            if all[k].contains('*') {
                let i = choose|i: int| 0 <= i < all[k].len() && all[k][i] == '*';
                assert(fields[j][i] == '*');
            }
        }
        assert(!all[k].contains('#')) by {
            if all[k].contains('#') {
                let i = choose|i: int| 0 <= i < all[k].len() && all[k][i] == '#';
                assert(fields[j][i] == '#');
            }
        }
    }
}

proof fn stripping_keeps_the_beginning(s: Seq<char>)
    ensures
        without_backslashes(s).len() <= s.len(),
        without_backslashes(s) == s.take(without_backslashes(s).len() as int),
    decreases s.len(),
{
    if s.len() > 0 && s.last() == '\\' {
        stripping_keeps_the_beginning(s.drop_last());
        let r = without_backslashes(s);
        assert(s.drop_last().take(r.len() as int) =~= s.take(r.len() as int));
    } else {
        assert(s.take(s.len() as int) =~= s);
    }
}

/// Every entry of a configuration stands under its own host, and that host is a
/// name of a host: patterns and exclusions get no entry.
pub proof fn config_entries_stand_under_their_hosts(config: Seq<char>, h: Seq<char>)
    requires
        config_entries(config).dom().contains(h),
    ensures
        config_entries(config)[h].host == h,
        is_host_name(h),
{
    scanned_entries_are_named(lines(config));
}

proof fn scanned_entries_are_named(all: Seq<Seq<char>>)
    ensures
        forall|h: Seq<char>| #[trigger]
            scan_entry_lines(all).entries.dom().contains(h) ==> scan_entry_lines(all).entries[h].host
                == h && is_host_name(h),
        forall|k: int|
            0 <= k < scan_entry_lines(all).current.len() ==> is_host_name(
                #[trigger] scan_entry_lines(all).current[k],
            ),
        forall|k: int|
            0 <= k < scan_entry_lines(all).pending.len() ==> is_host_name(
                #[trigger] scan_entry_lines(all).pending[k],
            ),
    decreases all.len(),
{
    if all.len() > 0 {
        scanned_entries_are_named(all.drop_last());
        let old = scan_entry_lines(all.drop_last());
        let new = scan_entry_lines(all);
        let line = bare_line(all.last());
        let named = if old.open {
            Some(line)
        } else {
            after_keyword(line, host_word())
        };
        if line.len() > 0 && named is Some {
            listed_hosts_are_names(named->0);
            let hosts = old.pending + listed_hosts(named->0);
            assert forall|k: int| 0 <= k < hosts.len() implies is_host_name(#[trigger] hosts[k]) by {
                if k < old.pending.len() {
                    assert(hosts[k] == old.pending[k]);
                } else {
                    assert(hosts[k] == listed_hosts(named->0)[k - old.pending.len()]);
                }
            }
        }
        assert forall|h: Seq<char>| #[trigger] new.entries.dom().contains(h) implies new.entries[h].host
            == h && is_host_name(h) by {
            if old.entries.dom().contains(h) {
                assert(old.entries[h].host == h);
            } else {
                assert(old.current.to_set().contains(h));
                let k = choose|k: int| 0 <= k < old.current.len() && old.current[k] == h;
                assert(is_host_name(old.current[k]));
            }
        }
    }
}

// ---------------------------------------------------------------------------
// Two configurations, and entries and hosts of one

/// The pieces of two texts with a mark between them are those of both.
pub proof fn pieces_of_joined(a: Seq<char>, mark: char, b: Seq<char>, sep: spec_fn(char) -> bool)
    requires
        sep(mark),
    ensures
        pieces(a.push(mark) + b, sep) == pieces(a, sep) + pieces(b, sep),
    decreases b.len(),
{
    let all = a.push(mark) + b;
    let first = pieces(a, sep);
    if b.len() == 0 {
        assert(all =~= a.push(mark));
        assert(all.drop_last() =~= a);
        assert(first.push(Seq::empty()) =~= first + pieces(b, sep));
    } else {
        let head = b.drop_last();
        pieces_of_joined(a, mark, head, sep);
        pieces_not_empty(head, sep);
        let rest = pieces(head, sep);
        assert(all.drop_last() =~= a.push(mark) + head);
        assert(all.last() == b.last());
        if sep(b.last()) {
            assert((first + rest).push(Seq::empty()) =~= first + rest.push(Seq::empty()));
        } else {
            assert((first + rest).drop_last() =~= first + rest.drop_last());
            assert((first + rest).last() == rest.last());
            assert((first + rest.drop_last()).push(rest.last().push(b.last())) =~= first
                + rest.drop_last().push(rest.last().push(b.last())));
        }
    }
}

/// The lines of two texts with the end of a line between them are those of both.
pub proof fn lines_of_joined(a: Seq<char>, b: Seq<char>)
    ensures
        lines(a.push('\n') + b) == lines(a.push('\n')) + lines(b),
{
    let sep = just('\n');
    let none = Seq::<char>::empty();
    pieces_of_joined(a, '\n', b, sep);
    pieces_of_joined(a, '\n', none, sep);
    pieces_not_empty(a, sep);
    pieces_not_empty(b, sep);
    assert(a.push('\n') + none =~= a.push('\n'));
    let first = pieces(a, sep);
    let rest = pieces(b, sep);
    assert(pieces(none, sep) =~= seq![none]);
    assert((first + seq![none]).last() == none);
    assert((first + rest).last() == rest.last());
    assert(lines(a.push('\n')) =~= Seq::new(first.len(), |i: int| without_return(first[i])));
    assert(lines(a.push('\n') + b) =~= lines(a.push('\n')) + lines(b));
}

proof fn scans_are_joined(a: Seq<Seq<char>>, b: Seq<Seq<char>>)
    requires
        !scan_lines(a).open,
    ensures
        scan_lines(a + b).hosts == scan_lines(a).hosts.union(scan_lines(b).hosts),
        scan_lines(a + b).open == scan_lines(b).open,
    decreases b.len(),
{
    if b.len() == 0 {
        assert(a + b =~= a);
        assert(scan_lines(a).hosts.union(scan_lines(b).hosts) =~= scan_lines(a).hosts);
    } else {
        let head = b.drop_last();
        scans_are_joined(a, head);
        assert((a + b).drop_last() =~= a + head);
        assert((a + b).last() == b.last());
        assert(scan_lines(a + b).hosts =~= scan_lines(a).hosts.union(scan_lines(b).hosts));
    }
}

/// The hosts of two configurations, one behind the other, are those of the one
/// and those of the other, where the first ends its last line and leaves no
/// list of hosts open.
pub proof fn joined_configurations_name_the_hosts_of_both(a: Seq<char>, b: Seq<char>)
    requires
        a.len() == 0 || a.last() == '\n',
        !scan_lines(lines(a)).open,
    ensures
        config_hosts(a + b) == config_hosts(a).union(config_hosts(b)),
{
    if a.len() == 0 {
        assert(a + b =~= b);
        assert(lines(a).len() == 0) by {
            assert(pieces(a, just('\n')) =~= seq![Seq::empty()]);
        }
        assert(config_hosts(a).union(config_hosts(b)) =~= config_hosts(b));
    } else {
        assert(a.drop_last().push('\n') =~= a);
        lines_of_joined(a.drop_last(), b);
        scans_are_joined(lines(a), lines(b));
    }
}

/// Whether a line that begins a list of hosts does so in the plain way: the list
/// ends with the line, and where it holds a host, the word `Host` is spelled
/// like that, no end of a line stands right behind it, and no host has a
/// backslash at its end.
pub open spec fn plainly_listed(raw: Seq<char>) -> bool {
    let line = bare_line(raw);
    let rest = line.skip(4);
    after_keyword(line, host_word()) is Some ==> {
        &&& !goes_on(line)
        &&& listed_hosts(rest).len() > 0 ==> {
            &&& begins(line, host_word())
            &&& rest[0] != '\n' && rest[0] != '\r'
            &&& forall|k: int|
                0 <= k < host_fields(rest).len() ==> (#[trigger] host_fields(rest)[k]).last()
                    != '\\'
        }
    }
}

/// What is left of a line holds no mark of a comment.
pub proof fn bare_lines_hold_no_comment(raw: Seq<char>)
    ensures
        forall|i: int| 0 <= i < bare_line(raw).len() ==> bare_line(raw)[i] != '#',
{
    let s = trimmed_start(raw);
    first_of_bounds(s, '#');
    if first_of(s, '#') < s.len() {
        let head = s.take(first_of(s, '#'));
        trimmed_end_begins(head);
        assert forall|i: int| 0 <= i < bare_line(raw).len() implies bare_line(raw)[i] != '#' by {
            assert(bare_line(raw)[i] == head[i]);
            assert(s[i] != '#');
        }
    }
}

proof fn trimmed_end_begins(s: Seq<char>)
    ensures
        trimmed_end(s).len() <= s.len(),
        forall|i: int| 0 <= i < trimmed_end(s).len() ==> trimmed_end(s)[i] == s[i],
    decreases s.len(),
{
    if s.len() > 0 && is_space(s.last()) {
        let head = s.drop_last();
        trimmed_end_begins(head);
        assert(trimmed_end(s) == trimmed_end(head));
        assert forall|i: int| 0 <= i < trimmed_end(s).len() implies trimmed_end(s)[i] == s[i] by {
            assert(trimmed_end(head)[i] == head[i]);
        }
    }
}

proof fn pieces_hold_no_other(s: Seq<char>, sep: spec_fn(char) -> bool, c: char)
    requires
        forall|i: int| 0 <= i < s.len() ==> s[i] != c,
    ensures
        forall|k: int, i: int|
            0 <= k < pieces(s, sep).len() && 0 <= i < pieces(s, sep)[k].len()
                ==> #[trigger] pieces(s, sep)[k][i] != c,
    decreases s.len(),
{
    if s.len() > 0 {
        pieces_hold_no_other(s.drop_last(), sep, c);
        pieces_not_empty(s.drop_last(), sep);
        let head = pieces(s.drop_last(), sep);
        let all = pieces(s, sep);
        assert(s[s.len() - 1] != c);
        assert forall|k: int, i: int|
            0 <= k < all.len() && 0 <= i < all[k].len() implies #[trigger] all[k][i] != c by {
            if k < all.len() - 1 {
                assert(all[k] == head[k]);
                assert(head[k][i] != c);
            } else if !sep(s.last()) {
                let last = head[head.len() - 1];
                assert(all[k] == last.push(s.last()));
                if i < last.len() {
                    assert(head[head.len() - 1][i] != c);
                }
            }
        }
    }
}

/// Without a comment and without backslashes at their ends the hosts that are
/// listed for entries are named.
proof fn plain_listed_hosts_are_named(rest: Seq<char>, h: Seq<char>)
    requires
        forall|i: int| 0 <= i < rest.len() ==> rest[i] != '#',
        forall|k: int|
            0 <= k < host_fields(rest).len() ==> (#[trigger] host_fields(rest)[k]).last() != '\\',
        listed_hosts(rest).contains(h),
    ensures
        named_hosts(rest).contains(h),
{
    first_of_unique(rest, '#', rest.len() as int);
    assert(before(rest, '#') =~= rest);
    let full = |w: Seq<char>| w.len() > 0;
    let strip = |w: Seq<char>| without_backslashes(w);
    let fields = host_fields(rest);
    let stripped = fields.map_values(strip);
    let listed = listed_hosts(rest);
    assert(listed =~= stripped.filter(full));
    let k = choose|k: int| 0 <= k < listed.len() && listed[k] == h;
    crate::settings::filter_member(stripped, full, k);
    let j = choose|j: int| 0 <= j < stripped.len() && stripped[j] == listed[k];
    let field = fields[j];
    assert(field.last() != '\\');
    assert(without_backslashes(field) == field);
    assert(fields[j] == h);
    assert(fields.contains(h));
}

proof fn fields_need_text(rest: Seq<char>, h: Seq<char>)
    requires
        named_hosts(rest).contains(h),
    ensures
        rest.len() > 0,
{
    if rest.len() == 0 {
        let sep = |c: char| is_space(c);
        let full = |w: Seq<char>| w.len() > 0;
        let keep = |w: Seq<char>| names_host(w);
        let fields = host_fields(rest);
        let k = choose|k: int| 0 <= k < fields.len() && fields[k] == h;
        crate::settings::filter_member(words(rest), keep, k);
        let m = choose|m: int| 0 <= m < words(rest).len() && words(rest)[m] == h;
        crate::settings::filter_member(pieces(rest, sep), full, m);
    }
}

proof fn plain_scans_agree(all: Seq<Seq<char>>)
    requires
        forall|i: int| 0 <= i < all.len() ==> plainly_listed(#[trigger] all[i]),
    ensures
        ({
            let scan = scan_entry_lines(all);
            let hosts = scan_lines(all).hosts;
            &&& !scan.open
            &&& scan.pending.len() == 0
            &&& forall|h: Seq<char>| scan.current.contains(h) ==> hosts.contains(h)
            &&& forall|h: Seq<char>| scan.entries.dom().contains(h) ==> hosts.contains(h)
        }),
    decreases all.len(),
{
    if all.len() > 0 {
        let head = all.drop_last();
        assert forall|i: int| 0 <= i < head.len() implies plainly_listed(#[trigger] head[i]) by {
            assert(head[i] == all[i]);
        }
        plain_scans_agree(head);
        let raw = all[all.len() - 1];
        let line = bare_line(raw);
        let old = scan_entry_lines(head);
        let new = scan_entry_lines(all);
        let hosts = scan_lines(all).hosts;
        assert(plainly_listed(raw));
        bare_lines_hold_no_comment(raw);
        assert(forall|h: Seq<char>| scan_lines(head).hosts.contains(h) ==> hosts.contains(h));
        if line.len() > 0 && after_keyword(line, host_word()) is Some {
            let rest = line.skip(4);
            assert(old.pending + listed_hosts(rest) =~= listed_hosts(rest));
            assert forall|h: Seq<char>| new.current.contains(h) implies hosts.contains(h) by {
                plain_listed_hosts_are_named(rest, h);
                fields_need_text(rest, h);
            }
        }
    }
}

/// Every host with an entry is among the hosts of the configuration, where its
/// lists of hosts are written in the plain way.
pub proof fn entries_are_of_named_hosts(config: Seq<char>, h: Seq<char>)
    requires
        forall|i: int|
            0 <= i < lines(config).len() ==> plainly_listed(#[trigger] lines(config)[i]),
        config_entries(config).dom().contains(h),
    ensures
        config_hosts(config).contains(h),
{
    plain_scans_agree(lines(config));
}

} // verus!
