//! The page that lists the remote servers: which servers are shown, on which
//! page, which one is selected, and what can be done with it.
use crate::config_picker::PickerHeading;
use crate::connection::{
    Connection, ConnectionView, DevContainerConnection, DevContainerConnectionView,
    RemoteConnectionOptions, RemoteConnectionOptionsView, RemoteProject, SshConnection,
    SshConnectionOptions, SshConnectionView, WslConnectionOptions,
};
use crate::dev_container::{
    devcontainer_display_config_path, devcontainer_host_project_root, format_devcontainer_host,
    probe_text, project_root, shown_config, shown_host, DevContainerProbe,
};
use crate::model::{first_where, first_where_facts, first_where_is, models, opt_model, Model};
use crate::remote_entries::{
    default_servers, empty_text, entry_key, entry_projects, finds, header_labels, is_stale,
    matches_search_query, new_list_is_not_stale, normalized_search_query, search_text, server_list,
    should_rebuild, tab_of, RemoteEntry, RemoteEntryKey, RemoteEntryKeyView, RemoteEntryView,
    RemoteProjectsTab,
};
use crate::settings::{
    key_of, DevContainerKey, RemoteSettings, RemoteSettingsContent, RemoteSettingsContentView,
    RemoteSettingsView, ServerIndex,
};
use crate::ssh_config::{SshConfigEntries, SshConfigEntryView};
use crate::text::{
    ascending, decimal, decimal_of, join, joined, opt_text, push_str, texts, trimmed, unicode_lower,
};
use vstd::prelude::*;
use vstd::string::*;

verus! {

// ---------------------------------------------------------------------------
// Paging

/// How many servers a page shows.
pub const REMOTE_SERVERS_PAGE_SIZE: usize = 5;

/// How many pages a number of servers takes.
pub open spec fn page_count(n: nat) -> nat {
    (n + 4) / 5
}

/// The servers of a page: the place of the first, and of the first behind it.
pub open spec fn page_start(n: nat, page: nat) -> int {
    if page * 5 <= n {
        (page * 5) as int
    } else {
        n as int
    }
}

/// The place of the first server behind a page.
pub open spec fn page_end(n: nat, page: nat) -> int {
    if page * 5 + 5 <= n {
        (page * 5 + 5) as int
    } else {
        n as int
    }
}

/// How many pages a number of servers takes.
pub fn total_pages(n: usize) -> (r: usize)
    ensures
        r == page_count(n as nat),
{
    if n == 0 {
        0
    } else {
        (n - 1) / REMOTE_SERVERS_PAGE_SIZE + 1
    }
}

/// The page that is shown: the one with the selected server where that server
/// is visible, else the one that was shown before, or the last one where there
/// are fewer.
pub open spec fn shown_page(n: nat, stored: nat, selected_at: Option<int>) -> nat {
    match selected_at {
        Some(at) => (at / 5) as nat,
        None => if stored < page_count(n) {
            stored
        } else if page_count(n) > 0 {
            (page_count(n) - 1) as nat
        } else {
            0
        },
    }
}

/// Every place stands on exactly one page, and that page exists.
pub proof fn pages_part_the_servers(n: nat, at: int, page: nat)
    requires
        0 <= at < n,
    ensures
        (page_start(n, page) <= at < page_end(n, page)) <==> page == at / 5,
        at / 5 < page_count(n),
{
}

/// The page that is shown exists, and it shows at least one server, as soon as
/// any server is visible.
pub proof fn shown_page_exists(n: nat, stored: nat, selected_at: Option<int>)
    requires
        selected_at is Some ==> 0 <= selected_at->0 < n,
    ensures
        n > 0 ==> shown_page(n, stored, selected_at) < page_count(n),
        n > 0 ==> page_start(n, shown_page(n, stored, selected_at)) < page_end(
            n,
            shown_page(n, stored, selected_at),
        ),
        n == 0 ==> shown_page(n, stored, selected_at) == 0,
{
}

// ---------------------------------------------------------------------------
// The list

/// Whether an entry is visible on a list under a search.
pub open spec fn is_visible(
    e: RemoteEntryView,
    tab: RemoteProjectsTab,
    query: Seq<char>,
    entries: Map<Seq<char>, SshConfigEntryView>,
) -> bool {
    tab_of(e) == tab && finds(query, unicode_lower(search_text(e, entries)))
}

/// The places of the visible entries.
pub open spec fn visible_places(
    servers: Seq<RemoteEntryView>,
    tab: RemoteProjectsTab,
    query: Seq<char>,
    entries: Map<Seq<char>, SshConfigEntryView>,
) -> Seq<int>
    decreases servers.len(),
{
    if servers.len() == 0 {
        Seq::empty()
    } else {
        let head = visible_places(servers.drop_last(), tab, query, entries);
        if is_visible(servers.last(), tab, query, entries) {
            head.push(servers.len() - 1)
        } else {
            head
        }
    }
}

/// The places that a list of numbers names.
pub open spec fn places(list: Seq<usize>) -> Seq<int> {
    Seq::new(list.len(), |i: int| list[i] as int)
}

/// The keys of the entries at the given places.
pub open spec fn keys_at(servers: Seq<RemoteEntryView>, at: Seq<int>) -> Seq<RemoteEntryKeyView> {
    Seq::new(at.len(), |i: int| entry_key(servers[at[i]]))
}

/// Picks the given key.
pub open spec fn is_key(key: RemoteEntryKeyView) -> spec_fn(RemoteEntryKeyView) -> bool {
    |k: RemoteEntryKeyView| k == key
}

/// The place among the visible entries of the selected one, if it is visible.
pub open spec fn selected_place(
    servers: Seq<RemoteEntryView>,
    visible: Seq<int>,
    selected: Option<RemoteEntryKeyView>,
) -> Option<int> {
    match selected {
        Some(key) => first_where(keys_at(servers, visible), is_key(key)),
        None => None,
    }
}

/// The places of the visible entries are places of entries, in order.
pub proof fn visible_places_are_places(
    servers: Seq<RemoteEntryView>,
    tab: RemoteProjectsTab,
    query: Seq<char>,
    entries: Map<Seq<char>, SshConfigEntryView>,
)
    ensures
        ({
            let v = visible_places(servers, tab, query, entries);
            &&& v.len() <= servers.len()
            &&& forall|i: int|
                0 <= i < v.len() ==> 0 <= #[trigger] v[i] < servers.len() && is_visible(
                    servers[v[i]],
                    tab,
                    query,
                    entries,
                )
            &&& forall|i: int, j: int| 0 <= i < j < v.len() ==> v[i] < v[j]
        }),
    decreases servers.len(),
{
    if servers.len() > 0 {
        visible_places_are_places(servers.drop_last(), tab, query, entries);
        let head = visible_places(servers.drop_last(), tab, query, entries);
        let v = visible_places(servers, tab, query, entries);
        assert forall|i: int| 0 <= i < v.len() implies 0 <= #[trigger] v[i] < servers.len()
            && is_visible(servers[v[i]], tab, query, entries) by {
            if i < head.len() {
                assert(v[i] == head[i]);
                assert(servers[head[i]] == servers.drop_last()[head[i]]);
            }
        }
        assert forall|i: int, j: int| 0 <= i < j < v.len() implies v[i] < v[j] by {
            assert(v[i] == head[i]);
            if j < head.len() {
                assert(v[j] == head[j]);
            }
        }
    }
}

/// No visible entry is left out of the places of the visible entries.
pub proof fn visible_entries_are_listed(
    servers: Seq<RemoteEntryView>,
    tab: RemoteProjectsTab,
    query: Seq<char>,
    entries: Map<Seq<char>, SshConfigEntryView>,
    k: int,
)
    requires
        0 <= k < servers.len(),
        is_visible(servers[k], tab, query, entries),
    ensures
        visible_places(servers, tab, query, entries).contains(k),
    decreases servers.len(),
{
    let head = visible_places(servers.drop_last(), tab, query, entries);
    let v = visible_places(servers, tab, query, entries);
    if k < servers.len() - 1 {
        assert(servers.drop_last()[k] == servers[k]);
        visible_entries_are_listed(servers.drop_last(), tab, query, entries, k);
        let i = choose|i: int| 0 <= i < head.len() && head[i] == k;
        assert(v[i] == k);
    } else {
        assert(v[head.len() as int] == k);
    }
}

/// Which list is shown, the page of each list, and the selected entry.
#[derive(Clone, Debug, PartialEq, Eq)]
pub struct PageState {
    pub tab: RemoteProjectsTab,
    pub ssh_page: usize,
    pub dev_container_page: usize,
    pub wsl_page: usize,
    pub selected: Option<RemoteEntryKey>,
}

/// The model of a [`PageState`].
#[verifier::ext_equal]
pub struct PageStateView {
    pub tab: RemoteProjectsTab,
    pub ssh_page: usize,
    pub dev_container_page: usize,
    pub wsl_page: usize,
    pub selected: Option<RemoteEntryKeyView>,
}

impl View for PageState {
    type V = PageStateView;

    open spec fn view(&self) -> PageStateView {
        PageStateView {
            tab: self.tab,
            ssh_page: self.ssh_page,
            dev_container_page: self.dev_container_page,
            wsl_page: self.wsl_page,
            selected: opt_model(self.selected),
        }
    }
}

/// The page of a list.
pub open spec fn page_of(s: PageStateView, tab: RemoteProjectsTab) -> usize {
    match tab {
        RemoteProjectsTab::Ssh => s.ssh_page,
        RemoteProjectsTab::DevContainers => s.dev_container_page,
        RemoteProjectsTab::Wsl => s.wsl_page,
    }
}

/// The state with another page for a list.
pub open spec fn with_page(s: PageStateView, tab: RemoteProjectsTab, page: usize) -> PageStateView {
    match tab {
        RemoteProjectsTab::Ssh => PageStateView { ssh_page: page, ..s },
        RemoteProjectsTab::DevContainers => PageStateView { dev_container_page: page, ..s },
        RemoteProjectsTab::Wsl => PageStateView { wsl_page: page, ..s },
    }
}

impl PageState {
    /// The page of a list.
    pub fn page(&self, tab: RemoteProjectsTab) -> (r: usize)
        ensures
            r == page_of(self@, tab),
    {
        match tab {
            RemoteProjectsTab::Ssh => self.ssh_page,
            RemoteProjectsTab::DevContainers => self.dev_container_page,
            RemoteProjectsTab::Wsl => self.wsl_page,
        }
    }

    /// Sets the page of a list.
    pub fn set_page(&mut self, tab: RemoteProjectsTab, page: usize)
        ensures
            final(self)@ == with_page(old(self)@, tab, page),
    {
        match tab {
            RemoteProjectsTab::Ssh => {
                self.ssh_page = page;
            },
            RemoteProjectsTab::DevContainers => {
                self.dev_container_page = page;
            },
            RemoteProjectsTab::Wsl => {
                self.wsl_page = page;
            },
        }
    }

    /// Shows the first page of another list, with the given entry selected. The
    /// development containers are to be refreshed where they are shown: the
    /// result says so.
    pub fn select_tab(&mut self, tab: RemoteProjectsTab, first: Option<RemoteEntryKey>) -> (r: bool)
        ensures
            final(self)@ == (PageStateView {
                tab,
                selected: opt_model(first),
                ..with_page(old(self)@, tab, 0)
            }),
            r == (tab == RemoteProjectsTab::DevContainers),
    {
        self.tab = tab;
        self.set_page(tab, 0);
        self.selected = first;
        tab == RemoteProjectsTab::DevContainers
    }

    /// Forgets the page and the selection after the search of a list has been
    /// cleared.
    pub fn clear_search(&mut self, tab: RemoteProjectsTab)
        ensures
            final(self)@ == (PageStateView { selected: None, ..with_page(old(self)@, tab, 0) }),
    {
        self.set_page(tab, 0);
        self.selected = None;
    }
}

/// What the page shows of the list: the places of the visible servers, the
/// pages, the places of the servers of the shown page, the place of the
/// selected one, and the servers that are selected on turning the page.
#[derive(Clone, Debug, PartialEq, Eq)]
pub struct DefaultPage {
    pub visible: Vec<usize>,
    pub total_pages: usize,
    pub current_page: usize,
    pub paged: Vec<usize>,
    pub selected: Option<usize>,
    pub prev_page_key: Option<RemoteEntryKey>,
    pub next_page_key: Option<RemoteEntryKey>,
    pub empty_message: String,
}

/// The key of the first entry of a page, if the page has one.
pub open spec fn page_first_key(
    servers: Seq<RemoteEntryView>,
    visible: Seq<int>,
    page: int,
) -> Option<RemoteEntryKeyView> {
    if 0 <= page && page * 5 < visible.len() {
        Some(entry_key(servers[visible[page * 5]]))
    } else {
        None
    }
}

/// Whether a page shows the servers of a list under a search, in a state.
pub open spec fn page_is(
    p: DefaultPage,
    servers: Seq<RemoteEntryView>,
    query: Seq<char>,
    entries: Map<Seq<char>, SshConfigEntryView>,
    s: PageStateView,
) -> bool {
    let visible = visible_places(servers, s.tab, query, entries);
    let at = selected_place(servers, visible, s.selected);
    let current = shown_page(visible.len(), page_of(s, s.tab) as nat, at);
    &&& places(p.visible@) == visible
    &&& p.total_pages == page_count(visible.len())
    &&& p.current_page == current
    &&& places(p.paged@) == visible.subrange(
        page_start(visible.len(), current),
        page_end(visible.len(), current),
    )
    &&& p.selected == (if visible.len() == 0 {
        None
    } else {
        match at {
            Some(i) => Some(visible[i] as usize),
            None => Some(visible[page_start(visible.len(), current)] as usize),
        }
    })
    &&& opt_model(p.prev_page_key) == page_first_key(servers, visible, current - 1)
    &&& opt_model(p.next_page_key) == page_first_key(servers, visible, (current + 1) as int)
    &&& p.empty_message@ == (if query.len() > 0 {
        "No servers match your search."@
    } else {
        empty_text(s.tab)
    })
}

/// The places of the entries that are visible on a list under a search.
pub fn visible_servers(
    servers: &Vec<RemoteEntry>,
    tab: RemoteProjectsTab,
    query: &str,
    entries: &SshConfigEntries,
) -> (r: Vec<usize>)
    requires
        entries.wf(),
    ensures
        places(r@) == visible_places(models(servers@), tab, query@, entries@),
{
    let ghost all = models(servers@);
    let mut out: Vec<usize> = Vec::new();
    let mut i: usize = 0;
    assert(places(out@) =~= visible_places(all.take(0), tab, query@, entries@));
    while i < servers.len()
        invariant
            i <= servers.len(),
            all == models(servers@),
            entries.wf(),
            places(out@) == visible_places(all.take(i as int), tab, query@, entries@),
        decreases servers.len() - i,
    {
        let ghost head = all.take(i + 1);
        let ghost before = out@;
        proof {
            assert(head.drop_last() =~= all.take(i as int));
            assert(head.last() == servers@[i as int]@);
        }
        if servers[i].matches_tab(tab) && matches_search_query(&servers[i], query, entries) {
            out.push(i);
            assert(places(out@) =~= places(before).push(i as int));
        }
        i = i + 1;
    }
    assert(all.take(i as int) =~= all);
    out
}

fn first_key_of(servers: &Vec<RemoteEntry>, visible: &Vec<usize>, page: usize) -> (r: Option<
    RemoteEntryKey,
>)
    requires
        forall|i: int| 0 <= i < visible.len() ==> (#[trigger] visible@[i]) < servers.len(),
    ensures
        opt_model(r) == page_first_key(models(servers@), places(visible@), page as int),
{
    if page <= visible.len() / 5 && page * 5 < visible.len() {
        let at: usize = visible[page * 5];
        assert(places(visible@)[page * 5] == at);
        assert(visible@[page * 5] < servers.len());
        Some(RemoteEntryKey::from_entry(&servers[at]))
    } else {
        None
    }
}

fn find_selected(
    servers: &Vec<RemoteEntry>,
    visible: &Vec<usize>,
    selected: &Option<RemoteEntryKey>,
) -> (r: Option<usize>)
    requires
        forall|i: int| 0 <= i < visible.len() ==> (#[trigger] visible@[i]) < servers.len(),
    ensures
        selected_place(models(servers@), places(visible@), opt_model(*selected)) == (match r {
            Some(i) => Some(i as int),
            None => None,
        }),
        r is Some ==> r->0 < visible.len(),
{
    let key = match selected {
        Some(key) => key,
        None => return None,
    };
    let ghost keys = keys_at(models(servers@), places(visible@));
    let ghost p = is_key(key@);
    let mut i: usize = 0;
    while i < visible.len()
        invariant
            i <= visible.len(),
            keys == keys_at(models(servers@), places(visible@)),
            p == is_key(key@),
            *selected == Some(*key),
            forall|k: int| 0 <= k < visible.len() ==> (#[trigger] visible@[k]) < servers.len(),
            forall|k: int| 0 <= k < i ==> !p(#[trigger] keys[k]),
        decreases visible.len() - i,
    {
        let at: usize = visible[i];
        assert(keys[i as int] == entry_key(servers@[at as int]@));
        if key.matches(&servers[at]) {
            proof {
                first_where_is(keys, p, i as int);
            }
            return Some(i);
        }
        i = i + 1;
    }
    proof {
        first_where_facts(keys, p);
    }
    None
}

fn places_between(visible: &Vec<usize>, start: usize, end: usize) -> (r: Vec<usize>)
    requires
        start <= end <= visible.len(),
    ensures
        places(r@) == places(visible@).subrange(start as int, end as int),
{
    let ghost view = places(visible@);
    let mut out: Vec<usize> = Vec::new();
    let mut k: usize = start;
    assert(places(out@) =~= view.subrange(start as int, k as int));
    while k < end
        invariant
            start <= k <= end <= visible.len(),
            view == places(visible@),
            places(out@) == view.subrange(start as int, k as int),
        decreases end - k,
    {
        let ghost before = out@;
        out.push(visible[k]);
        assert(places(out@) =~= places(before).push(view[k as int]));
        k = k + 1;
        assert(view.subrange(start as int, k as int) =~= view.subrange(start as int, k - 1).push(
            view[k - 1],
        ));
    }
    out
}

/// The page that is shown of `n` servers, the place of its first one and that
/// behind its last.
fn page_bounds(n: usize, stored: usize, found: Option<usize>) -> (r: (usize, usize, usize))
    requires
        found is Some ==> found->0 < n,
    ensures
        r.0 == shown_page(
            n as nat,
            stored as nat,
            match found {
                Some(i) => Some(i as int),
                None => None,
            },
        ),
        r.1 == page_start(n as nat, r.0 as nat),
        r.2 == page_end(n as nat, r.0 as nat),
        r.1 <= r.2 <= n,
        n > 0 ==> r.1 < n,
{
    let pages: usize = total_pages(n);
    let current: usize = match found {
        Some(i) => i / REMOTE_SERVERS_PAGE_SIZE,
        None => if stored < pages {
            stored
        } else if pages > 0 {
            pages - 1
        } else {
            0
        },
    };
    let start: usize = if current <= n / 5 {
        current * 5
    } else {
        n
    };
    let end: usize = if n - start > 5 {
        start + 5
    } else {
        n
    };
    (current, start, end)
}

/// What the page shows of the list, for a search that is in lower case. The
/// state takes over the shown page and the selected entry.
#[verifier::rlimit(50)]
#[verifier::spinoff_prover]
pub fn show_servers(
    state: &mut PageState,
    servers: &Vec<RemoteEntry>,
    query: &str,
    entries: &SshConfigEntries,
) -> (r: DefaultPage)
    requires
        entries.wf(),
    ensures
        page_is(r, models(servers@), query@, entries@, old(state)@),
        final(state)@ == (PageStateView {
            selected: match r.selected {
                Some(i) => Some(entry_key(models(servers@)[i as int])),
                None => None,
            },
            ..with_page(old(state)@, old(state)@.tab, r.current_page)
        }),
        r.selected is Some ==> r.selected->0 < servers.len(),
{
    let tab = state.tab;
    let visible = visible_servers(servers, tab, query, entries);
    let ghost all = models(servers@);
    let ghost view = visible_places(all, tab, query@, entries@);
    proof {
        visible_places_are_places(all, tab, query@, entries@);
        assert forall|i: int| 0 <= i < visible.len() implies (#[trigger] visible@[i])
            < servers.len() by {
            assert(view[i] == places(visible@)[i]);
        }
    }
    let n: usize = visible.len();
    let pages: usize = total_pages(n);
    let stored: usize = state.page(tab);
    let found = find_selected(servers, &visible, &state.selected);
    let ghost at = selected_place(all, view, state@.selected);
    let (current, start, end) = page_bounds(n, stored, found);
    let paged = places_between(&visible, start, end);
    let selected: Option<usize> = match found {
        Some(i) => Some(visible[i]),
        None => if n > 0 {
            Some(visible[start])
        } else {
            None
        },
    };
    proof {
        if n > 0 {
            assert(view[start as int] == visible@[start as int]);
        }
        if found is Some {
            assert(view[found->0 as int] == visible@[found->0 as int]);
        }
    }
    let prev_page_key = if current > 0 {
        first_key_of(servers, &visible, current - 1)
    } else {
        None
    };
    let next_page_key = if current < usize::MAX {
        first_key_of(servers, &visible, current + 1)
    } else {
        None
    };
    let empty_message = if query.is_empty() {
        tab.empty_message().to_owned()
    } else {
        "No servers match your search.".to_owned()
    };
    state.set_page(tab, current);
    state.selected = match selected {
        Some(i) => Some(RemoteEntryKey::from_entry(&servers[i])),
        None => None,
    };
    DefaultPage {
        visible,
        total_pages: pages,
        current_page: current,
        paged,
        selected,
        prev_page_key,
        next_page_key,
        empty_message,
    }
}

/// The list of servers that is shown: the present one, or a new one where the
/// settings or the SSH configuration have changed since it was made.
pub open spec fn fresh_list(
    list: Seq<RemoteEntryView>,
    s: RemoteSettingsView,
    hosts: Seq<Seq<char>>,
) -> Seq<RemoteEntryView> {
    if is_stale(list, s, hosts) {
        server_list(s, hosts)
    } else {
        list
    }
}

/// Shows the page for what has been typed into the search. A list that is out
/// of date is made anew first.
pub fn render_default(
    state: &mut PageState,
    servers: &mut Vec<RemoteEntry>,
    settings: &RemoteSettings,
    ssh_config_servers: &Vec<String>,
    search: &str,
    entries: &SshConfigEntries,
) -> (r: DefaultPage)
    requires
        entries.wf(),
        ascending(texts(ssh_config_servers@)),
    ensures
        models(final(servers)@) == fresh_list(
            models(old(servers)@),
            settings@,
            texts(ssh_config_servers@),
        ),
        !is_stale(models(final(servers)@), settings@, texts(ssh_config_servers@)),
        page_is(
            r,
            models(final(servers)@),
            unicode_lower(trimmed(search@)),
            entries@,
            old(state)@,
        ),
        final(state)@ == (PageStateView {
            selected: match r.selected {
                Some(i) => Some(entry_key(models(final(servers)@)[i as int])),
                None => None,
            },
            ..with_page(old(state)@, old(state)@.tab, r.current_page)
        }),
        r.selected is Some ==> r.selected->0 < final(servers)@.len(),
{
    if should_rebuild(servers, settings, ssh_config_servers) {
        *servers = default_servers(settings, ssh_config_servers);
        proof {
            new_list_is_not_stale(settings@, texts(ssh_config_servers@));
        }
    }
    let query = normalized_search_query(search);
    show_servers(state, servers, query.as_str(), entries)
}

/// Turning the page shows the page that is turned to, where no two visible
/// entries have the same key: the entry that is then selected stands on it.
pub proof fn turned_page_is_shown(
    servers: Seq<RemoteEntryView>,
    visible: Seq<int>,
    page: nat,
    stored: nat,
)
    requires
        keys_at(servers, visible).no_duplicates(),
        page * 5 < visible.len(),
    ensures
        shown_page(
            visible.len(),
            stored,
            selected_place(servers, visible, page_first_key(servers, visible, page as int)),
        ) == page,
{
    let keys = keys_at(servers, visible);
    let key = keys[(page * 5) as int];
    let p = is_key(key);
    assert forall|k: int| 0 <= k < page * 5 implies !p(#[trigger] keys[k]) by {
        assert(keys[k] != keys[(page * 5) as int]);
    }
    first_where_is(keys, p, (page * 5) as int);
}

/// A selected entry that is visible stays selected, and stands on the page that
/// is shown.
pub proof fn visible_selection_is_kept(
    p: DefaultPage,
    servers: Seq<RemoteEntryView>,
    query: Seq<char>,
    entries: Map<Seq<char>, SshConfigEntryView>,
    s: PageStateView,
)
    requires
        page_is(p, servers, query, entries, s),
        s.selected is Some,
        keys_at(servers, visible_places(servers, s.tab, query, entries)).contains(s.selected->0),
    ensures
        p.selected is Some,
        entry_key(servers[p.selected->0 as int]) == s.selected->0,
        places(p.paged@).contains(p.selected->0 as int),
{
    let visible = visible_places(servers, s.tab, query, entries);
    let keys = keys_at(servers, visible);
    let q = is_key(s.selected->0);
    visible_places_are_places(servers, s.tab, query, entries);
    first_where_facts(keys, q);
    let k = choose|k: int| 0 <= k < keys.len() && keys[k] == s.selected->0;
    assert(q(keys[k]));
    let at = first_where(keys, q)->0;
    let current = (at / 5) as nat;
    pages_part_the_servers(visible.len(), at, current);
    let start = page_start(visible.len(), current);
    let end = page_end(visible.len(), current);
    let shown = visible.subrange(start, end);
    assert(shown[at - start] == visible[at]);
    assert(visible[at] == places(p.visible@)[at]);
}

/// How the shown page is named.
pub fn page_label(current_page: usize, total_pages: usize) -> (r: String)
    requires
        current_page < usize::MAX,
    ensures
        r@ == "Page "@ + decimal((current_page + 1) as nat) + " of "@ + decimal(total_pages as nat),
{
    let mut out = "Page ".to_owned();
    out.append(decimal_of(current_page as u64 + 1).as_str());
    out.append(" of ");
    out.append(decimal_of(total_pages as u64).as_str());
    out
}

// ---------------------------------------------------------------------------
// The lists

/// How many entries stand on a list.
pub open spec fn count_on(servers: Seq<RemoteEntryView>, tab: RemoteProjectsTab) -> nat {
    servers.filter(|e: RemoteEntryView| tab_of(e) == tab).len()
}

/// How a list is called, with the number of its entries.
pub fn tab_label(servers: &Vec<RemoteEntry>, tab: RemoteProjectsTab) -> (r: String)
    ensures
        r@ == match tab {
            RemoteProjectsTab::Ssh => "SSH ("@,
            RemoteProjectsTab::DevContainers => "Dev Containers ("@,
            RemoteProjectsTab::Wsl => "WSL ("@,
        } + decimal(count_on(models(servers@), tab)) + ")"@,
{
    let ghost all = models(servers@);
    let ghost on = |e: RemoteEntryView| tab_of(e) == tab;
    let mut count: usize = 0;
    let mut i: usize = 0;
    proof {
        reveal(Seq::filter);
        assert(all.take(0).filter(on) =~= Seq::empty());
    }
    while i < servers.len()
        invariant
            i <= servers.len(),
            all == models(servers@),
            on == (|e: RemoteEntryView| tab_of(e) == tab),
            count == all.take(i as int).filter(on).len(),
            count <= i,
        decreases servers.len() - i,
    {
        proof {
            assert(all.take(i + 1) =~= all.take(i as int).push(all[i as int]));
            crate::text::filter_push(all.take(i as int), all[i as int], on);
        }
        if servers[i].matches_tab(tab) {
            count = count + 1;
        }
        i = i + 1;
    }
    assert(all.take(i as int) =~= all);
    let mut out = match tab {
        RemoteProjectsTab::Ssh => "SSH (".to_owned(),
        RemoteProjectsTab::DevContainers => "Dev Containers (".to_owned(),
        RemoteProjectsTab::Wsl => "WSL (".to_owned(),
    };
    out.append(decimal_of(count as u64).as_str());
    out.append(")");
    out
}

/// The lists that are offered: WSL only on Windows.
pub fn offered_tabs(on_windows: bool) -> (r: Vec<RemoteProjectsTab>)
    ensures
        r@ == (if on_windows {
            seq![
                RemoteProjectsTab::Ssh,
                RemoteProjectsTab::Wsl,
                RemoteProjectsTab::DevContainers,
            ]
        } else {
            seq![RemoteProjectsTab::Ssh, RemoteProjectsTab::DevContainers]
        }),
{
    let mut out: Vec<RemoteProjectsTab> = Vec::new();
    out.push(RemoteProjectsTab::Ssh);
    if on_windows {
        out.push(RemoteProjectsTab::Wsl);
    }
    out.push(RemoteProjectsTab::DevContainers);
    out
}

/// The place of a list among those that are offered; a list that is not
/// offered counts as the first.
pub fn selected_tab_index(tab: RemoteProjectsTab, on_windows: bool) -> (r: usize)
    ensures
        r == match tab {
            RemoteProjectsTab::Ssh => 0usize,
            RemoteProjectsTab::Wsl => if on_windows {
                1usize
            } else {
                0usize
            },
            RemoteProjectsTab::DevContainers => if on_windows {
                2usize
            } else {
                1usize
            },
        },
{
    match tab {
        RemoteProjectsTab::Ssh => 0,
        RemoteProjectsTab::Wsl => if on_windows {
            1
        } else {
            0
        },
        RemoteProjectsTab::DevContainers => if on_windows {
            2
        } else {
            1
        },
    }
}

/// The entry that is selected on showing a list under a search, if any is
/// visible.
pub fn first_visible_key(
    servers: &Vec<RemoteEntry>,
    tab: RemoteProjectsTab,
    query: &str,
    entries: &SshConfigEntries,
) -> (r: Option<RemoteEntryKey>)
    requires
        entries.wf(),
    ensures
        opt_model(r) == page_first_key(
            models(servers@),
            visible_places(models(servers@), tab, query@, entries@),
            0,
        ),
{
    let visible = visible_servers(servers, tab, query, entries);
    proof {
        visible_places_are_places(models(servers@), tab, query@, entries@);
        assert forall|i: int| 0 <= i < visible.len() implies (#[trigger] visible@[i])
            < servers.len() by {
            assert(places(visible@)[i] == visible@[i]);
        }
    }
    first_key_of(servers, &visible, 0)
}

/// What the keys move between on the page, from top to bottom.
#[derive(Clone, Copy, Debug, PartialEq, Eq, Structural)]
pub enum NavItem {
    AddServer,
    RefreshDevContainers,
    AddDevContainer,
    AddWsl,
    /// The row of the server at a place.
    Row(usize),
    /// A project of the selected server.
    Project(usize),
    OpenFolder,
    Configure,
}

/// What stands above the list.
pub open spec fn nav_head(tab: RemoteProjectsTab, has_open_project: bool, on_windows: bool) -> Seq<
    NavItem,
> {
    match tab {
        RemoteProjectsTab::Ssh => seq![NavItem::AddServer],
        RemoteProjectsTab::DevContainers => if has_open_project {
            seq![NavItem::RefreshDevContainers, NavItem::AddDevContainer]
        } else {
            seq![NavItem::RefreshDevContainers]
        },
        RemoteProjectsTab::Wsl => if on_windows {
            seq![NavItem::AddWsl]
        } else {
            Seq::empty()
        },
    }
}

/// What stands beside the list, for the selected server.
pub open spec fn nav_tail(selected: Option<RemoteEntryView>) -> Seq<NavItem> {
    match selected {
        None => Seq::empty(),
        Some(e) => match e {
            RemoteEntryView::Project { .. } => Seq::new(
                entry_projects(e).len(),
                |i: int| NavItem::Project(i as usize),
            ) + seq![NavItem::OpenFolder, NavItem::Configure],
            RemoteEntryView::SshConfig { .. } => seq![NavItem::OpenFolder],
        },
    }
}

fn project_count(entry: &RemoteEntry) -> (r: usize)
    requires
        entry is Project,
    ensures
        r == entry_projects(entry@).len(),
{
    match entry {
        RemoteEntry::Project { connection, index } => match connection {
            Connection::Ssh(c) => c.projects.len(),
            Connection::Wsl(c) => c.projects.len(),
            Connection::DevContainer(c) => c.projects.len(),
        },
        RemoteEntry::SshConfig { .. } => 0,
    }
}

/// What the keys move between on the page, from top to bottom.
pub fn navigation(
    tab: RemoteProjectsTab,
    has_open_project: bool,
    on_windows: bool,
    paged: &Vec<usize>,
    selected: Option<&RemoteEntry>,
) -> (r: Vec<NavItem>)
    ensures
        r@ == nav_head(tab, has_open_project, on_windows) + Seq::new(
            paged@.len(),
            |i: int| NavItem::Row(paged@[i]),
        ) + nav_tail(
            match selected {
                Some(e) => Some(e@),
                None => None,
            },
        ),
{
    let mut out: Vec<NavItem> = Vec::new();
    match tab {
        RemoteProjectsTab::Ssh => out.push(NavItem::AddServer),
        RemoteProjectsTab::DevContainers => {
            out.push(NavItem::RefreshDevContainers);
            if has_open_project {
                out.push(NavItem::AddDevContainer);
            }
        },
        RemoteProjectsTab::Wsl => {
            if on_windows {
                out.push(NavItem::AddWsl);
            }
        },
    }
    let ghost head = nav_head(tab, has_open_project, on_windows);
    let ghost rows = Seq::new(paged@.len(), |i: int| NavItem::Row(paged@[i]));
    assert(out@ =~= head);
    let mut i: usize = 0;
    assert(out@ =~= head + rows.take(0));
    while i < paged.len()
        invariant
            i <= paged.len(),
            rows == Seq::new(paged@.len(), |k: int| NavItem::Row(paged@[k])),
            out@ == head + rows.take(i as int),
        decreases paged.len() - i,
    {
        out.push(NavItem::Row(paged[i]));
        i = i + 1;
        assert(head + rows.take(i as int) =~= (head + rows.take(i - 1)).push(rows[i - 1]));
    }
    assert(rows.take(i as int) =~= rows);
    match selected {
        None => {
            assert(out@ =~= head + rows + Seq::<NavItem>::empty());
        },
        Some(e) => match e {
            RemoteEntry::Project { .. } => {
                let n: usize = project_count(e);
                let ghost projects = Seq::new(n as nat, |k: int| NavItem::Project(k as usize));
                let mut j: usize = 0;
                assert(out@ =~= head + rows + projects.take(0));
                while j < n
                    invariant
                        j <= n,
                        projects == Seq::new(n as nat, |k: int| NavItem::Project(k as usize)),
                        out@ == head + rows + projects.take(j as int),
                    decreases n - j,
                {
                    out.push(NavItem::Project(j));
                    j = j + 1;
                    assert(head + rows + projects.take(j as int) =~= (head + rows + projects.take(
                        j - 1,
                    )).push(projects[j - 1]));
                }
                out.push(NavItem::OpenFolder);
                out.push(NavItem::Configure);
                assert(projects.take(j as int) =~= projects);
                assert(out@ =~= head + rows + nav_tail(Some(e@)));
            },
            RemoteEntry::SshConfig { .. } => {
                out.push(NavItem::OpenFolder);
                assert(out@ =~= head + rows + nav_tail(Some(e@)));
            },
        },
    }
    out
}

/// What the page says of the keys that open a project.
pub fn window_hint(confirm: &str, secondary_confirm: &str, create_new_window: bool) -> (r: String)
    ensures
        r@ == (if create_new_window {
            secondary_confirm@ + " reuses this window, "@ + confirm@ + " opens a new one"@
        } else {
            confirm@ + " reuses this window, "@ + secondary_confirm@ + " opens a new one"@
        }),
{
    let (create, reuse) = if create_new_window {
        (confirm, secondary_confirm)
    } else {
        (secondary_confirm, confirm)
    };
    let mut out = reuse.to_owned();
    out.append(" reuses this window, ");
    out.append(create);
    out.append(" opens a new one");
    out
}

/// Whether opening a project replaces the present window: the secondary key
/// does the other thing than the usual one.
pub fn replaces_window(create_new_window: bool, secondary_confirm: bool) -> (r: bool)
    ensures
        r == (create_new_window == secondary_confirm),
{
    create_new_window == secondary_confirm
}

// ---------------------------------------------------------------------------
// The selected server

/// What can be done with a server.
#[derive(Clone, Copy, Debug, PartialEq, Eq, Structural)]
pub enum ServerAction {
    OpenFolder,
    ViewServerOptions,
    RenameDevContainer,
    RefreshDevContainers,
    ReconnectDevContainer,
    DisconnectAndReturn,
    StopAndDisconnect,
    StartAndConnect,
    RemoveDevContainer,
    AddNickname,
    EditNickname,
    CopyServerAddress,
    RemoveServer,
    RemoveDistro,
    GoBack,
}

/// How an action is called.
pub open spec fn action_label(action: ServerAction) -> Seq<char> {
    match action {
        ServerAction::OpenFolder => "Open Folder"@,
        ServerAction::ViewServerOptions => "View Server Options"@,
        ServerAction::RenameDevContainer => "Rename Dev Container"@,
        ServerAction::RefreshDevContainers => "Refresh Dev Containers"@,
        ServerAction::ReconnectDevContainer => "Reconnect Dev Container"@,
        ServerAction::DisconnectAndReturn => "Disconnect and Return to Host"@,
        ServerAction::StopAndDisconnect => "Stop Container and Disconnect"@,
        ServerAction::StartAndConnect => "Start Container and Connect"@,
        ServerAction::RemoveDevContainer => "Remove Dev Container"@,
        ServerAction::AddNickname => "Add Nickname to Server"@,
        ServerAction::EditNickname => "Edit Nickname"@,
        ServerAction::CopyServerAddress => "Copy Server Address"@,
        ServerAction::RemoveServer => "Remove Server"@,
        ServerAction::RemoveDistro => "Remove Distro"@,
        ServerAction::GoBack => "Go Back"@,
    }
}

impl ServerAction {
    /// How the action is called.
    pub fn label(self) -> (r: &'static str)
        ensures
            r@ == action_label(self),
    {
        match self {
            ServerAction::OpenFolder => "Open Folder",
            ServerAction::ViewServerOptions => "View Server Options",
            ServerAction::RenameDevContainer => "Rename Dev Container",
            ServerAction::RefreshDevContainers => "Refresh Dev Containers",
            ServerAction::ReconnectDevContainer => "Reconnect Dev Container",
            ServerAction::DisconnectAndReturn => "Disconnect and Return to Host",
            ServerAction::StopAndDisconnect => "Stop Container and Disconnect",
            ServerAction::StartAndConnect => "Start Container and Connect",
            ServerAction::RemoveDevContainer => "Remove Dev Container",
            ServerAction::AddNickname => "Add Nickname to Server",
            ServerAction::EditNickname => "Edit Nickname",
            ServerAction::CopyServerAddress => "Copy Server Address",
            ServerAction::RemoveServer => "Remove Server",
            ServerAction::RemoveDistro => "Remove Distro",
            ServerAction::GoBack => "Go Back",
        }
    }
}

/// What can be done with a development container: a running one can be stopped,
/// any other can be started.
pub open spec fn container_actions(probe: DevContainerProbe) -> Seq<ServerAction> {
    seq![
        ServerAction::RenameDevContainer,
        ServerAction::RefreshDevContainers,
        ServerAction::ReconnectDevContainer,
        ServerAction::DisconnectAndReturn,
        if probe == DevContainerProbe::Running {
            ServerAction::StopAndDisconnect
        } else {
            ServerAction::StartAndConnect
        },
        ServerAction::RemoveDevContainer,
    ]
}

/// What can be done with the selected server.
pub open spec fn details_actions(e: RemoteEntryView, probe: DevContainerProbe) -> Seq<ServerAction> {
    match e {
        RemoteEntryView::Project { connection, index } => match connection {
            ConnectionView::DevContainer(_) => container_actions(probe),
            _ => seq![ServerAction::OpenFolder, ServerAction::ViewServerOptions],
        },
        RemoteEntryView::SshConfig { .. } => seq![ServerAction::OpenFolder],
    }
}

fn list_container_actions(probe: DevContainerProbe) -> (r: Vec<ServerAction>)
    ensures
        r@ == container_actions(probe),
{
    let mut out: Vec<ServerAction> = Vec::new();
    out.push(ServerAction::RenameDevContainer);
    out.push(ServerAction::RefreshDevContainers);
    out.push(ServerAction::ReconnectDevContainer);
    out.push(ServerAction::DisconnectAndReturn);
    if probe == DevContainerProbe::Running {
        out.push(ServerAction::StopAndDisconnect);
    } else {
        out.push(ServerAction::StartAndConnect);
    }
    out.push(ServerAction::RemoveDevContainer);
    assert(out@ =~= container_actions(probe));
    out
}

/// A project as it is listed: its paths in one line, and one below the other.
#[derive(Clone, Debug, PartialEq, Eq)]
pub struct ProjectRow {
    pub label: String,
    pub tooltip: String,
}

/// What is shown of the selected server.
#[derive(Clone, Debug, PartialEq, Eq)]
pub struct DetailsPage {
    pub title: String,
    pub nickname: Option<String>,
    pub is_wsl: bool,
    pub is_devcontainer: bool,
    /// What is known of a development container, line by line.
    pub meta: Vec<String>,
    pub projects: Vec<ProjectRow>,
    /// Whether projects can be taken out of the list.
    pub deletable: bool,
    pub actions: Vec<ServerAction>,
}

/// What is known of a development container, line by line.
pub open spec fn meta_lines(c: DevContainerConnectionView, probe: DevContainerProbe) -> Seq<Seq<char>> {
    let root = match project_root(c) {
        Some(path) => seq!["Project: "@ + path],
        None => Seq::empty(),
    };
    let config = match shown_config(c) {
        Some(path) => seq!["Config: "@ + path],
        None => Seq::empty(),
    };
    seq![probe_text(probe), "Host: "@ + shown_host(c.host)] + root + config
}

/// Whether a page shows the selected server.
pub open spec fn details_shows(p: DetailsPage, e: RemoteEntryView, probe: DevContainerProbe) -> bool {
    let projects = entry_projects(e);
    &&& (p.title@, opt_text(p.nickname), p.is_wsl, p.is_devcontainer) == header_labels(e)
    &&& texts(p.meta@) == match e {
        RemoteEntryView::Project { connection: ConnectionView::DevContainer(c), index } =>
            meta_lines(c, probe),
        _ => Seq::empty(),
    }
    &&& p.projects@.len() == projects.len()
    &&& forall|i: int|
        0 <= i < projects.len() ==> (#[trigger] p.projects@[i]).label@ == joined(
            projects[i],
            ", "@,
        ) && p.projects@[i].tooltip@ == joined(projects[i], "\n"@)
    &&& p.deletable == (e is Project)
    &&& p.actions@ == details_actions(e, probe)
}

fn project_rows(projects: &Vec<RemoteProject>) -> (r: Vec<ProjectRow>)
    ensures
        r@.len() == projects@.len(),
        forall|i: int|
            0 <= i < projects@.len() ==> (#[trigger] r@[i]).label@ == joined(
                models(projects@)[i],
                ", "@,
            ) && r@[i].tooltip@ == joined(models(projects@)[i], "\n"@),
{
    let mut out: Vec<ProjectRow> = Vec::new();
    let mut i: usize = 0;
    while i < projects.len()
        invariant
            i <= projects.len(),
            out.len() == i,
            forall|k: int|
                0 <= k < i ==> (#[trigger] out@[k]).label@ == joined(models(projects@)[k], ", "@)
                    && out@[k].tooltip@ == joined(models(projects@)[k], "\n"@),
        decreases projects.len() - i,
    {
        out.push(
            ProjectRow {
                label: join(&projects[i].paths, ", "),
                tooltip: join(&projects[i].paths, "\n"),
            },
        );
        i = i + 1;
    }
    out
}

fn list_meta(c: &DevContainerConnection, probe: DevContainerProbe) -> (r: Vec<String>)
    ensures
        texts(r@) == meta_lines(c@, probe),
{
    let mut out: Vec<String> = Vec::new();
    push_str(&mut out, probe.text());
    let mut host = "Host: ".to_owned();
    host.append(format_devcontainer_host(&c.host).as_str());
    push_str(&mut out, host.as_str());
    if let Some(path) = devcontainer_host_project_root(c) {
        let mut line = "Project: ".to_owned();
        line.append(path.as_str());
        push_str(&mut out, line.as_str());
    }
    if let Some(path) = devcontainer_display_config_path(c) {
        let mut line = "Config: ".to_owned();
        line.append(path.as_str());
        push_str(&mut out, line.as_str());
    }
    assert(texts(out@) =~= meta_lines(c@, probe));
    out
}

/// What is shown of the selected server, of which, where it is a development
/// container, the given state is known.
pub fn render_remote_details(entry: &RemoteEntry, probe: DevContainerProbe) -> (r: DetailsPage)
    ensures
        details_shows(r, entry@, probe),
{
    let (title, nickname, is_wsl, is_devcontainer) = entry.header_info();
    let mut actions: Vec<ServerAction> = Vec::new();
    let mut meta: Vec<String> = Vec::new();
    assert(texts(meta@) =~= Seq::empty());
    let projects = match entry {
        RemoteEntry::Project { connection, index } => match connection {
            Connection::Ssh(c) => {
                actions.push(ServerAction::OpenFolder);
                actions.push(ServerAction::ViewServerOptions);
                project_rows(&c.projects)
            },
            Connection::Wsl(c) => {
                actions.push(ServerAction::OpenFolder);
                actions.push(ServerAction::ViewServerOptions);
                project_rows(&c.projects)
            },
            Connection::DevContainer(c) => {
                actions = list_container_actions(probe);
                meta = list_meta(c, probe);
                project_rows(&c.projects)
            },
        },
        RemoteEntry::SshConfig { .. } => {
            actions.push(ServerAction::OpenFolder);
            Vec::new()
        },
    };
    assert(actions@ =~= details_actions(entry@, probe));
    DetailsPage {
        title,
        nickname,
        is_wsl,
        is_devcontainer,
        meta,
        projects,
        deletable: entry.is_from_zed(),
        actions,
    }
}

// ---------------------------------------------------------------------------
// The options of a server

/// The options of a server that are viewed, and its place in the settings.
#[derive(Clone, Debug, PartialEq, Eq)]
pub enum ViewServerOptions {
    Ssh(SshConnectionOptions, usize),
    Wsl(WslConnectionOptions, usize),
    DevContainer(DevContainerConnection, usize),
}

/// The saved development container that options lead into, as it is viewed: its
/// projects and its configuration are those that are saved at its place, where
/// the container there has the same key.
pub open spec fn viewed_container(
    o: crate::connection::DockerConnectionOptionsView,
    saved: Option<DevContainerConnectionView>,
) -> DevContainerConnectionView {
    let bare = DevContainerConnectionView {
        name: o.name,
        remote_user: o.remote_user,
        container_id: o.container_id,
        use_podman: o.use_podman,
        config_path: None,
        projects: Seq::empty(),
        host_projects: Seq::empty(),
        last_host_project: None,
        host: crate::connection::devcontainer_host_view(o.host),
        remote_env: o.remote_env,
    };
    match saved {
        Some(s) => if key_of(s) == key_of(bare) {
            DevContainerConnectionView {
                config_path: s.config_path,
                projects: s.projects,
                host_projects: s.host_projects,
                ..bare
            }
        } else {
            bare
        },
        None => bare,
    }
}

/// The options of a server that are viewed; none where the place and the
/// options are of different kinds.
pub fn view_server_options(
    index: ServerIndex,
    options: RemoteConnectionOptions,
    saved: &Vec<DevContainerConnection>,
) -> (r: Option<ViewServerOptions>)
    ensures
        match (index, options@) {
            (ServerIndex::Ssh(i), RemoteConnectionOptionsView::Ssh(o)) => r is Some && r->0 is Ssh
                && r->0->Ssh_0@ == o && r->0->Ssh_1 == i,
            (ServerIndex::Wsl(i), RemoteConnectionOptionsView::Wsl(o)) => r is Some && r->0 is Wsl
                && r->0->Wsl_0@ == o && r->0->Wsl_1 == i,
            (ServerIndex::DevContainer(i), RemoteConnectionOptionsView::Docker(o)) => r is Some
                && r->0 is DevContainer && r->0->DevContainer_1 == i && r->0->DevContainer_0@
                == viewed_container(
                o,
                if i < saved@.len() {
                    Some(models(saved@)[i as int])
                } else {
                    None
                },
            ),
            _ => r is None,
        },
{
    match (index, options) {
        (ServerIndex::Ssh(i), RemoteConnectionOptions::Ssh(o)) => Some(ViewServerOptions::Ssh(o, i)),
        (ServerIndex::Wsl(i), RemoteConnectionOptions::Wsl(o)) => Some(ViewServerOptions::Wsl(o, i)),
        (ServerIndex::DevContainer(i), RemoteConnectionOptions::Docker(o)) => {
            let host = crate::connection::devcontainer_host_from_docker_host(&o.host);
            let mut c = DevContainerConnection {
                name: o.name,
                remote_user: o.remote_user,
                container_id: o.container_id,
                use_podman: o.use_podman,
                config_path: None,
                projects: Vec::new(),
                host_projects: Vec::new(),
                last_host_project: None,
                host,
                remote_env: o.remote_env,
            };
            assert(models(c.projects@) =~= Seq::empty());
            assert(models(c.host_projects@) =~= Seq::empty());
            if i < saved.len() {
                let key = DevContainerKey::from_connection(&c);
                let s = &saved[i];
                assert(models(saved@)[i as int] == s@);
                if DevContainerKey::from_connection(s).same(&key) {
                    c.config_path = crate::text::copy_opt(&s.config_path);
                    c.projects = crate::model::dup_all(&s.projects);
                    c.host_projects = crate::model::dup_all(&s.host_projects);
                }
            }
            Some(ViewServerOptions::DevContainer(c, i))
        },
        _ => None,
    }
}

/// What can be done on the page of a server's options.
pub open spec fn options_actions(v: ViewServerOptions, probe: DevContainerProbe) -> Seq<
    ServerAction,
> {
    match v {
        ViewServerOptions::Ssh(o, _) => seq![
            if o@.nickname is Some {
                ServerAction::EditNickname
            } else {
                ServerAction::AddNickname
            },
            ServerAction::CopyServerAddress,
            ServerAction::RemoveServer,
            ServerAction::GoBack,
        ],
        ViewServerOptions::Wsl(_, _) => seq![ServerAction::RemoveDistro, ServerAction::GoBack],
        ViewServerOptions::DevContainer(_, _) => container_actions(probe).push(
            ServerAction::GoBack,
        ),
    }
}

/// What can be done on the page of a server's options.
pub fn render_view_options(options: &ViewServerOptions, probe: DevContainerProbe) -> (r: Vec<
    ServerAction,
>)
    ensures
        r@ == options_actions(*options, probe),
{
    match options {
        ViewServerOptions::Ssh(o, _) => {
            let mut out: Vec<ServerAction> = Vec::new();
            if o.nickname.is_some() {
                out.push(ServerAction::EditNickname);
            } else {
                out.push(ServerAction::AddNickname);
            }
            out.push(ServerAction::CopyServerAddress);
            out.push(ServerAction::RemoveServer);
            out.push(ServerAction::GoBack);
            assert(out@ =~= options_actions(*options, probe));
            out
        },
        ViewServerOptions::Wsl(_, _) => {
            let mut out: Vec<ServerAction> = Vec::new();
            out.push(ServerAction::RemoveDistro);
            out.push(ServerAction::GoBack);
            assert(out@ =~= options_actions(*options, probe));
            out
        },
        ViewServerOptions::DevContainer(_, _) => {
            let mut out = list_container_actions(probe);
            out.push(ServerAction::GoBack);
            out
        },
    }
}

/// What the heading on the page of a server's options shows: the host and the
/// nickname of an SSH server, the name of a WSL distribution, or the name of a
/// development container.
pub open spec fn options_heading(v: ViewServerOptions) -> (
    Seq<char>,
    Option<Seq<char>>,
    bool,
    bool,
) {
    match v {
        ViewServerOptions::Ssh(o, _) => (o@.host, o@.nickname, false, false),
        ViewServerOptions::Wsl(o, _) => (o@.distro_name, None, true, false),
        ViewServerOptions::DevContainer(c, _) => (c@.name, None, false, true),
    }
}

/// What the heading on the page of a server's options shows.
pub fn view_options_heading(options: &ViewServerOptions) -> (r: PickerHeading)
    ensures
        (r.title@, opt_text(r.nickname), r.is_wsl, r.is_devcontainer) == options_heading(*options),
{
    match options {
        ViewServerOptions::Ssh(o, _) => PickerHeading {
            title: o.host.clone(),
            nickname: crate::text::copy_opt(&o.nickname),
            is_wsl: false,
            is_devcontainer: false,
        },
        ViewServerOptions::Wsl(o, _) => PickerHeading {
            title: o.distro_name.clone(),
            nickname: None,
            is_wsl: true,
            is_devcontainer: false,
        },
        ViewServerOptions::DevContainer(c, _) => PickerHeading {
            title: c.name.clone(),
            nickname: None,
            is_wsl: false,
            is_devcontainer: true,
        },
    }
}

/// A question with the answers that are offered.
#[derive(Clone, Debug, PartialEq, Eq)]
pub struct Question {
    pub title: String,
    pub detail: String,
    pub answers: Vec<String>,
}

/// What is asked where a development container is to be made; nothing where a
/// project is open, from which it is made.
pub fn add_dev_container(has_open_project: bool) -> (r: Option<Question>)
    ensures
        r is Some <==> !has_open_project,
        r matches Some(q) ==> q.title@ == "Open a project to create a dev container"@ && q.detail@
            == "Dev containers are created from the active project's .devcontainer/devcontainer.json."@
            && texts(q.answers@) == seq!["Open Folder..."@, "Cancel"@],
{
    if has_open_project {
        return None;
    }
    let mut answers: Vec<String> = Vec::new();
    push_str(&mut answers, "Open Folder...");
    push_str(&mut answers, "Cancel");
    assert(texts(answers@) =~= seq!["Open Folder..."@, "Cancel"@]);
    Some(
        Question {
            title: "Open a project to create a dev container".to_owned(),
            detail: "Dev containers are created from the active project's .devcontainer/devcontainer.json.".to_owned(),
            answers,
        },
    )
}

/// Whether a folder is to be opened after the question has been answered, or
/// closed without an answer.
pub fn opens_folder(answer: Option<usize>) -> (r: bool)
    ensures
        r == (answer == Some(0usize)),
{
    match answer {
        Some(i) => i == 0,
        None => false,
    }
}

/// The question before a server is taken out of the settings.
pub fn remove_server_prompt(host: &str) -> (r: String)
    ensures
        r@ == "Remove server `"@ + host@ + "`?"@,
{
    let mut out = "Remove server `".to_owned();
    out.append(host);
    out.append("`?");
    out
}

/// Takes the SSH server at `index` out where the question has been answered with
/// its first answer. Gives whether the list of servers is shown again.
pub fn remove_server_answered(
    settings: &mut RemoteSettingsContent,
    index: usize,
    answer: Option<usize>,
) -> (r: bool)
    requires
        answer == Some(0usize) && old(settings)@.ssh_connections is Some ==> index < old(
            settings,
        )@.ssh_connections->0.len(),
    ensures
        r == (answer == Some(0usize)),
        final(settings)@ == (if answer == Some(0usize) {
            RemoteSettingsContentView {
                ssh_connections: match old(settings)@.ssh_connections {
                    Some(list) => Some(list.remove(index as int)),
                    None => None,
                },
                ..old(settings)@
            }
        } else {
            old(settings)@
        }),
{
    if answer == Some(0usize) {
        settings.delete_ssh_server(index);
        true
    } else {
        false
    }
}

/// The question before a WSL distribution is taken out of the settings.
pub fn remove_distro_prompt(distro_name: &str) -> (r: String)
    ensures
        r@ == "Remove WSL distro `"@ + distro_name@ + "`?"@,
{
    let mut out = "Remove WSL distro `".to_owned();
    out.append(distro_name);
    out.append("`?");
    out
}

/// Takes the WSL distribution at `index` out where the question has been
/// answered with its first answer. Gives whether the list of servers is shown
/// again.
pub fn remove_distro_answered(
    settings: &mut RemoteSettingsContent,
    index: usize,
    answer: Option<usize>,
) -> (r: bool)
    requires
        answer == Some(0usize) && old(settings)@.wsl_connections is Some ==> index < old(
            settings,
        )@.wsl_connections->0.len(),
    ensures
        r == (answer == Some(0usize)),
        final(settings)@ == (if answer == Some(0usize) {
            RemoteSettingsContentView {
                wsl_connections: match old(settings)@.wsl_connections {
                    Some(list) => Some(list.remove(index as int)),
                    None => None,
                },
                ..old(settings)@
            }
        } else {
            old(settings)@
        }),
{
    if answer == Some(0usize) {
        settings.delete_wsl_distro(index);
        true
    } else {
        false
    }
}

/// What is shown after the address of a server has been copied.
pub fn address_copied_message(host: &str) -> (r: String)
    ensures
        r@ == "Copied server address ("@ + host@ + ") to clipboard"@,
{
    let mut out = "Copied server address (".to_owned();
    out.append(host);
    out.append(") to clipboard");
    out
}

/// The question before a saved connection is deleted.
pub fn delete_connection_prompt(options: &SshConnectionOptions) -> (r: String)
    ensures
        r@ == "Delete saved connection `"@ + crate::connection::shown_connection(options@) + "`?"@,
{
    let mut out = "Delete saved connection `".to_owned();
    out.append(options.connection_string().as_str());
    out.append("`?");
    out
}

/// Deletes a saved connection where the question has been answered with its
/// first answer, and gives what is then shown.
pub fn delete_connection_answered(
    settings: &mut RemoteSettingsContent,
    connection: &SshConnection,
    answer: Option<usize>,
) -> (r: Option<String>)
    ensures
        if answer == Some(0usize) {
            &&& final(settings)@ == (RemoteSettingsContentView {
                ssh_connections: match old(settings)@.ssh_connections {
                    Some(list) => Some(list.filter(|c: SshConnectionView| c != connection@)),
                    None => None,
                },
                ..old(settings)@
            })
            &&& opt_text(r) == Some("Saved connection deleted."@)
        } else {
            final(settings)@ == old(settings)@ && r is None
        },
{
    if answer == Some(0usize) {
        settings.remove_saved_connection(connection);
        Some("Saved connection deleted.".to_owned())
    } else {
        None
    }
}

/// The question before all saved connections are deleted.
pub fn delete_all_connections_prompt() -> (r: Question)
    ensures
        r.title@ == "Delete all saved connections?"@,
        r.detail@ == "This will clear the saved connection history."@,
        texts(r.answers@) == seq!["Delete all"@, "Cancel"@],
{
    let mut answers: Vec<String> = Vec::new();
    push_str(&mut answers, "Delete all");
    push_str(&mut answers, "Cancel");
    assert(texts(answers@) =~= seq!["Delete all"@, "Cancel"@]);
    Question {
        title: "Delete all saved connections?".to_owned(),
        detail: "This will clear the saved connection history.".to_owned(),
        answers,
    }
}

/// Deletes all saved connections where the question has been answered with its
/// first answer, and gives what is then shown.
pub fn delete_all_connections_answered(
    settings: &mut RemoteSettingsContent,
    answer: Option<usize>,
) -> (r: Option<String>)
    ensures
        if answer == Some(0usize) {
            &&& final(settings)@ == (RemoteSettingsContentView {
                ssh_connections: match old(settings)@.ssh_connections {
                    Some(_) => Some(Seq::empty()),
                    None => None,
                },
                ..old(settings)@
            })
            &&& opt_text(r) == Some("All saved connections deleted."@)
        } else {
            final(settings)@ == old(settings)@ && r is None
        },
{
    if answer == Some(0usize) {
        settings.remove_all_saved_connections();
        Some("All saved connections deleted.".to_owned())
    } else {
        None
    }
}

// ---------------------------------------------------------------------------
// What the page shows

/// A page holds five servers, and the last one the rest.
pub proof fn five_servers_stand_on_a_page(n: nat, page: nat)
    ensures
        page_count(n) * 5 >= n,
        n > 0 ==> (page_count(n) - 1) * 5 < n,
        page < page_count(n) ==> page_start(n, page) == 5 * page,
        page + 1 < page_count(n) ==> page_end(n, page) == 5 * page + 5,
        page + 1 == page_count(n) ==> page_end(n, page) == n,
{
}

/// The page that is shown is the one with the selected server; without one it is
/// the one that was shown before, or the last where there are fewer.
pub proof fn selected_server_is_on_the_page(n: nat, stored: nat, at: int)
    requires
        0 <= at < n,
    ensures
        5 * shown_page(n, stored, Some(at)) <= at < 5 * shown_page(n, stored, Some(at)) + 5,
        5 * stored < n ==> shown_page(n, stored, None) == stored,
        5 * stored >= n ==> shown_page(n, stored, None) + 1 == page_count(n),
{
}

/// A server is shown in its list, where the search finds it.
pub proof fn servers_are_shown_where_found(
    e: RemoteEntryView,
    tab: RemoteProjectsTab,
    query: Seq<char>,
    entries: Map<Seq<char>, SshConfigEntryView>,
)
    ensures
        is_visible(e, tab, query, entries) ==> tab_of(e) == tab,
        is_visible(e, tab, Seq::empty(), entries) <==> tab_of(e) == tab,
        query.len() > 0 && is_visible(e, tab, query, entries) ==> crate::text::has_part(
            unicode_lower(search_text(e, entries)),
            query,
        ),
        tab_of(e) == tab && crate::text::has_part(unicode_lower(search_text(e, entries)), query)
            ==> is_visible(e, tab, query, entries),
{
}

/// The servers of a page are those of its five places; one of the visible
/// servers is selected where there are any, the one that was or the first of
/// the page. The keys lead to the first server of the page before and behind.
pub proof fn page_shows_its_servers(
    p: DefaultPage,
    servers: Seq<RemoteEntryView>,
    query: Seq<char>,
    entries: Map<Seq<char>, SshConfigEntryView>,
    s: PageStateView,
    i: int,
)
    requires
        page_is(p, servers, query, entries, s),
        servers.len() <= usize::MAX,
    ensures
        ({
            let visible = visible_places(servers, s.tab, query, entries);
            let first = 5 * p.current_page;
            &&& p.visible@.len() == visible.len()
            &&& 0 <= i < visible.len() ==> p.visible@[i] == visible[i]
            &&& p.paged@.len() <= 5
            &&& 0 <= i < 5 && first + i < visible.len() ==> i < p.paged@.len() && p.paged@[i]
                == visible[first + i]
            &&& visible.len() == 0 <==> p.selected is None
            &&& s.selected is None && visible.len() > 0 ==> p.selected == Some(
                visible[first] as usize,
            )
            &&& p.current_page == 0 ==> p.prev_page_key is None
            &&& p.current_page > 0 && first - 5 < visible.len() ==> opt_model(p.prev_page_key)
                == Some(entry_key(servers[visible[first - 5]]))
            &&& first + 5 < visible.len() ==> opt_model(p.next_page_key) == Some(
                entry_key(servers[visible[first + 5]]),
            )
            &&& first + 5 >= visible.len() ==> p.next_page_key is None
            &&& query.len() > 0 ==> p.empty_message@ == "No servers match your search."@
            &&& query.len() == 0 ==> p.empty_message@ == empty_text(s.tab)
        }),
{
    let visible = visible_places(servers, s.tab, query, entries);
    let at = selected_place(servers, visible, s.selected);
    let current = p.current_page as nat;
    let n = visible.len();
    visible_places_are_places(servers, s.tab, query, entries);
    if s.selected is Some {
        first_where_facts(keys_at(servers, visible), is_key(s.selected->0));
    }
    shown_page_exists(n, page_of(s, s.tab) as nat, at);
    let part = visible.subrange(page_start(n, current), page_end(n, current));
    assert(places(p.paged@).len() == p.paged@.len());
    assert(places(p.visible@).len() == p.visible@.len());
    if 0 <= i < visible.len() {
        assert(places(p.visible@)[i] == visible[i]);
    }
    if 0 <= i < 5 && 5 * current + i < n {
        assert(places(p.paged@)[i] == part[i]);
    }
}

/// Each list keeps its own page.
pub proof fn lists_keep_their_pages(
    s: PageStateView,
    a: RemoteProjectsTab,
    b: RemoteProjectsTab,
    page: usize,
)
    ensures
        page_of(with_page(s, a, page), a) == page,
        a != b ==> page_of(with_page(s, a, page), b) == page_of(s, b),
        with_page(s, a, page).selected == s.selected,
        with_page(s, a, page).tab == s.tab,
{
}

/// A list is counted server by server.
pub proof fn servers_are_counted(
    servers: Seq<RemoteEntryView>,
    e: RemoteEntryView,
    tab: RemoteProjectsTab,
)
    ensures
        count_on(Seq::empty(), tab) == 0,
        tab_of(e) == tab ==> count_on(servers.push(e), tab) == count_on(servers, tab) + 1,
        tab_of(e) != tab ==> count_on(servers.push(e), tab) == count_on(servers, tab),
{
    let f = |x: RemoteEntryView| tab_of(x) == tab;
    crate::text::filter_push(servers, e, f);
    reveal(Seq::filter);
    assert(Seq::<RemoteEntryView>::empty().filter(f) =~= Seq::empty());
}

/// What can be reached with the keys: the buttons of the list, then its rows,
/// then what can be done with the selected server.
pub proof fn buttons_lead_the_keys(open: bool, windows: bool, e: RemoteEntryView, i: int)
    requires
        entry_projects(e).len() <= usize::MAX,
    ensures
        ({
            let ssh = nav_head(RemoteProjectsTab::Ssh, open, windows);
            let dev = nav_head(RemoteProjectsTab::DevContainers, open, windows);
            let wsl = nav_head(RemoteProjectsTab::Wsl, open, windows);
            let tail = nav_tail(Some(e));
            let n = entry_projects(e).len() as int;
            &&& ssh.len() == 1 && ssh[0] is AddServer
            &&& dev[0] is RefreshDevContainers
            &&& open ==> dev.len() == 2 && dev[1] is AddDevContainer
            &&& !open ==> dev.len() == 1
            &&& windows ==> wsl.len() == 1 && wsl[0] is AddWsl
            &&& !windows ==> wsl.len() == 0
            &&& nav_tail(None).len() == 0
            &&& e is SshConfig ==> tail.len() == 1 && tail[0] is OpenFolder
            &&& e is Project ==> tail.len() == n + 2 && tail[n] is OpenFolder && tail[n
                + 1] is Configure
            &&& e is Project && 0 <= i < n ==> tail[i] == NavItem::Project(i as usize)
        }),
{
}

/// Every action is called by its name.
pub proof fn actions_are_named()
    ensures
        action_label(ServerAction::OpenFolder) == "Open Folder"@,
        action_label(ServerAction::ViewServerOptions) == "View Server Options"@,
        action_label(ServerAction::RenameDevContainer) == "Rename Dev Container"@,
        action_label(ServerAction::RefreshDevContainers) == "Refresh Dev Containers"@,
        action_label(ServerAction::ReconnectDevContainer) == "Reconnect Dev Container"@,
        action_label(ServerAction::DisconnectAndReturn) == "Disconnect and Return to Host"@,
        action_label(ServerAction::StopAndDisconnect) == "Stop Container and Disconnect"@,
        action_label(ServerAction::StartAndConnect) == "Start Container and Connect"@,
        action_label(ServerAction::RemoveDevContainer) == "Remove Dev Container"@,
        action_label(ServerAction::AddNickname) == "Add Nickname to Server"@,
        action_label(ServerAction::EditNickname) == "Edit Nickname"@,
        action_label(ServerAction::CopyServerAddress) == "Copy Server Address"@,
        action_label(ServerAction::RemoveServer) == "Remove Server"@,
        action_label(ServerAction::RemoveDistro) == "Remove Distro"@,
        action_label(ServerAction::GoBack) == "Go Back"@,
{
}

/// A container that runs can be stopped and any other started, and nothing else
/// depends on its state. Servers can be opened and looked into, hosts of the
/// configuration only opened.
pub proof fn actions_fit_the_server(e: RemoteEntryView, probe: DevContainerProbe)
    ensures
        ({
            let c = container_actions(probe);
            let d = details_actions(e, probe);
            &&& c.len() == 6
            &&& c[0] is RenameDevContainer && c[1] is RefreshDevContainers
            &&& c[2] is ReconnectDevContainer && c[3] is DisconnectAndReturn
            &&& c[4] is StopAndDisconnect <==> probe is Running
            &&& c[4] is StartAndConnect <==> !(probe is Running)
            &&& c[5] is RemoveDevContainer
            &&& e is SshConfig ==> d.len() == 1 && d[0] is OpenFolder
            &&& tab_of(e) is DevContainers ==> d == c
            &&& e is Project && !(tab_of(e) is DevContainers) ==> d.len() == 2 && d[0] is OpenFolder
                && d[1] is ViewServerOptions
        }),
{
}

/// The page of a server's options offers to change it, to take it out, and to go
/// back; a nickname is added or, where there is one, edited.
pub proof fn options_can_be_changed(v: ViewServerOptions, probe: DevContainerProbe)
    ensures
        ({
            let a = options_actions(v, probe);
            let h = options_heading(v);
            &&& a.last() is GoBack
            &&& v matches ViewServerOptions::Ssh(o, _) ==> a.len() == 4 && (a[0] is EditNickname
                <==> o@.nickname is Some) && (a[0] is AddNickname <==> o@.nickname is None)
                && a[1] is CopyServerAddress && a[2] is RemoveServer && h.0 == o@.host && h.1
                == o@.nickname && !h.2 && !h.3
            &&& v matches ViewServerOptions::Wsl(o, _) ==> a.len() == 2 && a[0] is RemoveDistro
                && h.0 == o@.distro_name && h.1 is None && h.2 && !h.3
            &&& v matches ViewServerOptions::DevContainer(c, _) ==> a.len() == 7 && a.take(6)
                == container_actions(probe) && h.0 == c@.name && h.1 is None && !h.2 && h.3
        }),
{
    if v is DevContainer {
        assert(container_actions(probe).push(ServerAction::GoBack).take(6) =~= container_actions(
            probe,
        ));
    }
}

/// The page of a server lists what is known of it: for a container its state,
/// its machine, its project and its configuration, each on a line, and the
/// projects of any server with their paths.
pub proof fn details_list_what_is_known(
    p: DetailsPage,
    e: RemoteEntryView,
    c: DevContainerConnectionView,
    probe: DevContainerProbe,
    i: int,
)
    requires
        details_shows(p, e, probe),
    ensures
        ({
            let lines = meta_lines(c, probe);
            &&& lines[0] == probe_text(probe) && lines[1] == "Host: "@ + shown_host(c.host)
            &&& project_root(c) matches Some(path) ==> lines[2] == "Project: "@ + path
            &&& project_root(c) is Some && shown_config(c) is Some ==> lines.len() == 4 && lines[3]
                == "Config: "@ + shown_config(c)->0
            &&& project_root(c) is None && shown_config(c) is Some ==> lines.len() == 3 && lines[2]
                == "Config: "@ + shown_config(c)->0
            &&& project_root(c) is None && shown_config(c) is None ==> lines.len() == 2
        }),
        p.deletable <==> e is Project,
        p.projects@.len() == entry_projects(e).len(),
        0 <= i < entry_projects(e).len() ==> p.projects@[i].label@ == joined(
            entry_projects(e)[i],
            ", "@,
        ) && p.projects@[i].tooltip@ == joined(entry_projects(e)[i], "\n"@),
        !(tab_of(e) is DevContainers) ==> p.meta@.len() == 0,
        p.title@ == header_labels(e).0,
        p.is_devcontainer <==> tab_of(e) is DevContainers,
        p.is_wsl <==> tab_of(e) is Wsl,
{
    assert(texts(p.meta@).len() == p.meta@.len());
    if 0 <= i < entry_projects(e).len() {
        assert(p.projects@[i].label@ == joined(entry_projects(e)[i], ", "@));
    }
}

/// The options of a container show what its connection holds; its projects and
/// configuration are those that are saved of the same container.
pub proof fn viewed_containers_are_the_saved_ones(
    o: crate::connection::DockerConnectionOptionsView,
    s: DevContainerConnectionView,
)
    ensures
        ({
            let bare = viewed_container(o, None);
            let v = viewed_container(o, Some(s));
            &&& v.name == o.name && v.remote_user == o.remote_user && v.container_id
                == o.container_id && v.use_podman == o.use_podman && v.remote_env == o.remote_env
            &&& v.host == crate::connection::devcontainer_host_view(o.host)
            &&& bare.projects.len() == 0 && bare.host_projects.len() == 0 && bare.config_path is None
            &&& key_of(v) == key_of(bare)
            &&& key_of(s) == key_of(bare) ==> v.projects == s.projects && v.host_projects
                == s.host_projects && v.config_path == s.config_path
            &&& key_of(s) != key_of(bare) ==> v == bare
        }),
{
}

} // verus!
