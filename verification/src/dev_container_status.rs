//! What is known of the saved development containers: refreshing it, and what
//! follows from starting, stopping, removing and leaving one.
use crate::connection::{
    host_connection_options, host_options_view, DevContainerConnection, DevContainerConnectionView,
    RemoteConnectionOptions,
};
use crate::dev_container::DevContainerProbe;
use crate::model::{keep_where, models, models_push, Model};
use crate::settings::{
    host_project_paths, host_project_paths_from_settings, key_not_in, key_of, saved_host_folders,
    DevContainerKey, DevContainerKeyView, RemoteSettingsContent, RemoteSettingsContentView,
};
use crate::text::{copy_list, decimal, decimal_of, opt_texts, texts};
use vstd::prelude::*;
use vstd::string::*;

verus! {

/// The seconds after which a container that has not answered counts as unknown.
pub const DEV_CONTAINER_PROBE_TIMEOUT_SECS: u64 = 6;

/// How many containers are asked about at a time.
pub const DEV_CONTAINER_PROBE_CONCURRENCY: usize = 6;

/// The seconds between two rounds of asking.
pub const DEV_CONTAINER_STATUS_POLL_INTERVAL_SECS: u64 = 5;

/// What is known of one development container.
#[derive(Clone, Debug, PartialEq, Eq)]
pub struct StatusEntry {
    pub key: DevContainerKey,
    pub probe: DevContainerProbe,
}

/// The model of a [`StatusEntry`].
#[verifier::ext_equal]
pub struct StatusEntryView {
    pub key: DevContainerKeyView,
    pub probe: DevContainerProbe,
}

impl View for StatusEntry {
    type V = StatusEntryView;

    open spec fn view(&self) -> StatusEntryView {
        StatusEntryView { key: self.key@, probe: self.probe }
    }
}

/// What is known of the development containers, by their keys.
#[derive(Clone, Debug, PartialEq, Eq)]
pub struct DevContainerStatuses {
    list: Vec<StatusEntry>,
}

/// What a list of entries says; of two entries for one key the later counts.
pub open spec fn status_map(list: Seq<StatusEntryView>) -> Map<
    DevContainerKeyView,
    DevContainerProbe,
>
    decreases list.len(),
{
    if list.len() == 0 {
        Map::empty()
    } else {
        status_map(list.drop_last()).insert(list.last().key, list.last().probe)
    }
}

impl View for DevContainerStatuses {
    type V = Map<DevContainerKeyView, DevContainerProbe>;

    closed spec fn view(&self) -> Map<DevContainerKeyView, DevContainerProbe> {
        status_map(models(self.list@))
    }
}

/// What is known of a container; nothing is known of one that is not listed.
pub open spec fn probe_in(
    statuses: Map<DevContainerKeyView, DevContainerProbe>,
    key: DevContainerKeyView,
) -> DevContainerProbe {
    if statuses.dom().contains(key) {
        statuses[key]
    } else {
        DevContainerProbe::Unknown
    }
}

proof fn status_map_without(list: Seq<StatusEntryView>, key: DevContainerKeyView)
    ensures
        status_map(list.filter(|e: StatusEntryView| e.key != key)) == status_map(list).remove(key),
    decreases list.len(),
{
    reveal(Seq::filter);
    let p = |e: StatusEntryView| e.key != key;
    if list.len() == 0 {
        assert(list.filter(p) =~= Seq::empty());
        assert(status_map(list.filter(p)) =~= Map::empty());
        assert(status_map(list).remove(key) =~= Map::empty());
    } else {
        let head = list.drop_last();
        let last = list.last();
        status_map_without(head, key);
        if p(last) {
            let kept = head.filter(p).push(last);
            assert(kept.drop_last() =~= head.filter(p));
            assert(status_map(kept) =~= status_map(list).remove(key));
        } else {
            assert(status_map(list).remove(key) =~= status_map(head).remove(key));
        }
    }
}

impl DevContainerStatuses {
    /// Nothing is known.
    pub fn new() -> (r: Self)
        ensures
            r@ == Map::<DevContainerKeyView, DevContainerProbe>::empty(),
    {
        let r = DevContainerStatuses { list: Vec::new() };
        assert(models(r.list@).len() == 0);
        r
    }

    /// Whether nothing is known.
    pub fn is_empty(&self) -> (r: bool)
        ensures
            r == (self@ == Map::<DevContainerKeyView, DevContainerProbe>::empty()),
    {
        proof {
            let all = models(self.list@);
            if all.len() > 0 {
                assert(status_map(all).dom().contains(all.last().key));
            }
        }
        self.list.len() == 0
    }

    /// What is known of a container.
    pub fn probe(&self, key: &DevContainerKey) -> (r: DevContainerProbe)
        ensures
            r == probe_in(self@, key@),
    {
        let ghost all = models(self.list@);
        let mut i: usize = self.list.len();
        assert(all.take(i as int) =~= all);
        while i > 0
            invariant
                i <= self.list.len(),
                all == models(self.list@),
                probe_in(status_map(all), key@) == probe_in(status_map(all.take(i as int)), key@),
            decreases i,
        {
            let ghost head = all.take(i as int);
            proof {
                assert(head.drop_last() =~= all.take(i - 1));
                assert(head.last() == self.list@[i - 1]@);
            }
            if self.list[i - 1].key.same(key) {
                return self.list[i - 1].probe;
            }
            i = i - 1;
        }
        DevContainerProbe::Unknown
    }

    /// Takes in what is known of a container.
    pub fn set(&mut self, key: DevContainerKey, probe: DevContainerProbe)
        ensures
            final(self)@ == old(self)@.insert(key@, probe),
    {
        let ghost keep = |e: StatusEntryView| e.key != key@;
        let other = |e: &StatusEntry| -> (b: bool)
            ensures
                b == (e@.key != key@),
            { !e.key.same(&key) };
        keep_where(&mut self.list, other, Ghost(keep));
        let ghost kept = models(self.list@);
        let ghost view = key@;
        self.list.push(StatusEntry { key, probe });
        proof {
            broadcast use models_push;

            let all = models(self.list@);
            assert(all.drop_last() =~= kept);
            status_map_without(models(old(self).list@), view);
            assert(old(self)@.remove(view).insert(view, probe) =~= old(self)@.insert(view, probe));
        }
    }

    /// Forgets everything.
    pub fn clear(&mut self)
        ensures
            final(self)@ == Map::<DevContainerKeyView, DevContainerProbe>::empty(),
    {
        self.list = Vec::new();
        assert(models(self.list@).len() == 0);
    }
}

// ---------------------------------------------------------------------------
// Refreshing

/// What to do where the containers are to be refreshed.
#[derive(Clone, Debug, PartialEq, Eq)]
pub enum RefreshStart {
    /// A refresh is under way already.
    Busy,
    /// There are no containers; a message may be shown.
    Empty(Option<String>),
    /// Ask about every container.
    Probe,
}

/// What is known of the development containers, and whether they are being
/// asked about.
#[derive(Clone, Debug, PartialEq, Eq)]
pub struct DevContainerRefresh {
    pub statuses: DevContainerStatuses,
    pub in_flight: bool,
}

/// The model of a [`DevContainerRefresh`].
#[verifier::ext_equal]
pub struct DevContainerRefreshView {
    pub statuses: Map<DevContainerKeyView, DevContainerProbe>,
    pub in_flight: bool,
}

impl View for DevContainerRefresh {
    type V = DevContainerRefreshView;

    open spec fn view(&self) -> DevContainerRefreshView {
        DevContainerRefreshView { statuses: self.statuses@, in_flight: self.in_flight }
    }
}

/// What has been found out about one container.
#[derive(Clone, Debug, PartialEq, Eq)]
pub struct ProbeResult {
    pub connection: DevContainerConnection,
    pub probe: DevContainerProbe,
}

/// What a list of results says of the containers, in the order of the results.
pub open spec fn result_entries(results: Seq<ProbeResult>) -> Seq<StatusEntryView> {
    Seq::new(
        results.len(),
        |i: int| StatusEntryView { key: key_of(results[i].connection@), probe: results[i].probe },
    )
}

/// The entries with one state.
pub open spec fn with_probe(entries: Seq<StatusEntryView>, probe: DevContainerProbe) -> Seq<
    StatusEntryView,
> {
    entries.filter(|e: StatusEntryView| e.probe == probe)
}

/// The keys of entries.
pub open spec fn entry_keys(entries: Seq<StatusEntryView>) -> Seq<DevContainerKeyView> {
    entries.map_values(|e: StatusEntryView| e.key)
}

/// What a refresh has found out: the state of every container, the keys of
/// those that are gone, and how many could not be asked about.
#[derive(Clone, Debug, PartialEq, Eq)]
pub struct RefreshSummary {
    pub statuses: DevContainerStatuses,
    pub missing: Vec<DevContainerKey>,
    pub unknown: usize,
    pub docker_unavailable: usize,
}

/// What a refresh has found out.
pub fn summarize_refresh(results: &Vec<ProbeResult>) -> (r: RefreshSummary)
    ensures
        ({
            let entries = result_entries(results@);
            &&& r.statuses@ == status_map(entries)
            &&& models(r.missing@) == entry_keys(with_probe(entries, DevContainerProbe::Missing))
            &&& r.unknown == with_probe(entries, DevContainerProbe::Unknown).len()
            &&& r.docker_unavailable == with_probe(
                entries,
                DevContainerProbe::DockerUnavailable,
            ).len()
        }),
{
    let ghost all = result_entries(results@);
    let mut statuses = DevContainerStatuses::new();
    let mut missing: Vec<DevContainerKey> = Vec::new();
    let mut unknown: usize = 0;
    let mut docker_unavailable: usize = 0;
    let ghost is_missing = |e: StatusEntryView| e.probe == DevContainerProbe::Missing;
    let ghost is_unknown = |e: StatusEntryView| e.probe == DevContainerProbe::Unknown;
    let ghost is_unavailable = |e: StatusEntryView| e.probe == DevContainerProbe::DockerUnavailable;
    let mut i: usize = 0;
    proof {
        reveal(Seq::filter);
        assert(all.take(0) =~= Seq::empty());
        assert(models(missing@) =~= entry_keys(all.take(0).filter(is_missing)));
    }
    while i < results.len()
        invariant
            i <= results.len(),
            all == result_entries(results@),
            is_missing == (|e: StatusEntryView| e.probe == DevContainerProbe::Missing),
            is_unknown == (|e: StatusEntryView| e.probe == DevContainerProbe::Unknown),
            is_unavailable == (|e: StatusEntryView|
                e.probe == DevContainerProbe::DockerUnavailable),
            statuses@ == status_map(all.take(i as int)),
            models(missing@) == entry_keys(all.take(i as int).filter(is_missing)),
            unknown == all.take(i as int).filter(is_unknown).len(),
            unknown <= i,
            docker_unavailable == all.take(i as int).filter(is_unavailable).len(),
            docker_unavailable <= i,
        decreases results.len() - i,
    {
        broadcast use models_push;

        let key = DevContainerKey::from_connection(&results[i].connection);
        let probe = results[i].probe;
        let ghost head = all.take(i as int);
        let ghost e = all[i as int];
        proof {
            assert(all.take(i + 1) =~= head.push(e));
            assert(head.push(e).drop_last() =~= head);
            crate::text::filter_push(head, e, is_missing);
            crate::text::filter_push(head, e, is_unknown);
            crate::text::filter_push(head, e, is_unavailable);
            assert(entry_keys(head.filter(is_missing).push(e)) =~= entry_keys(
                head.filter(is_missing),
            ).push(e.key));
        }
        match probe {
            DevContainerProbe::Missing => {
                missing.push(key.dup());
            },
            DevContainerProbe::DockerUnavailable => {
                docker_unavailable = docker_unavailable + 1;
            },
            DevContainerProbe::Unknown => {
                unknown = unknown + 1;
            },
            _ => {},
        }
        statuses.set(key, probe);
        i = i + 1;
    }
    assert(all.take(i as int) =~= all);
    RefreshSummary { statuses, missing, unknown, docker_unavailable }
}

/// What is shown after a refresh: how many containers were taken out, and how
/// many could not be asked about.
pub open spec fn refresh_text(missing: nat, unknown: nat, unavailable: nat) -> Seq<char> {
    let u = decimal(unknown);
    let d = decimal(unavailable);
    if missing > 0 {
        let removed = "Removed "@ + decimal(missing) + " stale dev container(s)."@;
        let with_unknown = if unknown > 0 {
            removed + " "@ + u + " could not be verified."@
        } else {
            removed
        };
        if unavailable > 0 {
            with_unknown + " Docker unavailable for "@ + d + "."@
        } else {
            with_unknown
        }
    } else if unavailable > 0 {
        let first = "Docker unavailable for "@ + d + " dev container(s)."@;
        if unknown > 0 {
            first + " "@ + u + " could not be verified."@
        } else {
            first
        }
    } else if unknown > 0 {
        "Could not verify "@ + u + " dev container(s)."@
    } else {
        "Dev containers are up to date."@
    }
}

/// What is shown after a refresh.
pub fn refresh_message(missing: usize, unknown: usize, docker_unavailable: usize) -> (r: String)
    ensures
        r@ == refresh_text(missing as nat, unknown as nat, docker_unavailable as nat),
{
    let u = decimal_of(unknown as u64);
    let d = decimal_of(docker_unavailable as u64);
    if missing > 0 {
        let mut out = "Removed ".to_owned();
        out.append(decimal_of(missing as u64).as_str());
        out.append(" stale dev container(s).");
        if unknown > 0 {
            out.append(" ");
            out.append(u.as_str());
            out.append(" could not be verified.");
        }
        if docker_unavailable > 0 {
            out.append(" Docker unavailable for ");
            out.append(d.as_str());
            out.append(".");
        }
        out
    } else if docker_unavailable > 0 {
        let mut out = "Docker unavailable for ".to_owned();
        out.append(d.as_str());
        out.append(" dev container(s).");
        if unknown > 0 {
            out.append(" ");
            out.append(u.as_str());
            out.append(" could not be verified.");
        }
        out
    } else if unknown > 0 {
        let mut out = "Could not verify ".to_owned();
        out.append(u.as_str());
        out.append(" dev container(s).");
        out
    } else {
        "Dev containers are up to date.".to_owned()
    }
}

impl DevContainerRefresh {
    /// Nothing is known, and nothing is being asked.
    pub fn new() -> (r: Self)
        ensures
            r@ == (DevContainerRefreshView { statuses: Map::empty(), in_flight: false }),
    {
        DevContainerRefresh { statuses: DevContainerStatuses::new(), in_flight: false }
    }

    /// Begins to refresh the saved containers. While a refresh is under way
    /// nothing is begun. Where there are no containers, what was known is
    /// forgotten.
    pub fn refresh_dev_container_connections(
        &mut self,
        connections: &Vec<DevContainerConnection>,
        notify: bool,
    ) -> (r: RefreshStart)
        ensures
            if old(self)@.in_flight {
                r is Busy && final(self)@ == old(self)@
            } else if connections.len() == 0 {
                &&& r is Empty
                &&& final(self)@ == (DevContainerRefreshView {
                    statuses: Map::empty(),
                    in_flight: false,
                })
                &&& r->Empty_0 is Some <==> notify
                &&& notify ==> r->Empty_0->0@ == "No dev containers to refresh."@
            } else {
                r is Probe && final(self)@ == (DevContainerRefreshView {
                    in_flight: true,
                    ..old(self)@
                })
            },
    {
        if self.in_flight {
            return RefreshStart::Busy;
        }
        if connections.len() == 0 {
            self.statuses.clear();
            if notify {
                return RefreshStart::Empty(Some("No dev containers to refresh.".to_owned()));
            }
            return RefreshStart::Empty(None);
        }
        self.in_flight = true;
        RefreshStart::Probe
    }

    /// Takes in what the containers have answered: just that is known of them
    /// now, those that are gone are taken out of the settings, and the next
    /// refresh can begin. Gives what is shown.
    pub fn finish_refresh(
        &mut self,
        results: &Vec<ProbeResult>,
        settings: &mut RemoteSettingsContent,
        notify: bool,
    ) -> (r: Option<String>)
        ensures
            final(self)@ == (DevContainerRefreshView {
                statuses: status_map(result_entries(results@)),
                in_flight: false,
            }),
            final(settings)@ == without_missing(old(settings)@, results@),
            r is Some <==> notify,
            notify ==> r->0@ == ({
                let entries = result_entries(results@);
                refresh_text(
                    with_probe(entries, DevContainerProbe::Missing).len(),
                    with_probe(entries, DevContainerProbe::Unknown).len(),
                    with_probe(entries, DevContainerProbe::DockerUnavailable).len(),
                )
            }),
    {
        let summary = summarize_refresh(results);
        let missing: usize = summary.missing.len();
        assert(models(summary.missing@).len() == missing);
        self.statuses = summary.statuses;
        self.in_flight = false;
        settings.prune_dev_container_connections(&summary.missing);
        if notify {
            Some(refresh_message(missing, summary.unknown, summary.docker_unavailable))
        } else {
            None
        }
    }
}

/// The settings without the containers that have been found to be gone.
pub open spec fn without_missing(s: RemoteSettingsContentView, results: Seq<ProbeResult>) ->
    RemoteSettingsContentView {
    let missing = entry_keys(with_probe(result_entries(results), DevContainerProbe::Missing));
    RemoteSettingsContentView {
        dev_container_connections: match s.dev_container_connections {
            Some(list) => Some(list.filter(key_not_in(missing))),
            None => None,
        },
        ..s
    }
}

proof fn status_map_follows(
    results: Seq<ProbeResult>,
    probe: spec_fn(DevContainerKeyView) -> DevContainerProbe,
)
    requires
        forall|i: int|
            0 <= i < results.len() ==> (#[trigger] results[i]).probe == probe(
                key_of(results[i].connection@),
            ),
    ensures
        forall|key: DevContainerKeyView| #[trigger]
            status_map(result_entries(results)).dom().contains(key) <==> exists|i: int|
                0 <= i < results.len() && key_of((#[trigger] results[i]).connection@) == key,
        forall|key: DevContainerKeyView| #[trigger]
            status_map(result_entries(results)).dom().contains(key) ==> status_map(
                result_entries(results),
            )[key] == probe(key),
    decreases results.len(),
{
    if results.len() > 0 {
        let head = results.drop_last();
        let last = key_of(results.last().connection@);
        assert(result_entries(results).drop_last() =~= result_entries(head));
        status_map_follows(head, probe);
        assert(results[results.len() - 1].probe == probe(last));
        assert forall|key: DevContainerKeyView| #[trigger]
            status_map(result_entries(results)).dom().contains(key) implies status_map(
            result_entries(results),
        )[key] == probe(key) by {
            if key != last {
                assert(status_map(result_entries(head)).dom().contains(key));
            }
        }
        assert forall|key: DevContainerKeyView| #[trigger]
            status_map(result_entries(results)).dom().contains(key) <==> exists|i: int|
            0 <= i < results.len() && key_of((#[trigger] results[i]).connection@) == key by {
            if key == last {
                assert(key_of(results[results.len() - 1].connection@) == key);
            }
            if status_map(result_entries(head)).dom().contains(key) {
                let i = choose|i: int|
                    0 <= i < head.len() && key_of((#[trigger] head[i]).connection@) == key;
                assert(key_of(results[i].connection@) == key);
            }
            if exists|i: int|
                0 <= i < results.len() && key_of((#[trigger] results[i]).connection@) == key {
                let i = choose|i: int|
                    0 <= i < results.len() && key_of((#[trigger] results[i]).connection@) == key;
                if i < head.len() {
                    assert(key_of(head[i].connection@) == key);
                }
            }
        }
    }
}

/// A whole refresh: where every saved container has been asked about and none
/// besides, in whatever order, and containers with one key have answered alike,
/// just the answers are known afterwards, and the saved containers that are
/// left are those that are not gone, in their order.
pub proof fn refresh_takes_every_answer_in(
    s: RemoteSettingsContentView,
    connections: Seq<DevContainerConnectionView>,
    results: Seq<ProbeResult>,
    probe: spec_fn(DevContainerKeyView) -> DevContainerProbe,
)
    requires
        s.dev_container_connections == Some(connections),
        forall|i: int|
            0 <= i < results.len() ==> (#[trigger] results[i]).probe == probe(
                key_of(results[i].connection@),
            ),
        forall|i: int|
            0 <= i < results.len() ==> connections.contains((#[trigger] results[i]).connection@),
        forall|k: int|
            0 <= k < connections.len() ==> exists|i: int|
                0 <= i < results.len() && (#[trigger] results[i]).connection@
                    == #[trigger] connections[k],
    ensures
        forall|k: int|
            0 <= k < connections.len() ==> probe_in(
                status_map(result_entries(results)),
                key_of(#[trigger] connections[k]),
            ) == probe(key_of(connections[k])),
        forall|key: DevContainerKeyView| #[trigger]
            status_map(result_entries(results)).dom().contains(key) ==> exists|k: int|
                0 <= k < connections.len() && key_of(#[trigger] connections[k]) == key,
        without_missing(s, results) == (RemoteSettingsContentView {
            dev_container_connections: Some(
                connections.filter(
                    |c: DevContainerConnectionView|
                        probe(key_of(c)) != DevContainerProbe::Missing,
                ),
            ),
            ..s
        }),
{
    let map = status_map(result_entries(results));
    let missing = entry_keys(with_probe(result_entries(results), DevContainerProbe::Missing));
    let left = |c: DevContainerConnectionView| probe(key_of(c)) != DevContainerProbe::Missing;
    status_map_follows(results, probe);
    assert forall|k: int| 0 <= k < connections.len() implies probe_in(
        map,
        key_of(#[trigger] connections[k]),
    ) == probe(key_of(connections[k])) && key_not_in(missing)(connections[k]) == left(
        connections[k],
    ) by {
        let key = key_of(connections[k]);
        let i = choose|i: int|
            0 <= i < results.len() && (#[trigger] results[i]).connection@ == connections[k];
        assert(key_of(results[i].connection@) == key);
        assert(map.dom().contains(key));
        refresh_removes_just_the_missing(results, key);
    }
    assert forall|key: DevContainerKeyView| #[trigger] map.dom().contains(key) implies exists|
        k: int,
    |
        0 <= k < connections.len() && key_of(#[trigger] connections[k]) == key by {
        let i = choose|i: int|
            0 <= i < results.len() && key_of((#[trigger] results[i]).connection@) == key;
        let k = choose|k: int|
            0 <= k < connections.len() && connections[k] == results[i].connection@;
        assert(key_of(connections[k]) == key);
    }
    same_filters(connections, key_not_in(missing), left);
}

proof fn same_filters<T>(list: Seq<T>, p: spec_fn(T) -> bool, q: spec_fn(T) -> bool)
    requires
        forall|i: int| 0 <= i < list.len() ==> p(#[trigger] list[i]) == q(list[i]),
    ensures
        list.filter(p) == list.filter(q),
    decreases list.len(),
{
    reveal(Seq::filter);
    if list.len() > 0 {
        let head = list.drop_last();
        assert forall|i: int| 0 <= i < head.len() implies p(#[trigger] head[i]) == q(head[i]) by {
            assert(head[i] == list[i]);
        }
        same_filters(head, p, q);
        assert(p(list[list.len() - 1]) == q(list[list.len() - 1]));
    }
}

/// A refresh takes out just the containers that it has found to be gone: a key
/// is among those taken out where a result with that key says so, and not
/// otherwise.
pub proof fn refresh_removes_just_the_missing(
    results: Seq<ProbeResult>,
    key: DevContainerKeyView,
)
    ensures
        entry_keys(with_probe(result_entries(results), DevContainerProbe::Missing)).contains(key)
            <==> exists|i: int|
            0 <= i < results.len() && key_of((#[trigger] results[i]).connection@) == key
                && results[i].probe == DevContainerProbe::Missing,
{
    let entries = result_entries(results);
    let p = |e: StatusEntryView| e.probe == DevContainerProbe::Missing;
    let kept = entries.filter(p);
    let keys = entry_keys(kept);
    if keys.contains(key) {
        let k = choose|k: int| 0 <= k < keys.len() && keys[k] == key;
        crate::settings::filter_member(entries, p, k);
        let i = choose|i: int| 0 <= i < entries.len() && entries[i] == kept[k];
        assert(key_of(results[i].connection@) == key);
    }
    if exists|i: int|
        0 <= i < results.len() && key_of((#[trigger] results[i]).connection@) == key
            && results[i].probe == DevContainerProbe::Missing {
        let i = choose|i: int|
            0 <= i < results.len() && key_of((#[trigger] results[i]).connection@) == key
                && results[i].probe == DevContainerProbe::Missing;
        broadcast use Seq::lemma_filter_contains_rev;

        assert(entries.contains(entries[i]));
        assert(kept.contains(entries[i]));
        let k = choose|k: int| 0 <= k < kept.len() && kept[k] == entries[i];
        assert(keys[k] == key);
    }
}

// ---------------------------------------------------------------------------
// Starting, stopping, removing and leaving

/// Takes in what has come of stopping a container, and gives what is shown.
pub fn dev_container_stopped(
    statuses: &mut DevContainerStatuses,
    connection: &DevContainerConnection,
    name: &str,
    result: &Result<(), String>,
    disconnected: bool,
) -> (r: String)
    ensures
        match *result {
            Ok(_) => {
                &&& final(statuses)@ == old(statuses)@.insert(
                    key_of(connection@),
                    DevContainerProbe::Stopped,
                )
                &&& r@ == (if disconnected {
                    "Stopped container and disconnected `"@ + name@ + "`."@
                } else {
                    "Stopped container `"@ + name@ + "`."@
                })
            },
            Err(message) => final(statuses)@ == old(statuses)@ && r@ == "Failed to stop `"@ + name@
                + "`: "@ + message@,
        },
{
    match result {
        Ok(_) => {
            statuses.set(DevContainerKey::from_connection(connection), DevContainerProbe::Stopped);
            let mut out = if disconnected {
                "Stopped container and disconnected `".to_owned()
            } else {
                "Stopped container `".to_owned()
            };
            out.append(name);
            out.append("`.");
            out
        },
        Err(message) => {
            let mut out = "Failed to stop `".to_owned();
            out.append(name);
            out.append("`: ");
            out.append(message.as_str());
            out
        },
    }
}

/// What to do once a container has been started.
#[derive(Clone, Debug, PartialEq, Eq)]
pub enum AfterStart {
    /// Open the folders of its first project.
    OpenPaths(Vec<String>),
    /// Choose a folder in it.
    PickFolder,
    /// Nothing, because it could not be started.
    Nothing,
}

/// Takes in what has come of starting a container, and gives what is shown and
/// what to do next.
pub fn dev_container_started(
    statuses: &mut DevContainerStatuses,
    connection: &DevContainerConnection,
    name: &str,
    result: &Result<(), String>,
    recent_project_paths: Option<Vec<String>>,
) -> (r: (String, AfterStart))
    ensures
        match *result {
            Ok(_) => {
                &&& final(statuses)@ == old(statuses)@.insert(
                    key_of(connection@),
                    DevContainerProbe::Running,
                )
                &&& r.0@ == "Started container `"@ + name@ + "`."@
                &&& match recent_project_paths {
                    Some(paths) => r.1 == AfterStart::OpenPaths(paths),
                    None => r.1 is PickFolder,
                }
            },
            Err(message) => final(statuses)@ == old(statuses)@ && r.1 is Nothing && r.0@
                == "Failed to start `"@ + name@ + "`: "@ + message@,
        },
{
    match result {
        Ok(_) => {
            statuses.set(DevContainerKey::from_connection(connection), DevContainerProbe::Running);
            let mut out = "Started container `".to_owned();
            out.append(name);
            out.append("`.");
            match recent_project_paths {
                Some(paths) => (out, AfterStart::OpenPaths(paths)),
                None => (out, AfterStart::PickFolder),
            }
        },
        Err(message) => {
            let mut out = "Failed to start `".to_owned();
            out.append(name);
            out.append("`: ");
            out.append(message.as_str());
            (out, AfterStart::Nothing)
        },
    }
}

/// What is shown after a container was to be removed.
#[derive(Clone, Copy, Debug, PartialEq, Eq, Structural)]
pub enum AfterRemoval {
    /// The list of servers.
    ShowServers,
    /// The same page as before.
    Stay,
}

/// Takes in what has come of removing the container that is saved at `index`.
/// One that is gone is taken out of the settings, and the list of servers is
/// shown again; else both stay. Gives what is said of it.
pub fn remove_dev_container_now(
    settings: &mut RemoteSettingsContent,
    index: usize,
    name: &str,
    result: &Result<(), String>,
    disconnected: bool,
) -> (r: (String, AfterRemoval))
    requires
        *result is Ok && old(settings)@.dev_container_connections is Some ==> index < old(
            settings,
        )@.dev_container_connections->0.len(),
    ensures
        r.0@ == removal_text(name@, *result, disconnected),
        match *result {
            Ok(_) => {
                &&& r.1 == AfterRemoval::ShowServers
                &&& final(settings)@ == (RemoteSettingsContentView {
                    dev_container_connections: match old(settings)@.dev_container_connections {
                        Some(list) => Some(list.remove(index as int)),
                        None => None,
                    },
                    ..old(settings)@
                })
            },
            Err(_) => r.1 == AfterRemoval::Stay && final(settings)@ == old(settings)@,
        },
{
    let message = dev_container_removed(name, result, disconnected);
    match result {
        Ok(_) => {
            settings.delete_dev_container_server(index);
            (message, AfterRemoval::ShowServers)
        },
        Err(_) => (message, AfterRemoval::Stay),
    }
}

/// What is said after a container was to be removed.
pub open spec fn removal_text(
    name: Seq<char>,
    result: Result<(), String>,
    disconnected: bool,
) -> Seq<char> {
    match result {
        Ok(_) => if disconnected {
            "Removed dev container `"@ + name + "` and disconnected."@
        } else {
            "Removed dev container `"@ + name + "`."@
        },
        Err(message) => "Failed to remove `"@ + name + "`: "@ + message@,
    }
}

/// What is said after a container has been removed, or has not been.
pub fn dev_container_removed(name: &str, result: &Result<(), String>, disconnected: bool) -> (r:
    String)
    ensures
        r@ == removal_text(name@, *result, disconnected),
{
    match result {
        Ok(_) => {
            let mut out = "Removed dev container `".to_owned();
            out.append(name);
            if disconnected {
                out.append("` and disconnected.");
            } else {
                out.append("`.");
            }
            out
        },
        Err(message) => {
            let mut out = "Failed to remove `".to_owned();
            out.append(name);
            out.append("`: ");
            out.append(message.as_str());
            out
        },
    }
}

/// The folders of the first project in a container.
pub open spec fn first_project(c: DevContainerConnectionView) -> Option<Seq<Seq<char>>> {
    if c.projects.len() > 0 {
        Some(c.projects[0])
    } else {
        None
    }
}

/// The folders of the first project in a container.
pub fn recent_project_paths(connection: &DevContainerConnection) -> (r: Option<Vec<String>>)
    ensures
        opt_texts(r) == first_project(connection@),
{
    if connection.projects.len() > 0 {
        assert(connection.projects@[0]@ == connection@.projects[0]);
        Some(copy_list(&connection.projects[0].paths))
    } else {
        None
    }
}

/// How the window goes back from a container to its machine.
#[derive(Clone, Debug, PartialEq, Eq)]
pub enum HostReturn {
    /// The user chooses a folder of this machine.
    PickLocal,
    /// The folder is not known; a message is shown.
    NotRecorded,
    /// Folders of another machine are opened.
    OpenRemote(RemoteConnectionOptions, Vec<String>),
    /// Folders of this machine are opened.
    OpenLocal(Vec<String>),
}

/// The folders of the machine of a container: those that are saved with it, or
/// those that the settings hold for its key.
pub open spec fn host_folders(
    c: DevContainerConnectionView,
    saved: Seq<DevContainerConnectionView>,
) -> Option<Seq<Seq<char>>> {
    if c.host_projects.len() > 0 {
        Some(c.host_projects[0])
    } else {
        saved_host_folders(saved, key_of(c))
    }
}

/// How the window goes back from a container to its machine.
pub fn return_to_host_folder(
    connection: &DevContainerConnection,
    saved: &Vec<DevContainerConnection>,
) -> (r: HostReturn)
    ensures
        match host_folders(connection@, models(saved@)) {
            None => if connection@.host is None {
                r is PickLocal
            } else {
                r is NotRecorded
            },
            Some(paths) => match host_options_view(connection@.host) {
                Some(options) => r is OpenRemote && r->OpenRemote_0@ == options && texts(
                    r->OpenRemote_1@,
                ) == paths,
                None => r is OpenLocal && texts(r->OpenLocal_0@) == paths,
            },
        },
{
    let own = host_project_paths(connection);
    let folders = match own {
        Some(paths) => Some(paths),
        None => {
            let key = DevContainerKey::from_connection(connection);
            host_project_paths_from_settings(saved, &key)
        },
    };
    let host = match &connection.host {
        Some(h) => Some(h),
        None => None,
    };
    match folders {
        None => if host.is_none() {
            HostReturn::PickLocal
        } else {
            HostReturn::NotRecorded
        },
        Some(paths) => match host_connection_options(host) {
            Some(options) => HostReturn::OpenRemote(options, paths),
            None => HostReturn::OpenLocal(paths),
        },
    }
}

/// What is shown where the folder of the machine is not known.
pub fn no_host_folder_message() -> (r: String)
    ensures
        r@ == "No host folder recorded for this dev container."@,
{
    "No host folder recorded for this dev container.".to_owned()
}

// ---------------------------------------------------------------------------
// What is known and told

/// A container of which nothing is known is in an unknown state.
pub proof fn unknown_containers_are_unknown(
    statuses: Map<DevContainerKeyView, DevContainerProbe>,
    key: DevContainerKeyView,
    probe: DevContainerProbe,
)
    ensures
        !statuses.dom().contains(key) ==> probe_in(statuses, key) is Unknown,
        probe_in(statuses.insert(key, probe), key) == probe,
        probe_in(Map::empty(), key) is Unknown,
{
}

/// Of several answers about one container the last counts.
pub proof fn last_answer_counts(list: Seq<StatusEntryView>, e: StatusEntryView)
    ensures
        status_map(list.push(e)) == status_map(list).insert(e.key, e.probe),
        status_map(Seq::empty()) == Map::<DevContainerKeyView, DevContainerProbe>::empty(),
{
    assert(list.push(e).drop_last() =~= list);
}

/// A refresh tells how many containers were taken out, how many could not be
/// verified and for how many the engine was out of reach, each where there are
/// any.
pub proof fn refreshes_are_told(m: nat, u: nat, d: nat)
    requires
        m > 0,
        u > 0,
        d > 0,
    ensures
        refresh_text(0, 0, 0) == "Dev containers are up to date."@,
        refresh_text(0, u, 0) == "Could not verify "@ + decimal(u) + " dev container(s)."@,
        refresh_text(0, 0, d) == "Docker unavailable for "@ + decimal(d) + " dev container(s)."@,
        refresh_text(0, u, d) == "Docker unavailable for "@ + decimal(d) + " dev container(s). "@
            + decimal(u) + " could not be verified."@,
        refresh_text(m, 0, 0) == "Removed "@ + decimal(m) + " stale dev container(s)."@,
        refresh_text(m, u, 0) == "Removed "@ + decimal(m) + " stale dev container(s). "@ + decimal(u)
            + " could not be verified."@,
        refresh_text(m, 0, d) == "Removed "@ + decimal(m)
            + " stale dev container(s). Docker unavailable for "@ + decimal(d) + "."@,
        refresh_text(m, u, d) == "Removed "@ + decimal(m) + " stale dev container(s). "@ + decimal(u)
            + " could not be verified. Docker unavailable for "@ + decimal(d) + "."@,
{
    reveal_strlit(" ");
    reveal_strlit(" dev container(s).");
    reveal_strlit(" dev container(s). ");
    reveal_strlit(" stale dev container(s).");
    reveal_strlit(" stale dev container(s). ");
    reveal_strlit(" Docker unavailable for ");
    reveal_strlit(" stale dev container(s). Docker unavailable for ");
    reveal_strlit(" could not be verified.");
    reveal_strlit(" could not be verified. Docker unavailable for ");
    let a = decimal(m);
    let b = decimal(u);
    let c = decimal(d);
    assert(" dev container(s)."@ + " "@ =~= " dev container(s). "@);
    assert(" stale dev container(s)."@ + " "@ =~= " stale dev container(s). "@);
    assert(" stale dev container(s)."@ + " Docker unavailable for "@
        =~= " stale dev container(s). Docker unavailable for "@);
    assert(" could not be verified."@ + " Docker unavailable for "@
        =~= " could not be verified. Docker unavailable for "@);
    assert(refresh_text(0, u, d) =~= "Docker unavailable for "@ + c + " dev container(s). "@ + b
        + " could not be verified."@);
    assert(refresh_text(m, u, 0) =~= "Removed "@ + a + " stale dev container(s). "@ + b
        + " could not be verified."@);
    assert(refresh_text(m, 0, d) =~= "Removed "@ + a
        + " stale dev container(s). Docker unavailable for "@ + c + "."@);
    assert(refresh_text(m, u, d) =~= "Removed "@ + a + " stale dev container(s). "@ + b
        + " could not be verified. Docker unavailable for "@ + c + "."@);
}

/// A removal is told with the name of the container, whether the window was
/// disconnected, and the error where it failed.
pub proof fn removals_are_told(name: Seq<char>, error: String)
    ensures
        removal_text(name, Ok(()), false) == "Removed dev container `"@ + name + seq!['`', '.'],
        removal_text(name, Ok(()), true) == "Removed dev container `"@ + name
            + "` and disconnected."@,
        removal_text(name, Err(error), true) == "Failed to remove `"@ + name + "`: "@ + error@,
        removal_text(name, Err(error), false) == "Failed to remove `"@ + name + "`: "@ + error@,
{
    reveal_strlit("`.");
    assert("`."@ =~= seq!['`', '.']);
}

/// A container opens its first project, and returns to the folders of its
/// machine that it holds itself, or that are saved of it.
pub proof fn folders_are_found_again(
    c: DevContainerConnectionView,
    saved: Seq<DevContainerConnectionView>,
)
    ensures
        c.projects.len() > 0 ==> first_project(c) == Some(c.projects[0]),
        c.projects.len() == 0 ==> first_project(c) is None,
        c.host_projects.len() > 0 ==> host_folders(c, saved) == Some(c.host_projects[0]),
        c.host_projects.len() == 0 ==> host_folders(c, saved) == saved_host_folders(
            saved,
            key_of(c),
        ),
{
}

/// The containers of each state are counted answer by answer.
pub proof fn answers_are_counted(
    entries: Seq<StatusEntryView>,
    e: StatusEntryView,
    probe: DevContainerProbe,
)
    ensures
        with_probe(Seq::empty(), probe).len() == 0,
        e.probe == probe ==> with_probe(entries.push(e), probe) == with_probe(entries, probe).push(e),
        e.probe != probe ==> with_probe(entries.push(e), probe) == with_probe(entries, probe),
{
    let f = |x: StatusEntryView| x.probe == probe;
    crate::text::filter_push(entries, e, f);
    reveal(Seq::filter);
    assert(Seq::<StatusEntryView>::empty().filter(f) =~= Seq::empty());
}

/// Six containers are asked at a time, each for six seconds at most, every five
/// seconds.
pub proof fn containers_are_asked_in_rounds()
    ensures
        DEV_CONTAINER_PROBE_TIMEOUT_SECS == 6,
        DEV_CONTAINER_PROBE_CONCURRENCY == 6,
        DEV_CONTAINER_STATUS_POLL_INTERVAL_SECS == 5,
{
}

} // verus!
