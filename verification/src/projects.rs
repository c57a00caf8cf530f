//! The projects of a connection: an ascending list in which none occurs twice.
use crate::connection::{
    DevContainerConnection, DevContainerConnectionView, RemoteProject, SshConnection,
    SshConnectionView, WslConnection, WslConnectionView,
};
use crate::model::{keep_where, models, models_push, Model};
use crate::text::{
    chars_of, insert_to_set, same_chars, stands_before, text_before, text_before_irreflexive,
    text_before_total, text_before_transitive, texts,
};
use vstd::prelude::*;
use vstd::string::*;

verus! {

// ---------------------------------------------------------------------------
// Projects

/// The order of projects: by the first path that differs, and a project before
/// the longer ones that begin with its paths.
pub open spec fn project_before(a: Seq<Seq<char>>, b: Seq<Seq<char>>) -> bool
    decreases a.len(),
{
    if b.len() == 0 {
        false
    } else if a.len() == 0 {
        true
    } else if a[0] != b[0] {
        text_before(a[0], b[0])
    } else {
        project_before(a.skip(1), b.skip(1))
    }
}

/// No project stands before itself.
pub proof fn project_before_irreflexive(a: Seq<Seq<char>>)
    ensures
        !project_before(a, a),
    decreases a.len(),
{
    if a.len() > 0 {
        project_before_irreflexive(a.skip(1));
    }
}

/// The order of projects carries over.
pub proof fn project_before_transitive(a: Seq<Seq<char>>, b: Seq<Seq<char>>, c: Seq<Seq<char>>)
    requires
        project_before(a, b),
        project_before(b, c),
    ensures
        project_before(a, c),
    decreases a.len(),
{
    if a.len() > 0 && b.len() > 0 && c.len() > 0 {
        if a[0] == b[0] && b[0] == c[0] {
            project_before_transitive(a.skip(1), b.skip(1), c.skip(1));
        } else if a[0] != b[0] && b[0] != c[0] {
            text_before_transitive(a[0], b[0], c[0]);
            if a[0] == c[0] {
                text_before_irreflexive(a[0]);
            }
        }
    }
}

/// Of two different projects one stands before the other.
pub proof fn project_before_total(a: Seq<Seq<char>>, b: Seq<Seq<char>>)
    ensures
        project_before(a, b) || project_before(b, a) || a == b,
    decreases a.len(),
{
    if a.len() > 0 && b.len() > 0 {
        if a[0] == b[0] {
            project_before_total(a.skip(1), b.skip(1));
            if a.skip(1) == b.skip(1) {
                assert(a =~= seq![a[0]] + a.skip(1));
                assert(b =~= seq![b[0]] + b.skip(1));
            }
        } else {
            text_before_total(a[0], b[0]);
        }
    } else if a.len() == 0 && b.len() == 0 {
        assert(a =~= b);
    }
}

/// Whether the projects of a list ascend strictly, so that none occurs twice.
pub open spec fn projects_ascend(list: Seq<Seq<Seq<char>>>) -> bool {
    forall|i: int, j: int| 0 <= i < j < list.len() ==> project_before(list[i], list[j])
}

/// An ascending list of projects with one more, put before the first project
/// that it stands before; the same list where that project is met first.
pub open spec fn placed(list: Seq<Seq<Seq<char>>>, p: Seq<Seq<char>>) -> Seq<Seq<Seq<char>>>
    decreases list.len(),
{
    if list.len() == 0 {
        seq![p]
    } else if list[0] == p {
        list
    } else if project_before(p, list[0]) {
        seq![p] + list
    } else {
        seq![list[0]] + placed(list.skip(1), p)
    }
}

/// Adding a project to an ascending list keeps it ascending and adds that
/// project and nothing else.
pub proof fn placed_ascends(list: Seq<Seq<Seq<char>>>, p: Seq<Seq<char>>)
    requires
        projects_ascend(list),
    ensures
        projects_ascend(placed(list, p)),
        placed(list, p).to_set() == list.to_set().insert(p),
    decreases list.len(),
{
    let out = placed(list, p);
    if list.len() == 0 {
        assert(out =~= list.insert(0, p));
        insert_to_set(list, p, 0);
    } else if list[0] == p {
        assert(list.to_set().contains(p));
        assert(list.to_set().insert(p) =~= list.to_set());
    } else if project_before(p, list[0]) {
        assert(out =~= list.insert(0, p));
        insert_to_set(list, p, 0);
        assert forall|i: int, j: int| 0 <= i < j < out.len() implies project_before(
            out[i],
            out[j],
        ) by {
            if i == 0 && j > 1 {
                assert(project_before(list[0], list[j - 1]));
                project_before_transitive(p, list[0], list[j - 1]);
            } else if i > 0 {
                assert(project_before(list[i - 1], list[j - 1]));
            }
        }
    } else {
        let rest = list.skip(1);
        assert(projects_ascend(rest)) by {
            assert forall|i: int, j: int| 0 <= i < j < rest.len() implies project_before(
                rest[i],
                rest[j],
            ) by {
                assert(project_before(list[i + 1], list[j + 1]));
            }
        }
        placed_ascends(rest, p);
        let tail = placed(rest, p);
        project_before_total(list[0], p);
        assert forall|x: Seq<Seq<char>>| tail.contains(x) implies project_before(list[0], x) by {
            assert(tail.to_set().contains(x));
            if x != p {
                assert(rest.contains(x));
                let k = choose|k: int| 0 <= k < rest.len() && rest[k] == x;
                assert(project_before(list[0], list[k + 1]));
            }
        }
        assert forall|i: int, j: int| 0 <= i < j < out.len() implies project_before(
            out[i],
            out[j],
        ) by {
            if i == 0 {
                assert(tail.contains(tail[j - 1]));
            } else {
                assert(project_before(tail[i - 1], tail[j - 1]));
            }
        }
        insert_to_set(tail, list[0], 0);
        assert(tail.insert(0, list[0]) =~= out);
        insert_to_set(rest, list[0], 0);
        assert(rest.insert(0, list[0]) =~= list);
        assert(out.to_set() =~= list.to_set().insert(p));
    }
}

fn path_list_before(a: &Vec<String>, b: &Vec<String>) -> (r: bool)
    ensures
        r == project_before(texts(a@), texts(b@)),
{
    let ghost x = texts(a@);
    let ghost y = texts(b@);
    let mut i: usize = 0;
    assert(x.skip(0) =~= x);
    assert(y.skip(0) =~= y);
    while i < a.len() && i < b.len()
        invariant
            i <= a.len(),
            i <= b.len(),
            x == texts(a@),
            y == texts(b@),
            project_before(x, y) == project_before(x.skip(i as int), y.skip(i as int)),
        decreases a.len() - i,
    {
        let u = chars_of(a[i].as_str());
        let v = chars_of(b[i].as_str());
        if !same_chars(u.as_slice(), v.as_slice()) {
            return stands_before(u.as_slice(), v.as_slice());
        }
        assert(x.skip(i as int).skip(1) =~= x.skip(i + 1));
        assert(y.skip(i as int).skip(1) =~= y.skip(i + 1));
        i = i + 1;
    }
    i < b.len()
}

/// The projects of a list in ascending order, each of them once.
pub open spec fn project_set(list: Seq<Seq<Seq<char>>>) -> Seq<Seq<Seq<char>>>
    decreases list.len(),
{
    if list.len() == 0 {
        Seq::empty()
    } else {
        placed(project_set(list.drop_last()), list.last())
    }
}

/// The projects of a list and one more, in ascending order and each of them
/// once.
pub open spec fn with_project(list: Seq<Seq<Seq<char>>>, p: Seq<Seq<char>>) -> Seq<Seq<Seq<char>>> {
    placed(project_set(list), p)
}

/// Whatever the order of a list of projects and however often one is repeated,
/// the same projects stand in ascending order, and once, in what is made of it.
pub proof fn project_set_ascends(list: Seq<Seq<Seq<char>>>)
    ensures
        projects_ascend(project_set(list)),
        project_set(list).to_set() == list.to_set(),
    decreases list.len(),
{
    if list.len() == 0 {
        assert(project_set(list).to_set() =~= list.to_set());
    } else {
        let head = list.drop_last();
        project_set_ascends(head);
        placed_ascends(project_set(head), list.last());
        assert(list =~= head.insert(head.len() as int, list.last()));
        insert_to_set(head, list.last(), head.len() as int);
    }
}

/// A list whose projects ascend stays as it is.
pub proof fn ascending_projects_stay(list: Seq<Seq<Seq<char>>>)
    requires
        projects_ascend(list),
    ensures
        project_set(list) == list,
    decreases list.len(),
{
    if list.len() > 0 {
        let head = list.drop_last();
        assert(projects_ascend(head)) by {
            assert forall|i: int, j: int| 0 <= i < j < head.len() implies project_before(
                head[i],
                head[j],
            ) by {
                assert(project_before(list[i], list[j]));
            }
        }
        ascending_projects_stay(head);
        assert forall|i: int| 0 <= i < head.len() implies project_before(
            #[trigger] head[i],
            list.last(),
        ) by {
            assert(project_before(list[i], list[list.len() - 1]));
        }
        placed_last(head, list.last());
        assert(head.push(list.last()) =~= list);
    } else {
        assert(project_set(list) =~= list);
    }
}

proof fn placed_last(list: Seq<Seq<Seq<char>>>, p: Seq<Seq<char>>)
    requires
        forall|i: int| 0 <= i < list.len() ==> project_before(#[trigger] list[i], p),
    ensures
        placed(list, p) == list.push(p),
    decreases list.len(),
{
    if list.len() > 0 {
        let rest = list.skip(1);
        assert(project_before(list[0], p));
        if list[0] == p {
            project_before_irreflexive(p);
        }
        if project_before(p, list[0]) {
            project_before_transitive(p, list[0], p);
            project_before_irreflexive(p);
        }
        assert forall|i: int| 0 <= i < rest.len() implies project_before(#[trigger] rest[i], p) by {
            assert(rest[i] == list[i + 1]);
        }
        placed_last(rest, p);
        assert(seq![list[0]] + rest.push(p) =~= list.push(p));
    } else {
        assert(seq![p] =~= list.push(p));
    }
}

/// Adding a project to any list of projects gives an ascending list with that
/// project, those of the list, and nothing else.
pub proof fn with_project_ascends(list: Seq<Seq<Seq<char>>>, p: Seq<Seq<char>>)
    ensures
        projects_ascend(with_project(list, p)),
        with_project(list, p).to_set() == list.to_set().insert(p),
{
    project_set_ascends(list);
    placed_ascends(project_set(list), p);
}

/// Adding a project that is there changes nothing.
pub proof fn known_project_stays(list: Seq<Seq<Seq<char>>>, p: Seq<Seq<char>>)
    requires
        projects_ascend(list),
        list.contains(p),
    ensures
        with_project(list, p) == list,
    decreases list.len(),
{
    ascending_projects_stay(list);
    if list.len() > 0 && list[0] != p {
        let k = choose|k: int| 0 <= k < list.len() && list[k] == p;
        let rest = list.skip(1);
        assert(project_before(list[0], list[k]));
        if project_before(p, list[0]) {
            project_before_transitive(p, list[0], p);
            project_before_irreflexive(p);
        }
        assert(projects_ascend(rest)) by {
            assert forall|i: int, j: int| 0 <= i < j < rest.len() implies project_before(
                rest[i],
                rest[j],
            ) by {
                assert(project_before(list[i + 1], list[j + 1]));
            }
        }
        assert(rest[k - 1] == p);
        known_project_stays(rest, p);
        ascending_projects_stay(rest);
        assert(seq![list[0]] + rest =~= list);
    }
}

/// Adding a project once more changes nothing.
pub proof fn added_project_is_known(list: Seq<Seq<Seq<char>>>, p: Seq<Seq<char>>)
    ensures
        with_project(with_project(list, p), p) == with_project(list, p),
{
    let once = with_project(list, p);
    with_project_ascends(list, p);
    assert(once.to_set().contains(p));
    known_project_stays(once, p);
}

fn place_project(list: &mut Vec<RemoteProject>, project: RemoteProject)
    ensures
        models(final(list)@) == placed(models(old(list)@), project@),
{
    let ghost all = models(list@);
    let mut i: usize = 0;
    assert(all.skip(0) =~= all);
    assert(all.take(0) + placed(all.skip(0), project@) =~= placed(all, project@));
    while i < list.len()
        invariant
            i <= list.len(),
            list@ == old(list)@,
            all == models(list@),
            placed(all, project@) == all.take(i as int) + placed(
                all.skip(i as int),
                project@,
            ),
        decreases list.len() - i,
    {
        let ghost rest = all.skip(i as int);
        if list[i].same(&project) {
            assert(all.take(i as int) + rest =~= all);
            return ;
        }
        if path_list_before(&project.paths, &list[i].paths) {
            list.insert(i, project);
            assert(models(list@) =~= all.insert(i as int, project@));
            assert(all.insert(i as int, project@) =~= all.take(i as int) + (seq![project@] + rest));
            return ;
        }
        proof {
            assert(rest.skip(1) =~= all.skip(i + 1));
            assert(all.take(i as int) + (seq![rest[0]] + placed(all.skip(i + 1), project@))
                =~= all.take(i + 1) + placed(all.skip(i + 1), project@));
        }
        i = i + 1;
    }
    let ghost before = list@;
    list.push(project);
    assert(models(list@) =~= all.push(project@));
    assert(all.take(i as int) + seq![project@] =~= all.push(project@));
}

/// The projects of a list in ascending order, each of them once.
pub fn sort_projects(list: &Vec<RemoteProject>) -> (r: Vec<RemoteProject>)
    ensures
        models(r@) == project_set(models(list@)),
{
    let ghost all = models(list@);
    let mut out: Vec<RemoteProject> = Vec::new();
    let mut i: usize = 0;
    assert(models(out@) =~= project_set(all.take(0)));
    while i < list.len()
        invariant
            i <= list.len(),
            all == models(list@),
            models(out@) == project_set(all.take(i as int)),
        decreases list.len() - i,
    {
        proof {
            assert(all.take(i + 1).drop_last() =~= all.take(i as int));
            assert(all.take(i + 1).last() == list@[i as int]@);
        }
        place_project(&mut out, list[i].dup());
        i = i + 1;
    }
    assert(all.take(i as int) =~= all);
    out
}

/// Adds a project to a list of projects.
pub fn insert_project(list: &mut Vec<RemoteProject>, project: RemoteProject)
    ensures
        models(final(list)@) == with_project(models(old(list)@), project@),
        projects_ascend(models(final(list)@)),
{
    proof {
        with_project_ascends(models(list@), project@);
    }
    let mut sorted = sort_projects(list);
    place_project(&mut sorted, project);
    *list = sorted;
}

/// Picks the projects other than the given one.
pub open spec fn is_other_project(project: Seq<Seq<char>>) -> spec_fn(Seq<Seq<char>>) -> bool {
    |p: Seq<Seq<char>>| p != project
}

/// Takes a project out of a list of projects.
pub fn remove_project(list: &mut Vec<RemoteProject>, project: &RemoteProject)
    ensures
        models(final(list)@) == models(old(list)@).filter(is_other_project(project@)),
{
    let ghost keep = is_other_project(project@);
    let other = |p: &RemoteProject| -> (b: bool)
        ensures
            b == (p@ != project@),
        { !p.same(project) };
    keep_where(list, other, Ghost(keep));
}

/// What is kept of an ascending list of projects ascends.
pub proof fn kept_projects_ascend(
    list: Seq<Seq<Seq<char>>>,
    p: spec_fn(Seq<Seq<char>>) -> bool,
)
    requires
        projects_ascend(list),
    ensures
        projects_ascend(list.filter(p)),
    decreases list.len(),
{
    reveal(Seq::filter);
    if list.len() > 0 {
        let head = list.drop_last();
        assert(projects_ascend(head)) by {
            assert forall|i: int, j: int| 0 <= i < j < head.len() implies project_before(
                head[i],
                head[j],
            ) by {
                assert(project_before(list[i], list[j]));
            }
        }
        kept_projects_ascend(head, p);
        let kept = head.filter(p);
        let all = list.filter(p);
        assert forall|i: int, j: int| 0 <= i < j < all.len() implies project_before(
            all[i],
            all[j],
        ) by {
            assert(all[i] == kept[i]);
            if j < kept.len() {
                assert(project_before(kept[i], kept[j]));
            } else {
                crate::settings::filter_member(head, p, i);
                let k = choose|k: int| 0 <= k < head.len() && head[k] == kept[i];
                assert(project_before(list[k], list[list.len() - 1]));
            }
        }
    }
}

/// A project that is added and then taken out is not listed any more, and the
/// other projects are as before.
pub proof fn removed_project_is_gone(list: Seq<Seq<Seq<char>>>, p: Seq<Seq<char>>, q: Seq<Seq<char>>)
    ensures
        with_project(list, p).filter(is_other_project(p)).contains(q) <==> list.contains(q) && q != p,
{
    with_project_ascends(list, p);
    let all = with_project(list, p);
    let f = is_other_project(p);
    let kept = all.filter(f);
    assert(all.contains(q) == all.to_set().contains(q));
    assert(list.contains(q) == list.to_set().contains(q));
    if kept.contains(q) {
        let k = choose|k: int| 0 <= k < kept.len() && kept[k] == q;
        crate::settings::filter_member(all, f, k);
    }
    if all.contains(q) && f(q) {
        broadcast use Seq::lemma_filter_contains_rev;

        assert(kept.contains(q));
    }
}

// ---------------------------------------------------------------------------
// Saved connections

/// Whether the projects of a saved SSH server ascend.
pub open spec fn ssh_is_valid(c: SshConnectionView) -> bool {
    projects_ascend(c.projects)
}

/// Whether the projects of a saved WSL distribution ascend.
pub open spec fn wsl_is_valid(c: WslConnectionView) -> bool {
    projects_ascend(c.projects)
}

/// Whether the projects of a saved development container ascend, those in the
/// container and those on its machine.
pub open spec fn container_is_valid(c: DevContainerConnectionView) -> bool {
    projects_ascend(c.projects) && projects_ascend(c.host_projects)
}

/// A saved SSH server with its projects in order.
pub open spec fn sorted_ssh(c: SshConnectionView) -> SshConnectionView {
    SshConnectionView { projects: project_set(c.projects), ..c }
}

/// A saved WSL distribution with its projects in order.
pub open spec fn sorted_wsl(c: WslConnectionView) -> WslConnectionView {
    WslConnectionView { projects: project_set(c.projects), ..c }
}

/// A saved development container with its projects in order.
pub open spec fn sorted_container(c: DevContainerConnectionView) -> DevContainerConnectionView {
    DevContainerConnectionView {
        projects: project_set(c.projects),
        host_projects: project_set(c.host_projects),
        ..c
    }
}

/// Saved connections whose projects have been put in order are valid, and valid
/// ones stay as they are.
pub proof fn sorted_connections_are_valid(
    s: SshConnectionView,
    w: WslConnectionView,
    c: DevContainerConnectionView,
)
    ensures
        ssh_is_valid(sorted_ssh(s)),
        wsl_is_valid(sorted_wsl(w)),
        container_is_valid(sorted_container(c)),
        ssh_is_valid(s) ==> sorted_ssh(s) == s,
        wsl_is_valid(w) ==> sorted_wsl(w) == w,
        container_is_valid(c) ==> sorted_container(c) == c,
{
    project_set_ascends(s.projects);
    project_set_ascends(w.projects);
    project_set_ascends(c.projects);
    project_set_ascends(c.host_projects);
    if ssh_is_valid(s) {
        ascending_projects_stay(s.projects);
    }
    if wsl_is_valid(w) {
        ascending_projects_stay(w.projects);
    }
    if container_is_valid(c) {
        ascending_projects_stay(c.projects);
        ascending_projects_stay(c.host_projects);
    }
}

/// Saved SSH servers with their projects in order.
pub fn sort_ssh_connections(list: &Vec<SshConnection>) -> (r: Vec<SshConnection>)
    ensures
        models(r@) == models(list@).map_values(|c: SshConnectionView| sorted_ssh(c)),
{
    broadcast use models_push;

    let ghost all = models(list@).map_values(|c: SshConnectionView| sorted_ssh(c));
    let mut out: Vec<SshConnection> = Vec::new();
    let mut i: usize = 0;
    assert(models(out@) =~= all.take(0));
    while i < list.len()
        invariant
            i <= list.len(),
            all == models(list@).map_values(|c: SshConnectionView| sorted_ssh(c)),
            models(out@) == all.take(i as int),
        decreases list.len() - i,
    {
        let mut c = list[i].dup();
        c.projects = sort_projects(&list[i].projects);
        assert(c@ == all[i as int]);
        out.push(c);
        i = i + 1;
        assert(all.take(i as int) =~= all.take(i - 1).push(all[i - 1]));
    }
    assert(all.take(i as int) =~= all);
    out
}

/// Saved WSL distributions with their projects in order.
pub fn sort_wsl_connections(list: &Vec<WslConnection>) -> (r: Vec<WslConnection>)
    ensures
        models(r@) == models(list@).map_values(|c: WslConnectionView| sorted_wsl(c)),
{
    broadcast use models_push;

    let ghost all = models(list@).map_values(|c: WslConnectionView| sorted_wsl(c));
    let mut out: Vec<WslConnection> = Vec::new();
    let mut i: usize = 0;
    assert(models(out@) =~= all.take(0));
    while i < list.len()
        invariant
            i <= list.len(),
            all == models(list@).map_values(|c: WslConnectionView| sorted_wsl(c)),
            models(out@) == all.take(i as int),
        decreases list.len() - i,
    {
        let mut c = list[i].dup();
        c.projects = sort_projects(&list[i].projects);
        assert(c@ == all[i as int]);
        out.push(c);
        i = i + 1;
        assert(all.take(i as int) =~= all.take(i - 1).push(all[i - 1]));
    }
    assert(all.take(i as int) =~= all);
    out
}

/// Saved development containers with their projects in order.
pub fn sort_dev_container_connections(list: &Vec<DevContainerConnection>) -> (r: Vec<
    DevContainerConnection,
>)
    ensures
        models(r@) == models(list@).map_values(
            |c: DevContainerConnectionView| sorted_container(c),
        ),
{
    broadcast use models_push;

    let ghost all = models(list@).map_values(|c: DevContainerConnectionView| sorted_container(c));
    let mut out: Vec<DevContainerConnection> = Vec::new();
    let mut i: usize = 0;
    assert(models(out@) =~= all.take(0));
    while i < list.len()
        invariant
            i <= list.len(),
            all == models(list@).map_values(|c: DevContainerConnectionView| sorted_container(c)),
            models(out@) == all.take(i as int),
        decreases list.len() - i,
    {
        let mut c = list[i].dup();
        c.projects = sort_projects(&list[i].projects);
        c.host_projects = sort_projects(&list[i].host_projects);
        assert(c@ == all[i as int]);
        out.push(c);
        i = i + 1;
        assert(all.take(i as int) =~= all.take(i - 1).push(all[i - 1]));
    }
    assert(all.take(i as int) =~= all);
    out
}

/// Projects are ordered by the first path that differs, and a project stands
/// before the longer ones that begin with its paths.
pub proof fn first_difference_orders_projects(
    lead: Seq<Seq<char>>,
    x: Seq<char>,
    y: Seq<char>,
    a: Seq<Seq<char>>,
    b: Seq<Seq<char>>,
)
    requires
        x != y,
    ensures
        project_before(lead.push(x) + a, lead.push(y) + b) <==> text_before(x, y),
        project_before(lead, lead.push(x) + a),
        !project_before(lead.push(x) + a, lead),
    decreases lead.len(),
{
    let p = lead.push(x) + a;
    let q = lead.push(y) + b;
    if lead.len() > 0 {
        let rest = lead.skip(1);
        first_difference_orders_projects(rest, x, y, a, b);
        assert(p.skip(1) =~= rest.push(x) + a);
        assert(q.skip(1) =~= rest.push(y) + b);
        assert(p[0] == lead[0] && q[0] == lead[0]);
    } else {
        assert(p[0] == x && q[0] == y);
    }
}

/// Putting the projects of a connection in order touches nothing else of it.
pub proof fn sorting_touches_projects_alone(
    s: SshConnectionView,
    w: WslConnectionView,
    c: DevContainerConnectionView,
)
    ensures
        (SshConnectionView { projects: s.projects, ..sorted_ssh(s) }) == s,
        (WslConnectionView { projects: w.projects, ..sorted_wsl(w) }) == w,
        (DevContainerConnectionView {
            projects: c.projects,
            host_projects: c.host_projects,
            ..sorted_container(c)
        }) == c,
        sorted_ssh(s).projects.to_set() == s.projects.to_set(),
        sorted_wsl(w).projects.to_set() == w.projects.to_set(),
        sorted_container(c).projects.to_set() == c.projects.to_set(),
        sorted_container(c).host_projects.to_set() == c.host_projects.to_set(),
{
    project_set_ascends(s.projects);
    project_set_ascends(w.projects);
    project_set_ascends(c.projects);
    project_set_ascends(c.host_projects);
}

} // verus!
