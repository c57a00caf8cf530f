//! Choosing the configuration of a development container, and the folder of a
//! project on a remote machine.
use crate::connection::{
    shown_connection, RemoteConnectionOptions, RemoteConnectionOptionsView, RemoteProject,
};
use crate::docker_exec::PathStyle;
use crate::model::{dup_all, models, models_push, opt_model, Model};
use crate::projects::with_project;
use crate::settings::{
    changed_at, RemoteSettingsContent, RemoteSettingsContentView, ServerIndex,
};
use crate::text::{
    copy_opt, copy_text, has_part, lowercase, opt_text, same_text, text_contains, texts,
    unicode_lower,
};
use vstd::prelude::*;
use vstd::string::*;

verus! {

// ---------------------------------------------------------------------------
// Configurations

/// A configuration of a development container.
#[derive(Clone, Debug, PartialEq, Eq)]
pub struct DevContainerConfig {
    pub name: String,
    pub config_path: String,
}

/// The model of a [`DevContainerConfig`].
#[verifier::ext_equal]
pub struct DevContainerConfigView {
    pub name: Seq<char>,
    pub config_path: Seq<char>,
}

impl View for DevContainerConfig {
    type V = DevContainerConfigView;

    open spec fn view(&self) -> DevContainerConfigView {
        DevContainerConfigView { name: self.name@, config_path: self.config_path@ }
    }
}

impl Model for DevContainerConfig {
    fn dup(&self) -> (r: Self) {
        DevContainerConfig {
            name: copy_text(&self.name),
            config_path: copy_text(&self.config_path),
        }
    }

    fn same(&self, other: &Self) -> (r: bool) {
        same_text(self.name.as_str(), other.name.as_str()) && same_text(
            self.config_path.as_str(),
            other.config_path.as_str(),
        )
    }
}

/// Picks the configurations whose name or path a search, which is in lower
/// case, finds.
pub open spec fn config_found(query: Seq<char>) -> spec_fn(DevContainerConfigView) -> bool {
    |c: DevContainerConfigView|
        has_part(unicode_lower(c.name), query) || has_part(unicode_lower(c.config_path), query)
}

/// Whether a search finds a configuration whose name and path are given in
/// lower case.
pub fn config_matches(name: &str, config_path: &str, query: &str) -> (r: bool)
    ensures
        r == (has_part(name@, query@) || has_part(config_path@, query@)),
{
    text_contains(name, query) || text_contains(config_path, query)
}

/// The configurations to choose from, those that a search has found, and the
/// selected one among these.
#[derive(Clone, Debug, PartialEq, Eq)]
pub struct ConfigPicker {
    pub selected_index: usize,
    pub candidates: Vec<DevContainerConfig>,
    pub matching_candidates: Vec<DevContainerConfig>,
}

/// What the choice of a configuration leads to.
#[derive(Clone, Debug, PartialEq, Eq)]
pub enum ConfigChoice {
    /// The configuration is opened as a file.
    Edit(String),
    /// The container of the configuration, or of the usual one, is created.
    Open(Option<DevContainerConfig>),
}

impl ConfigPicker {
    /// The selected place is one of those found, where any are.
    pub open spec fn wf(&self) -> bool {
        self.selected_index < self.matching_candidates@.len() || self.selected_index == 0
    }

    /// All configurations can be chosen, and the first is selected.
    pub fn new(candidates: Vec<DevContainerConfig>) -> (r: Self)
        ensures
            r.wf(),
            r.selected_index == 0,
            models(r.candidates@) == models(candidates@),
            models(r.matching_candidates@) == models(candidates@),
    {
        let matching_candidates = dup_all(&candidates);
        ConfigPicker { selected_index: 0, candidates, matching_candidates }
    }

    /// How many configurations the search has found.
    pub fn match_count(&self) -> (r: usize)
        ensures
            r == self.matching_candidates@.len(),
    {
        self.matching_candidates.len()
    }

    /// Searches for configurations. The selection stays where it was, or goes
    /// to the last one found where there are fewer.
    pub fn update_matches(&mut self, query: &str)
        ensures
            final(self).wf(),
            final(self).candidates == old(self).candidates,
            models(final(self).matching_candidates@) == models(old(self).candidates@).filter(
                config_found(unicode_lower(query@)),
            ),
            final(self).selected_index == ({
                let n = final(self).matching_candidates@.len();
                if old(self).selected_index < n {
                    old(self).selected_index as int
                } else if n > 0 {
                    n - 1
                } else {
                    0
                }
            }),
    {
        broadcast use models_push;

        let low = lowercase(query);
        let ghost all = models(self.candidates@);
        let ghost p = config_found(unicode_lower(query@));
        let mut found: Vec<DevContainerConfig> = Vec::new();
        let mut i: usize = 0;
        proof {
            reveal(Seq::filter);
            assert(models(found@) =~= all.take(0).filter(p));
        }
        while i < self.candidates.len()
            invariant
                i <= self.candidates.len(),
                *self == *old(self),
                low@ == unicode_lower(query@),
                all == models(self.candidates@),
                p == config_found(unicode_lower(query@)),
                models(found@) == all.take(i as int).filter(p),
            decreases self.candidates.len() - i,
        {
            let c = &self.candidates[i];
            proof {
                assert(all.take(i + 1) =~= all.take(i as int).push(c@));
                crate::text::filter_push(all.take(i as int), c@, p);
            }
            let name = lowercase(c.name.as_str());
            let path = lowercase(c.config_path.as_str());
            if config_matches(name.as_str(), path.as_str(), low.as_str()) {
                found.push(c.dup());
            }
            i = i + 1;
        }
        assert(all.take(i as int) =~= all);
        let n: usize = found.len();
        self.matching_candidates = found;
        if self.selected_index >= n {
            self.selected_index = if n > 0 {
                n - 1
            } else {
                0
            };
        }
    }

    /// The selected configuration, if there is one.
    pub fn selected(&self) -> (r: Option<DevContainerConfig>)
        ensures
            opt_model(r) == (if self.selected_index < self.matching_candidates@.len() {
                Some(models(self.matching_candidates@)[self.selected_index as int])
            } else {
                None
            }),
    {
        if self.selected_index < self.matching_candidates.len() {
            assert(models(self.matching_candidates@)[self.selected_index as int]
                == self.matching_candidates@[self.selected_index as int]@);
            Some(self.matching_candidates[self.selected_index].dup())
        } else {
            None
        }
    }

    /// What the choice leads to: the secondary key opens the file of the
    /// configuration, the usual one where none is selected.
    pub fn confirm(&self, secondary: bool) -> (r: ConfigChoice)
        ensures
            ({
                let chosen = if self.selected_index < self.matching_candidates@.len() {
                    Some(models(self.matching_candidates@)[self.selected_index as int])
                } else {
                    None
                };
                if secondary {
                    r is Edit && r->Edit_0@ == match chosen {
                        Some(c) => c.config_path,
                        None => ".devcontainer/devcontainer.json"@,
                    }
                } else {
                    r is Open && opt_model(r->Open_0) == chosen
                }
            }),
    {
        let chosen = self.selected();
        if secondary {
            match chosen {
                Some(c) => ConfigChoice::Edit(c.config_path),
                None => ConfigChoice::Edit(".devcontainer/devcontainer.json".to_owned()),
            }
        } else {
            ConfigChoice::Open(chosen)
        }
    }
}

/// What is done with the configurations that a project has.
#[derive(Clone, Debug, PartialEq, Eq)]
pub enum ConfigStart {
    /// One of several is chosen.
    Choose(ConfigPicker),
    /// The only one, or the usual one, is taken.
    Open(Option<DevContainerConfig>),
}

/// What is done with the configurations that a project has: the user is asked
/// only where there are several, and then all of them can be chosen and searched
/// and the first is selected.
pub fn start_with_configs(configs: Vec<DevContainerConfig>) -> (r: ConfigStart)
    ensures
        if configs@.len() > 1 {
            &&& r is Choose
            &&& r->Choose_0.wf()
            &&& r->Choose_0.selected_index == 0
            &&& models(r->Choose_0.candidates@) == models(configs@)
            &&& models(r->Choose_0.matching_candidates@) == models(configs@)
        } else {
            r is Open && opt_model(r->Open_0) == (if configs@.len() == 1 {
                Some(configs@[0]@)
            } else {
                None
            })
        },
{
    if configs.len() > 1 {
        ConfigStart::Choose(ConfigPicker::new(configs))
    } else if configs.len() == 1 {
        ConfigStart::Open(Some(configs[0].dup()))
    } else {
        ConfigStart::Open(None)
    }
}

// ---------------------------------------------------------------------------
// Folders

/// What the heading of a page on one connection shows.
#[derive(Clone, Debug, PartialEq, Eq)]
pub struct PickerHeading {
    pub title: String,
    pub nickname: Option<String>,
    pub is_wsl: bool,
    pub is_devcontainer: bool,
}

/// What the heading shows for options.
pub open spec fn heading_of(o: RemoteConnectionOptionsView) -> (
    Seq<char>,
    Option<Seq<char>>,
    bool,
    bool,
) {
    match o {
        RemoteConnectionOptionsView::Ssh(s) => (shown_connection(s), s.nickname, false, false),
        RemoteConnectionOptionsView::Wsl(w) => (w.distro_name, None, true, false),
        RemoteConnectionOptionsView::Docker(d) => (d.name, None, false, true),
    }
}

/// What the heading shows while a folder is chosen.
pub fn picker_heading(options: &RemoteConnectionOptions) -> (r: PickerHeading)
    ensures
        (r.title@, opt_text(r.nickname), r.is_wsl, r.is_devcontainer) == heading_of(options@),
{
    match options {
        RemoteConnectionOptions::Ssh(s) => PickerHeading {
            title: s.connection_string(),
            nickname: copy_opt(&s.nickname),
            is_wsl: false,
            is_devcontainer: false,
        },
        RemoteConnectionOptions::Wsl(w) => PickerHeading {
            title: w.distro_name.clone(),
            nickname: None,
            is_wsl: true,
            is_devcontainer: false,
        },
        RemoteConnectionOptions::Docker(d) => PickerHeading {
            title: d.name.clone(),
            nickname: None,
            is_wsl: false,
            is_devcontainer: true,
        },
    }
}

/// The folder in which the choice begins: the user's home, or the root of the
/// machine where the home is not known.
pub fn starting_folder(home: Option<&str>, style: PathStyle) -> (r: String)
    ensures
        r@ == match home {
            Some(h) => h@,
            None => match style {
                PathStyle::Posix => "/"@,
                PathStyle::Windows => "C:\\"@,
            },
        },
{
    match home {
        Some(h) => h.to_owned(),
        None => match style {
            PathStyle::Posix => "/".to_owned(),
            PathStyle::Windows => "C:\\".to_owned(),
        },
    }
}

/// What follows from the choice of folders.
#[derive(Clone, Debug, PartialEq, Eq)]
pub enum PickOutcome {
    /// Nothing was chosen: the list of servers is shown again.
    ShowServers,
    /// The folders are opened.
    Open(Vec<String>),
}

/// Takes in which folders were chosen, if any: they are saved as a project of
/// the server.
pub fn folders_picked(
    settings: &mut RemoteSettingsContent,
    index: ServerIndex,
    paths: Option<Vec<String>>,
) -> (r: PickOutcome)
    ensures
        match paths {
            None => r is ShowServers && final(settings)@ == old(settings)@,
            Some(list) => {
                &&& r is Open
                &&& texts(r->Open_0@) == texts(list@)
                &&& match index {
                    ServerIndex::Ssh(i) => final(settings)@ == (RemoteSettingsContentView {
                        ssh_connections: changed_at(
                            old(settings)@.ssh_connections,
                            i as int,
                            |c: crate::connection::SshConnectionView|
                                crate::connection::SshConnectionView {
                                    projects: with_project(c.projects, texts(list@)),
                                    ..c
                                },
                        ),
                        ..old(settings)@
                    }),
                    ServerIndex::Wsl(i) => final(settings)@ == (RemoteSettingsContentView {
                        wsl_connections: changed_at(
                            old(settings)@.wsl_connections,
                            i as int,
                            |c: crate::connection::WslConnectionView|
                                crate::connection::WslConnectionView {
                                    projects: with_project(c.projects, texts(list@)),
                                    ..c
                                },
                        ),
                        ..old(settings)@
                    }),
                    ServerIndex::DevContainer(i) => final(settings)@ == (RemoteSettingsContentView {
                        dev_container_connections: changed_at(
                            old(settings)@.dev_container_connections,
                            i as int,
                            |c: crate::connection::DevContainerConnectionView|
                                crate::connection::DevContainerConnectionView {
                                    projects: with_project(c.projects, texts(list@)),
                                    ..c
                                },
                        ),
                        ..old(settings)@
                    }),
                }
            },
        },
{
    match paths {
        None => PickOutcome::ShowServers,
        Some(list) => {
            let opened = crate::text::copy_list(&list);
            settings.add_remote_project(index, RemoteProject { paths: list });
            PickOutcome::Open(opened)
        },
    }
}

/// A configuration is found by its name and by its path, in any case of the
/// letters.
pub proof fn configurations_are_found(c: DevContainerConfigView, query: Seq<char>)
    ensures
        config_found(query)(c) <==> has_part(unicode_lower(c.name), query) || has_part(
            unicode_lower(c.config_path),
            query,
        ),
        has_part(unicode_lower(c.name), query) ==> config_found(query)(c),
        has_part(unicode_lower(c.config_path), query) ==> config_found(query)(c),
{
}

/// The picker is headed by the server: the address and nickname of one over SSH,
/// the name of a distribution or of a container.
pub proof fn pickers_are_headed_by_the_server(o: RemoteConnectionOptionsView)
    ensures
        o matches RemoteConnectionOptionsView::Ssh(s) ==> heading_of(o).0 == shown_connection(s)
            && heading_of(o).1 == s.nickname,
        o matches RemoteConnectionOptionsView::Wsl(w) ==> heading_of(o).0 == w.distro_name
            && heading_of(o).1 is None,
        o matches RemoteConnectionOptionsView::Docker(d) ==> heading_of(o).0 == d.name
            && heading_of(o).1 is None,
        heading_of(o).2 <==> o is Wsl,
        heading_of(o).3 <==> o is Docker,
{
}

} // verus!
