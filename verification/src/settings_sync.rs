//! Settings that are kept in a repository: what the settings file says of it,
//! and the page on which it is set up.
use crate::text::{join, joined, opt_text, push_str, texts};
use vstd::prelude::*;
use vstd::string::*;

verus! {

/// What the settings file says of keeping settings in a repository.
#[derive(Clone, Debug, PartialEq, Eq)]
pub struct SettingsSyncSettingsContent {
    /// Whether the settings are kept in a repository.
    ///
    /// Default: false
    pub enabled: Option<bool>,
    /// The private repository in which the settings are kept.
    ///
    /// Default: "zed_settings"
    pub repo_name: Option<String>,
    /// Whether a change of the settings is sent to the repository by itself.
    ///
    /// Default: false
    pub auto_sync_on_change: Option<bool>,
    /// Whether Windows takes part.
    ///
    /// Default: true
    pub sync_windows: Option<bool>,
    /// Whether macOS takes part.
    ///
    /// Default: true
    pub sync_macos: Option<bool>,
    /// Whether Linux takes part.
    ///
    /// Default: true
    pub sync_linux: Option<bool>,
    /// Whether the settings file of the user is kept.
    ///
    /// Default: true
    pub include_settings: Option<bool>,
    /// Whether the keymap file of the user is kept.
    ///
    /// Default: true
    pub include_keymap: Option<bool>,
}

/// The model of a [`SettingsSyncSettingsContent`].
#[verifier::ext_equal]
pub struct SyncContentView {
    pub enabled: Option<bool>,
    pub repo_name: Option<Seq<char>>,
    pub auto_sync_on_change: Option<bool>,
    pub sync_windows: Option<bool>,
    pub sync_macos: Option<bool>,
    pub sync_linux: Option<bool>,
    pub include_settings: Option<bool>,
    pub include_keymap: Option<bool>,
}

impl View for SettingsSyncSettingsContent {
    type V = SyncContentView;

    open spec fn view(&self) -> SyncContentView {
        SyncContentView {
            enabled: self.enabled,
            repo_name: opt_text(self.repo_name),
            auto_sync_on_change: self.auto_sync_on_change,
            sync_windows: self.sync_windows,
            sync_macos: self.sync_macos,
            sync_linux: self.sync_linux,
            include_settings: self.include_settings,
            include_keymap: self.include_keymap,
        }
    }
}

impl Default for SettingsSyncSettingsContent {
    fn default() -> (r: Self)
        ensures
            r@ == (SyncContentView {
                enabled: None,
                repo_name: None,
                auto_sync_on_change: None,
                sync_windows: None,
                sync_macos: None,
                sync_linux: None,
                include_settings: None,
                include_keymap: None,
            }),
    {
        SettingsSyncSettingsContent {
            enabled: None,
            repo_name: None,
            auto_sync_on_change: None,
            sync_windows: None,
            sync_macos: None,
            sync_linux: None,
            include_settings: None,
            include_keymap: None,
        }
    }
}

/// The settings in force, with the defaults for what is not said.
#[derive(Clone, Debug, PartialEq, Eq)]
pub struct SettingsSyncSettings {
    pub enabled: bool,
    pub repo_name: String,
    pub auto_sync_on_change: bool,
    pub sync_windows: bool,
    pub sync_macos: bool,
    pub sync_linux: bool,
    pub include_settings: bool,
    pub include_keymap: bool,
}

/// A switch, or its default where it is not set.
pub open spec fn switch_or(switch: Option<bool>, default_value: bool) -> bool {
    match switch {
        Some(b) => b,
        None => default_value,
    }
}

fn read_switch(switch: Option<bool>, default_value: bool) -> (r: bool)
    ensures
        r == switch_or(switch, default_value),
{
    match switch {
        Some(b) => b,
        None => default_value,
    }
}

impl SettingsSyncSettingsContent {
    /// The settings in force, with the defaults for what is not said.
    pub fn resolved(&self) -> (r: SettingsSyncSettings)
        ensures
            r.enabled == switch_or(self@.enabled, false),
            r.repo_name@ == match self@.repo_name {
                Some(name) => name,
                None => "zed_settings"@,
            },
            r.auto_sync_on_change == switch_or(self@.auto_sync_on_change, false),
            r.sync_windows == switch_or(self@.sync_windows, true),
            r.sync_macos == switch_or(self@.sync_macos, true),
            r.sync_linux == switch_or(self@.sync_linux, true),
            r.include_settings == switch_or(self@.include_settings, true),
            r.include_keymap == switch_or(self@.include_keymap, true),
    {
        SettingsSyncSettings {
            enabled: read_switch(self.enabled, false),
            repo_name: match &self.repo_name {
                Some(name) => name.clone(),
                None => "zed_settings".to_owned(),
            },
            auto_sync_on_change: read_switch(self.auto_sync_on_change, false),
            sync_windows: read_switch(self.sync_windows, true),
            sync_macos: read_switch(self.sync_macos, true),
            sync_linux: read_switch(self.sync_linux, true),
            include_settings: read_switch(self.include_settings, true),
            include_keymap: read_switch(self.include_keymap, true),
        }
    }
}

/// What is known of keeping the settings at one moment.
#[derive(Clone, Debug, PartialEq, Eq)]
pub struct SyncSnapshot {
    pub app_github_login: Option<String>,
    pub sync_owner_login: Option<String>,
    pub token_available: bool,
    pub repo_name: String,
    pub enabled: bool,
    pub auto_sync_on_change: bool,
    pub is_syncing: bool,
    pub last_action: Option<String>,
    pub last_success_at: Option<String>,
    pub synced_files: Vec<String>,
    pub last_message: Option<String>,
    pub last_error: Option<String>,
}

/// What the page shows.
#[derive(Clone, Debug, PartialEq, Eq)]
pub enum SyncPage {
    /// That settings cannot be kept here.
    Unavailable(String),
    /// What is known, above and below the buttons, and whether the buttons that
    /// send and fetch can be pressed.
    Status { account: Vec<String>, history: Vec<String>, can_transfer: bool },
}

/// A text, or another where there is none.
pub open spec fn text_or(text: Option<Seq<char>>, other: Seq<char>) -> Seq<char> {
    match text {
        Some(t) => t,
        None => other,
    }
}

/// The lines above the buttons.
pub open spec fn account_lines(s: SyncSnapshot) -> Seq<Seq<char>> {
    seq![
        "Current account: "@ + text_or(opt_text(s.app_github_login), "Not signed in"@),
        "Sync repository account: "@ + text_or(opt_text(s.sync_owner_login), "Not verified yet"@),
        "Stored token: "@ + (if s.token_available {
            "Available"@
        } else {
            "Missing"@
        }),
        "Repository: "@ + s.repo_name@,
        "Feature status: "@ + (if s.enabled {
            "Enabled"@
        } else {
            "Disabled"@
        }) + " / Auto sync: "@ + (if s.auto_sync_on_change {
            "On"@
        } else {
            "Off"@
        }),
    ]
}

/// The lines below the buttons.
pub open spec fn history_lines(s: SyncSnapshot) -> Seq<Seq<char>> {
    let files = if s.synced_files@.len() == 0 {
        "None"@
    } else {
        joined(texts(s.synced_files@), ", "@)
    };
    let message = match opt_text(s.last_message) {
        Some(m) => seq![m],
        None => Seq::empty(),
    };
    let error = match opt_text(s.last_error) {
        Some(e) => seq!["Error: "@ + e],
        None => Seq::empty(),
    };
    seq![
        "Last action: "@ + text_or(opt_text(s.last_action), "None"@),
        "Last success: "@ + text_or(opt_text(s.last_success_at), "None"@),
        "Last files: "@ + files,
    ] + message + error
}

fn labelled(label: &str, text: &Option<String>, other: &str) -> (r: String)
    ensures
        r@ == label@ + text_or(opt_text(*text), other@),
{
    let mut out = label.to_owned();
    match text {
        Some(t) => out.append(t.as_str()),
        None => out.append(other),
    }
    out
}

/// What the page shows, given what is known, if anything is.
pub fn render_settings_sync_setup_page(snapshot: Option<&SyncSnapshot>) -> (r: SyncPage)
    ensures
        match snapshot {
            None => r is Unavailable && r->Unavailable_0@
                == "Settings sync is unavailable in this workspace."@,
            Some(s) => {
                &&& r is Status
                &&& texts(r->account@) == account_lines(*s)
                &&& texts(r->history@) == history_lines(*s)
                &&& r->can_transfer == (s.enabled && !s.is_syncing)
            },
        },
{
    let s = match snapshot {
        Some(s) => s,
        None => {
            return SyncPage::Unavailable(
                "Settings sync is unavailable in this workspace.".to_owned(),
            );
        },
    };
    let mut account: Vec<String> = Vec::new();
    push_str(
        &mut account,
        labelled("Current account: ", &s.app_github_login, "Not signed in").as_str(),
    );
    push_str(
        &mut account,
        labelled("Sync repository account: ", &s.sync_owner_login, "Not verified yet").as_str(),
    );
    let mut token = "Stored token: ".to_owned();
    if s.token_available {
        token.append("Available");
    } else {
        token.append("Missing");
    }
    push_str(&mut account, token.as_str());
    let mut repo = "Repository: ".to_owned();
    repo.append(s.repo_name.as_str());
    push_str(&mut account, repo.as_str());
    let mut feature = "Feature status: ".to_owned();
    if s.enabled {
        feature.append("Enabled");
    } else {
        feature.append("Disabled");
    }
    feature.append(" / Auto sync: ");
    if s.auto_sync_on_change {
        feature.append("On");
    } else {
        feature.append("Off");
    }
    push_str(&mut account, feature.as_str());
    assert(texts(account@) =~= account_lines(*s));

    let mut history: Vec<String> = Vec::new();
    push_str(&mut history, labelled("Last action: ", &s.last_action, "None").as_str());
    push_str(&mut history, labelled("Last success: ", &s.last_success_at, "None").as_str());
    let mut files = "Last files: ".to_owned();
    if s.synced_files.len() == 0 {
        files.append("None");
    } else {
        files.append(join(&s.synced_files, ", ").as_str());
    }
    push_str(&mut history, files.as_str());
    if let Some(m) = &s.last_message {
        push_str(&mut history, m.as_str());
    }
    if let Some(e) = &s.last_error {
        let mut line = "Error: ".to_owned();
        line.append(e.as_str());
        push_str(&mut history, line.as_str());
    }
    assert(texts(history@) =~= history_lines(*s));
    SyncPage::Status { account, history, can_transfer: s.enabled && !s.is_syncing }
}

/// A switch that is not set is what it is by default.
pub proof fn unset_switches_have_defaults(b: bool, usual: bool)
    ensures
        switch_or(Some(b), usual) == b,
        switch_or(None, usual) == usual,
{
}

/// The page tells who is signed in, whose repository is used, whether there is a
/// token, the repository and what is switched on, a line each; what is not known
/// is told as that.
pub proof fn account_is_told(s: SyncSnapshot)
    ensures
        ({
            let l = account_lines(s);
            &&& l.len() == 5
            &&& opt_text(s.app_github_login) matches Some(n) ==> l[0] == "Current account: "@ + n
            &&& opt_text(s.app_github_login) is None ==> l[0] == "Current account: Not signed in"@
            &&& opt_text(s.sync_owner_login) matches Some(n) ==> l[1] == "Sync repository account: "@
                + n
            &&& opt_text(s.sync_owner_login) is None ==> l[1]
                == "Sync repository account: Not verified yet"@
            &&& s.token_available ==> l[2] == "Stored token: Available"@
            &&& !s.token_available ==> l[2] == "Stored token: Missing"@
            &&& l[3] == "Repository: "@ + s.repo_name@
            &&& s.enabled && s.auto_sync_on_change ==> l[4]
                == "Feature status: Enabled / Auto sync: On"@
            &&& s.enabled && !s.auto_sync_on_change ==> l[4]
                == "Feature status: Enabled / Auto sync: Off"@
            &&& !s.enabled && s.auto_sync_on_change ==> l[4]
                == "Feature status: Disabled / Auto sync: On"@
            &&& !s.enabled && !s.auto_sync_on_change ==> l[4]
                == "Feature status: Disabled / Auto sync: Off"@
        }),
{
    reveal_strlit("Current account: ");
    reveal_strlit("Not signed in");
    reveal_strlit("Current account: Not signed in");
    reveal_strlit("Sync repository account: ");
    reveal_strlit("Not verified yet");
    reveal_strlit("Sync repository account: Not verified yet");
    reveal_strlit("Stored token: ");
    reveal_strlit("Available");
    reveal_strlit("Missing");
    reveal_strlit("Stored token: Available");
    reveal_strlit("Stored token: Missing");
    reveal_strlit("Feature status: ");
    reveal_strlit("Enabled");
    reveal_strlit("Disabled");
    reveal_strlit(" / Auto sync: ");
    reveal_strlit("On");
    reveal_strlit("Off");
    reveal_strlit("Feature status: Enabled / Auto sync: On");
    reveal_strlit("Feature status: Enabled / Auto sync: Off");
    reveal_strlit("Feature status: Disabled / Auto sync: On");
    reveal_strlit("Feature status: Disabled / Auto sync: Off");
    assert("Current account: "@ + "Not signed in"@ =~= "Current account: Not signed in"@);
    assert("Sync repository account: "@ + "Not verified yet"@
        =~= "Sync repository account: Not verified yet"@);
    assert("Stored token: "@ + "Available"@ =~= "Stored token: Available"@);
    assert("Stored token: "@ + "Missing"@ =~= "Stored token: Missing"@);
    let f = "Feature status: "@;
    let a = " / Auto sync: "@;
    assert(f + "Enabled"@ + a + "On"@ =~= "Feature status: Enabled / Auto sync: On"@);
    assert(f + "Enabled"@ + a + "Off"@ =~= "Feature status: Enabled / Auto sync: Off"@);
    assert(f + "Disabled"@ + a + "On"@ =~= "Feature status: Disabled / Auto sync: On"@);
    assert(f + "Disabled"@ + a + "Off"@ =~= "Feature status: Disabled / Auto sync: Off"@);
}

/// The page tells what was done last, when it last went well, and with which
/// files; the last message and the last error follow where there are any.
pub proof fn history_is_told(s: SyncSnapshot)
    ensures
        ({
            let l = history_lines(s);
            &&& opt_text(s.last_action) matches Some(a) ==> l[0] == "Last action: "@ + a
            &&& opt_text(s.last_action) is None ==> l[0] == "Last action: None"@
            &&& opt_text(s.last_success_at) matches Some(a) ==> l[1] == "Last success: "@ + a
            &&& opt_text(s.last_success_at) is None ==> l[1] == "Last success: None"@
            &&& s.synced_files@.len() == 0 ==> l[2] == "Last files: None"@
            &&& s.synced_files@.len() > 0 ==> l[2] == "Last files: "@ + joined(
                texts(s.synced_files@),
                ", "@,
            )
            &&& s.last_message is None && s.last_error is None ==> l.len() == 3
            &&& opt_text(s.last_message) matches Some(m) ==> l[3] == m
            &&& s.last_message is None ==> (opt_text(s.last_error) matches Some(e) ==> l.len() == 4
                && l[3] == "Error: "@ + e)
            &&& s.last_message is Some ==> (opt_text(s.last_error) matches Some(e) ==> l.len() == 5
                && l[4] == "Error: "@ + e)
        }),
{
    reveal_strlit("None");
    reveal_strlit("Last action: ");
    reveal_strlit("Last action: None");
    reveal_strlit("Last success: ");
    reveal_strlit("Last success: None");
    reveal_strlit("Last files: ");
    reveal_strlit("Last files: None");
    assert("Last action: "@ + "None"@ =~= "Last action: None"@);
    assert("Last success: "@ + "None"@ =~= "Last success: None"@);
    assert("Last files: "@ + "None"@ =~= "Last files: None"@);
}

} // verus!
