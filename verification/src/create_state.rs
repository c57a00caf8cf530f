//! The page on which an SSH server is added, as it changes: what is entered,
//! picked, asked and answered, and what each of these does to the page.
use crate::connection::{
    ssh_command, ssh_command_string, ssh_options_view, SshConnection, SshConnectionOptions,
    SshConnectionOptionsView, SshConnectionView,
};
use crate::create_page::config_host_command;
use crate::model::{opt_model, Model};
use crate::settings::{
    connected_settings, or_none, with_saved, RemoteSettingsContent, RemoteSettingsContentView,
};
use crate::ssh_config::SshConfigEntries;
use crate::ssh_form::{
    answered_message, answered_status, build_ssh_connection_from_form, create_ssh_server,
    defaults_taken, form_errors, form_options, keychain_url, named_options, no_errors, read_args,
    refreshed, shown_forwards, text_or_empty, CommandLineAction, CreateRemoteServerFormErrors,
    CreateRemoteServerFormErrorsView, CreateRemoteServerInputMode, KeychainAnswer, KeychainRead,
    PasswordKeychainStatus, PasswordState, PasswordStateView, ServerForm, ServerFormView,
};
use crate::text::{copy_opt, decimal, opt_text, same_text, trim_text, trimmed};
use vstd::prelude::*;
use vstd::string::*;

verus! {

// ---------------------------------------------------------------------------
// The page

/// The lists to pick from.
#[derive(Clone, Copy, Debug, PartialEq, Eq, Structural)]
pub enum QuickPickTab {
    SshConfig,
    SavedConnections,
}

/// The page on which a server is added: what has been entered, what is shown
/// of it, and whether a connection is being made.
#[derive(Clone, Debug, PartialEq, Eq)]
pub struct CreateRemoteServer {
    pub input_mode: CreateRemoteServerInputMode,
    /// The command line that has been entered.
    pub address: String,
    pub form: ServerForm,
    pub show_advanced: bool,
    pub saved_connections_search: String,
    pub saved_connections_page: usize,
    pub ssh_config_search: String,
    pub ssh_config_hosts_page: usize,
    pub quick_pick_tab: QuickPickTab,
    pub form_errors: CreateRemoteServerFormErrors,
    pub password: PasswordState,
    pub address_error: Option<String>,
    /// Whether a question of the connection is shown.
    pub has_prompt: bool,
    /// Whether a connection is being made.
    pub creating: bool,
}

/// The model of a [`CreateRemoteServer`].
#[verifier::ext_equal]
pub struct CreateView {
    pub input_mode: CreateRemoteServerInputMode,
    pub address: Seq<char>,
    pub form: ServerFormView,
    pub show_advanced: bool,
    pub saved_connections_search: Seq<char>,
    pub saved_connections_page: usize,
    pub ssh_config_search: Seq<char>,
    pub ssh_config_hosts_page: usize,
    pub quick_pick_tab: QuickPickTab,
    pub form_errors: CreateRemoteServerFormErrorsView,
    pub password: PasswordStateView,
    pub address_error: Option<Seq<char>>,
    pub has_prompt: bool,
    pub creating: bool,
}

impl View for CreateRemoteServer {
    type V = CreateView;

    open spec fn view(&self) -> CreateView {
        CreateView {
            input_mode: self.input_mode,
            address: self.address@,
            form: self.form@,
            show_advanced: self.show_advanced,
            saved_connections_search: self.saved_connections_search@,
            saved_connections_page: self.saved_connections_page,
            ssh_config_search: self.ssh_config_search@,
            ssh_config_hosts_page: self.ssh_config_hosts_page,
            quick_pick_tab: self.quick_pick_tab,
            form_errors: self.form_errors@,
            password: self.password@,
            address_error: opt_text(self.address_error),
            has_prompt: self.has_prompt,
            creating: self.creating,
        }
    }
}

/// The port that an empty field gets.
pub open spec fn usual_port(text: Seq<char>) -> Seq<char> {
    if text.len() == 0 {
        "22"@
    } else {
        text
    }
}

/// The page with a command line taken over.
pub open spec fn command_taken(s: CreateView, command: Seq<char>) -> CreateView {
    CreateView {
        input_mode: CreateRemoteServerInputMode::Command,
        address: command,
        address_error: None,
        ..s
    }
}

/// The page with a host of the SSH configuration taken over into the form.
pub open spec fn config_host_taken(s: CreateView, host: Seq<char>) -> CreateView {
    CreateView {
        input_mode: CreateRemoteServerInputMode::Form,
        form: ServerFormView { host, ..s.form },
        form_errors: no_errors(),
        ..settled(s)
    }
}

impl CreateRemoteServer {
    /// The page in which a server begins to be added.
    pub fn new() -> (r: Self)
        ensures
            r@.input_mode == CreateRemoteServerInputMode::Form,
            r@.form == (ServerFormView {
                host: Seq::empty(),
                username: Seq::empty(),
                port: Seq::empty(),
                nickname: Seq::empty(),
                password: Seq::empty(),
                identity_file: Seq::empty(),
                jump_host: Seq::empty(),
                port_forwards: Seq::empty(),
            }),
            r@.address.len() == 0,
            !r@.show_advanced,
            r@.saved_connections_search.len() == 0,
            r@.ssh_config_search.len() == 0,
            r@.saved_connections_page == 0,
            r@.ssh_config_hosts_page == 0,
            r@.quick_pick_tab == QuickPickTab::SavedConnections,
            r@.form_errors == no_errors(),
            r@.password == (PasswordStateView {
                status: PasswordKeychainStatus::Unknown,
                url: None,
                autoload_url: None,
                visible: false,
            }),
            r@.address_error is None,
            !r@.has_prompt,
            !r@.creating,
    {
        let form_errors = CreateRemoteServerFormErrors {
            host: None,
            port: None,
            port_forwards: Vec::new(),
        };
        assert(form_errors@ =~= no_errors());
        CreateRemoteServer {
            input_mode: CreateRemoteServerInputMode::Form,
            address: String::new(),
            form: ServerForm {
                host: String::new(),
                username: String::new(),
                port: String::new(),
                nickname: String::new(),
                password: String::new(),
                identity_file: String::new(),
                jump_host: String::new(),
                port_forwards: String::new(),
            },
            show_advanced: false,
            saved_connections_search: String::new(),
            saved_connections_page: 0,
            ssh_config_search: String::new(),
            ssh_config_hosts_page: 0,
            quick_pick_tab: QuickPickTab::SavedConnections,
            form_errors,
            password: PasswordState::new(),
            address_error: None,
            has_prompt: false,
            creating: false,
        }
    }

    /// The page with other errors and questions; the errors of the form stay
    /// where none are given.
    pub fn rebuild_with(
        &self,
        address_error: Option<String>,
        has_prompt: bool,
        creating: bool,
        form_errors: Option<CreateRemoteServerFormErrors>,
    ) -> (r: Self)
        ensures
            r@ == (CreateView {
                address_error: opt_text(address_error),
                has_prompt,
                creating,
                form_errors: match form_errors {
                    Some(e) => e@,
                    None => self@.form_errors,
                },
                ..self@
            }),
    {
        CreateRemoteServer {
            input_mode: self.input_mode,
            address: self.address.clone(),
            form: self.form.dup(),
            show_advanced: self.show_advanced,
            saved_connections_search: self.saved_connections_search.clone(),
            saved_connections_page: self.saved_connections_page,
            ssh_config_search: self.ssh_config_search.clone(),
            ssh_config_hosts_page: self.ssh_config_hosts_page,
            quick_pick_tab: self.quick_pick_tab,
            form_errors: match form_errors {
                Some(e) => e,
                None => self.form_errors.dup(),
            },
            password: PasswordState {
                status: self.password.status,
                url: copy_opt(&self.password.url),
                autoload_url: copy_opt(&self.password.autoload_url),
                visible: self.password.visible,
            },
            address_error,
            has_prompt,
            creating,
        }
    }

    /// The page as it is shown, without the connection that is being made.
    pub fn snapshot(&self) -> (r: Self)
        ensures
            r@ == (CreateView { creating: false, ..self@ }),
    {
        self.rebuild_with(copy_opt(&self.address_error), self.has_prompt, false, None)
    }

    /// Puts the usual port into an empty field.
    pub fn fill_usual_port(&mut self)
        ensures
            final(self)@ == port_filled(old(self)@),
    {
        if self.form.port.as_str().is_empty() {
            self.form.port = "22".to_owned();
        }
    }

    /// Takes a command line over.
    pub fn set_command_text(&mut self, command: &str)
        ensures
            final(self)@ == command_taken(old(self)@, command@),
    {
        self.input_mode = CreateRemoteServerInputMode::Command;
        self.address = command.to_owned();
        self.address_error = None;
    }

    /// Takes a host of the SSH configuration over into the form.
    pub fn use_ssh_config_host(&mut self, host: &str)
        ensures
            final(self)@ == config_host_taken(old(self)@, host@),
    {
        self.form.host = host.to_owned();
        self.form_errors = CreateRemoteServerFormErrors {
            host: None,
            port: None,
            port_forwards: Vec::new(),
        };
        assert(self.form_errors@ =~= no_errors());
        self.input_mode = CreateRemoteServerInputMode::Form;
        self.address_error = None;
        self.has_prompt = false;
        self.creating = false;
    }

    /// Takes the first of the picked files over as the identity file. While a
    /// question is shown, and where nothing was picked, the form stays.
    pub fn pick_identity_file(&mut self, picked: Option<Vec<String>>)
        ensures
            final(self)@ == (if old(self)@.has_prompt || picked is None
                || picked->0@.len() == 0 {
                old(self)@
            } else {
                CreateView {
                    form: ServerFormView { identity_file: picked->0@[0]@, ..old(self)@.form },
                    ..old(self)@
                }
            }),
    {
        if self.has_prompt {
            return;
        }
        if let Some(paths) = picked {
            if paths.len() > 0 {
                self.form.identity_file = paths[0].clone();
            }
        }
    }

    /// Takes the errors of the form in; the advanced fields are shown where a
    /// port forward is wrong.
    pub fn reject_form(&mut self, errors: CreateRemoteServerFormErrors)
        ensures
            final(self)@ == form_rejected(old(self)@, errors@),
    {
        if errors.port_forwards.len() > 0 {
            self.show_advanced = true;
        }
        self.form_errors = errors;
        self.address_error = None;
        self.has_prompt = false;
        self.creating = false;
    }
}

// ---------------------------------------------------------------------------
// What is known of the saved password

/// The page without the error of its command line, without a question and
/// without a connection that is being made.
pub open spec fn settled(s: CreateView) -> CreateView {
    CreateView { address_error: None, has_prompt: false, creating: false, ..s }
}

/// The page after the form has changed. Where nothing new is learnt of the
/// saved password, the page stays; else it is settled.
pub open spec fn password_refreshed(s: CreateView) -> CreateView {
    let (password, read) = refreshed(s.password, s.form);
    if password == s.password && read is None {
        s
    } else {
        CreateView { password, ..settled(s) }
    }
}

/// The page with the usual port in an empty field.
pub open spec fn port_filled(s: CreateView) -> CreateView {
    CreateView { form: ServerFormView { port: usual_port(s.form.port), ..s.form }, ..s }
}

/// Whether a reading of the keychain fills its password in: the password has
/// been found, it was to be filled in, and none has been entered meanwhile.
pub open spec fn fills_in(s: CreateView, read: KeychainRead, answer: KeychainAnswer) -> bool {
    &&& answered_status(answer) == PasswordKeychainStatus::Saved
    &&& read.auto_fill
    &&& s.form.password.len() == 0
}

/// The password that the keychain has answered with.
pub open spec fn found_password(answer: KeychainAnswer) -> Seq<char> {
    vstd::utf8::decode_utf8(answer->Found_0@)
}

impl CreateRemoteServer {
    /// Takes away the error of the command line, the question and the
    /// connection that is being made.
    fn settle(&mut self)
        ensures
            final(self)@ == settled(old(self)@),
    {
        self.address_error = None;
        self.has_prompt = false;
        self.creating = false;
    }

    /// Takes in that the form has changed, and gives what is to be read from
    /// the keychain.
    pub fn maybe_refresh_password_state(&mut self) -> (r: Option<KeychainRead>)
        ensures
            final(self)@ == password_refreshed(old(self)@),
            match refreshed(old(self)@.password, old(self)@.form).1 {
                Some((url, auto_fill)) => r is Some && r->0.url@ == url && r->0.auto_fill
                    == auto_fill,
                None => r is None,
            },
    {
        let known = self.password.url.is_some() || self.password.status
            != PasswordKeychainStatus::Unknown;
        let read = self.password.maybe_refresh_password_state(&self.form);
        let reset = known && self.password.url.is_none() && self.password.status
            == PasswordKeychainStatus::Unknown;
        if read.is_some() || reset {
            self.settle();
        }
        read
    }

    /// Takes the answer of the keychain in. An answer for another address than
    /// the present one changes nothing.
    pub fn password_read(&mut self, read: &KeychainRead, answer: KeychainAnswer)
        ensures
            final(self)@ == (if old(self)@.password.url != Some(read.url@) {
                old(self)@
            } else {
                CreateView {
                    password: PasswordStateView {
                        status: answered_status(answer),
                        ..old(self)@.password
                    },
                    form: ServerFormView {
                        password: if fills_in(old(self)@, *read, answer) {
                            found_password(answer)
                        } else {
                            old(self)@.form.password
                        },
                        ..old(self)@.form
                    },
                    ..settled(old(self)@)
                }
            }),
    {
        let current = match &self.password.url {
            Some(u) => same_text(u.as_str(), read.url.as_str()),
            None => false,
        };
        if !current {
            return;
        }
        let ghost bytes = answer->Found_0@;
        let password = self.password.password_read(read, answer, &self.form);
        if let Some(text) = password {
            proof {
                vstd::utf8::encode_utf8_decode_utf8(text@);
            }
            self.form.password = text;
        }
        self.settle();
    }

    /// Shows a hidden password, and hides a shown one.
    pub fn toggle_password_visibility(&mut self)
        ensures
            final(self)@ == (CreateView {
                password: PasswordStateView {
                    visible: !old(self)@.password.visible,
                    ..old(self)@.password
                },
                ..settled(old(self)@)
            }),
    {
        self.password.toggle_password_visibility();
        self.settle();
    }

    /// Takes in what has come of filling in the saved password, and gives what
    /// is shown.
    pub fn saved_password_read(&mut self, url: &str, answer: KeychainAnswer) -> (r: String)
        ensures
            final(self)@ == (CreateView {
                password: PasswordStateView {
                    status: answered_status(answer),
                    url: Some(url@),
                    autoload_url: if answered_status(answer) == PasswordKeychainStatus::Saved {
                        Some(url@)
                    } else {
                        old(self)@.password.autoload_url
                    },
                    ..old(self)@.password
                },
                form: ServerFormView {
                    password: if answered_status(answer) == PasswordKeychainStatus::Saved {
                        found_password(answer)
                    } else {
                        old(self)@.form.password
                    },
                    ..old(self)@.form
                },
                ..settled(old(self)@)
            }),
            r@ == answered_message(answer),
    {
        let (message, password) = self.password.saved_password_read(url, answer);
        if let Some(text) = password {
            proof {
                vstd::utf8::encode_utf8_decode_utf8(text@);
            }
            self.form.password = text;
        }
        self.settle();
        message
    }

    /// Takes in whether the password could be saved, and gives what is shown.
    pub fn password_saved(&mut self, url: &str, saved: bool) -> (r: String)
        ensures
            final(self)@ == (CreateView {
                password: PasswordStateView {
                    status: if saved {
                        PasswordKeychainStatus::Saved
                    } else {
                        PasswordKeychainStatus::Error
                    },
                    url: Some(url@),
                    ..old(self)@.password
                },
                ..settled(old(self)@)
            }),
            r@ == (if saved {
                "Password saved to keychain."@
            } else {
                "Failed to save password."@
            }),
    {
        let message = self.password.password_saved(url, saved);
        self.settle();
        message
    }

    /// Takes in whether the saved password could be deleted, and gives what is
    /// shown.
    pub fn password_deleted(&mut self, url: &str, deleted: bool) -> (r: String)
        ensures
            final(self)@ == (CreateView {
                password: PasswordStateView {
                    status: if deleted {
                        PasswordKeychainStatus::NotSaved
                    } else {
                        PasswordKeychainStatus::Error
                    },
                    url: Some(url@),
                    ..old(self)@.password
                },
                ..settled(old(self)@)
            }),
            r@ == (if deleted {
                "Saved password deleted."@
            } else {
                "Failed to delete saved password."@
            }),
    {
        let message = self.password.password_deleted(url, deleted);
        self.settle();
        message
    }
}

/// Looking at the page again changes nothing and asks the keychain nothing: the
/// port has been filled in, and something is known of the saved password.
pub proof fn shown_page_is_settled(s: CreateView)
    ensures
        password_refreshed(port_filled(password_refreshed(port_filled(s)))) == password_refreshed(
            port_filled(s),
        ),
        refreshed(
            password_refreshed(port_filled(s)).password,
            port_filled(password_refreshed(port_filled(s))).form,
        ).1 is None,
{
    reveal_strlit("22");
}

/// With a host and a user in the form and no port, looking at the page once is
/// enough for the saved password to be asked for.
pub proof fn usual_port_makes_the_password_known(s: CreateView)
    requires
        trimmed(s.form.host).len() > 0,
        trimmed(s.form.username).len() > 0,
        s.form.port.len() == 0,
    ensures
        keychain_url(port_filled(s).form) is Some,
        password_refreshed(port_filled(s)).password.url == Some(
            (keychain_url(port_filled(s).form)->0).0,
        ),
{
    reveal_strlit("22");
    two_digits_are_no_space();
}

proof fn two_digits_are_no_space()
    ensures
        trimmed("22"@) == "22"@,
        "22"@.len() == 2,
{
    reveal_strlit("22");
}

// ---------------------------------------------------------------------------
// Filling the form

/// The fields of the form for a saved server; the password stays.
pub open spec fn filled_from(f: ServerFormView, c: SshConnectionView) -> ServerFormView {
    let (identity, jump) = read_args(c.args, None, None);
    ServerFormView {
        host: c.host,
        username: text_or_empty(c.username),
        port: match c.port {
            Some(port) => decimal(port as nat),
            None => Seq::empty(),
        },
        nickname: text_or_empty(c.nickname),
        identity_file: text_or_empty(identity),
        jump_host: text_or_empty(jump),
        port_forwards: match c.port_forwards {
            Some(list) => shown_forwards(list),
            None => Seq::empty(),
        },
        ..f
    }
}

/// Whether a saved server needs the advanced fields.
pub open spec fn has_advanced(c: SshConnectionView) -> bool {
    let (identity, jump) = read_args(c.args, None, None);
    identity is Some || jump is Some || (c.port_forwards is Some && c.port_forwards->0.len() > 0)
}

impl CreateRemoteServer {
    /// Takes a saved server over into the form. The password stays, and so do a
    /// question and a connection that is being made.
    pub fn apply_saved_connection(&mut self, connection: &SshConnection)
        ensures
            final(self)@ == (CreateView {
                input_mode: CreateRemoteServerInputMode::Form,
                form: filled_from(old(self)@.form, connection@),
                show_advanced: has_advanced(connection@),
                form_errors: no_errors(),
                address_error: None,
                ..old(self)@
            }),
    {
        let filled = crate::ssh_form::apply_saved_connection(connection);
        self.input_mode = CreateRemoteServerInputMode::Form;
        self.form.host = filled.host;
        self.form.username = filled.username;
        self.form.port = filled.port;
        self.form.nickname = filled.nickname;
        self.form.identity_file = filled.identity_file;
        self.form.jump_host = filled.jump_host;
        self.form.port_forwards = filled.port_forwards;
        self.show_advanced = filled.show_advanced;
        self.form_errors = CreateRemoteServerFormErrors::default();
        self.address_error = None;
    }

    /// Takes over what the SSH configuration says of the host of the form. Only
    /// empty fields are filled. Where there is no host or nothing is said of
    /// it, the page stays as it was.
    pub fn use_ssh_config_defaults(&mut self, entries: &SshConfigEntries)
        requires
            entries.wf(),
        ensures
            final(self)@ == ({
                let host = trimmed(old(self)@.form.host);
                if host.len() > 0 && entries@.dom().contains(host) {
                    let (form, errors) = defaults_taken(
                        old(self)@.form,
                        old(self)@.form_errors,
                        entries@[host],
                    );
                    CreateView { form, form_errors: errors, ..settled(old(self)@) }
                } else {
                    old(self)@
                }
            }),
    {
        let taken = crate::ssh_form::use_ssh_config_defaults(
            &mut self.form,
            &mut self.form_errors,
            entries,
        );
        if taken {
            self.settle();
        }
    }

    /// Takes a host over that was entered earlier.
    pub fn choose_host(&mut self, value: &str)
        ensures
            final(self)@ == (CreateView {
                form: ServerFormView { host: value@, ..old(self)@.form },
                form_errors: CreateRemoteServerFormErrorsView {
                    host: None,
                    ..old(self)@.form_errors
                },
                address_error: None,
                ..old(self)@
            }),
    {
        self.form.host = value.to_owned();
        self.form_errors.host = None;
        self.address_error = None;
    }

    /// Takes a user over that was entered earlier.
    pub fn choose_username(&mut self, value: &str)
        ensures
            final(self)@ == (CreateView {
                form: ServerFormView { username: value@, ..old(self)@.form },
                address_error: None,
                ..old(self)@
            }),
    {
        self.form.username = value.to_owned();
        self.address_error = None;
    }

    /// Takes a port over that was entered earlier.
    pub fn choose_port(&mut self, value: &str)
        ensures
            final(self)@ == (CreateView {
                form: ServerFormView { port: value@, ..old(self)@.form },
                form_errors: CreateRemoteServerFormErrorsView {
                    port: None,
                    ..old(self)@.form_errors
                },
                address_error: None,
                ..old(self)@
            }),
    {
        self.form.port = value.to_owned();
        self.form_errors.port = None;
        self.address_error = None;
    }

    /// Changes how a server is entered.
    pub fn set_input_mode(&mut self, mode: CreateRemoteServerInputMode)
        ensures
            final(self)@ == (CreateView { input_mode: mode, ..old(self)@ }),
    {
        self.input_mode = mode;
    }

    /// Shows hidden advanced fields, and hides shown ones.
    pub fn toggle_advanced(&mut self)
        ensures
            final(self)@ == (CreateView {
                show_advanced: !old(self)@.show_advanced,
                ..old(self)@
            }),
    {
        self.show_advanced = !self.show_advanced;
    }
}

// ---------------------------------------------------------------------------
// Quick picks

/// The page before or behind a page. The first has none before it.
pub open spec fn turned(page: usize, forward: bool) -> usize {
    if forward {
        if page < usize::MAX {
            (page + 1) as usize
        } else {
            page
        }
    } else if page > 0 {
        (page - 1) as usize
    } else {
        page
    }
}

fn turn(page: usize, forward: bool) -> (r: usize)
    ensures
        r == turned(page, forward),
{
    if forward {
        page.saturating_add(1)
    } else {
        page.saturating_sub(1)
    }
}

impl CreateRemoteServer {
    /// Changes the list to pick from.
    pub fn set_quick_pick_tab(&mut self, tab: QuickPickTab)
        ensures
            final(self)@ == (CreateView { quick_pick_tab: tab, ..old(self)@ }),
    {
        self.quick_pick_tab = tab;
    }

    /// Changes the search among the saved connections; the first page is shown
    /// again.
    pub fn search_saved_connections(&mut self, query: &str)
        ensures
            final(self)@ == (CreateView {
                saved_connections_search: query@,
                saved_connections_page: 0,
                ..old(self)@
            }),
    {
        self.saved_connections_search = query.to_owned();
        self.saved_connections_page = 0;
    }

    /// Takes the search among the saved connections away.
    pub fn clear_saved_connections_search(&mut self)
        ensures
            final(self)@ == (CreateView {
                saved_connections_search: Seq::empty(),
                saved_connections_page: 0,
                ..old(self)@
            }),
    {
        self.saved_connections_search = String::new();
        self.saved_connections_page = 0;
    }

    /// Turns the saved connections over, from the page that is shown.
    pub fn turn_saved_connections(&mut self, shown: usize, forward: bool)
        ensures
            final(self)@ == (CreateView {
                saved_connections_page: turned(shown, forward),
                ..old(self)@
            }),
    {
        self.saved_connections_page = turn(shown, forward);
    }

    /// Changes the search among the hosts of the SSH configuration; the first
    /// page is shown again.
    pub fn search_ssh_config_hosts(&mut self, query: &str)
        ensures
            final(self)@ == (CreateView {
                ssh_config_search: query@,
                ssh_config_hosts_page: 0,
                ..old(self)@
            }),
    {
        self.ssh_config_search = query.to_owned();
        self.ssh_config_hosts_page = 0;
    }

    /// Takes the search among the hosts of the SSH configuration away.
    pub fn clear_ssh_config_search(&mut self)
        ensures
            final(self)@ == (CreateView {
                ssh_config_search: Seq::empty(),
                ssh_config_hosts_page: 0,
                ..old(self)@
            }),
    {
        self.ssh_config_search = String::new();
        self.ssh_config_hosts_page = 0;
    }

    /// Turns the hosts of the SSH configuration over, from the page that is
    /// shown.
    pub fn turn_ssh_config_hosts(&mut self, shown: usize, forward: bool)
        ensures
            final(self)@ == (CreateView {
                ssh_config_hosts_page: turned(shown, forward),
                ..old(self)@
            }),
    {
        self.ssh_config_hosts_page = turn(shown, forward);
    }

    /// Takes a picked host of the SSH configuration over: into the form, or as
    /// a command line where one is entered.
    pub fn pick_ssh_config_host(&mut self, host: &str)
        ensures
            final(self)@ == match old(self)@.input_mode {
                CreateRemoteServerInputMode::Command => command_taken(
                    old(self)@,
                    "ssh "@ + host@,
                ),
                CreateRemoteServerInputMode::Form => config_host_taken(old(self)@, host@),
            },
    {
        match self.input_mode {
            CreateRemoteServerInputMode::Command => {
                let command = config_host_command(host);
                self.set_command_text(command.as_str());
            },
            CreateRemoteServerInputMode::Form => {
                self.use_ssh_config_host(host);
            },
        }
    }

    /// Takes a picked saved connection over: into the form, or as a command
    /// line where one is entered.
    pub fn pick_saved_connection(&mut self, connection: &SshConnection)
        ensures
            final(self)@ == match old(self)@.input_mode {
                CreateRemoteServerInputMode::Command => command_taken(
                    old(self)@,
                    ssh_command(ssh_options_view(connection@)),
                ),
                CreateRemoteServerInputMode::Form => CreateView {
                    form: filled_from(old(self)@.form, connection@),
                    show_advanced: has_advanced(connection@),
                    form_errors: no_errors(),
                    address_error: None,
                    ..old(self)@
                },
            },
    {
        match self.input_mode {
            CreateRemoteServerInputMode::Command => {
                let command = ssh_command_string(connection);
                self.set_command_text(command.as_str());
            },
            CreateRemoteServerInputMode::Form => {
                self.apply_saved_connection(connection);
            },
        }
    }
}

// ---------------------------------------------------------------------------
// Connecting and saving

/// What the button does that saves a server.
#[derive(Clone, Debug, PartialEq, Eq)]
pub enum SaveAction {
    /// Nothing, because a connection is being made.
    Ignore,
    /// Save the server, and say so.
    Save(SshConnectionOptions),
    /// Show what is wrong with the form.
    RejectForm(CreateRemoteServerFormErrors),
    /// Show what is wrong with the command line.
    RejectCommand(String),
}

/// What the button does that saves a server, given what the command line was
/// parsed into.
pub fn save_action(state: &CreateRemoteServer, parsed: Result<SshConnectionOptions, String>) -> (r:
    SaveAction)
    ensures
        if state@.has_prompt {
            r is Ignore
        } else {
            match state@.input_mode {
                CreateRemoteServerInputMode::Form => if form_errors(state@.form) == no_errors() {
                    r is Save && r->Save_0@ == form_options(state@.form)
                } else {
                    r is RejectForm && r->RejectForm_0@ == form_errors(state@.form)
                },
                CreateRemoteServerInputMode::Command => if trimmed(state@.address).len() == 0 {
                    r is RejectCommand && r->RejectCommand_0@ == "Enter an SSH command to save."@
                } else {
                    match parsed {
                        Ok(options) => r is Save && r->Save_0 == options,
                        Err(e) => r is RejectCommand && r->RejectCommand_0@
                            == "could not parse: "@ + e@,
                    }
                },
            }
        },
{
    if state.has_prompt {
        return SaveAction::Ignore;
    }
    match state.input_mode {
        CreateRemoteServerInputMode::Form => match build_ssh_connection_from_form(&state.form) {
            Ok(options) => SaveAction::Save(options),
            Err(errors) => SaveAction::RejectForm(errors),
        },
        CreateRemoteServerInputMode::Command => {
            if trim_text(state.address.as_str()).as_str().is_empty() {
                return SaveAction::RejectCommand("Enter an SSH command to save.".to_owned());
            }
            match parsed {
                Ok(options) => SaveAction::Save(options),
                Err(e) => {
                    let mut out = "could not parse: ".to_owned();
                    out.append(e.as_str());
                    SaveAction::RejectCommand(out)
                },
            }
        },
    }
}


/// The page after the errors of its form have been found; the advanced fields
/// are shown where a port forward is wrong.
pub open spec fn form_rejected(
    s: CreateView,
    errors: CreateRemoteServerFormErrorsView,
) -> CreateView {
    CreateView {
        form_errors: errors,
        show_advanced: s.show_advanced || errors.port_forwards.len() > 0,
        ..settled(s)
    }
}

/// The page after its command line has been found wrong.
pub open spec fn command_rejected(s: CreateView, message: Seq<char>) -> CreateView {
    CreateView { address_error: Some(message), form_errors: no_errors(), ..settled(s) }
}

/// The page while a connection is being made.
pub open spec fn connecting(s: CreateView) -> CreateView {
    CreateView {
        address_error: None,
        has_prompt: true,
        creating: true,
        form_errors: no_errors(),
        ..s
    }
}

/// What the button that connects makes of the page, and the server to connect
/// to, given what the command line was parsed into.
pub open spec fn connect_pressed(
    s: CreateView,
    parsed: Result<SshConnectionOptionsView, Seq<char>>,
) -> (CreateView, Option<SshConnectionOptionsView>) {
    if s.has_prompt {
        (s, None)
    } else {
        match s.input_mode {
            CreateRemoteServerInputMode::Form => if form_errors(s.form) == no_errors() {
                (connecting(s), Some(form_options(s.form)))
            } else {
                (form_rejected(s, form_errors(s.form)), None)
            },
            CreateRemoteServerInputMode::Command => if trimmed(s.address).len() == 0 {
                (s, None)
            } else {
                match parsed {
                    Ok(options) => (connecting(s), Some(named_options(options))),
                    Err(e) => (command_rejected(s, "could not parse: "@ + e), None),
                }
            },
        }
    }
}

/// What the button that saves makes of the page, and the server to save, given
/// what the command line was parsed into.
pub open spec fn save_pressed(
    s: CreateView,
    parsed: Result<SshConnectionOptionsView, Seq<char>>,
) -> (CreateView, Option<SshConnectionOptionsView>) {
    if s.has_prompt {
        (s, None)
    } else {
        match s.input_mode {
            CreateRemoteServerInputMode::Form => if form_errors(s.form) == no_errors() {
                (s, Some(form_options(s.form)))
            } else {
                (form_rejected(s, form_errors(s.form)), None)
            },
            CreateRemoteServerInputMode::Command => if trimmed(s.address).len() == 0 {
                (command_rejected(s, "Enter an SSH command to save."@), None)
            } else {
                match parsed {
                    Ok(options) => (s, Some(options)),
                    Err(e) => (command_rejected(s, "could not parse: "@ + e), None),
                }
            },
        }
    }
}

/// What has come of connecting to a new server.
#[derive(Clone, Copy, Debug, PartialEq, Eq, Structural)]
pub enum ConnectOutcome {
    Connected,
    /// The user has given up, or an error has been shown.
    NotConnected,
    TimedOut,
}

/// What to do after connecting to a new server.
#[derive(Clone, Debug, PartialEq, Eq)]
pub enum AfterConnect {
    /// Choose a folder on the server, which stands at this place.
    PickFolder(usize),
    /// Show the page again.
    Restore,
    /// Show the page again, and tell why.
    RestoreAndTell { title: String, detail: String },
}

/// The page `now` put back to what it was when connecting began: only the texts
/// in its fields stay, and nothing is asked or being made any more.
pub open spec fn restored(now: CreateView, begun: CreateView) -> CreateView {
    CreateView {
        address: now.address,
        form: now.form,
        saved_connections_search: now.saved_connections_search,
        ssh_config_search: now.ssh_config_search,
        ..settled(begun)
    }
}

/// The model of what a command line was parsed into.
pub open spec fn parsed_view(parsed: Result<SshConnectionOptions, String>) -> Result<
    SshConnectionOptionsView,
    Seq<char>,
> {
    match parsed {
        Ok(options) => Ok(options@),
        Err(e) => Err(e@),
    }
}

impl CreateRemoteServer {
    fn reject_command(&mut self, message: String)
        ensures
            final(self)@ == command_rejected(old(self)@, message@),
    {
        self.settle();
        self.address_error = Some(message);
        self.form_errors = CreateRemoteServerFormErrors::default();
    }

    fn begin_connecting(&mut self)
        ensures
            final(self)@ == connecting(old(self)@),
    {
        self.address_error = None;
        self.has_prompt = true;
        self.creating = true;
        self.form_errors = CreateRemoteServerFormErrors::default();
    }

    /// The button that connects has been pressed. Gives the server to connect
    /// to; none where a connection is being made already, where nothing has
    /// been entered, and where what has been entered is wrong.
    pub fn connect(&mut self, parsed: Result<SshConnectionOptions, String>) -> (r: Option<
        SshConnectionOptions,
    >)
        ensures
            (final(self)@, opt_model(r)) == connect_pressed(old(self)@, parsed_view(parsed)),
    {
        if self.has_prompt {
            return None;
        }
        match self.input_mode {
            CreateRemoteServerInputMode::Form => match build_ssh_connection_from_form(&self.form) {
                Ok(options) => {
                    self.begin_connecting();
                    Some(options)
                },
                Err(errors) => {
                    self.reject_form(errors);
                    None
                },
            },
            CreateRemoteServerInputMode::Command => match create_ssh_server(
                self.address.as_str(),
                parsed,
            ) {
                CommandLineAction::Ignore => None,
                CommandLineAction::Reject(message) => {
                    self.reject_command(message);
                    None
                },
                CommandLineAction::Connect(options) => {
                    self.begin_connecting();
                    Some(options)
                },
            },
        }
    }

    /// The button that saves has been pressed. A server that has been entered
    /// rightly is saved, and what is shown of it is given; else, and while a
    /// connection is being made, the settings stay.
    pub fn save(
        &mut self,
        parsed: Result<SshConnectionOptions, String>,
        settings: &mut RemoteSettingsContent,
    ) -> (r: Option<String>)
        ensures
            final(self)@ == save_pressed(old(self)@, parsed_view(parsed)).0,
            match save_pressed(old(self)@, parsed_view(parsed)).1 {
                Some(o) => {
                    &&& final(settings)@ == (RemoteSettingsContentView {
                        ssh_connections: Some(
                            with_saved(or_none(old(settings)@.ssh_connections), o),
                        ),
                        ..old(settings)@
                    })
                    &&& opt_text(r) == Some("Saved SSH connection."@)
                },
                None => final(settings)@ == old(settings)@ && r is None,
            },
    {
        match save_action(self, parsed) {
            SaveAction::Ignore => None,
            SaveAction::Save(options) => {
                settings.save_ssh_connection_options(options);
                Some("Saved SSH connection.".to_owned())
            },
            SaveAction::RejectForm(errors) => {
                self.reject_form(errors);
                None
            },
            SaveAction::RejectCommand(message) => {
                self.reject_command(message);
                None
            },
        }
    }

    /// Takes in what has come of connecting to a new server, and gives what to
    /// do next. A server that has been connected to is saved and appended;
    /// after any other end the page is again as it was when connecting began,
    /// see [`restored`].
    pub fn connection_ended(
        &mut self,
        begun: &CreateRemoteServer,
        outcome: ConnectOutcome,
        options: SshConnectionOptions,
        settings: &mut RemoteSettingsContent,
    ) -> (r: AfterConnect)
        ensures
            match outcome {
                ConnectOutcome::Connected => {
                    &&& final(self)@ == old(self)@
                    &&& final(settings)@ == connected_settings(old(settings)@, options@)
                    &&& r is PickFolder
                    &&& r->PickFolder_0 == final(settings)@.ssh_connections->0.len() - 1
                },
                ConnectOutcome::NotConnected => {
                    &&& final(self)@ == restored(old(self)@, begun@)
                    &&& final(settings)@ == old(settings)@
                    &&& r is Restore
                },
                ConnectOutcome::TimedOut => {
                    &&& final(self)@ == restored(old(self)@, begun@)
                    &&& final(settings)@ == old(settings)@
                    &&& r is RestoreAndTell
                    &&& r->title@ == "Failed to connect"@
                    &&& r->detail@ == "Timed out while starting proxy. Please try again."@
                },
            },
    {
        match outcome {
            ConnectOutcome::Connected => AfterConnect::PickFolder(
                settings.save_connected_server(options),
            ),
            ConnectOutcome::NotConnected => {
                self.restore(begun);
                AfterConnect::Restore
            },
            ConnectOutcome::TimedOut => {
                self.restore(begun);
                AfterConnect::RestoreAndTell {
                    title: "Failed to connect".to_owned(),
                    detail: "Timed out while starting proxy. Please try again.".to_owned(),
                }
            },
        }
    }

    fn restore(&mut self, begun: &CreateRemoteServer)
        ensures
            final(self)@ == restored(old(self)@, begun@),
    {
        let mut page = begun.rebuild_with(None, false, false, None);
        page.address = self.address.clone();
        page.form = self.form.dup();
        page.saved_connections_search = self.saved_connections_search.clone();
        page.ssh_config_search = self.ssh_config_search.clone();
        *self = page;
    }
}

/// A connection that could not be made leaves the page as it was entered, with
/// its errors taken away, whatever was turned over, unfolded or learnt of the
/// password meanwhile. Only what has been typed meanwhile stays.
pub proof fn failed_connection_restores_the_page(
    s: CreateView,
    parsed: Result<SshConnectionOptionsView, Seq<char>>,
    now: CreateView,
)
    requires
        connect_pressed(s, parsed).1 is Some,
    ensures
        restored(now, connect_pressed(s, parsed).0) == (CreateView {
            address: now.address,
            form: now.form,
            saved_connections_search: now.saved_connections_search,
            ssh_config_search: now.ssh_config_search,
            form_errors: no_errors(),
            ..settled(s)
        }),
{
}

// ---------------------------------------------------------------------------
// What the buttons do

/// Connecting begins with what has been entered, once: the page then shows the
/// question of the connection and no errors, and nothing that was entered is
/// changed. While a question is shown the button does nothing.
pub proof fn connecting_begins_once(
    s: CreateView,
    parsed: Result<SshConnectionOptionsView, Seq<char>>,
)
    ensures
        ({
            let (t, to) = connect_pressed(s, parsed);
            let right = match s.input_mode {
                CreateRemoteServerInputMode::Form => form_errors(s.form) == no_errors(),
                CreateRemoteServerInputMode::Command => trimmed(s.address).len() > 0 && parsed is Ok,
            };
            &&& to is Some <==> !s.has_prompt && right
            &&& s.has_prompt ==> t == s
            &&& t.form == s.form && t.address == s.address && t.input_mode == s.input_mode
            &&& t.password == s.password && t.quick_pick_tab == s.quick_pick_tab
            &&& t.saved_connections_search == s.saved_connections_search
            &&& t.ssh_config_search == s.ssh_config_search
            &&& to is Some ==> t.has_prompt && t.creating && t.address_error is None
                && t.form_errors == no_errors()
            &&& to is Some ==> match s.input_mode {
                CreateRemoteServerInputMode::Form => to == Some(form_options(s.form)),
                CreateRemoteServerInputMode::Command => to == Some(named_options(parsed->Ok_0)),
            }
        }),
{
}

/// What was entered wrongly is told where it stands: the errors of the form by
/// its fields, those of the command line under it. Errors of the port forwards
/// unfold the further fields, and an empty command line is no error to connect.
pub proof fn wrong_entries_are_told(
    s: CreateView,
    parsed: Result<SshConnectionOptionsView, Seq<char>>,
)
    requires
        !s.has_prompt,
    ensures
        ({
            let t = connect_pressed(s, parsed).0;
            let u = save_pressed(s, parsed).0;
            let e = form_errors(s.form);
            &&& s.input_mode is Form && e != no_errors() ==> t == u && t.form_errors == e
                && t.address_error is None && !t.creating && (e.port_forwards.len() > 0
                ==> t.show_advanced) && (e.port_forwards.len() == 0 ==> t.show_advanced
                == s.show_advanced)
            &&& s.input_mode is Command && trimmed(s.address).len() == 0 ==> t == s
                && u.address_error == Some("Enter an SSH command to save."@)
            &&& s.input_mode is Command && trimmed(s.address).len() > 0 ==> (parsed matches Err(m)
                ==> t.address_error == Some("could not parse: "@ + m) && u.address_error == Some(
                "could not parse: "@ + m,
            ) && !t.creating)
        }),
{
}

/// Saving saves what has been entered, and leaves the page as it is.
pub proof fn saving_leaves_the_page(
    s: CreateView,
    parsed: Result<SshConnectionOptionsView, Seq<char>>,
)
    ensures
        ({
            let (t, o) = save_pressed(s, parsed);
            let right = match s.input_mode {
                CreateRemoteServerInputMode::Form => form_errors(s.form) == no_errors(),
                CreateRemoteServerInputMode::Command => trimmed(s.address).len() > 0 && parsed is Ok,
            };
            &&& o is Some <==> !s.has_prompt && right
            &&& o is Some ==> t == s
            &&& s.has_prompt ==> t == s
            &&& t.form == s.form && t.address == s.address
            &&& o is Some ==> match s.input_mode {
                CreateRemoteServerInputMode::Form => o == Some(form_options(s.form)),
                CreateRemoteServerInputMode::Command => o == Some(parsed->Ok_0),
            }
        }),
{
}

/// A host of the configuration that is picked becomes the host of the form, and
/// nothing else that was entered is touched; a command that is picked becomes
/// the command line.
pub proof fn picked_hosts_are_entered(s: CreateView, picked: Seq<char>)
    ensures
        ({
            let t = config_host_taken(s, picked);
            let u = command_taken(s, picked);
            &&& t.input_mode is Form && t.form.host == picked
            &&& t.form.username == s.form.username && t.form.port == s.form.port
            &&& t.form.nickname == s.form.nickname && t.form.password == s.form.password
            &&& t.form.identity_file == s.form.identity_file
            &&& t.form.jump_host == s.form.jump_host
            &&& t.form.port_forwards == s.form.port_forwards
            &&& t.form_errors == no_errors() && t.address_error is None
            &&& t.address == s.address && !t.has_prompt && !t.creating
            &&& u.input_mode is Command && u.address == picked && u.address_error is None
            &&& u.form == s.form
        }),
{
}

/// A saved server that is picked fills every field of the form but the
/// password; fields for what it does not have are emptied.
pub proof fn saved_servers_fill_the_form(f: ServerFormView, c: SshConnectionView)
    ensures
        ({
            let g = filled_from(f, c);
            let (identity, jump) = read_args(c.args, None, None);
            &&& g.host == c.host && g.password == f.password
            &&& c.username matches Some(u) ==> g.username == u
            &&& c.username is None ==> g.username.len() == 0
            &&& c.port matches Some(p) ==> g.port == decimal(p as nat)
            &&& c.port is None ==> g.port.len() == 0
            &&& c.nickname matches Some(n) ==> g.nickname == n
            &&& c.nickname is None ==> g.nickname.len() == 0
            &&& identity matches Some(i) ==> g.identity_file == i
            &&& identity is None ==> g.identity_file.len() == 0
            &&& jump matches Some(j) ==> g.jump_host == j
            &&& jump is None ==> g.jump_host.len() == 0
            &&& c.port_forwards matches Some(list) ==> g.port_forwards == shown_forwards(list)
            &&& c.port_forwards is None ==> g.port_forwards.len() == 0
            &&& has_advanced(c) <==> identity is Some || jump is Some || (c.port_forwards matches
                Some(list) && list.len() > 0)
        }),
{
}

/// A port that is left empty is the usual one, and one that is entered stays.
pub proof fn usual_port_fills_an_empty_field(s: CreateView)
    ensures
        s.form.port.len() == 0 ==> port_filled(s).form.port == seq!['2', '2'],
        s.form.port.len() > 0 ==> port_filled(s) == s,
        port_filled(s).form.host == s.form.host,
        port_filled(s).form.username == s.form.username,
        port_filled(s).form.password == s.form.password,
        port_filled(s).form.nickname == s.form.nickname,
        port_filled(s).form.identity_file == s.form.identity_file,
        port_filled(s).form.jump_host == s.form.jump_host,
        port_filled(s).form.port_forwards == s.form.port_forwards,
        port_filled(s).address == s.address,
        port_filled(s).has_prompt == s.has_prompt,
{
    reveal_strlit("22");
    assert("22"@ =~= seq!['2', '2']);
    if s.form.port.len() > 0 {
        assert(port_filled(s) =~= s);
    }
}

/// Turning leads to the page before or behind, as far as there is one.
pub proof fn turning_goes_one_page(page: usize)
    ensures
        page < usize::MAX ==> turned(page, true) == page + 1,
        page > 0 ==> turned(page, false) == page - 1,
        turned(0, false) == 0,
        turned(usize::MAX, true) == usize::MAX,
{
}

/// A password is filled in by itself where the keychain has one, it was asked
/// for that, and none has been entered meanwhile.
pub proof fn passwords_are_filled_into_empty_fields(
    s: CreateView,
    read: KeychainRead,
    answer: KeychainAnswer,
)
    ensures
        fills_in(s, read, answer) <==> answered_status(answer) is Saved && read.auto_fill
            && s.form.password.len() == 0,
{
}

/// Asking the keychain changes what is shown of the password, and takes the
/// question and the error of an earlier try away; what was entered stays.
pub proof fn asking_keeps_what_was_entered(s: CreateView)
    ensures
        ({
            let t = password_refreshed(s);
            &&& t.password == refreshed(s.password, s.form).0
            &&& t.form == s.form && t.address == s.address && t.input_mode == s.input_mode
            &&& t.form_errors == s.form_errors && t.quick_pick_tab == s.quick_pick_tab
            &&& t == s || (t.address_error is None && !t.has_prompt && !t.creating)
        }),
{
}

} // verus!
