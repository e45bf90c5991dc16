//! The state of the launcher's window and what each action of the user does
//! to it.
//!
//! Nothing here draws or stores anything. A method that calls for a file to
//! be written or for a process to be started says so in what it returns, and
//! a second method takes the result.

use crate::credentials::{
    book, find_by_label, has_label, is_first_labelled, save_into, swap_accounts, with_account,
    with_swapped, Account, AccountView, LABEL_GAP,
};
use crate::engine::{launch_and_login, Attempt, AttemptAction, AttemptActionView, AttemptState, Phase};
use crate::launcher::{kill_league_processes, kill_list_names, launch_plan, termination_of, CommandLine};
use crate::settings::{Settings, SettingsView};
use crate::text::{
    after_first, before_first, has_substring, same_text, split_at_first,
};
use vstd::prelude::*;
use vstd::string::{StrSliceExecFns, StringExecFns};
use vstd::view::View as _;

verus! {

/// What the selection shows while no account is selected.
pub const NO_SELECTION: &'static str = "Select an account...";

/// Region of a new account.
pub const DEFAULT_REGION: &'static str = "EUNE";

/// What parts the in-game name from the tag where both are typed into the
/// field of the name.
pub const TAG_MARK: &'static str = "#";

/// Number of characters that a custom tag may have.
pub const MAX_TAG_CHARS: usize = 5;

/// Shown when an account without a username is to be saved.
pub const MSG_USERNAME_EMPTY: &'static str = "Username cannot be empty!";

/// Shown when an account was saved and written.
pub const MSG_ACCOUNT_SAVED: &'static str = "Account saved successfully!";

/// Start of what is shown when the account list could not be written.
pub const MSG_SAVE_ACCOUNTS_FAILED: &'static str = "Error saving accounts: ";

/// Start of what is shown when the settings could not be written.
pub const MSG_SAVE_SETTINGS_FAILED: &'static str = "Error saving settings: ";

/// Shown when settings without a client path are confirmed.
pub const MSG_PATH_EMPTY: &'static str = "Path cannot be empty!";

/// Shown when the configured client path names no file.
pub const MSG_FILE_MISSING: &'static str = "File does not exist!";

/// Shown when a login is asked for without a username.
pub const MSG_CHOOSE_ACCOUNT: &'static str = "Choose an account!";

/// Start of what is shown when the client could not be started.
pub const MSG_LOGIN_FAILED: &'static str = "Error: ";

/// Shown when the end of the client's processes was asked for.
pub const MSG_PROCESSES_KILLED: &'static str = "League processes killed.";

/// The two pages of the window.
#[derive(Clone, Copy, Debug, PartialEq, Eq, Structural)]
pub enum View {
    Login,
    Settings,
}

/// The state of the window.
#[derive(Debug)]
pub struct RustyLeagueApp {
    pub current_view: View,
    pub settings: Settings,
    pub username: String,
    pub password: String,
    pub region: String,
    pub in_game_name: String,
    pub custom_tag: String,
    pub saved_accounts: Vec<Account>,
    /// Label of the selected account, or [`NO_SELECTION`].
    pub selected_account_display: String,
    pub show_delete_confirmation: bool,
    pub show_password: bool,
    pub alert_message: Option<String>,
    pub dragged_account_idx: Option<usize>,
}

/// What a [`RustyLeagueApp`] holds, texts as sequences of characters.
pub struct WindowState {
    pub current_view: View,
    pub settings: SettingsView,
    pub username: Seq<char>,
    pub password: Seq<char>,
    pub region: Seq<char>,
    pub in_game_name: Seq<char>,
    pub custom_tag: Seq<char>,
    pub saved_accounts: Seq<AccountView>,
    pub selected_account_display: Seq<char>,
    pub show_delete_confirmation: bool,
    pub show_password: bool,
    pub alert_message: Option<Seq<char>>,
    pub dragged_account_idx: Option<usize>,
}

impl vstd::view::View for RustyLeagueApp {
    type V = WindowState;

    open spec fn view(&self) -> WindowState {
        WindowState {
            current_view: self.current_view,
            settings: self.settings@,
            username: self.username@,
            password: self.password@,
            region: self.region@,
            in_game_name: self.in_game_name@,
            custom_tag: self.custom_tag@,
            saved_accounts: book(self.saved_accounts@),
            selected_account_display: self.selected_account_display@,
            show_delete_confirmation: self.show_delete_confirmation,
            show_password: self.show_password,
            alert_message: match self.alert_message {
                Some(message) => Some(message@),
                None => None,
            },
            dragged_account_idx: self.dragged_account_idx,
        }
    }
}

impl WindowState {
    /// The state with `message` shown.
    pub open spec fn alerting(self, message: Seq<char>) -> WindowState {
        WindowState { alert_message: Some(message), ..self }
    }

    /// The state with the fields of the form taken from `account`, and
    /// `account` selected.
    pub open spec fn showing(self, account: AccountView) -> WindowState {
        WindowState {
            selected_account_display: account.label(),
            username: account.username,
            password: account.password,
            region: account.region,
            in_game_name: account.in_game_name,
            custom_tag: account.custom_tag,
            ..self
        }
    }

    /// The account that the form describes.
    pub open spec fn typed_account(self) -> AccountView {
        AccountView {
            username: self.username,
            password: self.password,
            region: self.region,
            in_game_name: self.in_game_name,
            custom_tag: self.custom_tag,
        }
    }

    /// The state after the selected account was deleted: the account at
    /// `at` is gone, nothing is selected, and the form is empty but for the
    /// region.
    pub open spec fn without_account(self, at: int) -> WindowState {
        WindowState {
            saved_accounts: self.saved_accounts.remove(at),
            selected_account_display: NO_SELECTION@,
            username: Seq::empty(),
            password: Seq::empty(),
            in_game_name: Seq::empty(),
            custom_tag: Seq::empty(),
            ..self
        }
    }
}

/// What the selection shows: the part of the label before the gap, and the
/// part between that gap and the next where there is a gap.
pub open spec fn display_split(display: Seq<char>) -> (Seq<char>, Option<Seq<char>>) {
    if has_substring(display, LABEL_GAP@) {
        let rest = after_first(display, LABEL_GAP@);
        (
            before_first(display, LABEL_GAP@),
            Some(
                if has_substring(rest, LABEL_GAP@) {
                    before_first(rest, LABEL_GAP@)
                } else {
                    rest
                },
            ),
        )
    } else {
        (display, None)
    }
}

/// Splits what the selection shows into the name and the region.
pub fn display_parts(display: &str) -> (parts: (String, Option<String>))
    ensures
        parts.0@ == display_split(display@).0,
        parts.1 is Some <==> display_split(display@).1 is Some,
        parts.1 matches Some(region) ==> Some(region@) == display_split(display@).1,
{
    match split_at_first(display, LABEL_GAP) {
        Some((name, rest)) => {
            match split_at_first(rest.as_str(), LABEL_GAP) {
                Some((region, _)) => (name, Some(region)),
                None => (name, Some(rest)),
            }
        },
        None => (display.to_owned(), None),
    }
}

/// `message` followed by `detail`.
fn message_with(message: &str, detail: &str) -> (text: String)
    ensures
        text@ == message@ + detail@,
{
    let mut text = message.to_owned();
    text.append(detail);
    text
}

impl RustyLeagueApp {
    /// The window as it opens: on the settings page while no client is
    /// configured, else on the login page; an empty form for the default
    /// region; no account selected.
    pub fn new(accounts: Vec<Account>, settings: Settings) -> (app: RustyLeagueApp)
        ensures
            app@ == (WindowState {
                current_view: if settings@.riot_client_path.len() == 0 {
                    View::Settings
                } else {
                    View::Login
                },
                settings: settings@,
                username: Seq::empty(),
                password: Seq::empty(),
                region: DEFAULT_REGION@,
                in_game_name: Seq::empty(),
                custom_tag: Seq::empty(),
                saved_accounts: book(accounts@),
                selected_account_display: NO_SELECTION@,
                show_delete_confirmation: false,
                show_password: false,
                alert_message: None,
                dragged_account_idx: None,
            }),
    {
        let current_view = if settings.riot_client_path.as_str().is_empty() {
            View::Settings
        } else {
            View::Login
        };
        RustyLeagueApp {
            current_view,
            settings,
            username: String::new(),
            password: String::new(),
            region: DEFAULT_REGION.to_owned(),
            in_game_name: String::new(),
            custom_tag: String::new(),
            saved_accounts: accounts,
            selected_account_display: NO_SELECTION.to_owned(),
            show_delete_confirmation: false,
            show_password: false,
            alert_message: None,
            dragged_account_idx: None,
        }
    }

    /// Whether an account is selected.
    pub fn has_selection(&self) -> (r: bool)
        ensures
            r == (self@.selected_account_display != NO_SELECTION@),
    {
        !same_text(self.selected_account_display.as_str(), NO_SELECTION)
    }

    /// The message is acknowledged.
    pub fn close_alert(&mut self)
        ensures
            final(self)@ == (WindowState { alert_message: None, ..old(self)@ }),
    {
        self.alert_message = None;
    }

    /// The user asks for the settings page.
    pub fn open_settings(&mut self)
        ensures
            final(self)@ == (WindowState { current_view: View::Settings, ..old(self)@ }),
    {
        self.current_view = View::Settings;
    }

    /// The user confirms the settings. `file_exists` tells whether the
    /// configured path names a file. The answer is whether the settings are
    /// to be written; where they are not, a message says why.
    pub fn confirm_settings(&mut self, file_exists: bool) -> (write: bool)
        ensures
            write == (old(self)@.settings.riot_client_path.len() > 0 && file_exists),
            final(self)@ == if old(self)@.settings.riot_client_path.len() == 0 {
                old(self)@.alerting(MSG_PATH_EMPTY@)
            } else if !file_exists {
                old(self)@.alerting(MSG_FILE_MISSING@)
            } else {
                old(self)@
            },
    {
        if self.settings.riot_client_path.as_str().is_empty() {
            self.alert_message = Some(MSG_PATH_EMPTY.to_owned());
            false
        } else if !file_exists {
            self.alert_message = Some(MSG_FILE_MISSING.to_owned());
            false
        } else {
            true
        }
    }

    /// The settings were written, or `failure` says why they were not: the
    /// login page opens, or a message shows the failure.
    pub fn settings_written(&mut self, failure: Option<String>)
        ensures
            final(self)@ == match failure {
                Some(reason) => old(self)@.alerting(MSG_SAVE_SETTINGS_FAILED@ + reason@),
                None => WindowState { current_view: View::Login, ..old(self)@ },
            },
    {
        match failure {
            Some(reason) => {
                self.alert_message = Some(
                    message_with(MSG_SAVE_SETTINGS_FAILED, reason.as_str()),
                );
            },
            None => {
                self.current_view = View::Login;
            },
        }
    }

    /// The user asks to delete the selected account: the confirmation is
    /// asked for if an account is selected.
    pub fn request_delete(&mut self)
        ensures
            final(self)@ == (WindowState {
                show_delete_confirmation: old(self)@.show_delete_confirmation || old(
                    self,
                )@.selected_account_display != NO_SELECTION@,
                ..old(self)@
            }),
    {
        if self.has_selection() {
            self.show_delete_confirmation = true;
        }
    }

    /// The user declines the deletion.
    pub fn cancel_delete(&mut self)
        ensures
            final(self)@ == (WindowState { show_delete_confirmation: false, ..old(self)@ }),
    {
        self.show_delete_confirmation = false;
    }

    /// The user confirms the deletion: the first account with the selected
    /// label leaves the list, the selection and the form are cleared. The
    /// answer is whether an account left, so that the list is to be
    /// written.
    pub fn confirm_delete(&mut self) -> (write: bool)
        ensures
            write == has_label(old(self)@.saved_accounts, old(self)@.selected_account_display),
            write ==> exists|at: int|
                is_first_labelled(
                    old(self)@.saved_accounts,
                    old(self)@.selected_account_display,
                    at,
                ) && final(self)@ == (WindowState {
                    show_delete_confirmation: false,
                    ..old(self)@.without_account(at)
                }),
            !write ==> final(self)@ == (WindowState {
                show_delete_confirmation: false,
                ..old(self)@
            }),
    {
        self.show_delete_confirmation = false;
        match find_by_label(&self.saved_accounts, &self.selected_account_display) {
            Some(at) => {
                let ghost before = book(self.saved_accounts@);
                self.saved_accounts.remove(at);
                assert(book(self.saved_accounts@) == before.remove(at as int));
                self.selected_account_display = NO_SELECTION.to_owned();
                self.username = String::new();
                self.password = String::new();
                self.in_game_name = String::new();
                self.custom_tag = String::new();
                assert(self@ == (WindowState {
                    show_delete_confirmation: false,
                    ..old(self)@.without_account(at as int)
                }));
                true
            },
            None => false,
        }
    }

    /// The field of the in-game name was edited: where it holds the tag
    /// mark, what stands before the first mark stays the name and what
    /// stands behind it becomes the tag.
    pub fn in_game_name_edited(&mut self)
        ensures
            final(self)@ == if has_substring(old(self)@.in_game_name, TAG_MARK@) {
                WindowState {
                    in_game_name: before_first(old(self)@.in_game_name, TAG_MARK@),
                    custom_tag: after_first(old(self)@.in_game_name, TAG_MARK@),
                    ..old(self)@
                }
            } else {
                old(self)@
            },
    {
        match split_at_first(self.in_game_name.as_str(), TAG_MARK) {
            Some((name, tag)) => {
                self.in_game_name = name;
                self.custom_tag = tag;
            },
            None => {},
        }
    }

    /// The field of the tag was edited: a tag of more than
    /// [`MAX_TAG_CHARS`] characters is cut to that many.
    pub fn custom_tag_edited(&mut self)
        ensures
            final(self)@ == (WindowState {
                custom_tag: if old(self)@.custom_tag.len() > MAX_TAG_CHARS {
                    old(self)@.custom_tag.take(MAX_TAG_CHARS as int)
                } else {
                    old(self)@.custom_tag
                },
                ..old(self)@
            }),
    {
        if self.custom_tag.as_str().unicode_len() > MAX_TAG_CHARS {
            let cut = self.custom_tag.as_str().substring_char(0, MAX_TAG_CHARS).to_owned();
            self.custom_tag = cut;
        }
    }

    /// The user saves the account of the form. Without a username a message
    /// says so and nothing else happens. Else the account takes the place
    /// of every saved account of its username, at the end of the list, and
    /// is handed out so that the list can be written.
    pub fn save_account(&mut self) -> (saved: Option<Account>)
        ensures
            saved is Some <==> old(self)@.username.len() > 0,
            saved matches Some(account) ==> account@ == old(self)@.typed_account(),
            final(self)@ == if old(self)@.username.len() == 0 {
                old(self)@.alerting(MSG_USERNAME_EMPTY@)
            } else {
                WindowState {
                    saved_accounts: with_account(
                        old(self)@.saved_accounts,
                        old(self)@.typed_account(),
                    ),
                    ..old(self)@
                }
            },
    {
        if self.username.as_str().is_empty() {
            self.alert_message = Some(MSG_USERNAME_EMPTY.to_owned());
            return None;
        }
        let account = Account::new(
            self.username.clone(),
            self.password.clone(),
            self.region.clone(),
            self.in_game_name.clone(),
            self.custom_tag.clone(),
        );
        save_into(&mut self.saved_accounts, account.clone());
        Some(account)
    }

    /// The list was written after `account` was saved, or `failure` says why
    /// it was not: `account` is selected and a message confirms, or a
    /// message shows the failure.
    pub fn account_written(&mut self, account: &Account, failure: Option<String>)
        ensures
            final(self)@ == match failure {
                Some(reason) => old(self)@.alerting(MSG_SAVE_ACCOUNTS_FAILED@ + reason@),
                None => (WindowState {
                    selected_account_display: account@.label(),
                    ..old(self)@
                }).alerting(MSG_ACCOUNT_SAVED@),
            },
    {
        match failure {
            Some(reason) => {
                self.alert_message = Some(
                    message_with(MSG_SAVE_ACCOUNTS_FAILED, reason.as_str()),
                );
            },
            None => {
                self.selected_account_display = account.label();
                self.alert_message = Some(MSG_ACCOUNT_SAVED.to_owned());
            },
        }
    }

    /// The user picks the account at `at`: it is selected and fills the
    /// form. Where `at` is no position of the list, nothing happens.
    pub fn select_account(&mut self, at: usize)
        ensures
            final(self)@ == if at < old(self)@.saved_accounts.len() {
                old(self)@.showing(old(self)@.saved_accounts[at as int])
            } else {
                old(self)@
            },
    {
        if at < self.saved_accounts.len() {
            let account = self.saved_accounts[at].clone();
            self.selected_account_display = account.label();
            self.username = account.username;
            self.password = account.password;
            self.region = account.region;
            self.in_game_name = account.in_game_name;
            self.custom_tag = account.custom_tag;
        }
    }

    /// The user starts to drag the account at `at`.
    pub fn drag_started(&mut self, at: usize)
        ensures
            final(self)@ == (WindowState { dragged_account_idx: Some(at), ..old(self)@ }),
    {
        self.dragged_account_idx = Some(at);
    }

    /// The dragged account passed the middle of the account at `to`: the
    /// accounts at `from` and `to` change places, and the dragged account is
    /// the one at `to`.
    pub fn drag_over(&mut self, from: usize, to: usize)
        ensures
            final(self)@ == (WindowState {
                saved_accounts: with_swapped(old(self)@.saved_accounts, from as int, to as int),
                dragged_account_idx: Some(to),
                ..old(self)@
            }),
    {
        swap_accounts(&mut self.saved_accounts, from, to);
        self.dragged_account_idx = Some(to);
    }

    /// The pointer was released: a drag ends. The answer is whether there
    /// was one, so that the list is to be written.
    pub fn pointer_released(&mut self) -> (write: bool)
        ensures
            write == old(self)@.dragged_account_idx is Some,
            final(self)@ == (WindowState { dragged_account_idx: None, ..old(self)@ }),
    {
        let write = self.dragged_account_idx.is_some();
        self.dragged_account_idx = None;
        write
    }

    /// The list could not be written after a drag: a message shows the
    /// failure.
    pub fn order_not_written(&mut self, reason: &str)
        ensures
            final(self)@ == old(self)@.alerting(MSG_SAVE_ACCOUNTS_FAILED@ + reason@),
    {
        self.alert_message = Some(message_with(MSG_SAVE_ACCOUNTS_FAILED, reason));
    }

    /// The displayed name of the selected account, for the clipboard:
    /// that of the first account with the selected label, if an account is
    /// selected and the list has it.
    pub fn name_to_copy(&self) -> (name: Option<String>)
        ensures
            name is Some <==> self@.selected_account_display != NO_SELECTION@ && has_label(
                self@.saved_accounts,
                self@.selected_account_display,
            ),
            name matches Some(text) ==> exists|at: int|
                is_first_labelled(self@.saved_accounts, self@.selected_account_display, at)
                    && text@ == self@.saved_accounts[at].full_name(),
    {
        if !self.has_selection() {
            return None;
        }
        match find_by_label(&self.saved_accounts, &self.selected_account_display) {
            Some(at) => {
                let name = self.saved_accounts[at].full_name();
                assert(is_first_labelled(
                    self@.saved_accounts,
                    self@.selected_account_display,
                    at as int,
                ) && name@ == self@.saved_accounts[at as int].full_name());
                Some(name)
            },
            None => None,
        }
    }

    /// The user asks for the login. Without a username a message asks for an
    /// account. Else a login attempt with the credentials of the form and
    /// the configured client begins; it is handed out with the request to
    /// start the client.
    pub fn login(&mut self) -> (started: Option<(Attempt, AttemptAction)>)
        ensures
            started is Some <==> old(self)@.username.len() > 0,
            started matches Some((attempt, action)) ==> {
                &&& attempt@ == AttemptState::initial(
                    old(self)@.username,
                    old(self)@.password,
                    old(self)@.settings.riot_client_path,
                ).at(Phase::Launching)
                &&& action@ == AttemptActionView::Spawn(
                    launch_plan(old(self)@.settings.riot_client_path),
                )
            },
            final(self)@ == if old(self)@.username.len() == 0 {
                old(self)@.alerting(MSG_CHOOSE_ACCOUNT@)
            } else {
                old(self)@
            },
    {
        if self.username.as_str().is_empty() {
            self.alert_message = Some(MSG_CHOOSE_ACCOUNT.to_owned());
            None
        } else {
            Some(
                launch_and_login(
                    self.username.clone(),
                    self.password.clone(),
                    self.settings.riot_client_path.clone(),
                ),
            )
        }
    }

    /// The client could not be started: a message shows why.
    pub fn login_failed(&mut self, reason: &str)
        ensures
            final(self)@ == old(self)@.alerting(MSG_LOGIN_FAILED@ + reason@),
    {
        self.alert_message = Some(message_with(MSG_LOGIN_FAILED, reason));
    }

    /// The user asks for the end of the client's processes: the requests for
    /// the whole kill list are handed out, and a message reports the kill
    /// whatever comes of them.
    pub fn kill_processes(&mut self) -> (requests: Vec<CommandLine>)
        ensures
            final(self)@ == old(self)@.alerting(MSG_PROCESSES_KILLED@),
            requests.len() == kill_list_names().len(),
            forall|i: int|
                0 <= i < requests.len() ==> (#[trigger] requests[i])@ == termination_of(
                    kill_list_names()[i],
                ),
    {
        self.alert_message = Some(MSG_PROCESSES_KILLED.to_owned());
        kill_league_processes()
    }
}

} // verus!
