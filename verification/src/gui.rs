//! The desktop interface's state and what each of its controls does to it.
use vstd::prelude::*;
use vstd::string::StringExecFns;
use crate::ai::{client_for_spec, client_view, AiClient};
use crate::auth::{DeviceCodeResponse, PollResult, PollResultView};
use crate::config::{
    clone_opt, config_authenticated, config_client_id, opt_view, setting_from_input, setting_input_spec, Config,
    ConfigView,
};
use crate::storage::{categories_view, repos_view, CategoryRow, CategoryRowView, RepoRow, RepoRowView};
use crate::text::{concat, nat_decimal, push_decimal, starts_with, starts_with_spec, trim, trim_spec};

verus! {

#[derive(Clone, Copy, Debug, PartialEq, Eq, Structural)]
pub enum GuiScreen {
    Setup,
    Login,
    Home,
    Browse,
    Search,
    AiSearch,
    Settings,
    Syncing,
}

#[derive(Clone, Copy, Debug, PartialEq, Eq, Structural)]
pub enum SyncStatus {
    Idle,
    Running,
    Done,
    Failed,
}

pub const GRAY: &'static str = "#8b949e";
pub const RED: &'static str = "#f85149";
/// GitHub's page for entering a device code.
pub const DEFAULT_VERIFICATION_URL: &'static str = "https://github.com/login/device";
pub const BLUE: &'static str = "#79c0ff";
pub const GREEN: &'static str = "#3fb950";

/// One line of the sync log.
pub struct LogEntry {
    pub text: String,
    /// CSS colour.
    pub color: &'static str,
}

pub struct LogEntryView {
    pub text: Seq<char>,
    pub color: Seq<char>,
}

impl View for LogEntry {
    type V = LogEntryView;

    open spec fn view(&self) -> LogEntryView {
        LogEntryView { text: self.text@, color: self.color@ }
    }
}

pub open spec fn gui_log_view(log: Seq<LogEntry>) -> Seq<LogEntryView> {
    log.map_values(|e: LogEntry| e@)
}

pub open spec fn line(text: Seq<char>, color: Seq<char>) -> LogEntryView {
    LogEntryView { text, color }
}

pub struct GuiAppState {
    pub screen: GuiScreen,
    pub config: Config,
    pub db_path: String,
    // Stats
    pub total_repos: i64,
    pub total_categories: i64,
    // Browse
    pub categories: Vec<CategoryRow>,
    pub displayed_repos: Vec<RepoRow>,
    pub selected_category: Option<usize>,
    pub selected_repo: Option<usize>,
    pub category_filter: String,
    // Search
    pub search_query: String,
    pub search_results: Vec<RepoRow>,
    // AI Search
    pub ai_query: String,
    pub ai_results: Vec<RepoRow>,
    pub ai_loading: bool,
    pub ai_error: Option<String>,
    // Auth
    pub device_user_code: Option<String>,
    pub device_verification_uri: Option<String>,
    pub device_code: Option<String>,
    pub device_poll_interval_secs: u64,
    pub auth_error: Option<String>,
    // Sync
    pub sync_log: Vec<LogEntry>,
    pub sync_status: SyncStatus,
    pub bg_syncing: bool,
    // Setup
    pub setup_input: String,
    // Settings
    pub settings_editing_key: bool,
    pub settings_key_input: String,
    pub settings_editing_field: String,
    pub settings_model_picking: bool,
    pub settings_model_cursor: usize,
}

pub struct GuiView {
    pub screen: GuiScreen,
    pub config: ConfigView,
    pub db_path: Seq<char>,
    pub total_repos: i64,
    pub total_categories: i64,
    pub categories: Seq<CategoryRowView>,
    pub displayed_repos: Seq<RepoRowView>,
    pub selected_category: Option<usize>,
    pub selected_repo: Option<usize>,
    pub category_filter: Seq<char>,
    pub search_query: Seq<char>,
    pub search_results: Seq<RepoRowView>,
    pub ai_query: Seq<char>,
    pub ai_results: Seq<RepoRowView>,
    pub ai_loading: bool,
    pub ai_error: Option<Seq<char>>,
    pub device_user_code: Option<Seq<char>>,
    pub device_verification_uri: Option<Seq<char>>,
    pub device_code: Option<Seq<char>>,
    pub device_poll_interval_secs: u64,
    pub auth_error: Option<Seq<char>>,
    pub sync_log: Seq<LogEntryView>,
    pub sync_status: SyncStatus,
    pub bg_syncing: bool,
    pub setup_input: Seq<char>,
    pub settings_editing_key: bool,
    pub settings_key_input: Seq<char>,
    pub settings_editing_field: Seq<char>,
    pub settings_model_picking: bool,
    pub settings_model_cursor: usize,
}

impl View for GuiAppState {
    type V = GuiView;

    open spec fn view(&self) -> GuiView {
        GuiView {
            screen: self.screen,
            config: self.config@,
            db_path: self.db_path@,
            total_repos: self.total_repos,
            total_categories: self.total_categories,
            categories: categories_view(self.categories@),
            displayed_repos: repos_view(self.displayed_repos@),
            selected_category: self.selected_category,
            selected_repo: self.selected_repo,
            category_filter: self.category_filter@,
            search_query: self.search_query@,
            search_results: repos_view(self.search_results@),
            ai_query: self.ai_query@,
            ai_results: repos_view(self.ai_results@),
            ai_loading: self.ai_loading,
            ai_error: opt_view(self.ai_error),
            device_user_code: opt_view(self.device_user_code),
            device_verification_uri: opt_view(self.device_verification_uri),
            device_code: opt_view(self.device_code),
            device_poll_interval_secs: self.device_poll_interval_secs,
            auth_error: opt_view(self.auth_error),
            sync_log: gui_log_view(self.sync_log@),
            sync_status: self.sync_status,
            bg_syncing: self.bg_syncing,
            setup_input: self.setup_input@,
            settings_editing_key: self.settings_editing_key,
            settings_key_input: self.settings_key_input@,
            settings_editing_field: self.settings_editing_field@,
            settings_model_picking: self.settings_model_picking,
            settings_model_cursor: self.settings_model_cursor,
        }
    }
}

/// The first screen: home when a token is stored, setup when no client id is, else login.
pub open spec fn initial_screen(c: ConfigView) -> GuiScreen {
    if config_authenticated(c) {
        GuiScreen::Home
    } else if config_client_id(c) is None {
        GuiScreen::Setup
    } else {
        GuiScreen::Login
    }
}

pub open spec fn first_index(len: nat) -> Option<usize> {
    if len > 0 { Some(0) } else { None }
}

pub open spec fn selected_in(sel: Option<usize>, rows: Seq<RepoRowView>) -> Option<RepoRowView> {
    match sel {
        Some(i) => if i < rows.len() { Some(rows[i as int]) } else { None },
        None => None,
    }
}

/// What the AI search button does.
pub enum AiSubmit {
    /// Nothing: the query is blank or a search is already running.
    Ignored,
    /// No credentials are configured; `ai_error` says which.
    MissingCredentials,
    /// Search for `query` with this client, then hand the result to [`GuiAppState::ai_finished`].
    Search { query: String, client: AiClient },
}

/// What the login screen does after a poll.
#[derive(Clone, Copy, Debug, PartialEq, Eq, Structural)]
pub enum LoginStep {
    /// Poll again after the (possibly longer) interval.
    KeepPolling,
    /// A token was stored: save the settings; the screen moved on to syncing.
    Authenticated,
    /// A fatal error was recorded in `auth_error`.
    Stopped,
}

pub open spec fn no_token_text() -> Seq<char> {
    "No GitHub token — please log in first."@
}

pub open spec fn page_text(page: nat) -> Seq<char> {
    "Fetching page "@ + nat_decimal(page + 1) + "…"@
}

fn copy_rows(rows: &Vec<RepoRow>, sel: Option<usize>) -> (r: Option<RepoRow>)
    ensures
        match r {
            Some(x) => selected_in(sel, repos_view(rows@)) == Some(x@),
            None => selected_in(sel, repos_view(rows@)) is None,
        },
{
    match sel {
        Some(i) => if i < rows.len() { Some(rows[i].clone()) } else { None },
        None => None,
    }
}

fn log_line(text: String, color: &'static str) -> (e: LogEntry)
    ensures
        e@ == line(text@, color@),
{
    LogEntry { text, color }
}

impl GuiAppState {
    /// The state the window opens with, on the screen that `config` calls for.
    pub fn new(config: Config, db_path: String) -> (s: Self)
        ensures
            s@ == (GuiView {
                screen: initial_screen(config@),
                config: config@,
                db_path: db_path@,
                total_repos: 0,
                total_categories: 0,
                categories: Seq::empty(),
                displayed_repos: Seq::empty(),
                selected_category: None,
                selected_repo: None,
                category_filter: Seq::empty(),
                search_query: Seq::empty(),
                search_results: Seq::empty(),
                ai_query: Seq::empty(),
                ai_results: Seq::empty(),
                ai_loading: false,
                ai_error: None,
                device_user_code: None,
                device_verification_uri: None,
                device_code: None,
                device_poll_interval_secs: 5,
                auth_error: None,
                sync_log: Seq::empty(),
                sync_status: SyncStatus::Idle,
                bg_syncing: false,
                setup_input: Seq::empty(),
                settings_editing_key: false,
                settings_key_input: Seq::empty(),
                settings_editing_field: Seq::empty(),
                settings_model_picking: false,
                settings_model_cursor: 0,
            }),
    {
        let screen = if config.is_authenticated() {
            GuiScreen::Home
        } else if config.client_id().is_none() {
            GuiScreen::Setup
        } else {
            GuiScreen::Login
        };
        let s = GuiAppState {
            screen,
            config,
            db_path,
            total_repos: 0,
            total_categories: 0,
            categories: Vec::new(),
            displayed_repos: Vec::new(),
            selected_category: None,
            selected_repo: None,
            category_filter: String::new(),
            search_query: String::new(),
            search_results: Vec::new(),
            ai_query: String::new(),
            ai_results: Vec::new(),
            ai_loading: false,
            ai_error: None,
            device_user_code: None,
            device_verification_uri: None,
            device_code: None,
            device_poll_interval_secs: 5,
            auth_error: None,
            sync_log: Vec::new(),
            sync_status: SyncStatus::Idle,
            bg_syncing: false,
            setup_input: String::new(),
            settings_editing_key: false,
            settings_key_input: String::new(),
            settings_editing_field: String::new(),
            settings_model_picking: false,
            settings_model_cursor: 0,
        };
        assert(categories_view(s.categories@) =~= Seq::empty());
        assert(repos_view(s.displayed_repos@) =~= Seq::empty());
        assert(repos_view(s.search_results@) =~= Seq::empty());
        assert(repos_view(s.ai_results@) =~= Seq::empty());
        assert(gui_log_view(s.sync_log@) =~= Seq::empty());
        s
    }

    // ── Navigation ───────────────────────────────────────────────────────────

    /// The back buttons.
    pub fn go_home(&mut self)
        ensures
            final(self)@ == (GuiView { screen: GuiScreen::Home, ..old(self)@ }),
    {
        self.screen = GuiScreen::Home;
    }

    pub fn open_browse(&mut self)
        ensures
            final(self)@ == (GuiView { screen: GuiScreen::Browse, ..old(self)@ }),
    {
        self.screen = GuiScreen::Browse;
    }

    pub fn open_settings(&mut self)
        ensures
            final(self)@ == (GuiView { screen: GuiScreen::Settings, ..old(self)@ }),
    {
        self.screen = GuiScreen::Settings;
    }

    /// Search starts from an empty query.
    pub fn open_search(&mut self)
        ensures
            final(self)@ == (GuiView {
                search_query: Seq::empty(),
                search_results: Seq::empty(),
                screen: GuiScreen::Search,
                ..old(self)@
            }),
    {
        self.search_query = String::new();
        self.search_results = Vec::new();
        self.screen = GuiScreen::Search;
        assert(repos_view(self.search_results@) =~= Seq::empty());
    }

    /// AI search starts from an empty query, no results and no error.
    pub fn open_ai_search(&mut self)
        ensures
            final(self)@ == (GuiView {
                ai_query: Seq::empty(),
                ai_results: Seq::empty(),
                ai_error: None,
                screen: GuiScreen::AiSearch,
                ..old(self)@
            }),
    {
        self.ai_query = String::new();
        self.ai_results = Vec::new();
        self.ai_error = None;
        self.screen = GuiScreen::AiSearch;
        assert(repos_view(self.ai_results@) =~= Seq::empty());
    }

    /// "Sync Now": a fresh log and the syncing screen.
    pub fn open_sync(&mut self)
        ensures
            final(self)@ == (GuiView {
                sync_log: Seq::empty(),
                sync_status: SyncStatus::Idle,
                screen: GuiScreen::Syncing,
                ..old(self)@
            }),
    {
        self.sync_log = Vec::new();
        self.sync_status = SyncStatus::Idle;
        self.screen = GuiScreen::Syncing;
        assert(gui_log_view(self.sync_log@) =~= Seq::empty());
    }

    // ── Home and browse ──────────────────────────────────────────────────────

    /// What the home screen loaded: the counts, the categories, and the
    /// repositories of the first category; the first category becomes selected
    /// if none was.
    pub fn show_overview(
        &mut self,
        total_repos: i64,
        total_categories: i64,
        categories: Vec<CategoryRow>,
        displayed: Vec<RepoRow>,
    )
        ensures
            final(self)@ == (GuiView {
                total_repos,
                total_categories,
                categories: categories_view(categories@),
                selected_category: if categories@.len() > 0 && old(self)@.selected_category is None {
                    Some(0)
                } else {
                    old(self)@.selected_category
                },
                displayed_repos: repos_view(displayed@),
                ..old(self)@
            }),
    {
        self.total_repos = total_repos;
        self.total_categories = total_categories;
        self.categories = categories;
        if self.categories.len() > 0 && self.selected_category.is_none() {
            self.selected_category = Some(0);
        }
        self.displayed_repos = displayed;
    }

    /// Whether the browse screen must load the categories (none are loaded yet).
    pub fn needs_categories(&self) -> (b: bool)
        ensures
            b == (self@.categories.len() == 0),
    {
        self.categories.len() == 0
    }

    /// What the browse screen loaded: the categories and the repositories of the
    /// first one; no repository is selected.
    pub fn show_categories(&mut self, categories: Vec<CategoryRow>, displayed: Vec<RepoRow>)
        ensures
            final(self)@ == (GuiView {
                categories: categories_view(categories@),
                selected_category: if categories@.len() > 0 && old(self)@.selected_category is None {
                    Some(0)
                } else {
                    old(self)@.selected_category
                },
                displayed_repos: repos_view(displayed@),
                selected_repo: None,
                ..old(self)@
            }),
    {
        self.categories = categories;
        if self.categories.len() > 0 && self.selected_category.is_none() {
            self.selected_category = Some(0);
        }
        self.displayed_repos = displayed;
        self.selected_repo = None;
    }

    /// Clicking the `i`-th category selects it and returns its id, whose
    /// repositories are then loaded.
    pub fn select_category(&mut self, i: usize) -> (id: Option<i64>)
        ensures
            final(self)@ == (GuiView { selected_category: Some(i), selected_repo: None, ..old(self)@ }),
            id == if i < old(self)@.categories.len() { Some(old(self)@.categories[i as int].id) } else { None },
    {
        let id = if i < self.categories.len() { Some(self.categories[i].id) } else { None };
        self.selected_category = Some(i);
        self.selected_repo = None;
        id
    }

    /// The repositories of the clicked category arrived.
    pub fn show_repos(&mut self, repos: Vec<RepoRow>)
        ensures
            final(self)@ == (GuiView { displayed_repos: repos_view(repos@), ..old(self)@ }),
    {
        self.displayed_repos = repos;
    }

    /// Clicking a repository of a list selects it.
    pub fn select_repo(&mut self, i: usize)
        ensures
            final(self)@ == (GuiView { selected_repo: Some(i), ..old(self)@ }),
    {
        self.selected_repo = Some(i);
    }

    /// The repository that the browse screen's detail panel shows.
    pub fn browse_detail(&self) -> (r: Option<RepoRow>)
        ensures
            match r {
                Some(x) => selected_in(self@.selected_repo, self@.displayed_repos) == Some(x@),
                None => selected_in(self@.selected_repo, self@.displayed_repos) is None,
            },
    {
        copy_rows(&self.displayed_repos, self.selected_repo)
    }

    // ── Search ───────────────────────────────────────────────────────────────

    /// The query was edited: no result is selected; returns the query to search
    /// for, unless it is empty (then there are no results).
    pub fn search_input(&mut self, query: String) -> (q: Option<String>)
        ensures
            final(self)@ == (GuiView { search_query: query@, selected_repo: None, ..old(self)@ }),
            opt_view(q) == if query@.len() > 0 { Some(query@) } else { None },
    {
        let q = if query.as_str().is_empty() { None } else { Some(query.clone()) };
        self.search_query = query;
        self.selected_repo = None;
        q
    }

    /// The results of a search arrived.
    pub fn show_search_results(&mut self, results: Vec<RepoRow>)
        ensures
            final(self)@ == (GuiView { search_results: repos_view(results@), selected_repo: None, ..old(self)@ }),
    {
        self.search_results = results;
        self.selected_repo = None;
    }

    pub fn search_detail(&self) -> (r: Option<RepoRow>)
        ensures
            match r {
                Some(x) => selected_in(self@.selected_repo, self@.search_results) == Some(x@),
                None => selected_in(self@.selected_repo, self@.search_results) is None,
            },
    {
        copy_rows(&self.search_results, self.selected_repo)
    }

    // ── AI search ────────────────────────────────────────────────────────────

    /// Submits the AI query: nothing happens for a blank query or while a search
    /// runs; without credentials an error is shown; otherwise the search starts.
    pub fn ai_submit(&mut self) -> (action: AiSubmit)
        ensures
            ({
                let s = old(self)@;
                let q = trim_spec(s.ai_query);
                if q.len() == 0 || s.ai_loading {
                    final(self)@ == s && action is Ignored
                } else {
                    match client_for_spec(s.config) {
                        Err(m) => final(self)@ == (GuiView { ai_error: Some(m), ..s }) && action is MissingCredentials,
                        Ok(c) => {
                            &&& final(self)@ == (GuiView {
                                ai_loading: true,
                                ai_error: None,
                                ai_results: Seq::empty(),
                                selected_repo: None,
                                ai_query: q,
                                ..s
                            })
                            &&& action matches AiSubmit::Search { query, client }
                            &&& query@ == q
                            &&& client_view(client) == c
                        },
                    }
                }
            }),
    {
        let query = trim(self.ai_query.as_str());
        if query.as_str().is_empty() || self.ai_loading {
            return AiSubmit::Ignored;
        }
        match AiClient::for_config(&self.config) {
            Err(m) => {
                self.ai_error = Some(m);
                AiSubmit::MissingCredentials
            },
            Ok(client) => {
                self.ai_loading = true;
                self.ai_error = None;
                self.ai_results = Vec::new();
                self.selected_repo = None;
                let q = query.clone();
                self.ai_query = query;
                assert(repos_view(self.ai_results@) =~= Seq::empty());
                AiSubmit::Search { query: q, client }
            },
        }
    }

    /// The AI search ended: its repositories (the first one selected), or its error.
    pub fn ai_finished(&mut self, result: Result<Vec<RepoRow>, String>)
        ensures
            final(self)@ == match result {
                Ok(repos) => GuiView {
                    ai_results: repos_view(repos@),
                    ai_loading: false,
                    selected_repo: first_index(repos@.len()),
                    ..old(self)@
                },
                Err(e) => GuiView { ai_error: Some(e@), ai_loading: false, ..old(self)@ },
            },
    {
        match result {
            Ok(repos) => {
                self.selected_repo = if repos.len() == 0 { None } else { Some(0) };
                self.ai_results = repos;
                self.ai_loading = false;
            },
            Err(e) => {
                self.ai_error = Some(e);
                self.ai_loading = false;
            },
        }
    }

    pub fn ai_detail(&self) -> (r: Option<RepoRow>)
        ensures
            match r {
                Some(x) => selected_in(self@.selected_repo, self@.ai_results) == Some(x@),
                None => selected_in(self@.selected_repo, self@.ai_results) is None,
            },
    {
        copy_rows(&self.ai_results, self.selected_repo)
    }

    // ── Setup and login ──────────────────────────────────────────────────────

    /// Enter on the setup screen: a non-blank client id is stored (trimmed) and
    /// login starts. Returns whether the settings must be saved.
    pub fn setup_enter(&mut self) -> (save: bool)
        ensures
            ({
                let id = trim_spec(old(self)@.setup_input);
                if id.len() > 0 {
                    &&& save
                    &&& final(self)@ == (GuiView {
                        config: ConfigView { client_id: Some(id), ..old(self)@.config },
                        setup_input: Seq::empty(),
                        screen: GuiScreen::Login,
                        ..old(self)@
                    })
                } else {
                    !save && final(self)@ == old(self)@
                }
            }),
    {
        let id = trim(self.setup_input.as_str());
        if id.as_str().is_empty() {
            return false;
        }
        self.config.client_id = Some(id);
        self.setup_input = String::new();
        self.screen = GuiScreen::Login;
        true
    }

    /// GitHub issued a device code: show it and poll at its interval.
    pub fn device_code_received(&mut self, device: DeviceCodeResponse)
        ensures
            final(self)@ == (GuiView {
                device_user_code: Some(device.user_code@),
                device_verification_uri: Some(device.verification_uri@),
                device_code: Some(device.device_code@),
                device_poll_interval_secs: device.interval,
                auth_error: None,
                ..old(self)@
            }),
    {
        self.device_user_code = Some(device.user_code);
        self.device_verification_uri = Some(device.verification_uri);
        self.device_code = Some(device.device_code);
        self.device_poll_interval_secs = device.interval;
        self.auth_error = None;
    }

    /// The device code request failed.
    pub fn auth_failed(&mut self, message: String)
        ensures
            final(self)@ == (GuiView { auth_error: Some(message@), ..old(self)@ }),
    {
        self.auth_error = Some(message);
    }

    /// The page that the login screen's button opens in the browser: the
    /// verification URL GitHub sent, or GitHub's device page before one came.
    pub fn verification_url(&self) -> (u: String)
        ensures
            u@ == match self@.device_verification_uri {
                Some(v) => v,
                None => DEFAULT_VERIFICATION_URL@,
            },
    {
        match &self.device_verification_uri {
            Some(v) => v.clone(),
            None => String::from_str(DEFAULT_VERIFICATION_URL),
        }
    }

    /// The device code to poll with and the seconds to wait first, while a device flow runs.
    pub fn next_poll(&self) -> (p: Option<(String, u64)>)
        ensures
            match p {
                Some((code, wait)) => self@.device_code == Some(code@) && wait == self@.device_poll_interval_secs,
                None => self@.device_code is None,
            },
    {
        match &self.device_code {
            Some(c) => Some((c.clone(), self.device_poll_interval_secs)),
            None => None,
        }
    }

    /// Takes the outcome of one token poll.
    pub fn poll_received(&mut self, outcome: Result<PollResult, String>) -> (step: LoginStep)
        requires
            outcome matches Ok(PollResult::SlowDown) ==> old(self)@.device_poll_interval_secs + 5 <= u64::MAX,
        ensures
            match crate::auth::poll_outcome_view(outcome) {
                Ok(PollResultView::Token(t)) => step == LoginStep::Authenticated && final(self)@ == (GuiView {
                    config: ConfigView { github_token: Some(t), ..old(self)@.config },
                    screen: GuiScreen::Syncing,
                    ..old(self)@
                }),
                Ok(PollResultView::SlowDown) => step == LoginStep::KeepPolling && final(self)@ == (GuiView {
                    device_poll_interval_secs: (old(self)@.device_poll_interval_secs + 5) as u64,
                    ..old(self)@
                }),
                Ok(PollResultView::Pending) => step == LoginStep::KeepPolling && final(self)@ == old(self)@,
                Err(e) => step == LoginStep::Stopped && final(self)@ == (GuiView { auth_error: Some(e), ..old(self)@ }),
            },
    {
        match outcome {
            Ok(PollResult::Token(token)) => {
                self.config.github_token = Some(token);
                self.screen = GuiScreen::Syncing;
                LoginStep::Authenticated
            },
            Ok(PollResult::SlowDown) => {
                self.device_poll_interval_secs = self.device_poll_interval_secs + 5;
                LoginStep::KeepPolling
            },
            Ok(PollResult::Pending) => LoginStep::KeepPolling,
            Err(e) => {
                self.auth_error = Some(e);
                LoginStep::Stopped
            },
        }
    }

    // ── Settings ─────────────────────────────────────────────────────────────

    /// The auto-update switch; the settings must then be saved.
    pub fn toggle_auto_update(&mut self)
        ensures
            final(self)@ == (GuiView {
                config: ConfigView { auto_update: !old(self)@.config.auto_update, ..old(self)@.config },
                ..old(self)@
            }),
    {
        self.config.auto_update = !self.config.auto_update;
    }

    /// The Copilot switch.
    pub fn toggle_copilot(&mut self)
        ensures
            final(self)@ == (GuiView {
                config: ConfigView { use_copilot: !old(self)@.config.use_copilot, ..old(self)@.config },
                ..old(self)@
            }),
    {
        self.config.use_copilot = !self.config.use_copilot;
    }

    /// "Log out": the token is dropped (save the settings) and login starts again.
    pub fn log_out(&mut self)
        ensures
            final(self)@ == (GuiView {
                config: ConfigView { github_token: None, ..old(self)@.config },
                screen: GuiScreen::Login,
                ..old(self)@
            }),
    {
        self.config.github_token = None;
        self.screen = GuiScreen::Login;
    }

    /// The settings to save from the edit boxes: each trimmed, and unset when blank.
    pub fn settings_to_save(&self, api_key: &str, base_url: &str, model: &str, copilot_token: &str) -> (c: Config)
        ensures
            c@ == (ConfigView {
                openai_api_key: setting_input_spec(api_key@),
                openai_base_url: setting_input_spec(base_url@),
                openai_model: setting_input_spec(model@),
                copilot_github_token: setting_input_spec(copilot_token@),
                ..self@.config
            }),
    {
        let mut c = self.config.clone();
        c.openai_api_key = setting_from_input(api_key);
        c.openai_base_url = setting_from_input(base_url);
        c.openai_model = setting_from_input(model);
        c.copilot_github_token = setting_from_input(copilot_token);
        c
    }

    /// The edited AI settings were saved: the state takes them over.
    pub fn settings_saved(&mut self, saved: &Config)
        ensures
            final(self)@ == (GuiView {
                config: ConfigView {
                    openai_api_key: saved@.openai_api_key,
                    openai_base_url: saved@.openai_base_url,
                    openai_model: saved@.openai_model,
                    copilot_github_token: saved@.copilot_github_token,
                    ..old(self)@.config
                },
                ..old(self)@
            }),
    {
        self.config.openai_api_key = clone_opt(&saved.openai_api_key);
        self.config.openai_base_url = clone_opt(&saved.openai_base_url);
        self.config.openai_model = clone_opt(&saved.openai_model);
        self.config.copilot_github_token = clone_opt(&saved.copilot_github_token);
    }

    // ── Syncing ──────────────────────────────────────────────────────────────

    /// The syncing screen opened: the log restarts, and the token to fetch with
    /// is returned; without a token the sync fails at once.
    pub fn sync_begin(&mut self) -> (token: Option<String>)
        ensures
            match old(self)@.config.github_token {
                Some(t) => opt_view(token) == Some(t) && final(self)@ == (GuiView {
                    sync_log: seq![line("Starting sync…"@, GRAY@)],
                    sync_status: SyncStatus::Running,
                    ..old(self)@
                }),
                None => token is None && final(self)@ == (GuiView {
                    sync_log: seq![line("Starting sync…"@, GRAY@), line(no_token_text(), RED@)],
                    sync_status: SyncStatus::Failed,
                    ..old(self)@
                }),
            },
    {
        self.sync_log = Vec::new();
        self.sync_status = SyncStatus::Running;
        self.sync_log.push(log_line(String::from_str("Starting sync…"), GRAY));
        match &self.config.github_token {
            Some(t) => {
                let t = t.clone();
                assert(gui_log_view(self.sync_log@) =~= seq![line("Starting sync…"@, GRAY@)]);
                Some(t)
            },
            None => {
                self.sync_log.push(log_line(String::from_str("No GitHub token — please log in first."), RED));
                self.sync_status = SyncStatus::Failed;
                assert(gui_log_view(self.sync_log@) =~= seq![line("Starting sync…"@, GRAY@), line(no_token_text(), RED@)]);
                None
            },
        }
    }

    /// The fetch reports its live page count `page` (the pages fetched so far):
    /// the last progress line, naming the page being fetched, is updated, or a
    /// new one added.
    pub fn sync_progress(&mut self, page: usize)
        requires
            page < usize::MAX,
        ensures
            ({
                let log = old(self)@.sync_log;
                let l = line(page_text(page as nat), BLUE@);
                final(self)@ == (GuiView {
                    sync_log: if log.len() > 0 && starts_with_spec(log.last().text, "Fetching page"@) {
                        log.update(log.len() - 1, LogEntryView { text: l.text, ..log.last() })
                    } else {
                        log.push(l)
                    },
                    ..old(self)@
                })
            }),
    {
        let mut text = String::from_str("Fetching page ");
        push_decimal(&mut text, (page + 1) as u64);
        text.append("…");
        let len = self.sync_log.len();
        if len > 0 && starts_with(self.sync_log[len - 1].text.as_str(), "Fetching page") {
            let color = self.sync_log[len - 1].color;
            self.sync_log.set(len - 1, LogEntry { text, color });
        } else {
            self.sync_log.push(log_line(text, BLUE));
        }
        assert(gui_log_view(self.sync_log@) =~= ({
            let log = old(self)@.sync_log;
            let l = line(page_text(page as nat), BLUE@);
            if log.len() > 0 && starts_with_spec(log.last().text, "Fetching page"@) {
                log.update(log.len() - 1, LogEntryView { text: l.text, ..log.last() })
            } else {
                log.push(l)
            }
        }));
    }

    /// The sync failed with this log line.
    fn sync_fail(&mut self, text: String)
        ensures
            final(self)@ == (GuiView {
                sync_log: old(self)@.sync_log.push(line(text@, RED@)),
                sync_status: SyncStatus::Failed,
                ..old(self)@
            }),
    {
        self.sync_log.push(log_line(text, RED));
        self.sync_status = SyncStatus::Failed;
        assert(gui_log_view(self.sync_log@) =~= old(self)@.sync_log.push(line(text@, RED@)));
    }

    /// The fetch failed with `error`.
    pub fn sync_fetch_failed(&mut self, error: &str)
        ensures
            final(self)@ == (GuiView {
                sync_log: old(self)@.sync_log.push(line("Fetch error: "@ + error@, RED@)),
                sync_status: SyncStatus::Failed,
                ..old(self)@
            }),
    {
        self.sync_fail(concat("Fetch error: ", error));
    }

    /// The fetch task ended without a result.
    pub fn sync_task_failed(&mut self)
        ensures
            final(self)@ == (GuiView {
                sync_log: old(self)@.sync_log.push(line("Fetch task panicked."@, RED@)),
                sync_status: SyncStatus::Failed,
                ..old(self)@
            }),
    {
        self.sync_fail(String::from_str("Fetch task panicked."));
    }

    /// `total` repositories were fetched and are being stored.
    pub fn sync_fetched(&mut self, total: usize)
        ensures
            final(self)@ == (GuiView {
                sync_log: old(self)@.sync_log.push(line("Fetched "@ + nat_decimal(total as nat) + " repos — storing…"@, GRAY@)),
                ..old(self)@
            }),
    {
        let mut text = String::from_str("Fetched ");
        push_decimal(&mut text, total as u64);
        text.append(" repos — storing…");
        self.sync_log.push(log_line(text, GRAY));
        assert(gui_log_view(self.sync_log@) =~= old(self)@.sync_log.push(line("Fetched "@ + nat_decimal(total as nat) + " repos — storing…"@, GRAY@)));
    }

    /// Storing failed with `error`.
    pub fn sync_store_failed(&mut self, error: &str)
        ensures
            final(self)@ == (GuiView {
                sync_log: old(self)@.sync_log.push(line("Store error: "@ + error@, RED@)),
                sync_status: SyncStatus::Failed,
                ..old(self)@
            }),
    {
        self.sync_fail(concat("Store error: ", error));
    }

    /// The sync of `total` repositories finished at `synced_at`; the counts and
    /// categories were reloaded. The first category is selected, if any.
    pub fn sync_done(
        &mut self,
        total: usize,
        total_repos: i64,
        total_categories: i64,
        categories: Vec<CategoryRow>,
        synced_at: String,
    )
        ensures
            final(self)@ == (GuiView {
                config: ConfigView { last_sync: Some(synced_at@), ..old(self)@.config },
                total_repos,
                total_categories,
                categories: categories_view(categories@),
                selected_category: if categories@.len() > 0 { Some(0) } else { None },
                sync_status: SyncStatus::Done,
                sync_log: old(self)@.sync_log.push(line("Done! Synced "@ + nat_decimal(total as nat) + " repos."@, GREEN@)),
                ..old(self)@
            }),
    {
        self.config.last_sync = Some(synced_at);
        self.total_repos = total_repos;
        self.total_categories = total_categories;
        self.categories = categories;
        self.selected_category = if self.categories.len() > 0 { Some(0) } else { None };
        self.sync_status = SyncStatus::Done;
        let mut text = String::from_str("Done! Synced ");
        push_decimal(&mut text, total as u64);
        text.append(" repos.");
        self.sync_log.push(log_line(text, GREEN));
        assert(gui_log_view(self.sync_log@) =~= old(self)@.sync_log.push(line("Done! Synced "@ + nat_decimal(total as nat) + " repos."@, GREEN@)));
    }

    /// The short pause that shows a finished sync is over: after a successful
    /// sync the window goes back home; a failed one stays on the log until its
    /// "Back to Home" button ([`GuiAppState::go_home`]).
    pub fn sync_pause_over(&mut self)
        ensures
            final(self)@ == if old(self)@.sync_status is Done {
                GuiView { screen: GuiScreen::Home, ..old(self)@ }
            } else {
                old(self)@
            },
    {
        match self.sync_status {
            SyncStatus::Done => self.screen = GuiScreen::Home,
            _ => {},
        }
    }
}

/// The desktop window and the terminal application open on the same screen for
/// the same settings: home when authenticated, setup without a client id, and
/// otherwise login (which the terminal reaches through a device code request).
pub proof fn lemma_same_first_screen(app: crate::app::AppView)
    ensures
        ({
            let (a, action) = crate::app::start_spec(app);
            &&& initial_screen(app.config) == GuiScreen::Home <==> a.screen == crate::app::Screen::Home && action is LoadStats
            &&& initial_screen(app.config) == GuiScreen::Setup <==> action is AwaitClientId
            &&& initial_screen(app.config) == GuiScreen::Login <==> action is RequestDeviceCode
        }),
{
}

} // verus!
