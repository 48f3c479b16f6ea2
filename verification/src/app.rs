//! The terminal application's state and every decision it takes on a key or a tick.
//!
//! The event loop outside the library performs what these methods ask for
//! (database queries, HTTP requests, saving the settings, opening a URL) and
//! hands the results back.
use vstd::prelude::*;
use vstd::string::StringExecFns;
use crate::ai::{client_for_spec, client_view, AiClient};
use crate::auth::{DeviceCodeResponse, PollResult, PollResultView};
use crate::config::{
    config_authenticated, config_client_id, opt_view, setting_from_input, setting_input_spec, Config, ConfigView,
};
use crate::events::{is_quit, is_quit_spec, KeyCode, KeyEvent, Modifiers};
use crate::storage::{categories_view, repos_view, CategoryRow, CategoryRowView, RepoRow, RepoRowView};
use crate::text::{
    concat, int_decimal, nat_decimal, pop_char, push_char, push_decimal, push_int_decimal,
    starts_with, starts_with_spec, trim, trim_spec,
};

verus! {

// ── Sync log ─────────────────────────────────────────────────────────────────

/// The colour a log line is shown in.
#[derive(Clone, Copy, Debug, PartialEq, Eq, Structural)]
pub enum LogColor {
    White,
    Green,
    Yellow,
    Red,
}

/// One line of the sync log.
pub struct LogEntry {
    pub color: LogColor,
    pub message: String,
}

pub struct LogEntryView {
    pub color: LogColor,
    pub message: Seq<char>,
}

impl View for LogEntry {
    type V = LogEntryView;

    open spec fn view(&self) -> LogEntryView {
        LogEntryView { color: self.color, message: self.message@ }
    }
}

pub open spec fn log_view(log: Seq<LogEntry>) -> Seq<LogEntryView> {
    log.map_values(|e: LogEntry| e@)
}

impl LogEntry {
    pub fn info(msg: String) -> (e: Self)
        ensures
            e@ == (LogEntryView { color: LogColor::White, message: msg@ }),
    {
        LogEntry { color: LogColor::White, message: msg }
    }

    pub fn ok(msg: String) -> (e: Self)
        ensures
            e@ == (LogEntryView { color: LogColor::Green, message: msg@ }),
    {
        LogEntry { color: LogColor::Green, message: msg }
    }

    pub fn warn(msg: String) -> (e: Self)
        ensures
            e@ == (LogEntryView { color: LogColor::Yellow, message: msg@ }),
    {
        LogEntry { color: LogColor::Yellow, message: msg }
    }

    pub fn err(msg: String) -> (e: Self)
        ensures
            e@ == (LogEntryView { color: LogColor::Red, message: msg@ }),
    {
        LogEntry { color: LogColor::Red, message: msg }
    }
}

// ── Screens and statuses ─────────────────────────────────────────────────────

#[derive(Clone, Copy, Debug, PartialEq, Eq, Structural)]
pub enum Screen {
    Setup,
    Login,
    Home,
    Browse,
    Search,
    AiSearch,
    Settings,
    Syncing,
}

/// The setting being typed on the settings screen.
#[derive(Clone, Copy, Debug, PartialEq, Eq, Structural)]
pub enum EditField {
    OpenAiKey,
    CopilotToken,
    Model,
}

pub enum SyncStatus {
    Idle,
    FetchingStars(usize),
    Classifying,
    Done(usize),
    Error(String),
}

pub enum SyncStatusView {
    Idle,
    FetchingStars(usize),
    Classifying,
    Done(usize),
    Error(Seq<char>),
}

impl View for SyncStatus {
    type V = SyncStatusView;

    open spec fn view(&self) -> SyncStatusView {
        match self {
            SyncStatus::Idle => SyncStatusView::Idle,
            SyncStatus::FetchingStars(n) => SyncStatusView::FetchingStars(*n),
            SyncStatus::Classifying => SyncStatusView::Classifying,
            SyncStatus::Done(n) => SyncStatusView::Done(*n),
            SyncStatus::Error(e) => SyncStatusView::Error(e@),
        }
    }
}

#[derive(Clone, Copy, Debug, PartialEq, Eq, Structural)]
pub enum BrowsePane {
    Categories,
    Repos,
}

/// What the event loop must do after a key was handled.
pub enum KeyEffect {
    Nothing,
    /// Persist `config`.
    SaveConfig,
    /// Open this URL in the browser.
    OpenUrl(String),
    /// Load the repositories of the selected category (see [`App::selected_category_id`]).
    LoadRepos,
    /// Run the search for `search_query` and hand the rows to [`App::run_search`].
    RunSearch,
    /// Ask the AI with this client which repositories match `query`, and hand
    /// the matching rows to [`App::ai_finished`].
    StartAiSearch { query: String, client: AiClient },
}

pub enum KeyEffectView {
    Nothing,
    SaveConfig,
    OpenUrl(Seq<char>),
    LoadRepos,
    RunSearch,
    StartAiSearch(Seq<char>, (Seq<char>, Seq<char>, Seq<char>)),
}

impl View for KeyEffect {
    type V = KeyEffectView;

    open spec fn view(&self) -> KeyEffectView {
        match self {
            KeyEffect::Nothing => KeyEffectView::Nothing,
            KeyEffect::SaveConfig => KeyEffectView::SaveConfig,
            KeyEffect::OpenUrl(u) => KeyEffectView::OpenUrl(u@),
            KeyEffect::LoadRepos => KeyEffectView::LoadRepos,
            KeyEffect::RunSearch => KeyEffectView::RunSearch,
            KeyEffect::StartAiSearch { query, client } => KeyEffectView::StartAiSearch(query@, client_view(*client)),
        }
    }
}

// ── App ──────────────────────────────────────────────────────────────────────

/// The device flow's polling state, changed only through [`App`]'s methods.
pub struct DevicePolling {
    code: Option<String>,
    /// Minimum seconds between polls (from GitHub, increased on `slow_down`).
    interval_secs: u64,
    /// When GitHub was last polled for the token, in seconds of a monotonic clock.
    last_poll_at: Option<u64>,
}

pub struct DevicePollingView {
    pub code: Option<Seq<char>>,
    pub interval_secs: u64,
    pub last_poll_at: Option<u64>,
}

impl View for DevicePolling {
    type V = DevicePollingView;

    closed spec fn view(&self) -> DevicePollingView {
        DevicePollingView { code: opt_view(self.code), interval_secs: self.interval_secs, last_poll_at: self.last_poll_at }
    }
}

pub struct App {
    pub screen: Screen,
    pub config: Config,
    pub sync_status: SyncStatus,
    // Auth state
    pub device_user_code: Option<String>,
    pub device_verification_uri: Option<String>,
    pub polling: DevicePolling,
    // Setup (client id entry)
    pub setup_input: String,
    // Browse state
    pub categories: Vec<CategoryRow>,
    pub displayed_repos: Vec<RepoRow>,
    pub selected_category: Option<usize>,
    pub selected_repo: Option<usize>,
    pub browse_pane: BrowsePane,
    // Search state
    pub search_query: String,
    pub search_results: Vec<RepoRow>,
    // AI search state
    pub ai_query: String,
    /// Keys go to the query (else to the result list).
    pub ai_focus_query: bool,
    pub ai_loading: bool,
    pub ai_error: Option<String>,
    pub ai_results: Vec<RepoRow>,
    // Settings state
    /// The setting being typed, if any, and what was typed so far.
    pub settings_editing: Option<EditField>,
    pub settings_key_input: String,
    // Stats
    pub total_repos: i64,
    pub total_categories: i64,
    // Misc
    pub tick_count: usize,
    pub should_quit: bool,
    /// A fetch of the starred repositories is running and its result has not been handled.
    pub fetch_pending: bool,
    /// The running fetch reports its progress to the sync log.
    pub tracking_progress: bool,
    /// An automatic update runs silently in the background.
    pub bg_syncing: bool,
    /// Accumulated log lines shown during sync.
    pub sync_log: Vec<LogEntry>,
}

pub struct AppView {
    pub screen: Screen,
    pub config: ConfigView,
    pub sync_status: SyncStatusView,
    pub device_user_code: Option<Seq<char>>,
    pub device_verification_uri: Option<Seq<char>>,
    pub device_code: Option<Seq<char>>,
    pub poll_interval: u64,
    pub last_poll_at: Option<u64>,
    pub setup_input: Seq<char>,
    pub categories: Seq<CategoryRowView>,
    pub displayed_repos: Seq<RepoRowView>,
    pub selected_category: Option<usize>,
    pub selected_repo: Option<usize>,
    pub browse_pane: BrowsePane,
    pub search_query: Seq<char>,
    pub search_results: Seq<RepoRowView>,
    pub ai_query: Seq<char>,
    pub ai_focus_query: bool,
    pub ai_loading: bool,
    pub ai_error: Option<Seq<char>>,
    pub ai_results: Seq<RepoRowView>,
    pub settings_editing: Option<EditField>,
    pub settings_key_input: Seq<char>,
    pub total_repos: i64,
    pub total_categories: i64,
    pub tick_count: usize,
    pub should_quit: bool,
    pub fetch_pending: bool,
    pub tracking_progress: bool,
    pub bg_syncing: bool,
    pub sync_log: Seq<LogEntryView>,
}

impl View for App {
    type V = AppView;

    open spec fn view(&self) -> AppView {
        AppView {
            screen: self.screen,
            config: self.config@,
            sync_status: self.sync_status@,
            device_user_code: opt_view(self.device_user_code),
            device_verification_uri: opt_view(self.device_verification_uri),
            device_code: self.polling@.code,
            poll_interval: self.polling@.interval_secs,
            last_poll_at: self.polling@.last_poll_at,
            setup_input: self.setup_input@,
            categories: categories_view(self.categories@),
            displayed_repos: repos_view(self.displayed_repos@),
            selected_category: self.selected_category,
            selected_repo: self.selected_repo,
            browse_pane: self.browse_pane,
            search_query: self.search_query@,
            search_results: repos_view(self.search_results@),
            ai_query: self.ai_query@,
            ai_focus_query: self.ai_focus_query,
            ai_loading: self.ai_loading,
            ai_error: opt_view(self.ai_error),
            ai_results: repos_view(self.ai_results@),
            settings_editing: self.settings_editing,
            settings_key_input: self.settings_key_input@,
            total_repos: self.total_repos,
            total_categories: self.total_categories,
            tick_count: self.tick_count,
            should_quit: self.should_quit,
            fetch_pending: self.fetch_pending,
            tracking_progress: self.tracking_progress,
            bg_syncing: self.bg_syncing,
            sync_log: log_view(self.sync_log@),
        }
    }
}

// ── Specification of the key handlers ────────────────────────────────────────

pub open spec fn quit(s: AppView) -> AppView {
    AppView { should_quit: true, ..s }
}

pub open spec fn stay(s: AppView) -> (AppView, KeyEffectView) {
    (s, KeyEffectView::Nothing)
}

pub open spec fn pop_spec(s: Seq<char>) -> Seq<char> {
    if s.len() > 0 { s.drop_last() } else { s }
}

/// One step up a list, stopping at the first item.
pub open spec fn step_up(sel: usize) -> usize {
    if sel > 0 { (sel - 1) as usize } else { 0 }
}

/// One step down a list of `len` items: the next index, at most the last one;
/// the first item when nothing was selected.
pub open spec fn step_down(sel: Option<usize>, len: nat) -> usize {
    let max: int = if len > 0 { len - 1 } else { 0 };
    match sel {
        Some(i) => if i + 1 < max { (i + 1) as usize } else { max as usize },
        None => 0,
    }
}

/// The URL of the selected repository of `repos`, if the selection is in range.
pub open spec fn open_selected_spec(sel: Option<usize>, repos: Seq<RepoRowView>) -> KeyEffectView {
    match sel {
        Some(i) => if i < repos.len() { KeyEffectView::OpenUrl(repos[i as int].url) } else { KeyEffectView::Nothing },
        None => KeyEffectView::Nothing,
    }
}

pub open spec fn setup_key_spec(s: AppView, key: KeyEvent) -> (AppView, KeyEffectView) {
    match key.code {
        KeyCode::Char(c) => if c == 'q' && key.modifiers == Modifiers::ControlOnly {
            (quit(s), KeyEffectView::Nothing)
        } else {
            (AppView { setup_input: s.setup_input.push(c), ..s }, KeyEffectView::Nothing)
        },
        KeyCode::Backspace => (AppView { setup_input: pop_spec(s.setup_input), ..s }, KeyEffectView::Nothing),
        KeyCode::Enter => {
            let id = trim_spec(s.setup_input);
            if id.len() > 0 {
                (
                    AppView {
                        config: ConfigView { client_id: Some(id), ..s.config },
                        setup_input: Seq::empty(),
                        ..s
                    },
                    KeyEffectView::SaveConfig,
                )
            } else {
                stay(s)
            }
        },
        KeyCode::Esc => (quit(s), KeyEffectView::Nothing),
        _ => stay(s),
    }
}

pub open spec fn login_key_spec(s: AppView, key: KeyEvent) -> (AppView, KeyEffectView) {
    if is_quit_spec(key) { (quit(s), KeyEffectView::Nothing) } else { stay(s) }
}

pub open spec fn home_key_spec(s: AppView, key: KeyEvent) -> (AppView, KeyEffectView) {
    match key.code {
        KeyCode::Esc => (quit(s), KeyEffectView::Nothing),
        KeyCode::Char(c) => if c == 'q' {
            (quit(s), KeyEffectView::Nothing)
        } else if c == 'b' {
            (AppView { screen: Screen::Browse, ..s }, KeyEffectView::Nothing)
        } else if c == '/' {
            (
                AppView {
                    search_query: Seq::empty(),
                    search_results: Seq::empty(),
                    selected_repo: None,
                    screen: Screen::Search,
                    ..s
                },
                KeyEffectView::Nothing,
            )
        } else if c == 'i' {
            (
                AppView {
                    ai_query: Seq::empty(),
                    ai_results: Seq::empty(),
                    ai_error: None,
                    ai_focus_query: true,
                    selected_repo: None,
                    screen: Screen::AiSearch,
                    ..s
                },
                KeyEffectView::Nothing,
            )
        } else if c == 's' {
            (AppView { screen: Screen::Settings, ..s }, KeyEffectView::Nothing)
        } else if c == 'u' {
            (AppView { screen: Screen::Syncing, ..s }, KeyEffectView::Nothing)
        } else {
            stay(s)
        },
        _ => stay(s),
    }
}

/// The pane that Tab switches to.
pub open spec fn other_pane(p: BrowsePane) -> BrowsePane {
    match p {
        BrowsePane::Categories => BrowsePane::Repos,
        BrowsePane::Repos => BrowsePane::Categories,
    }
}

pub open spec fn browse_key_spec(s: AppView, key: KeyEvent) -> (AppView, KeyEffectView) {
    match key.code {
        KeyCode::Char(c) => if c == 'q' {
            (AppView { screen: Screen::Home, ..s }, KeyEffectView::Nothing)
        } else {
            stay(s)
        },
        KeyCode::Esc => (AppView { screen: Screen::Home, ..s }, KeyEffectView::Nothing),
        KeyCode::Left => (AppView { browse_pane: BrowsePane::Categories, ..s }, KeyEffectView::Nothing),
        KeyCode::Right => (AppView { browse_pane: BrowsePane::Repos, ..s }, KeyEffectView::Nothing),
        KeyCode::Tab => (AppView { browse_pane: other_pane(s.browse_pane), ..s }, KeyEffectView::Nothing),
        KeyCode::Up => match s.browse_pane {
            BrowsePane::Categories => match s.selected_category {
                Some(i) => (AppView { selected_category: Some(step_up(i)), ..s }, KeyEffectView::LoadRepos),
                None => stay(s),
            },
            BrowsePane::Repos => match s.selected_repo {
                Some(i) => (AppView { selected_repo: Some(step_up(i)), ..s }, KeyEffectView::Nothing),
                None => stay(s),
            },
        },
        KeyCode::Down => match s.browse_pane {
            BrowsePane::Categories => (
                AppView { selected_category: Some(step_down(s.selected_category, s.categories.len())), ..s },
                KeyEffectView::LoadRepos,
            ),
            BrowsePane::Repos => (
                AppView { selected_repo: Some(step_down(s.selected_repo, s.displayed_repos.len())), ..s },
                KeyEffectView::Nothing,
            ),
        },
        KeyCode::Enter => if s.browse_pane == BrowsePane::Repos {
            (s, open_selected_spec(s.selected_repo, s.displayed_repos))
        } else {
            stay(s)
        },
        _ => stay(s),
    }
}

pub open spec fn search_key_spec(s: AppView, key: KeyEvent) -> (AppView, KeyEffectView) {
    match key.code {
        KeyCode::Esc => (AppView { screen: Screen::Home, ..s }, KeyEffectView::Nothing),
        KeyCode::Backspace => (AppView { search_query: pop_spec(s.search_query), ..s }, KeyEffectView::RunSearch),
        KeyCode::Char(c) => (AppView { search_query: s.search_query.push(c), ..s }, KeyEffectView::RunSearch),
        KeyCode::Up => match s.selected_repo {
            Some(i) => (AppView { selected_repo: Some(step_up(i)), ..s }, KeyEffectView::Nothing),
            None => stay(s),
        },
        KeyCode::Down => if s.search_results.len() > 0 {
            (
                AppView { selected_repo: Some(step_down(s.selected_repo, s.search_results.len())), ..s },
                KeyEffectView::Nothing,
            )
        } else {
            stay(s)
        },
        KeyCode::Enter => (s, open_selected_spec(s.selected_repo, s.search_results)),
        _ => stay(s),
    }
}

/// The configuration with the edited setting set to what was typed (trimmed; blank unsets it).
pub open spec fn edited_config(c: ConfigView, field: EditField, input: Seq<char>) -> ConfigView {
    let v = setting_input_spec(input);
    match field {
        EditField::OpenAiKey => ConfigView { openai_api_key: v, ..c },
        EditField::CopilotToken => ConfigView { copilot_github_token: v, ..c },
        EditField::Model => ConfigView { openai_model: v, ..c },
    }
}

pub open spec fn start_editing(s: AppView, field: EditField) -> (AppView, KeyEffectView) {
    (AppView { settings_editing: Some(field), settings_key_input: Seq::empty(), ..s }, KeyEffectView::Nothing)
}

/// Keys while a setting is typed: characters and Backspace edit it, Enter
/// stores it (and saves), Esc drops it.
pub open spec fn edit_key_spec(s: AppView, field: EditField, key: KeyEvent) -> (AppView, KeyEffectView) {
    match key.code {
        KeyCode::Char(c) => (AppView { settings_key_input: s.settings_key_input.push(c), ..s }, KeyEffectView::Nothing),
        KeyCode::Backspace => (AppView { settings_key_input: pop_spec(s.settings_key_input), ..s }, KeyEffectView::Nothing),
        KeyCode::Enter => (
            AppView {
                config: edited_config(s.config, field, s.settings_key_input),
                settings_editing: None,
                settings_key_input: Seq::empty(),
                ..s
            },
            KeyEffectView::SaveConfig,
        ),
        KeyCode::Esc => (AppView { settings_editing: None, settings_key_input: Seq::empty(), ..s }, KeyEffectView::Nothing),
        _ => stay(s),
    }
}

pub open spec fn settings_key_spec(s: AppView, key: KeyEvent) -> (AppView, KeyEffectView) {
    match s.settings_editing {
        Some(field) => edit_key_spec(s, field, key),
        None => match key.code {
            KeyCode::Esc => (AppView { screen: Screen::Home, ..s }, KeyEffectView::Nothing),
            KeyCode::Char(c) => if c == 'q' {
                (AppView { screen: Screen::Home, ..s }, KeyEffectView::Nothing)
            } else if c == 'a' {
                (
                    AppView { config: ConfigView { auto_update: !s.config.auto_update, ..s.config }, ..s },
                    KeyEffectView::SaveConfig,
                )
            } else if c == 'l' {
                (
                    AppView { config: ConfigView { github_token: None, ..s.config }, screen: Screen::Login, ..s },
                    KeyEffectView::SaveConfig,
                )
            } else if c == 'c' {
                (
                    AppView { config: ConfigView { use_copilot: !s.config.use_copilot, ..s.config }, ..s },
                    KeyEffectView::SaveConfig,
                )
            } else if c == 'k' {
                start_editing(s, EditField::OpenAiKey)
            } else if c == 'p' && s.config.use_copilot {
                start_editing(s, EditField::CopilotToken)
            } else if c == 'm' {
                start_editing(s, EditField::Model)
            } else {
                stay(s)
            },
            _ => stay(s),
        },
    }
}

/// Submitting the AI query: a blank query or a running search does nothing;
/// missing credentials are reported; otherwise the search starts.
pub open spec fn ai_submit_spec(s: AppView) -> (AppView, KeyEffectView) {
    let q = trim_spec(s.ai_query);
    if q.len() == 0 || s.ai_loading {
        stay(s)
    } else {
        match client_for_spec(s.config) {
            Err(m) => (AppView { ai_error: Some(m), ..s }, KeyEffectView::Nothing),
            Ok(c) => (
                AppView {
                    ai_loading: true,
                    ai_error: None,
                    ai_results: Seq::empty(),
                    selected_repo: None,
                    ai_query: q,
                    ..s
                },
                KeyEffectView::StartAiSearch(q, c),
            ),
        }
    }
}

/// Keys on the AI search screen: on the query, typing edits it, Enter submits,
/// Tab moves to the results and Esc goes home; on the results, arrows select,
/// Enter opens the selection and Esc goes back to the query.
pub open spec fn ai_key_spec(s: AppView, key: KeyEvent) -> (AppView, KeyEffectView) {
    if s.ai_focus_query {
        match key.code {
            KeyCode::Esc => (AppView { screen: Screen::Home, ..s }, KeyEffectView::Nothing),
            KeyCode::Tab => (AppView { ai_focus_query: false, ..s }, KeyEffectView::Nothing),
            KeyCode::Backspace => (AppView { ai_query: pop_spec(s.ai_query), ..s }, KeyEffectView::Nothing),
            KeyCode::Char(c) => (AppView { ai_query: s.ai_query.push(c), ..s }, KeyEffectView::Nothing),
            KeyCode::Enter => ai_submit_spec(s),
            _ => stay(s),
        }
    } else {
        match key.code {
            KeyCode::Esc => (AppView { ai_focus_query: true, ..s }, KeyEffectView::Nothing),
            KeyCode::Up => match s.selected_repo {
                Some(i) => (AppView { selected_repo: Some(step_up(i)), ..s }, KeyEffectView::Nothing),
                None => stay(s),
            },
            KeyCode::Down => if s.ai_results.len() > 0 {
                (
                    AppView { selected_repo: Some(step_down(s.selected_repo, s.ai_results.len())), ..s },
                    KeyEffectView::Nothing,
                )
            } else {
                stay(s)
            },
            KeyCode::Enter => (s, open_selected_spec(s.selected_repo, s.ai_results)),
            _ => stay(s),
        }
    }
}

pub open spec fn sync_finished(st: SyncStatusView) -> bool {
    st is Done || st is Error
}

pub open spec fn syncing_key_spec(s: AppView) -> (AppView, KeyEffectView) {
    if sync_finished(s.sync_status) {
        (AppView { sync_status: SyncStatusView::Idle, screen: Screen::Home, ..s }, KeyEffectView::Nothing)
    } else {
        stay(s)
    }
}

/// The next state and the effect of pressing `key`, by screen.
pub open spec fn handle_key_spec(s: AppView, key: KeyEvent) -> (AppView, KeyEffectView) {
    match s.screen {
        Screen::Setup => setup_key_spec(s, key),
        Screen::Login => login_key_spec(s, key),
        Screen::Home => home_key_spec(s, key),
        Screen::Browse => browse_key_spec(s, key),
        Screen::Search => search_key_spec(s, key),
        Screen::AiSearch => ai_key_spec(s, key),
        Screen::Settings => settings_key_spec(s, key),
        Screen::Syncing => syncing_key_spec(s),
    }
}

/// `key` does not step a selection down from the largest index (which would
/// overflow): Down in a list whose selection sits there.
pub open spec fn step_down_safe(s: AppView, key: KeyEvent) -> bool {
    key.code == KeyCode::Down ==> match s.screen {
        Screen::Browse => match s.browse_pane {
            BrowsePane::Categories => s.selected_category != Some(usize::MAX),
            BrowsePane::Repos => s.selected_repo != Some(usize::MAX),
        },
        Screen::Search => s.selected_repo != Some(usize::MAX),
        Screen::AiSearch => !s.ai_focus_query ==> s.selected_repo != Some(usize::MAX),
        _ => true,
    }
}

fn step_up_exec(i: usize) -> (r: usize)
    ensures
        r == step_up(i),
{
    if i > 0 { i - 1 } else { 0 }
}

fn step_down_exec(sel: Option<usize>, len: usize) -> (r: usize)
    requires
        sel != Some(usize::MAX),
    ensures
        r == step_down(sel, len as nat),
{
    let max = if len > 0 { len - 1 } else { 0 };
    match sel {
        Some(i) => if i + 1 < max { i + 1 } else { max },
        None => 0,
    }
}

fn open_selected(sel: Option<usize>, repos: &Vec<RepoRow>) -> (e: KeyEffect)
    ensures
        e@ == open_selected_spec(sel, repos_view(repos@)),
{
    match sel {
        Some(i) => if i < repos.len() {
            KeyEffect::OpenUrl(repos[i].url.clone())
        } else {
            KeyEffect::Nothing
        },
        None => KeyEffect::Nothing,
    }
}

impl App {
    pub fn new(config: Config) -> (app: Self)
        ensures
            app@ == (AppView {
                screen: Screen::Home,
                config: config@,
                sync_status: SyncStatusView::Idle,
                device_user_code: None,
                device_verification_uri: None,
                device_code: None,
                poll_interval: 5,
                last_poll_at: None,
                setup_input: Seq::empty(),
                categories: Seq::empty(),
                displayed_repos: Seq::empty(),
                selected_category: None,
                selected_repo: None,
                browse_pane: BrowsePane::Categories,
                search_query: Seq::empty(),
                search_results: Seq::empty(),
                ai_query: Seq::empty(),
                ai_focus_query: true,
                ai_loading: false,
                ai_error: None,
                ai_results: Seq::empty(),
                settings_editing: None,
                settings_key_input: Seq::empty(),
                total_repos: 0,
                total_categories: 0,
                tick_count: 0,
                should_quit: false,
                fetch_pending: false,
                tracking_progress: false,
                bg_syncing: false,
                sync_log: Seq::empty(),
            }),
    {
        let app = App {
            screen: Screen::Home,
            config,
            sync_status: SyncStatus::Idle,
            device_user_code: None,
            device_verification_uri: None,
            polling: DevicePolling { code: None, interval_secs: 5, last_poll_at: None },
            setup_input: String::new(),
            categories: Vec::new(),
            displayed_repos: Vec::new(),
            selected_category: None,
            selected_repo: None,
            browse_pane: BrowsePane::Categories,
            search_query: String::new(),
            search_results: Vec::new(),
            ai_query: String::new(),
            ai_focus_query: true,
            ai_loading: false,
            ai_error: None,
            ai_results: Vec::new(),
            settings_editing: None,
            settings_key_input: String::new(),
            total_repos: 0,
            total_categories: 0,
            tick_count: 0,
            should_quit: false,
            fetch_pending: false,
            tracking_progress: false,
            bg_syncing: false,
            sync_log: Vec::new(),
        };
        assert(categories_view(app.categories@) =~= Seq::empty());
        assert(repos_view(app.displayed_repos@) =~= Seq::empty());
        assert(repos_view(app.search_results@) =~= Seq::empty());
        assert(repos_view(app.ai_results@) =~= Seq::empty());
        assert(log_view(app.sync_log@) =~= Seq::empty());
        app
    }

    // ── Key handlers ─────────────────────────────────────────────────────────

    /// Handles one key press on the current screen and says what the event loop must do next.
    pub fn handle_key(&mut self, key: KeyEvent) -> (effect: KeyEffect)
        requires
            step_down_safe(old(self)@, key),
        ensures
            (final(self)@, effect@) == handle_key_spec(old(self)@, key),
    {
        match self.screen {
            Screen::Setup => self.handle_setup_key(key),
            Screen::Login => self.handle_login_key(key),
            Screen::Home => self.handle_home_key(key),
            Screen::Browse => self.handle_browse_key(key),
            Screen::Search => self.handle_search_key(key),
            Screen::AiSearch => self.handle_ai_key(key),
            Screen::Settings => self.handle_settings_key(key),
            Screen::Syncing => {
                match self.sync_status {
                    SyncStatus::Done(_) | SyncStatus::Error(_) => {
                        self.sync_status = SyncStatus::Idle;
                        self.screen = Screen::Home;
                    },
                    _ => {},
                }
                KeyEffect::Nothing
            },
        }
    }

    /// Whether [`App::handle_key`] can take `key`: it does not step a
    /// selection down from the largest index.
    pub fn steps_down_safely(&self, key: KeyEvent) -> (b: bool)
        ensures
            b == step_down_safe(self@, key),
    {
        if key.code != KeyCode::Down {
            return true;
        }
        match self.screen {
            Screen::Browse => match self.browse_pane {
                BrowsePane::Categories => self.selected_category != Some(usize::MAX),
                BrowsePane::Repos => self.selected_repo != Some(usize::MAX),
            },
            Screen::Search => self.selected_repo != Some(usize::MAX),
            Screen::AiSearch => self.ai_focus_query || self.selected_repo != Some(usize::MAX),
            _ => true,
        }
    }

    fn handle_setup_key(&mut self, key: KeyEvent) -> (effect: KeyEffect)
        ensures
            (final(self)@, effect@) == setup_key_spec(old(self)@, key),
    {
        match key.code {
            KeyCode::Char(c) => {
                if c == 'q' && key.modifiers == Modifiers::ControlOnly {
                    self.should_quit = true;
                } else {
                    push_char(&mut self.setup_input, c);
                }
                KeyEffect::Nothing
            },
            KeyCode::Backspace => {
                let _ = pop_char(&mut self.setup_input);
                KeyEffect::Nothing
            },
            KeyCode::Enter => {
                let id = trim(self.setup_input.as_str());
                if !id.as_str().is_empty() {
                    self.config.client_id = Some(id);
                    self.setup_input = String::new();
                    KeyEffect::SaveConfig
                } else {
                    KeyEffect::Nothing
                }
            },
            KeyCode::Esc => {
                self.should_quit = true;
                KeyEffect::Nothing
            },
            _ => KeyEffect::Nothing,
        }
    }

    fn handle_login_key(&mut self, key: KeyEvent) -> (effect: KeyEffect)
        ensures
            (final(self)@, effect@) == login_key_spec(old(self)@, key),
    {
        if is_quit(&key) {
            self.should_quit = true;
        }
        KeyEffect::Nothing
    }

    fn handle_home_key(&mut self, key: KeyEvent) -> (effect: KeyEffect)
        ensures
            (final(self)@, effect@) == home_key_spec(old(self)@, key),
    {
        match key.code {
            KeyCode::Esc => self.should_quit = true,
            KeyCode::Char('q') => self.should_quit = true,
            KeyCode::Char('b') => self.screen = Screen::Browse,
            KeyCode::Char('/') => {
                self.search_query = String::new();
                self.search_results = Vec::new();
                self.selected_repo = None;
                self.screen = Screen::Search;
                assert(repos_view(self.search_results@) =~= Seq::empty());
            },
            KeyCode::Char('i') => {
                self.ai_query = String::new();
                self.ai_results = Vec::new();
                self.ai_error = None;
                self.ai_focus_query = true;
                self.selected_repo = None;
                self.screen = Screen::AiSearch;
                assert(repos_view(self.ai_results@) =~= Seq::empty());
            },
            KeyCode::Char('s') => self.screen = Screen::Settings,
            KeyCode::Char('u') => self.screen = Screen::Syncing,
            _ => {},
        }
        KeyEffect::Nothing
    }

    fn handle_browse_key(&mut self, key: KeyEvent) -> (effect: KeyEffect)
        requires
            old(self)@.screen == Screen::Browse,
            step_down_safe(old(self)@, key),
        ensures
            (final(self)@, effect@) == browse_key_spec(old(self)@, key),
    {
        match key.code {
            KeyCode::Char('q') | KeyCode::Esc => {
                self.screen = Screen::Home;
                KeyEffect::Nothing
            },
            KeyCode::Left => {
                self.browse_pane = BrowsePane::Categories;
                KeyEffect::Nothing
            },
            KeyCode::Right => {
                self.browse_pane = BrowsePane::Repos;
                KeyEffect::Nothing
            },
            KeyCode::Tab => {
                self.browse_pane = match self.browse_pane {
                    BrowsePane::Categories => BrowsePane::Repos,
                    BrowsePane::Repos => BrowsePane::Categories,
                };
                KeyEffect::Nothing
            },
            KeyCode::Up => match self.browse_pane {
                BrowsePane::Categories => match self.selected_category {
                    Some(i) => {
                        self.selected_category = Some(step_up_exec(i));
                        KeyEffect::LoadRepos
                    },
                    None => KeyEffect::Nothing,
                },
                BrowsePane::Repos => {
                    match self.selected_repo {
                        Some(i) => self.selected_repo = Some(step_up_exec(i)),
                        None => {},
                    }
                    KeyEffect::Nothing
                },
            },
            KeyCode::Down => match self.browse_pane {
                BrowsePane::Categories => {
                    self.selected_category = Some(step_down_exec(self.selected_category, self.categories.len()));
                    KeyEffect::LoadRepos
                },
                BrowsePane::Repos => {
                    self.selected_repo = Some(step_down_exec(self.selected_repo, self.displayed_repos.len()));
                    KeyEffect::Nothing
                },
            },
            KeyCode::Enter => match self.browse_pane {
                BrowsePane::Repos => open_selected(self.selected_repo, &self.displayed_repos),
                BrowsePane::Categories => KeyEffect::Nothing,
            },
            _ => KeyEffect::Nothing,
        }
    }

    fn handle_search_key(&mut self, key: KeyEvent) -> (effect: KeyEffect)
        requires
            old(self)@.screen == Screen::Search,
            step_down_safe(old(self)@, key),
        ensures
            (final(self)@, effect@) == search_key_spec(old(self)@, key),
    {
        match key.code {
            KeyCode::Esc => {
                self.screen = Screen::Home;
                KeyEffect::Nothing
            },
            KeyCode::Backspace => {
                let _ = pop_char(&mut self.search_query);
                KeyEffect::RunSearch
            },
            KeyCode::Char(c) => {
                push_char(&mut self.search_query, c);
                KeyEffect::RunSearch
            },
            KeyCode::Up => {
                match self.selected_repo {
                    Some(i) => self.selected_repo = Some(step_up_exec(i)),
                    None => {},
                }
                KeyEffect::Nothing
            },
            KeyCode::Down => {
                if self.search_results.len() > 0 {
                    self.selected_repo = Some(step_down_exec(self.selected_repo, self.search_results.len()));
                }
                KeyEffect::Nothing
            },
            KeyCode::Enter => open_selected(self.selected_repo, &self.search_results),
            _ => KeyEffect::Nothing,
        }
    }

    fn handle_settings_key(&mut self, key: KeyEvent) -> (effect: KeyEffect)
        ensures
            (final(self)@, effect@) == settings_key_spec(old(self)@, key),
    {
        match self.settings_editing {
            Some(field) => return self.handle_edit_key(field, key),
            None => {},
        }
        match key.code {
            KeyCode::Char('q') | KeyCode::Esc => {
                self.screen = Screen::Home;
                KeyEffect::Nothing
            },
            KeyCode::Char('a') => {
                self.config.auto_update = !self.config.auto_update;
                KeyEffect::SaveConfig
            },
            KeyCode::Char('l') => {
                self.config.github_token = None;
                self.screen = Screen::Login;
                KeyEffect::SaveConfig
            },
            KeyCode::Char('c') => {
                self.config.use_copilot = !self.config.use_copilot;
                KeyEffect::SaveConfig
            },
            KeyCode::Char('k') => {
                self.settings_editing = Some(EditField::OpenAiKey);
                self.settings_key_input = String::new();
                KeyEffect::Nothing
            },
            KeyCode::Char('p') => {
                if self.config.use_copilot {
                    self.settings_editing = Some(EditField::CopilotToken);
                    self.settings_key_input = String::new();
                }
                KeyEffect::Nothing
            },
            KeyCode::Char('m') => {
                self.settings_editing = Some(EditField::Model);
                self.settings_key_input = String::new();
                KeyEffect::Nothing
            },
            _ => KeyEffect::Nothing,
        }
    }

    fn handle_edit_key(&mut self, field: EditField, key: KeyEvent) -> (effect: KeyEffect)
        ensures
            (final(self)@, effect@) == edit_key_spec(old(self)@, field, key),
    {
        match key.code {
            KeyCode::Char(c) => {
                push_char(&mut self.settings_key_input, c);
                KeyEffect::Nothing
            },
            KeyCode::Backspace => {
                let _ = pop_char(&mut self.settings_key_input);
                KeyEffect::Nothing
            },
            KeyCode::Enter => {
                let v = setting_from_input(self.settings_key_input.as_str());
                match field {
                    EditField::OpenAiKey => self.config.openai_api_key = v,
                    EditField::CopilotToken => self.config.copilot_github_token = v,
                    EditField::Model => self.config.openai_model = v,
                }
                self.settings_editing = None;
                self.settings_key_input = String::new();
                KeyEffect::SaveConfig
            },
            KeyCode::Esc => {
                self.settings_editing = None;
                self.settings_key_input = String::new();
                KeyEffect::Nothing
            },
            _ => KeyEffect::Nothing,
        }
    }

    fn handle_ai_key(&mut self, key: KeyEvent) -> (effect: KeyEffect)
        requires
            old(self)@.screen == Screen::AiSearch,
            step_down_safe(old(self)@, key),
        ensures
            (final(self)@, effect@) == ai_key_spec(old(self)@, key),
    {
        if self.ai_focus_query {
            match key.code {
                KeyCode::Esc => {
                    self.screen = Screen::Home;
                    KeyEffect::Nothing
                },
                KeyCode::Tab => {
                    self.ai_focus_query = false;
                    KeyEffect::Nothing
                },
                KeyCode::Backspace => {
                    let _ = pop_char(&mut self.ai_query);
                    KeyEffect::Nothing
                },
                KeyCode::Char(c) => {
                    push_char(&mut self.ai_query, c);
                    KeyEffect::Nothing
                },
                KeyCode::Enter => self.submit_ai_query(),
                _ => KeyEffect::Nothing,
            }
        } else {
            match key.code {
                KeyCode::Esc => {
                    self.ai_focus_query = true;
                    KeyEffect::Nothing
                },
                KeyCode::Up => {
                    match self.selected_repo {
                        Some(i) => self.selected_repo = Some(step_up_exec(i)),
                        None => {},
                    }
                    KeyEffect::Nothing
                },
                KeyCode::Down => {
                    if self.ai_results.len() > 0 {
                        self.selected_repo = Some(step_down_exec(self.selected_repo, self.ai_results.len()));
                    }
                    KeyEffect::Nothing
                },
                KeyCode::Enter => open_selected(self.selected_repo, &self.ai_results),
                _ => KeyEffect::Nothing,
            }
        }
    }

    fn submit_ai_query(&mut self) -> (effect: KeyEffect)
        ensures
            (final(self)@, effect@) == ai_submit_spec(old(self)@),
    {
        let query = trim(self.ai_query.as_str());
        if query.as_str().is_empty() || self.ai_loading {
            return KeyEffect::Nothing;
        }
        match AiClient::for_config(&self.config) {
            Err(m) => {
                self.ai_error = Some(m);
                KeyEffect::Nothing
            },
            Ok(client) => {
                self.ai_loading = true;
                self.ai_error = None;
                self.ai_results = Vec::new();
                self.selected_repo = None;
                let q = query.clone();
                self.ai_query = query;
                assert(repos_view(self.ai_results@) =~= Seq::empty());
                KeyEffect::StartAiSearch { query: q, client }
            },
        }
    }
}

// ── Specification of loading, authorisation and syncing ──────────────────────

pub open spec fn categories_or_empty(c: Option<Seq<CategoryRowView>>) -> Seq<CategoryRowView> {
    match c {
        Some(c) => c,
        None => Seq::empty(),
    }
}

pub open spec fn repos_or_empty(r: Option<Seq<RepoRowView>>) -> Seq<RepoRowView> {
    match r {
        Some(r) => r,
        None => Seq::empty(),
    }
}

pub open spec fn first_or_none(len: nat) -> Option<usize> {
    if len > 0 { Some(0) } else { None }
}

pub open spec fn opt_categories_view(c: Option<Vec<CategoryRow>>) -> Option<Seq<CategoryRowView>> {
    match c {
        Some(c) => Some(categories_view(c@)),
        None => None,
    }
}

pub open spec fn opt_repos_view(r: Option<Vec<RepoRow>>) -> Option<Seq<RepoRowView>> {
    match r {
        Some(r) => Some(repos_view(r@)),
        None => None,
    }
}

/// The category the browse pane shows, when the selection is in range.
pub open spec fn selected_category_spec(s: AppView) -> Option<CategoryRowView> {
    match s.selected_category {
        Some(i) => if i < s.categories.len() { Some(s.categories[i as int]) } else { None },
        None => None,
    }
}

pub open spec fn load_categories_spec(s: AppView, fetched: Option<Seq<CategoryRowView>>) -> (AppView, bool) {
    let cats = categories_or_empty(fetched);
    if cats.len() > 0 && s.selected_category is None {
        (AppView { categories: cats, selected_category: Some(0), ..s }, true)
    } else {
        (AppView { categories: cats, ..s }, false)
    }
}

pub open spec fn load_repos_spec(s: AppView, fetched: Option<Seq<RepoRowView>>) -> AppView {
    if selected_category_spec(s) is Some {
        let repos = repos_or_empty(fetched);
        AppView { displayed_repos: repos, selected_repo: first_or_none(repos.len()), ..s }
    } else {
        s
    }
}

pub open spec fn run_search_spec(s: AppView, fetched: Option<Seq<RepoRowView>>) -> AppView {
    if s.search_query.len() == 0 {
        AppView { search_results: Seq::empty(), selected_repo: None, ..s }
    } else {
        let results = repos_or_empty(fetched);
        AppView { search_results: results, selected_repo: first_or_none(results.len()), ..s }
    }
}

pub open spec fn ai_finished_spec(s: AppView, r: Result<Seq<RepoRowView>, Seq<char>>) -> AppView {
    match r {
        Ok(repos) => AppView {
            ai_results: repos,
            ai_loading: false,
            selected_repo: first_or_none(repos.len()),
            ..s
        },
        Err(e) => AppView { ai_error: Some(e), ai_loading: false, ..s },
    }
}

/// Whether enough time has passed since the last poll, given the time `now`.
pub open spec fn should_poll_spec(s: AppView, now: u64) -> bool {
    match s.last_poll_at {
        None => true,
        Some(t) => (if now >= t { now - t } else { 0 }) >= s.poll_interval,
    }
}

pub open spec fn device_flow_spec(s: AppView, user_code: Seq<char>, uri: Seq<char>, code: Seq<char>, interval: u64) -> AppView {
    AppView {
        device_user_code: Some(user_code),
        device_verification_uri: Some(uri),
        device_code: Some(code),
        poll_interval: interval,
        last_poll_at: None,
        screen: Screen::Login,
        ..s
    }
}

pub open spec fn auth_failed_spec(s: AppView, message: Seq<char>) -> AppView {
    AppView { sync_status: SyncStatusView::Error(message), screen: Screen::Login, ..s }
}

pub enum StartAction {
    /// Load the repository and category counts.
    LoadStats,
    /// Ask GitHub for a device code for this client id and hand the reply to [`App::apply_device_code`].
    RequestDeviceCode(String),
    /// Wait for the user to enter a client id.
    AwaitClientId,
}

pub enum StartActionView {
    LoadStats,
    RequestDeviceCode(Seq<char>),
    AwaitClientId,
}

impl View for StartAction {
    type V = StartActionView;

    open spec fn view(&self) -> StartActionView {
        match self {
            StartAction::LoadStats => StartActionView::LoadStats,
            StartAction::RequestDeviceCode(id) => StartActionView::RequestDeviceCode(id@),
            StartAction::AwaitClientId => StartActionView::AwaitClientId,
        }
    }
}

pub open spec fn start_spec(s: AppView) -> (AppView, StartActionView) {
    if config_authenticated(s.config) {
        (AppView { screen: Screen::Home, ..s }, StartActionView::LoadStats)
    } else if config_client_id(s.config) is None {
        (AppView { screen: Screen::Setup, ..s }, StartActionView::AwaitClientId)
    } else {
        (s, StartActionView::RequestDeviceCode(config_client_id(s.config)->0))
    }
}

pub open spec fn next_tick(t: usize) -> usize {
    if t == usize::MAX { 0 } else { (t + 1) as usize }
}

pub open spec fn device_code_request_spec(s: AppView) -> Option<Seq<char>> {
    if s.screen == Screen::Setup && config_client_id(s.config) is Some && s.device_code is None {
        config_client_id(s.config)
    } else {
        None
    }
}

pub open spec fn token_poll_spec(s: AppView, now: u64) -> (AppView, Option<(Seq<char>, Seq<char>)>) {
    if s.screen == Screen::Login && should_poll_spec(s, now) && s.device_code is Some
        && config_client_id(s.config) is Some {
        (
            AppView { last_poll_at: Some(now), ..s },
            Some((config_client_id(s.config)->0, s.device_code->0)),
        )
    } else {
        (s, None)
    }
}

pub open spec fn poll_result_spec(s: AppView, r: Result<PollResultView, Seq<char>>) -> (AppView, bool) {
    match r {
        Ok(PollResultView::Token(t)) => (
            AppView { config: ConfigView { github_token: Some(t), ..s.config }, screen: Screen::Syncing, ..s },
            true,
        ),
        Ok(PollResultView::SlowDown) => (AppView { poll_interval: (s.poll_interval + 5) as u64, ..s }, false),
        Ok(PollResultView::Pending) => (s, false),
        Err(e) => (AppView { sync_status: SyncStatusView::Error(e), ..s }, false),
    }
}

pub open spec fn start_background_spec(s: AppView) -> (AppView, Option<Seq<char>>) {
    if s.screen == Screen::Home && s.config.auto_update && !s.fetch_pending && !s.bg_syncing
        && s.tick_count == 1 && s.config.github_token is Some {
        (AppView { fetch_pending: true, bg_syncing: true, ..s }, s.config.github_token)
    } else {
        (s, None)
    }
}

pub open spec fn finish_background_spec(s: AppView, synced_at: Option<Seq<char>>) -> (AppView, bool) {
    let s2 = AppView { fetch_pending: false, bg_syncing: false, ..s };
    match synced_at {
        Some(now) => (AppView { config: ConfigView { last_sync: Some(now), ..s.config }, ..s2 }, true),
        None => (s2, false),
    }
}

pub open spec fn info_line(m: Seq<char>) -> LogEntryView {
    LogEntryView { color: LogColor::White, message: m }
}

pub open spec fn ok_line(m: Seq<char>) -> LogEntryView {
    LogEntryView { color: LogColor::Green, message: m }
}

pub open spec fn warn_line(m: Seq<char>) -> LogEntryView {
    LogEntryView { color: LogColor::Yellow, message: m }
}

pub open spec fn err_line(m: Seq<char>) -> LogEntryView {
    LogEntryView { color: LogColor::Red, message: m }
}

pub open spec fn start_sync_spec(s: AppView) -> (AppView, Option<Seq<char>>) {
    if s.screen == Screen::Syncing && !s.fetch_pending && s.sync_status is Idle
        && s.config.github_token is Some {
        (
            AppView {
                fetch_pending: true,
                tracking_progress: true,
                sync_status: SyncStatusView::FetchingStars(0),
                sync_log: seq![info_line("▶ Starting sync…"@), info_line("  Connecting to GitHub API…"@)],
                ..s
            },
            s.config.github_token,
        )
    } else {
        (s, None)
    }
}

pub open spec fn progress_message(n: nat) -> Seq<char> {
    "  Fetching page… ("@ + nat_decimal(n) + " repos so far)"@
}

pub open spec fn record_progress_spec(s: AppView, n: usize) -> AppView {
    if n > 0 {
        let msg = progress_message(n as nat);
        let log = if s.sync_log.len() > 0 && starts_with_spec(s.sync_log.last().message, "  Fetching"@) {
            s.sync_log.update(s.sync_log.len() - 1, LogEntryView { message: msg, ..s.sync_log.last() })
        } else {
            s.sync_log.push(info_line(msg))
        };
        AppView { sync_log: log, sync_status: SyncStatusView::FetchingStars(n), ..s }
    } else {
        s
    }
}

pub open spec fn begin_classifying_spec(s: AppView, total: usize) -> AppView {
    AppView {
        fetch_pending: false,
        tracking_progress: false,
        sync_status: SyncStatusView::Classifying,
        sync_log: s.sync_log
            .push(ok_line("  ✓ Fetched "@ + nat_decimal(total as nat) + " repos"@))
            .push(warn_line("  Classifying by language & topics…"@)),
        ..s
    }
}

/// Which step failed for a repository while storing a sync.
#[derive(Clone, Copy, Debug, PartialEq, Eq, Structural)]
pub enum StoreStage {
    Store,
    Classify,
}

/// A repository that could not be stored or classified, and why.
pub struct StoreFailure {
    pub stage: StoreStage,
    pub repo_name: String,
    pub error: String,
}

pub open spec fn failure_message(stage: StoreStage, name: Seq<char>, error: Seq<char>) -> Seq<char> {
    match stage {
        StoreStage::Store => "  ✗ store "@ + name + ": "@ + error,
        StoreStage::Classify => "  ✗ classify "@ + name + ": "@ + error,
    }
}

pub open spec fn failure_lines(f: Seq<StoreFailure>) -> Seq<LogEntryView> {
    f.map_values(|x: StoreFailure| err_line(failure_message(x.stage, x.repo_name@, x.error@)))
}

pub open spec fn summary_line(total: nat, errors: nat, categories: int) -> LogEntryView {
    if errors == 0 {
        ok_line("  ✓ Classified "@ + nat_decimal(total) + " repos into "@ + int_decimal(categories) + " categories"@)
    } else {
        warn_line("  ⚠ Done with "@ + nat_decimal(errors) + " errors"@)
    }
}

pub open spec fn complete_sync_spec(
    s: AppView,
    total: usize,
    failures: Seq<StoreFailure>,
    category_count: Option<i64>,
    synced_at: Seq<char>,
) -> AppView {
    let cats: int = match category_count {
        Some(c) => c as int,
        None => 0,
    };
    AppView {
        config: ConfigView { last_sync: Some(synced_at), ..s.config },
        sync_status: SyncStatusView::Done(total),
        sync_log: s.sync_log + failure_lines(failures) + seq![
            summary_line(total as nat, failures.len(), cats),
            ok_line("  ✓ Sync complete at "@ + synced_at),
            info_line("  Press any key to continue…"@),
        ],
        ..s
    }
}

pub open spec fn fail_sync_spec(s: AppView, error: Seq<char>) -> AppView {
    AppView {
        fetch_pending: false,
        tracking_progress: false,
        sync_status: SyncStatusView::Error(error),
        sync_log: s.sync_log.push(err_line("  ✗ Error: "@ + error)),
        ..s
    }
}

pub open spec fn auto_advance_spec(s: AppView) -> AppView {
    if sync_finished(s.sync_status) && !s.fetch_pending && s.tick_count % 15 == 0 {
        AppView { sync_status: SyncStatusView::Idle, screen: Screen::Home, ..s }
    } else {
        s
    }
}

fn progress_text(n: usize) -> (m: String)
    ensures
        m@ == progress_message(n as nat),
{
    let mut m = String::from_str("  Fetching page… (");
    push_decimal(&mut m, n as u64);
    m.append(" repos so far)");
    m
}

fn failure_text(stage: StoreStage, name: &str, error: &str) -> (m: String)
    ensures
        m@ == failure_message(stage, name@, error@),
{
    let mut m = match stage {
        StoreStage::Store => concat("  ✗ store ", name),
        StoreStage::Classify => concat("  ✗ classify ", name),
    };
    m.append(": ");
    m.append(error);
    m
}

fn summary_entry(total: usize, errors: usize, categories: i64) -> (e: LogEntry)
    ensures
        e@ == summary_line(total as nat, errors as nat, categories as int),
{
    if errors == 0 {
        let mut m = String::from_str("  ✓ Classified ");
        push_decimal(&mut m, total as u64);
        m.append(" repos into ");
        push_int_decimal(&mut m, categories);
        m.append(" categories");
        LogEntry::ok(m)
    } else {
        let mut m = String::from_str("  ⚠ Done with ");
        push_decimal(&mut m, errors as u64);
        m.append(" errors");
        LogEntry::warn(m)
    }
}

impl App {
    // ── Loading ──────────────────────────────────────────────────────────────

    /// Records the repository and category counts; a failed count reads as zero.
    pub fn load_stats(&mut self, total_repos: Option<i64>, total_categories: Option<i64>)
        ensures
            final(self)@ == (AppView {
                total_repos: match total_repos { Some(n) => n, None => 0 },
                total_categories: match total_categories { Some(n) => n, None => 0 },
                ..old(self)@
            }),
    {
        self.total_repos = match total_repos { Some(n) => n, None => 0 };
        self.total_categories = match total_categories { Some(n) => n, None => 0 };
    }

    /// Shows the categories read from the store (none when the query failed).
    /// Returns whether the first category was just selected, so that its
    /// repositories must be loaded next.
    pub fn load_categories(&mut self, categories: Option<Vec<CategoryRow>>) -> (load_repos: bool)
        ensures
            (final(self)@, load_repos) == load_categories_spec(old(self)@, opt_categories_view(categories)),
    {
        self.categories = match categories {
            Some(c) => c,
            None => Vec::new(),
        };
        assert(categories_view(self.categories@) =~= categories_or_empty(opt_categories_view(categories)));
        if self.categories.len() > 0 && self.selected_category.is_none() {
            self.selected_category = Some(0);
            true
        } else {
            false
        }
    }

    /// The id of the selected category, when the selection is in range.
    pub fn selected_category_id(&self) -> (id: Option<i64>)
        ensures
            id == match selected_category_spec(self@) {
                Some(c) => Some(c.id),
                None => None,
            },
    {
        match self.selected_category {
            Some(i) => if i < self.categories.len() { Some(self.categories[i].id) } else { None },
            None => None,
        }
    }

    /// Shows the repositories of the selected category (none when the query failed)
    /// and selects the first one.
    pub fn load_repos_for_selected(&mut self, repos: Option<Vec<RepoRow>>)
        ensures
            final(self)@ == load_repos_spec(old(self)@, opt_repos_view(repos)),
    {
        if self.selected_category_id().is_some() {
            self.displayed_repos = match repos {
                Some(r) => r,
                None => Vec::new(),
            };
            assert(repos_view(self.displayed_repos@) =~= repos_or_empty(opt_repos_view(repos)));
            self.selected_repo = if self.displayed_repos.len() == 0 { None } else { Some(0) };
        }
    }

    /// Shows the results of the search for `search_query` (none when it is empty
    /// or the query failed) and selects the first one.
    pub fn run_search(&mut self, results: Option<Vec<RepoRow>>)
        ensures
            final(self)@ == run_search_spec(old(self)@, opt_repos_view(results)),
    {
        if self.search_query.as_str().is_empty() {
            self.search_results = Vec::new();
            self.selected_repo = None;
            assert(repos_view(self.search_results@) =~= Seq::empty());
        } else {
            self.search_results = match results {
                Some(r) => r,
                None => Vec::new(),
            };
            assert(repos_view(self.search_results@) =~= repos_or_empty(opt_repos_view(results)));
            self.selected_repo = if self.search_results.len() == 0 { None } else { Some(0) };
        }
    }

    /// Takes the answer to an AI search: on success the matching repositories
    /// are shown with the first one selected; on failure the error is shown.
    /// Either way the search is no longer loading.
    pub fn ai_finished(&mut self, result: Result<Vec<RepoRow>, String>)
        ensures
            final(self)@ == ai_finished_spec(old(self)@, match result {
                Ok(r) => Ok(repos_view(r@)),
                Err(e) => Err(e@),
            }),
    {
        match result {
            Ok(repos) => {
                self.selected_repo = if repos.len() == 0 { None } else { Some(0) };
                self.ai_results = repos;
                self.ai_loading = false;
            },
            Err(e) => {
                self.ai_error = Some(e);
                self.ai_loading = false;
            },
        }
    }

    // ── Auth polling ─────────────────────────────────────────────────────────

    /// Shows the code the user must enter and starts polling right away.
    pub fn start_device_flow(&mut self, device: DeviceCodeResponse)
        ensures
            final(self)@ == device_flow_spec(
                old(self)@,
                device.user_code@,
                device.verification_uri@,
                device.device_code@,
                device.interval,
            ),
    {
        self.device_user_code = Some(device.user_code);
        self.device_verification_uri = Some(device.verification_uri);
        self.polling.code = Some(device.device_code);
        self.polling.interval_secs = device.interval;
        self.polling.last_poll_at = None;
        self.screen = Screen::Login;
    }

    /// Whether at least the poll interval has passed since the last poll, at time `now` (seconds).
    pub fn should_poll_now(&self, now: u64) -> (b: bool)
        ensures
            b == should_poll_spec(self@, now),
    {
        match self.polling.last_poll_at {
            None => true,
            Some(t) => {
                let elapsed = if now >= t { now - t } else { 0 };
                elapsed >= self.polling.interval_secs
            },
        }
    }

    /// Records a poll attempt at time `now` (seconds), whatever its result.
    pub fn mark_polled(&mut self, now: u64)
        ensures
            final(self)@ == (AppView { last_poll_at: Some(now), ..old(self)@ }),
    {
        self.polling.last_poll_at = Some(now);
    }

    /// GitHub asked to slow down: the interval grows by five seconds.
    pub fn slow_down(&mut self)
        requires
            old(self)@.poll_interval + 5 <= u64::MAX,
        ensures
            final(self)@ == (AppView { poll_interval: (old(self)@.poll_interval + 5) as u64, ..old(self)@ }),
    {
        self.polling.interval_secs = self.polling.interval_secs + 5;
    }

    /// The device code being polled for, if a device flow was started.
    pub fn device_code(&self) -> (c: Option<&str>)
        ensures
            match c {
                Some(s) => self@.device_code == Some(s@),
                None => self@.device_code is None,
            },
    {
        match &self.polling.code {
            Some(s) => Some(s.as_str()),
            None => None,
        }
    }

    /// The current minimum number of seconds between polls.
    pub fn poll_interval_secs(&self) -> (s: u64)
        ensures
            s == self@.poll_interval,
    {
        self.polling.interval_secs
    }

    // ── Run loop decisions ───────────────────────────────────────────────────

    /// Chooses the first screen: home when a token is stored, setup when no
    /// client id is, else a device flow for the stored client id.
    pub fn start(&mut self) -> (action: StartAction)
        ensures
            (final(self)@, action@) == start_spec(old(self)@),
    {
        if self.config.is_authenticated() {
            self.screen = Screen::Home;
            StartAction::LoadStats
        } else {
            match self.config.client_id() {
                None => {
                    self.screen = Screen::Setup;
                    StartAction::AwaitClientId
                },
                Some(id) => StartAction::RequestDeviceCode(id.to_owned()),
            }
        }
    }

    /// Counts one tick, wrapping around at the largest count.
    pub fn begin_tick(&mut self)
        ensures
            final(self)@ == (AppView { tick_count: next_tick(old(self)@.tick_count), ..old(self)@ }),
    {
        self.tick_count = if self.tick_count == usize::MAX { 0 } else { self.tick_count + 1 };
    }

    /// After a client id was entered on the setup screen, the client id to request a device code for.
    pub fn device_code_request(&self) -> (id: Option<String>)
        ensures
            opt_view(id) == device_code_request_spec(self@),
    {
        match self.screen {
            Screen::Setup => {
                if self.polling.code.is_none() {
                    match self.config.client_id() {
                        Some(id) => Some(id.to_owned()),
                        None => None,
                    }
                } else {
                    None
                }
            },
            _ => None,
        }
    }

    /// Takes GitHub's answer to a device code request: the code to show, or the
    /// error. On success returns the verification URL, to open in the browser.
    pub fn apply_device_code(&mut self, reply: Result<DeviceCodeResponse, String>) -> (open: Option<String>)
        ensures
            final(self)@ == match reply {
                Ok(d) => device_flow_spec(old(self)@, d.user_code@, d.verification_uri@, d.device_code@, d.interval),
                Err(e) => auth_failed_spec(old(self)@, e@),
            },
            opt_view(open) == match reply {
                Ok(d) => Some(d.verification_uri@),
                Err(_) => None::<Seq<char>>,
            },
    {
        match reply {
            Ok(device) => {
                let uri = device.verification_uri.clone();
                self.start_device_flow(device);
                Some(uri)
            },
            Err(e) => {
                self.sync_status = SyncStatus::Error(e);
                self.screen = Screen::Login;
                None
            },
        }
    }

    /// On the login screen, when it is time to poll again at `now`: records the
    /// poll and returns the client id and device code to poll with.
    pub fn token_poll_request(&mut self, now: u64) -> (req: Option<(String, String)>)
        ensures
            (final(self)@, match req {
                Some((a, b)) => Some((a@, b@)),
                None => None,
            }) == token_poll_spec(old(self)@, now),
    {
        match self.screen {
            Screen::Login => {},
            _ => return None,
        }
        if !self.should_poll_now(now) {
            return None;
        }
        let code = match &self.polling.code {
            Some(c) => c.clone(),
            None => return None,
        };
        let id = match self.config.client_id() {
            Some(id) => id.to_owned(),
            None => return None,
        };
        self.mark_polled(now);
        Some((id, code))
    }

    /// Takes the outcome of a token poll. Returns whether the settings must be
    /// saved (a token was stored).
    pub fn apply_poll_result(&mut self, outcome: Result<PollResult, String>) -> (save: bool)
        requires
            outcome matches Ok(PollResult::SlowDown) ==> old(self)@.poll_interval + 5 <= u64::MAX,
        ensures
            (final(self)@, save) == poll_result_spec(old(self)@, crate::auth::poll_outcome_view(outcome)),
    {
        match outcome {
            Ok(PollResult::Token(token)) => {
                self.config.github_token = Some(token);
                self.screen = Screen::Syncing;
                true
            },
            Ok(PollResult::SlowDown) => {
                self.slow_down();
                false
            },
            Ok(PollResult::Pending) => false,
            Err(e) => {
                self.sync_status = SyncStatus::Error(e);
                false
            },
        }
    }

    /// On the first tick at home with auto-update on: marks a silent background
    /// fetch as running and returns the token to fetch with.
    pub fn start_background_sync(&mut self) -> (token: Option<String>)
        ensures
            (final(self)@, opt_view(token)) == start_background_spec(old(self)@),
    {
        match self.screen {
            Screen::Home => {},
            _ => return None,
        }
        if !self.config.auto_update || self.fetch_pending || self.bg_syncing || self.tick_count != 1 {
            return None;
        }
        match &self.config.github_token {
            Some(t) => {
                let t = t.clone();
                self.fetch_pending = true;
                self.bg_syncing = true;
                Some(t)
            },
            None => None,
        }
    }

    /// The background fetch ended; `synced_at` is the time of a successful sync
    /// (its repositories already stored). Returns whether it succeeded, in which
    /// case the settings must be saved and the counts and categories reloaded.
    pub fn finish_background_sync(&mut self, synced_at: Option<String>) -> (save: bool)
        ensures
            (final(self)@, save) == finish_background_spec(old(self)@, opt_view(synced_at)),
    {
        self.fetch_pending = false;
        self.bg_syncing = false;
        match synced_at {
            Some(now) => {
                self.config.last_sync = Some(now);
                true
            },
            None => false,
        }
    }

    /// On the syncing screen with nothing running: starts a fetch that reports
    /// its progress, and returns the token to fetch with.
    pub fn start_sync(&mut self) -> (token: Option<String>)
        ensures
            (final(self)@, opt_view(token)) == start_sync_spec(old(self)@),
    {
        match self.screen {
            Screen::Syncing => {},
            _ => return None,
        }
        if self.fetch_pending {
            return None;
        }
        match self.sync_status {
            SyncStatus::Idle => {},
            _ => return None,
        }
        match &self.config.github_token {
            Some(t) => {
                let t = t.clone();
                self.fetch_pending = true;
                self.tracking_progress = true;
                self.sync_log = Vec::new();
                self.sync_status = SyncStatus::FetchingStars(0);
                self.sync_log.push(LogEntry::info(String::from_str("▶ Starting sync…")));
                self.sync_log.push(LogEntry::info(String::from_str("  Connecting to GitHub API…")));
                assert(log_view(self.sync_log@) =~= seq![info_line("▶ Starting sync…"@), info_line("  Connecting to GitHub API…"@)]);
                Some(t)
            },
            None => None,
        }
    }

    /// The fetch reports its live page count `pages` (the pages that brought
    /// repositories so far): the progress line is updated, or a new one added.
    pub fn record_progress(&mut self, pages: usize)
        ensures
            final(self)@ == record_progress_spec(old(self)@, pages),
    {
        if pages > 0 {
            let msg = progress_text(pages);
            let len = self.sync_log.len();
            let replace = len > 0 && starts_with(self.sync_log[len - 1].message.as_str(), "  Fetching");
            if replace {
                let color = self.sync_log[len - 1].color;
                self.sync_log.set(len - 1, LogEntry { color, message: msg });
                assert(log_view(self.sync_log@) =~= record_progress_spec(old(self)@, pages).sync_log);
            } else {
                self.sync_log.push(LogEntry::info(msg));
                assert(log_view(self.sync_log@) =~= record_progress_spec(old(self)@, pages).sync_log);
            }
            self.sync_status = SyncStatus::FetchingStars(pages);
        }
    }

    /// The fetch delivered `total` repositories, which are about to be stored.
    pub fn begin_classifying(&mut self, total: usize)
        ensures
            final(self)@ == begin_classifying_spec(old(self)@, total),
    {
        self.fetch_pending = false;
        self.tracking_progress = false;
        let mut m = String::from_str("  ✓ Fetched ");
        push_decimal(&mut m, total as u64);
        m.append(" repos");
        self.sync_log.push(LogEntry::ok(m));
        self.sync_log.push(LogEntry::warn(String::from_str("  Classifying by language & topics…")));
        self.sync_status = SyncStatus::Classifying;
        assert(log_view(self.sync_log@) =~= begin_classifying_spec(old(self)@, total).sync_log);
    }

    /// All `total` fetched repositories went through storage with these
    /// `failures`; `category_count` is the number of categories now stored and
    /// `synced_at` the time of the sync. Returns whether the settings must be saved.
    pub fn complete_sync(
        &mut self,
        total: usize,
        failures: Vec<StoreFailure>,
        category_count: Option<i64>,
        synced_at: String,
    ) -> (save: bool)
        ensures
            final(self)@ == complete_sync_spec(old(self)@, total, failures@, category_count, synced_at@),
            save,
    {
        let ghost log0 = log_view(self.sync_log@);
        let mut i: usize = 0;
        while i < failures.len()
            invariant
                i <= failures.len(),
                log_view(self.sync_log@) == log0 + failure_lines(failures@.take(i as int)),
                log0 == log_view(old(self).sync_log@),
                self@ == (AppView { sync_log: log_view(self.sync_log@), ..old(self)@ }),
            decreases failures.len() - i,
        {
            let f = &failures[i];
            let line = LogEntry::err(failure_text(f.stage, f.repo_name.as_str(), f.error.as_str()));
            let ghost before = self.sync_log@;
            let ghost lv = line@;
            self.sync_log.push(line);
            proof {
                assert(self.sync_log@ == before.push(line));
                assert(log_view(self.sync_log@) =~= log_view(before).push(lv));
                assert(failure_lines(failures@.take(i + 1)) =~= failure_lines(failures@.take(i as int)).push(
                    err_line(failure_message(failures@[i as int].stage, failures@[i as int].repo_name@, failures@[i as int].error@))));
                assert(log_view(self.sync_log@) =~= log0 + failure_lines(failures@.take(i + 1)));
            }
            i = i + 1;
        }
        assert(failures@.take(failures.len() as int) =~= failures@);
        let cats: i64 = match category_count { Some(c) => c, None => 0 };
        self.sync_log.push(summary_entry(total, failures.len(), cats));
        let done = concat("  ✓ Sync complete at ", synced_at.as_str());
        self.sync_log.push(LogEntry::ok(done));
        self.sync_log.push(LogEntry::info(String::from_str("  Press any key to continue…")));
        self.config.last_sync = Some(synced_at);
        self.sync_status = SyncStatus::Done(total);
        assert(log_view(self.sync_log@) =~= complete_sync_spec(old(self)@, total, failures@, category_count, synced_at@).sync_log);
        true
    }

    /// The fetch failed with `error`.
    pub fn fail_sync(&mut self, error: String)
        ensures
            final(self)@ == fail_sync_spec(old(self)@, error@),
    {
        self.fetch_pending = false;
        self.tracking_progress = false;
        let line = LogEntry::err(concat("  ✗ Error: ", error.as_str()));
        self.sync_log.push(line);
        assert(log_view(self.sync_log@) =~= fail_sync_spec(old(self)@, error@).sync_log);
        self.sync_status = SyncStatus::Error(error);
    }

    /// Every fifteenth tick after a finished sync, goes back home.
    pub fn auto_advance(&mut self)
        ensures
            final(self)@ == auto_advance_spec(old(self)@),
    {
        let finished = match self.sync_status {
            SyncStatus::Done(_) | SyncStatus::Error(_) => true,
            _ => false,
        };
        if finished && !self.fetch_pending && self.tick_count % 15 == 0 {
            self.sync_status = SyncStatus::Idle;
            self.screen = Screen::Home;
        }
    }
}


// ── Laws ─────────────────────────────────────────────────────────────────────

pub open spec fn key(code: KeyCode) -> KeyEvent {
    KeyEvent { code, modifiers: Modifiers::NoModifier }
}

/// On the search screen, typing a character and then Backspace gives back the
/// query as it was, and both keys ask for the search to run again.
pub proof fn lemma_search_type_then_erase(s: AppView, c: char)
    requires
        s.screen == Screen::Search,
    ensures
        ({
            let (s1, e1) = handle_key_spec(s, key(KeyCode::Char(c)));
            let (s2, e2) = handle_key_spec(s1, key(KeyCode::Backspace));
            &&& s2.search_query == s.search_query
            &&& s2 == s
            &&& e1 == KeyEffectView::RunSearch
            &&& e2 == KeyEffectView::RunSearch
        }),
{
    let (s1, _) = handle_key_spec(s, key(KeyCode::Char(c)));
    assert(s1.search_query.drop_last() =~= s.search_query);
}

/// In the settings, while no field is being edited, pressing `a` twice
/// leaves every setting as it was, and
/// each press asks for the settings to be saved.
pub proof fn lemma_settings_toggle_twice(s: AppView)
    requires
        s.screen == Screen::Settings,
        s.settings_editing is None,
    ensures
        ({
            let (s1, e1) = handle_key_spec(s, key(KeyCode::Char('a')));
            let (s2, e2) = handle_key_spec(s1, key(KeyCode::Char('a')));
            &&& s1.config.auto_update == !s.config.auto_update
            &&& s2 == s
            &&& e1 == KeyEffectView::SaveConfig
            &&& e2 == KeyEffectView::SaveConfig
        }),
{
}

/// In the browse screen's repository pane, moving down or up keeps a
/// non-empty list's selection on one of its items.
pub proof fn lemma_browse_selection_in_range(s: AppView, code: KeyCode)
    requires
        s.screen == Screen::Browse,
        s.browse_pane == BrowsePane::Repos,
        s.displayed_repos.len() > 0,
        code == KeyCode::Up || code == KeyCode::Down,
        match s.selected_repo {
            Some(i) => i < s.displayed_repos.len(),
            None => true,
        },
    ensures
        ({
            let (s1, _) = handle_key_spec(s, key(code));
            match s1.selected_repo {
                Some(i) => i < s1.displayed_repos.len(),
                None => code == KeyCode::Up,
            }
        }),
{
}

/// In the category pane, moving down selects an existing category whenever there is one.
pub proof fn lemma_browse_category_down_in_range(s: AppView)
    requires
        s.screen == Screen::Browse,
        s.browse_pane == BrowsePane::Categories,
        s.categories.len() > 0,
    ensures
        ({
            let (s1, e) = handle_key_spec(s, key(KeyCode::Down));
            &&& selected_category_spec(s1) is Some
            &&& e == KeyEffectView::LoadRepos
        }),
{
}

/// `Esc` on the home screen quits; on the login screen every quit key does.
pub proof fn lemma_quit_keys(s: AppView, k: KeyEvent)
    ensures
        s.screen == Screen::Home && k.code == KeyCode::Esc ==> handle_key_spec(s, k).0.should_quit,
        s.screen == Screen::Login && is_quit_spec(k) ==> handle_key_spec(s, k).0.should_quit,
        s.screen == Screen::Login && !is_quit_spec(k) ==> handle_key_spec(s, k).0 == s,
{
}

/// Entering a client id on the setup screen stores it trimmed, and the next
/// tick asks for a device code for exactly that id.
pub proof fn lemma_setup_then_device_code(s: AppView)
    requires
        s.screen == Screen::Setup,
        s.device_code is None,
        trim_spec(s.setup_input).len() > 0,
    ensures
        ({
            let (s1, e) = handle_key_spec(s, key(KeyCode::Enter));
            &&& e == KeyEffectView::SaveConfig
            &&& s1.config.client_id == Some(trim_spec(s.setup_input))
            &&& device_code_request_spec(s1) == Some(trim_spec(s.setup_input))
        }),
{
}

/// Right after a poll at `now`, polling is due again exactly when the
/// interval has elapsed.
pub proof fn lemma_poll_timing(s: AppView, now: u64, later: u64)
    requires
        later >= now,
    ensures
        ({
            let s1 = AppView { last_poll_at: Some(now), ..s };
            should_poll_spec(s1, later) <==> later - now >= s.poll_interval
        }),
{
}

/// A `slow_down` reply lengthens the interval by five seconds and changes nothing else.
pub proof fn lemma_slow_down(s: AppView)
    requires
        s.poll_interval + 5 <= u64::MAX,
    ensures
        poll_result_spec(s, Ok(PollResultView::SlowDown)).0 == (AppView {
            poll_interval: (s.poll_interval + 5) as u64,
            ..s
        }),
{
}

/// A token obtained by polling (never empty) authenticates the user: the
/// sync starts, and the next start of the application goes straight home.
pub proof fn lemma_token_authenticates(
    s: AppView,
    access_token: Option<Seq<char>>,
    error: Option<Seq<char>>,
    description: Option<Seq<char>>,
)
    requires
        crate::auth::poll_outcome_spec(access_token, error, description) matches Ok(
            PollResultView::Token(_),
        ),
    ensures
        ({
            let (s1, save) = poll_result_spec(s, crate::auth::poll_outcome_spec(access_token, error, description));
            &&& save
            &&& s1.screen == Screen::Syncing
            &&& config_authenticated(s1.config)
            &&& start_spec(s1).1 == StartActionView::LoadStats
        }),
{
}

/// After a sync completes, a key press on the syncing screen goes back home.
pub proof fn lemma_sync_done_then_key(
    s: AppView,
    total: usize,
    failures: Seq<StoreFailure>,
    category_count: Option<i64>,
    synced_at: Seq<char>,
    k: KeyEvent,
)
    requires
        s.screen == Screen::Syncing,
    ensures
        ({
            let s1 = complete_sync_spec(s, total, failures, category_count, synced_at);
            let (s2, _) = handle_key_spec(s1, k);
            &&& s1.config.last_sync == Some(synced_at)
            &&& s2.screen == Screen::Home
            &&& s2.sync_status == SyncStatusView::Idle
        }),
{
}

/// The silent background update starts only on the first tick.
pub proof fn lemma_background_only_first_tick(s: AppView)
    requires
        s.tick_count != 1,
    ensures
        start_background_spec(s) == (s, None::<Seq<char>>),
{
}


/// On the AI search screen, Tab from the query to the results and Esc back
/// to the query leave everything as it was.
pub proof fn lemma_ai_focus_round_trip(s: AppView)
    requires
        s.screen == Screen::AiSearch,
        s.ai_focus_query,
    ensures
        ({
            let (s1, e1) = handle_key_spec(s, key(KeyCode::Tab));
            let (s2, e2) = handle_key_spec(s1, key(KeyCode::Esc));
            &&& !s1.ai_focus_query
            &&& s2 == s
            &&& e1 == KeyEffectView::Nothing
            &&& e2 == KeyEffectView::Nothing
        }),
{
}

/// An AI search starts only for a query that is not blank, with the
/// credentials that the configuration holds; without them the screen shows
/// which one is missing and nothing is sent.
pub proof fn lemma_ai_search_needs_credentials(s: AppView)
    requires
        s.screen == Screen::AiSearch,
        s.ai_focus_query,
    ensures
        ({
            let (s1, e) = handle_key_spec(s, key(KeyCode::Enter));
            &&& (e matches KeyEffectView::StartAiSearch(q, c) ==> {
                &&& q == trim_spec(s.ai_query)
                &&& q.len() > 0
                &&& client_for_spec(s.config) == Ok::<_, Seq<char>>(c)
                &&& s1.ai_loading
            })
            &&& (trim_spec(s.ai_query).len() > 0 && !s.ai_loading && client_for_spec(s.config) is Err ==> {
                &&& e == KeyEffectView::Nothing
                &&& s1.ai_error == Some(client_for_spec(s.config)->Err_0)
            })
        }),
{
}

/// In the settings, starting to type a setting (the Copilot token only while
/// Copilot is on) and dropping it with Esc leaves the configuration unchanged
/// and asks for no save.
pub proof fn lemma_setting_edit_cancel(s: AppView, c: char)
    requires
        s.screen == Screen::Settings,
        s.settings_editing is None,
        c == 'k' || c == 'm' || (c == 'p' && s.config.use_copilot),
    ensures
        ({
            let (s1, e1) = handle_key_spec(s, key(KeyCode::Char(c)));
            let (s2, e2) = handle_key_spec(s1, key(KeyCode::Esc));
            &&& s2.config == s.config
            &&& s2.screen == Screen::Settings
            &&& s2.settings_editing is None
            &&& e1 == KeyEffectView::Nothing
            &&& e2 == KeyEffectView::Nothing
        }),
{
}

/// Enter on a setting being typed stores exactly what was typed, trimmed
/// (blank unsets it), leaves the other settings alone and asks for a save.
pub proof fn lemma_setting_edit_store(s: AppView, field: EditField)
    requires
        s.screen == Screen::Settings,
        s.settings_editing == Some(field),
    ensures
        ({
            let (s1, e) = handle_key_spec(s, key(KeyCode::Enter));
            let v = setting_input_spec(s.settings_key_input);
            &&& e == KeyEffectView::SaveConfig
            &&& s1.settings_editing is None
            &&& match field {
                EditField::OpenAiKey => s1.config == ConfigView { openai_api_key: v, ..s.config },
                EditField::CopilotToken => s1.config == ConfigView { copilot_github_token: v, ..s.config },
                EditField::Model => s1.config == ConfigView { openai_model: v, ..s.config },
            }
        }),
{
}


/// What happens to a device flow between polls: GitHub asks to slow down, or a
/// poll is made at the given time.
pub enum PollEvent {
    SlowDown,
    Polled(u64),
}

/// The state after `evs`, each applied as [`App::slow_down`] and
/// [`App::mark_polled`] apply it.
pub open spec fn after_poll_events(s: AppView, evs: Seq<PollEvent>) -> AppView
    decreases evs.len(),
{
    if evs.len() == 0 {
        s
    } else {
        let p = after_poll_events(s, evs.drop_last());
        match evs.last() {
            PollEvent::SlowDown => AppView { poll_interval: (p.poll_interval + 5) as u64, ..p },
            PollEvent::Polled(t) => AppView { last_poll_at: Some(t), ..p },
        }
    }
}

/// How many of `evs` are slow-downs.
pub open spec fn slow_downs(evs: Seq<PollEvent>) -> nat
    decreases evs.len(),
{
    if evs.len() == 0 {
        0
    } else {
        slow_downs(evs.drop_last()) + if evs.last() is SlowDown { 1nat } else { 0nat }
    }
}

/// The time of the last poll among `evs`, if any.
pub open spec fn last_poll(evs: Seq<PollEvent>) -> Option<u64>
    decreases evs.len(),
{
    if evs.len() == 0 {
        None
    } else {
        match evs.last() {
            PollEvent::Polled(t) => Some(t),
            PollEvent::SlowDown => last_poll(evs.drop_last()),
        }
    }
}

proof fn lemma_slow_downs_prefix(evs: Seq<PollEvent>)
    requires
        evs.len() > 0,
    ensures
        slow_downs(evs.drop_last()) <= slow_downs(evs),
{
}

/// After a device flow starts with `interval`, any slow-downs and polls leave
/// the interval grown by five seconds per slow-down; a poll is due at once
/// while none was made, and otherwise exactly when the grown interval has
/// passed since the last one (given a clock that does not go back).
pub proof fn lemma_poll_timing_across_slow_downs(
    s: AppView,
    user_code: Seq<char>,
    uri: Seq<char>,
    code: Seq<char>,
    interval: u64,
    evs: Seq<PollEvent>,
    now: u64,
)
    requires
        interval + 5 * slow_downs(evs) <= u64::MAX,
        last_poll(evs) matches Some(t0) ==> t0 <= now,
    ensures
        ({
            let f = after_poll_events(device_flow_spec(s, user_code, uri, code, interval), evs);
            &&& f.poll_interval == interval + 5 * slow_downs(evs)
            &&& f.last_poll_at == last_poll(evs)
            &&& should_poll_spec(f, now) == match last_poll(evs) {
                None => true,
                Some(t0) => now - t0 >= interval + 5 * slow_downs(evs),
            }
        }),
{
    lemma_poll_interval_across_events(s, user_code, uri, code, interval, evs);
}

proof fn lemma_poll_interval_across_events(
    s: AppView,
    user_code: Seq<char>,
    uri: Seq<char>,
    code: Seq<char>,
    interval: u64,
    evs: Seq<PollEvent>,
)
    requires
        interval + 5 * slow_downs(evs) <= u64::MAX,
    ensures
        ({
            let f = after_poll_events(device_flow_spec(s, user_code, uri, code, interval), evs);
            &&& f.poll_interval == interval + 5 * slow_downs(evs)
            &&& f.last_poll_at == last_poll(evs)
        }),
    decreases evs.len(),
{
    if evs.len() > 0 {
        lemma_slow_downs_prefix(evs);
        lemma_poll_interval_across_events(s, user_code, uri, code, interval, evs.drop_last());
    }
}


/// One step of the run loop that can touch the fetch of starred repositories:
/// a key, a tick, a reply from GitHub, or one of the sync steps, each as the
/// loop hands it to [`App`].
pub enum RunEvent {
    Key(KeyEvent),
    Tick,
    DeviceCode(Result<DeviceCodeResponse, String>),
    Poll(Result<PollResult, String>),
    /// The loop asks whether the silent background update starts.
    StartBackground,
    /// The background fetch answered (with the time of the finished sync, if it worked).
    BackgroundResult(Option<String>),
    /// The loop asks whether a foreground sync starts.
    StartSync,
    Progress(usize),
    /// The foreground fetch brought this many repositories.
    Fetched(usize),
    /// The foreground fetch failed.
    FetchFailed(String),
    Completed(usize, Vec<StoreFailure>, Option<i64>, String),
    AutoAdvance,
}

/// The state after `e`, whether it started a fetch, and whether it ended one.
/// A fetch result is taken only while such a fetch is pending, as the loop
/// receives it only then.
pub open spec fn run_step(s: AppView, e: RunEvent) -> (AppView, bool, bool) {
    match e {
        RunEvent::Key(k) => (handle_key_spec(s, k).0, false, false),
        RunEvent::Tick => (AppView { tick_count: next_tick(s.tick_count), ..s }, false, false),
        RunEvent::DeviceCode(r) => (
            match r {
                Ok(d) => device_flow_spec(s, d.user_code@, d.verification_uri@, d.device_code@, d.interval),
                Err(m) => auth_failed_spec(s, m@),
            },
            false,
            false,
        ),
        RunEvent::Poll(r) => (poll_result_spec(s, crate::auth::poll_outcome_view(r)).0, false, false),
        RunEvent::StartBackground => {
            let (s2, t) = start_background_spec(s);
            (s2, t is Some, false)
        },
        RunEvent::BackgroundResult(r) => if s.bg_syncing {
            (finish_background_spec(s, opt_view(r)).0, false, true)
        } else {
            (s, false, false)
        },
        RunEvent::StartSync => {
            let (s2, t) = start_sync_spec(s);
            (s2, t is Some, false)
        },
        RunEvent::Progress(n) => (record_progress_spec(s, n), false, false),
        RunEvent::Fetched(total) => if s.fetch_pending && !s.bg_syncing {
            (begin_classifying_spec(s, total), false, true)
        } else {
            (s, false, false)
        },
        RunEvent::FetchFailed(m) => if s.fetch_pending && !s.bg_syncing {
            (fail_sync_spec(s, m@), false, true)
        } else {
            (s, false, false)
        },
        RunEvent::Completed(total, failures, cats, at) => (
            complete_sync_spec(s, total, failures@, cats, at@),
            false,
            false,
        ),
        RunEvent::AutoAdvance => (auto_advance_spec(s), false, false),
    }
}

/// The state after `evs`, with the number of fetches started and ended.
pub open spec fn run_events(s: AppView, evs: Seq<RunEvent>) -> (AppView, nat, nat)
    decreases evs.len(),
{
    if evs.len() == 0 {
        (s, 0, 0)
    } else {
        let (p, started, ended) = run_events(s, evs.drop_last());
        let (q, st, en) = run_step(p, evs.last());
        (q, started + if st { 1nat } else { 0nat }, ended + if en { 1nat } else { 0nat })
    }
}

/// One step keeps the background fetch counted as the pending one, starts a
/// fetch only when none is pending, and ends one only when one is.
proof fn lemma_run_step(s: AppView, e: RunEvent)
    requires
        s.bg_syncing ==> s.fetch_pending,
    ensures
        ({
            let (q, st, en) = run_step(s, e);
            &&& q.bg_syncing ==> q.fetch_pending
            &&& st ==> !s.fetch_pending && q.fetch_pending && !en
            &&& en ==> s.fetch_pending && !q.fetch_pending
            &&& !st && !en ==> q.fetch_pending == s.fetch_pending
        }),
{
    match e {
        RunEvent::Key(k) => {
            assert(handle_key_spec(s, k).0.fetch_pending == s.fetch_pending);
            assert(handle_key_spec(s, k).0.bg_syncing == s.bg_syncing);
        },
        _ => {},
    }
}

/// At every point of a run that starts with no fetch pending, at most one
/// fetch of the starred repositories is pending: a fetch, background or
/// foreground, starts only when none is, so the fetches started are the ones
/// ended plus the one pending, if any.
pub proof fn lemma_one_pending_fetch(s: AppView, evs: Seq<RunEvent>)
    requires
        !s.fetch_pending,
        !s.bg_syncing,
    ensures
        ({
            let (f, started, ended) = run_events(s, evs);
            &&& started == ended + if f.fetch_pending { 1nat } else { 0nat }
            &&& f.bg_syncing ==> f.fetch_pending
        }),
    decreases evs.len(),
{
    if evs.len() > 0 {
        lemma_one_pending_fetch(s, evs.drop_last());
        let (p, _, _) = run_events(s, evs.drop_last());
        lemma_run_step(p, evs.last());
    }
}


/// In the browse screen, Tab switches between the category and repository
/// lists, and a second Tab switches back, leaving everything as it was.
pub proof fn lemma_browse_tab_switches(s: AppView)
    requires
        s.screen == Screen::Browse,
    ensures
        ({
            let (s1, e1) = handle_key_spec(s, key(KeyCode::Tab));
            let (s2, e2) = handle_key_spec(s1, key(KeyCode::Tab));
            &&& s1.browse_pane != s.browse_pane
            &&& s1 == AppView { browse_pane: s1.browse_pane, ..s }
            &&& s2 == s
            &&& e1 == KeyEffectView::Nothing
            &&& e2 == KeyEffectView::Nothing
        }),
{
}


/// Up moves a selection exactly one item up (staying on the first item), in
/// both browse lists, the search results and the AI results; and in the
/// repository list, Down then Up comes back to the same item whenever a next
/// one exists.
pub proof fn lemma_up_moves_one(s: AppView, i: usize)
    ensures
        s.screen == Screen::Browse && s.browse_pane == BrowsePane::Categories && s.selected_category == Some(i)
            ==> handle_key_spec(s, key(KeyCode::Up)).0.selected_category == Some(
            if i > 0 { (i - 1) as usize } else { 0usize },
        ),
        s.screen == Screen::Browse && s.browse_pane == BrowsePane::Repos && s.selected_repo == Some(i)
            ==> handle_key_spec(s, key(KeyCode::Up)).0.selected_repo == Some(
            if i > 0 { (i - 1) as usize } else { 0usize },
        ),
        s.screen == Screen::Search && s.selected_repo == Some(i)
            ==> handle_key_spec(s, key(KeyCode::Up)).0.selected_repo == Some(
            if i > 0 { (i - 1) as usize } else { 0usize },
        ),
        s.screen == Screen::AiSearch && !s.ai_focus_query && s.selected_repo == Some(i)
            ==> handle_key_spec(s, key(KeyCode::Up)).0.selected_repo == Some(
            if i > 0 { (i - 1) as usize } else { 0usize },
        ),
        s.screen == Screen::Browse && s.browse_pane == BrowsePane::Repos && s.selected_repo == Some(i)
            && i + 1 < s.displayed_repos.len() <= usize::MAX ==> ({
            let s1 = handle_key_spec(s, key(KeyCode::Down)).0;
            &&& s1.selected_repo == Some((i + 1) as usize)
            &&& handle_key_spec(s1, key(KeyCode::Up)).0.selected_repo == Some(i)
        }),
{
}

/// Enter opens the selected item of the list on screen, and nothing from any
/// other list: on the search screen the selected search result, in the
/// browse screen's repository pane the selected repository, and on the AI
/// results the selected AI result. Without a selection in range nothing opens.
pub proof fn lemma_enter_opens_selected(s: AppView)
    ensures
        s.screen == Screen::Search ==> handle_key_spec(s, key(KeyCode::Enter)).1 == match s.selected_repo {
            Some(i) => if i < s.search_results.len() {
                KeyEffectView::OpenUrl(s.search_results[i as int].url)
            } else {
                KeyEffectView::Nothing
            },
            None => KeyEffectView::Nothing,
        },
        s.screen == Screen::Browse && s.browse_pane == BrowsePane::Repos
            ==> handle_key_spec(s, key(KeyCode::Enter)).1 == match s.selected_repo {
            Some(i) => if i < s.displayed_repos.len() {
                KeyEffectView::OpenUrl(s.displayed_repos[i as int].url)
            } else {
                KeyEffectView::Nothing
            },
            None => KeyEffectView::Nothing,
        },
        s.screen == Screen::AiSearch && !s.ai_focus_query
            ==> handle_key_spec(s, key(KeyCode::Enter)).1 == match s.selected_repo {
            Some(i) => if i < s.ai_results.len() {
                KeyEffectView::OpenUrl(s.ai_results[i as int].url)
            } else {
                KeyEffectView::Nothing
            },
            None => KeyEffectView::Nothing,
        },
        s.screen == Screen::Search || (s.screen == Screen::Browse && s.browse_pane == BrowsePane::Repos) ==> {
            let e = handle_key_spec(s, key(KeyCode::Enter));
            e.0 == s
        },
{
}

} // verus!
