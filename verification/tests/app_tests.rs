use github_stars_pocket::app::{
    App, BrowsePane, KeyEffect, LogColor, Screen, StartAction, StoreFailure, StoreStage, SyncStatus,
};
use github_stars_pocket::auth::{DeviceCodeResponse, PollResult};
use github_stars_pocket::config::Config;
use github_stars_pocket::events::{is_quit, KeyCode, KeyEvent, Modifiers};
use github_stars_pocket::storage::{CategoryRow, RepoRow};

fn key(code: KeyCode) -> KeyEvent {
    KeyEvent { code, modifiers: Modifiers::NoModifier }
}

fn ctrl(c: char) -> KeyEvent {
    KeyEvent { code: KeyCode::Char(c), modifiers: Modifiers::ControlOnly }
}

fn repo(id: i64, url: &str) -> RepoRow {
    RepoRow {
        id,
        github_id: id,
        name: format!("r{id}"),
        full_name: format!("o/r{id}"),
        owner: "o".into(),
        description: None,
        language: None,
        url: url.into(),
        stars_count: 0,
        topics_json: "[]".into(),
        starred_at: "t".into(),
    }
}

fn cat(id: i64, name: &str) -> CategoryRow {
    CategoryRow { id, name: name.into(), category_type: "topic".into(), count: 1 }
}

fn authed() -> Config {
    let mut c = Config::default();
    c.github_token = Some("tok".into());
    c.client_id = Some("cid".into());
    c
}

fn device() -> DeviceCodeResponse {
    DeviceCodeResponse {
        device_code: "dc".into(),
        user_code: "ABCD-1234".into(),
        verification_uri: "https://github.com/login/device".into(),
        expires_in: 900,
        interval: 5,
    }
}

#[test]
fn quit_keys() {
    assert!(is_quit(&key(KeyCode::Char('q'))));
    assert!(is_quit(&key(KeyCode::Esc)));
    assert!(is_quit(&ctrl('c')));
    assert!(!is_quit(&ctrl('q')));
    assert!(!is_quit(&KeyEvent { code: KeyCode::Esc, modifiers: Modifiers::Other }));
    let mut app = App::new(Config::default());
    app.screen = Screen::Login;
    app.handle_key(key(KeyCode::Char('x')));
    assert!(!app.should_quit);
    app.handle_key(ctrl('c'));
    assert!(app.should_quit);
}

#[test]
fn start_chooses_first_screen() {
    let mut app = App::new(authed());
    assert!(matches!(app.start(), StartAction::LoadStats));
    assert_eq!(app.screen, Screen::Home);
    let mut app = App::new(Config::default());
    assert!(matches!(app.start(), StartAction::AwaitClientId));
    assert_eq!(app.screen, Screen::Setup);
    let mut c = Config::default();
    c.client_id = Some("cid".into());
    let mut app = App::new(c);
    assert!(matches!(app.start(), StartAction::RequestDeviceCode(id) if id == "cid"));
}

#[test]
fn setup_typing_and_enter() {
    let mut app = App::new(Config::default());
    app.screen = Screen::Setup;
    for c in " Ov2x ".chars() {
        app.handle_key(key(KeyCode::Char(c)));
    }
    app.handle_key(key(KeyCode::Backspace));
    assert_eq!(app.setup_input, " Ov2x");
    assert!(app.device_code_request().is_none());
    assert!(matches!(app.handle_key(key(KeyCode::Enter)), KeyEffect::SaveConfig));
    assert_eq!(app.config.client_id.as_deref(), Some("Ov2x"));
    assert_eq!(app.setup_input, "");
    assert_eq!(app.device_code_request().as_deref(), Some("Ov2x"));
    // Blank input is ignored; Ctrl+Q quits.
    app.setup_input = "   ".into();
    assert!(matches!(app.handle_key(key(KeyCode::Enter)), KeyEffect::Nothing));
    app.handle_key(ctrl('q'));
    assert!(app.should_quit);
}

#[test]
fn home_navigation() {
    let mut app = App::new(authed());
    app.search_query = "old".into();
    app.selected_repo = Some(3);
    app.handle_key(key(KeyCode::Char('/')));
    assert_eq!(app.screen, Screen::Search);
    assert_eq!(app.search_query, "");
    assert!(app.selected_repo.is_none());
    app.screen = Screen::Home;
    app.handle_key(key(KeyCode::Char('u')));
    assert_eq!(app.screen, Screen::Syncing);
    app.screen = Screen::Home;
    app.handle_key(key(KeyCode::Esc));
    assert!(app.should_quit);
}

#[test]
fn browse_navigation_and_loading() {
    let mut app = App::new(authed());
    assert!(app.load_categories(Some(vec![cat(10, "Rust"), cat(20, "cli")])));
    assert_eq!(app.selected_category, Some(0));
    assert_eq!(app.selected_category_id(), Some(10));
    app.load_repos_for_selected(Some(vec![repo(1, "u1"), repo(2, "u2")]));
    assert_eq!(app.selected_repo, Some(0));
    app.screen = Screen::Browse;
    assert!(matches!(app.handle_key(key(KeyCode::Down)), KeyEffect::LoadRepos));
    assert_eq!(app.selected_category, Some(1));
    assert!(matches!(app.handle_key(key(KeyCode::Down)), KeyEffect::LoadRepos));
    assert_eq!(app.selected_category, Some(1));
    app.handle_key(key(KeyCode::Tab));
    assert_eq!(app.browse_pane, BrowsePane::Repos);
    app.handle_key(key(KeyCode::Down));
    app.handle_key(key(KeyCode::Down));
    assert_eq!(app.selected_repo, Some(1));
    assert!(matches!(app.handle_key(key(KeyCode::Enter)), KeyEffect::OpenUrl(u) if u == "u2"));
    app.handle_key(key(KeyCode::Up));
    app.handle_key(key(KeyCode::Up));
    assert_eq!(app.selected_repo, Some(0));
    // Tab switches back to the categories, and again to the repositories.
    app.handle_key(key(KeyCode::Tab));
    assert_eq!(app.browse_pane, BrowsePane::Categories);
    app.handle_key(key(KeyCode::Tab));
    assert_eq!(app.browse_pane, BrowsePane::Repos);
    app.handle_key(key(KeyCode::Right));
    assert_eq!(app.browse_pane, BrowsePane::Repos);
    app.handle_key(key(KeyCode::Left));
    assert!(matches!(app.handle_key(key(KeyCode::Enter)), KeyEffect::Nothing));
    // A failed query shows nothing.
    app.load_repos_for_selected(None);
    assert!(app.displayed_repos.is_empty());
    assert_eq!(app.selected_repo, None);
    app.handle_key(key(KeyCode::Char('q')));
    assert_eq!(app.screen, Screen::Home);
}

#[test]
fn search_typing_erasing_and_results() {
    let mut app = App::new(authed());
    app.screen = Screen::Search;
    assert!(matches!(app.handle_key(key(KeyCode::Char('t'))), KeyEffect::RunSearch));
    app.run_search(Some(vec![repo(1, "a"), repo(2, "b")]));
    assert_eq!(app.selected_repo, Some(0));
    app.handle_key(key(KeyCode::Down));
    app.handle_key(key(KeyCode::Down));
    assert_eq!(app.selected_repo, Some(1));
    assert!(matches!(app.handle_key(key(KeyCode::Char('x'))), KeyEffect::RunSearch));
    assert!(matches!(app.handle_key(key(KeyCode::Backspace)), KeyEffect::RunSearch));
    assert_eq!(app.search_query, "t");
    app.handle_key(key(KeyCode::Backspace));
    app.run_search(Some(vec![repo(3, "c")]));
    assert!(app.search_results.is_empty());
    assert_eq!(app.selected_repo, None);
}

#[test]
fn settings_toggle_and_logout() {
    let mut app = App::new(authed());
    app.screen = Screen::Settings;
    assert!(matches!(app.handle_key(key(KeyCode::Char('a'))), KeyEffect::SaveConfig));
    assert!(!app.config.auto_update);
    app.handle_key(key(KeyCode::Char('a')));
    assert!(app.config.auto_update);
    assert!(matches!(app.handle_key(key(KeyCode::Char('l'))), KeyEffect::SaveConfig));
    assert!(app.config.github_token.is_none());
    assert_eq!(app.screen, Screen::Login);
}

#[test]
fn device_flow_and_polling() {
    let mut app = App::new(Config { client_id: Some("cid".into()), ..Config::default() });
    assert_eq!(app.apply_device_code(Err("GitHub OAuth error: x".into())), None);
    assert_eq!(app.screen, Screen::Login);
    assert!(matches!(&app.sync_status, SyncStatus::Error(e) if e == "GitHub OAuth error: x"));
    assert_eq!(app.apply_device_code(Ok(device())).as_deref(), Some("https://github.com/login/device"));
    assert_eq!(app.device_code(), Some("dc"));
    assert_eq!(app.device_user_code.as_deref(), Some("ABCD-1234"));
    assert!(app.should_poll_now(0));
    assert_eq!(app.token_poll_request(100), Some(("cid".to_string(), "dc".to_string())));
    assert!(app.token_poll_request(104).is_none());
    assert!(!app.should_poll_now(104));
    assert!(app.should_poll_now(105));
    assert!(!app.apply_poll_result(Ok(PollResult::SlowDown)));
    assert_eq!(app.poll_interval_secs(), 10);
    assert!(!app.should_poll_now(109));
    assert!(!app.apply_poll_result(Ok(PollResult::Pending)));
    assert!(app.apply_poll_result(Ok(PollResult::Token("gho_new".into()))));
    assert_eq!(app.screen, Screen::Syncing);
    assert!(app.config.is_authenticated());
}

#[test]
fn foreground_sync_log() {
    let mut app = App::new(authed());
    app.screen = Screen::Syncing;
    assert_eq!(app.start_sync().as_deref(), Some("tok"));
    assert!(app.start_sync().is_none());
    assert_eq!(app.sync_log.len(), 2);
    assert_eq!(app.sync_log[0].message, "▶ Starting sync…");
    app.record_progress(0);
    assert_eq!(app.sync_log.len(), 2);
    app.record_progress(100);
    assert_eq!(app.sync_log[2].message, "  Fetching page… (100 repos so far)");
    app.record_progress(150);
    assert_eq!(app.sync_log.len(), 3);
    assert_eq!(app.sync_log[2].message, "  Fetching page… (150 repos so far)");
    assert!(matches!(app.sync_status, SyncStatus::FetchingStars(150)));
    app.begin_classifying(150);
    assert!(!app.fetch_pending);
    assert_eq!(app.sync_log[3].message, "  ✓ Fetched 150 repos");
    assert_eq!(app.sync_log[4].color, LogColor::Yellow);
    let failures = vec![StoreFailure { stage: StoreStage::Classify, repo_name: "r1".into(), error: "busy".into() }];
    assert!(app.complete_sync(150, failures, Some(12), "2026-04-09 03:32 UTC".into()));
    let msgs: Vec<&str> = app.sync_log[5..].iter().map(|e| e.message.as_str()).collect();
    assert_eq!(
        msgs,
        vec![
            "  ✗ classify r1: busy",
            "  ⚠ Done with 1 errors",
            "  ✓ Sync complete at 2026-04-09 03:32 UTC",
            "  Press any key to continue…"
        ]
    );
    assert!(matches!(app.sync_status, SyncStatus::Done(150)));
    assert_eq!(app.config.last_sync.as_deref(), Some("2026-04-09 03:32 UTC"));
    app.handle_key(key(KeyCode::Char('z')));
    assert_eq!(app.screen, Screen::Home);
    assert!(matches!(app.sync_status, SyncStatus::Idle));
}

#[test]
fn clean_sync_summary_and_failure() {
    let mut app = App::new(authed());
    app.screen = Screen::Syncing;
    app.start_sync();
    app.begin_classifying(2);
    app.complete_sync(2, Vec::new(), None, "now".into());
    assert!(app.sync_log.iter().any(|e| e.message == "  ✓ Classified 2 repos into 0 categories"));
    let mut app = App::new(authed());
    app.screen = Screen::Syncing;
    app.start_sync();
    app.fail_sync("boom".into());
    assert_eq!(app.sync_log.last().unwrap().message, "  ✗ Error: boom");
    assert_eq!(app.sync_log.last().unwrap().color, LogColor::Red);
    // Auto-advance happens on ticks that are multiples of fifteen.
    app.tick_count = 14;
    app.auto_advance();
    assert_eq!(app.screen, Screen::Syncing);
    app.begin_tick();
    app.auto_advance();
    assert_eq!(app.screen, Screen::Home);
}

#[test]
fn background_sync_on_first_tick() {
    let mut app = App::new(authed());
    assert!(app.start_background_sync().is_none());
    app.begin_tick();
    assert_eq!(app.start_background_sync().as_deref(), Some("tok"));
    assert!(app.bg_syncing && app.fetch_pending);
    assert!(app.start_background_sync().is_none());
    assert!(app.finish_background_sync(Some("when".into())));
    assert!(!app.bg_syncing && !app.fetch_pending);
    assert_eq!(app.config.last_sync.as_deref(), Some("when"));
    app.tick_count = usize::MAX;
    app.begin_tick();
    assert_eq!(app.tick_count, 0);
}

#[test]
fn stats_default_to_zero() {
    let mut app = App::new(authed());
    app.load_stats(Some(5), None);
    assert_eq!((app.total_repos, app.total_categories), (5, 0));
    assert!(!app.load_categories(None));
    assert!(app.categories.is_empty());
}

#[test]
fn ai_search_keys_and_results() {
    let mut app = App::new(authed());
    app.ai_error = Some("old".into());
    app.handle_key(key(KeyCode::Char('i')));
    assert_eq!(app.screen, Screen::AiSearch);
    assert!(app.ai_focus_query);
    assert!(app.ai_error.is_none());
    // A blank query does nothing.
    assert!(matches!(app.handle_key(key(KeyCode::Enter)), KeyEffect::Nothing));
    for c in " cli tools ".chars() {
        app.handle_key(key(KeyCode::Char(c)));
    }
    app.handle_key(key(KeyCode::Backspace));
    assert_eq!(app.ai_query, " cli tools");
    // No key configured: the error names what is missing.
    assert!(matches!(app.handle_key(key(KeyCode::Enter)), KeyEffect::Nothing));
    assert_eq!(app.ai_error.as_deref(), Some("No OpenAI API key configured. Set one in Settings."));
    app.config.openai_api_key = Some("sk-1".into());
    match app.handle_key(key(KeyCode::Enter)) {
        KeyEffect::StartAiSearch { query, client } => {
            assert_eq!(query, "cli tools");
            assert_eq!(client.api_key, "sk-1");
            assert_eq!(client.base_url, "https://api.openai.com/v1");
            assert_eq!(client.model, "gpt-4o-mini");
        }
        _ => panic!("expected an AI search"),
    }
    assert!(app.ai_loading);
    assert_eq!(app.ai_query, "cli tools");
    // A second Enter while loading does nothing.
    assert!(matches!(app.handle_key(key(KeyCode::Enter)), KeyEffect::Nothing));
    app.ai_finished(Ok(vec![repo(1, "u1"), repo(2, "u2")]));
    assert!(!app.ai_loading);
    assert_eq!(app.selected_repo, Some(0));
    app.handle_key(key(KeyCode::Tab));
    assert!(!app.ai_focus_query);
    app.handle_key(key(KeyCode::Down));
    app.handle_key(key(KeyCode::Down));
    assert_eq!(app.selected_repo, Some(1));
    assert!(matches!(app.handle_key(key(KeyCode::Enter)), KeyEffect::OpenUrl(u) if u == "u2"));
    app.handle_key(key(KeyCode::Up));
    assert_eq!(app.selected_repo, Some(0));
    app.handle_key(key(KeyCode::Esc));
    assert!(app.ai_focus_query);
    app.ai_finished(Err("AI API error 500: boom".into()));
    assert_eq!(app.ai_error.as_deref(), Some("AI API error 500: boom"));
    assert!(!app.ai_loading);
    app.ai_finished(Ok(vec![]));
    assert_eq!(app.selected_repo, None);
    app.handle_key(key(KeyCode::Esc));
    assert_eq!(app.screen, Screen::Home);
}

#[test]
fn ai_search_with_copilot() {
    let mut app = App::new(authed());
    app.config.use_copilot = true;
    app.screen = Screen::AiSearch;
    app.ai_query = "db".into();
    assert!(matches!(app.handle_key(key(KeyCode::Enter)), KeyEffect::Nothing));
    assert_eq!(
        app.ai_error.as_deref(),
        Some("Copilot token not set. Go to Settings and add a GitHub PAT.")
    );
    app.config.copilot_github_token = Some("ghp_x".into());
    match app.handle_key(key(KeyCode::Enter)) {
        KeyEffect::StartAiSearch { client, .. } => {
            assert_eq!(client.api_key, "ghp_x");
            assert_eq!(client.base_url, "https://models.inference.ai.azure.com");
            assert_eq!(client.model, "gpt-4o-mini");
        }
        _ => panic!("expected an AI search"),
    }
}

#[test]
fn settings_editing_fields() {
    let mut app = App::new(authed());
    app.screen = Screen::Settings;
    assert!(matches!(app.handle_key(key(KeyCode::Char('c'))), KeyEffect::SaveConfig));
    assert!(app.config.use_copilot);
    // Typing a key, then Enter stores it trimmed.
    app.handle_key(key(KeyCode::Char('k')));
    assert!(app.settings_editing.is_some());
    for c in " sk-9 ".chars() {
        app.handle_key(key(KeyCode::Char(c)));
    }
    assert!(matches!(app.handle_key(key(KeyCode::Enter)), KeyEffect::SaveConfig));
    assert_eq!(app.config.openai_api_key.as_deref(), Some("sk-9"));
    assert!(app.settings_editing.is_none());
    // Esc drops what was typed.
    app.handle_key(key(KeyCode::Char('m')));
    app.handle_key(key(KeyCode::Char('x')));
    assert!(matches!(app.handle_key(key(KeyCode::Esc)), KeyEffect::Nothing));
    assert_eq!(app.config.openai_model, None);
    assert_eq!(app.screen, Screen::Settings);
    // The Copilot token is edited while Copilot is on; a blank entry unsets it.
    app.config.copilot_github_token = Some("old".into());
    app.handle_key(key(KeyCode::Char('p')));
    app.handle_key(key(KeyCode::Char(' ')));
    app.handle_key(key(KeyCode::Enter));
    assert_eq!(app.config.copilot_github_token, None);
    // With Copilot off, `p` does nothing.
    app.handle_key(key(KeyCode::Char('c')));
    assert!(!app.config.use_copilot);
    app.handle_key(key(KeyCode::Char('p')));
    assert!(app.settings_editing.is_none());
    // Model name edit, with Backspace.
    app.handle_key(key(KeyCode::Char('m')));
    for c in "gpt-4oo".chars() {
        app.handle_key(key(KeyCode::Char(c)));
    }
    app.handle_key(key(KeyCode::Backspace));
    app.handle_key(key(KeyCode::Enter));
    assert_eq!(app.config.openai_model.as_deref(), Some("gpt-4o"));
    app.handle_key(key(KeyCode::Char('q')));
    assert_eq!(app.screen, Screen::Home);
}

#[test]
fn stepping_down_from_the_largest_index_is_refused() {
    let mut app = App::new(authed());
    app.screen = Screen::Browse;
    app.selected_category = Some(usize::MAX);
    assert!(!app.steps_down_safely(key(KeyCode::Down)));
    assert!(app.steps_down_safely(key(KeyCode::Up)));
    app.browse_pane = BrowsePane::Repos;
    assert!(app.steps_down_safely(key(KeyCode::Down)));
    app.selected_repo = Some(usize::MAX);
    assert!(!app.steps_down_safely(key(KeyCode::Down)));
    app.screen = Screen::Home;
    assert!(app.steps_down_safely(key(KeyCode::Down)));
}

#[test]
fn poll_timing_across_slow_downs() {
    let mut app = App::new(Config { client_id: Some("cid".into()), ..Config::default() });
    app.start_device_flow(device());
    assert!(app.should_poll_now(0));
    app.slow_down();
    app.mark_polled(100);
    app.slow_down();
    // Interval 5 + 2 * 5 = 15 seconds since the last poll at 100.
    assert!(!app.should_poll_now(114));
    assert!(app.should_poll_now(115));
    assert_eq!(app.poll_interval_secs(), 15);
}

#[test]
fn poll_outcomes_other_than_slow_down_take_any_interval() {
    let mut app = App::new(Config { client_id: Some("cid".into()), ..Config::default() });
    app.start_device_flow(DeviceCodeResponse { interval: u64::MAX, ..device() });
    assert!(!app.apply_poll_result(Ok(PollResult::Pending)));
    assert!(app.apply_poll_result(Ok(PollResult::Token("t".into()))));
    assert_eq!(app.config.github_token.as_deref(), Some("t"));
}
