use github_stars_pocket::auth::{DeviceCodeResponse, PollResult};
use github_stars_pocket::config::Config;
use github_stars_pocket::gui::{AiSubmit, GuiAppState, GuiScreen, LoginStep, SyncStatus};
use github_stars_pocket::storage::{CategoryRow, RepoRow};

fn repo(id: i64) -> RepoRow {
    RepoRow {
        id,
        github_id: id,
        name: format!("r{id}"),
        full_name: format!("o/r{id}"),
        owner: "o".into(),
        description: None,
        language: None,
        url: format!("u{id}"),
        stars_count: 0,
        topics_json: "[]".into(),
        starred_at: "t".into(),
    }
}

fn state(config: Config) -> GuiAppState {
    GuiAppState::new(config, "stars.db".into())
}

#[test]
fn first_screen() {
    assert_eq!(state(Config::default()).screen, GuiScreen::Setup);
    let c = Config { client_id: Some("cid".into()), ..Config::default() };
    assert_eq!(state(c).screen, GuiScreen::Login);
    let c = Config { github_token: Some("t".into()), ..Config::default() };
    let s = state(c);
    assert_eq!(s.screen, GuiScreen::Home);
    assert_eq!(s.device_poll_interval_secs, 5);
}

#[test]
fn setup_and_login() {
    let mut s = state(Config::default());
    s.setup_input = "  ".into();
    assert!(!s.setup_enter());
    s.setup_input = " Ov23 ".into();
    assert!(s.setup_enter());
    assert_eq!(s.config.client_id.as_deref(), Some("Ov23"));
    assert_eq!(s.screen, GuiScreen::Login);
    s.device_code_received(DeviceCodeResponse {
        device_code: "dc".into(),
        user_code: "U".into(),
        verification_uri: "v".into(),
        expires_in: 1,
        interval: 7,
    });
    assert_eq!(s.next_poll(), Some(("dc".to_string(), 7)));
    assert_eq!(s.poll_received(Ok(PollResult::SlowDown)), LoginStep::KeepPolling);
    assert_eq!(s.next_poll(), Some(("dc".to_string(), 12)));
    assert_eq!(s.poll_received(Err("Access denied by user.".into())), LoginStep::Stopped);
    assert_eq!(s.auth_error.as_deref(), Some("Access denied by user."));
    assert_eq!(s.poll_received(Ok(PollResult::Token("t".into()))), LoginStep::Authenticated);
    assert_eq!(s.screen, GuiScreen::Syncing);
}

#[test]
fn browse_and_search() {
    let mut s = state(Config::default());
    assert!(s.needs_categories());
    let cats = vec![CategoryRow { id: 4, name: "Rust".into(), category_type: "language".into(), count: 2 }];
    s.show_categories(cats, vec![repo(1), repo(2)]);
    assert_eq!(s.selected_category, Some(0));
    assert_eq!(s.select_category(0), Some(4));
    assert_eq!(s.select_category(9), None);
    s.select_category(0);
    s.show_repos(vec![repo(3)]);
    assert!(s.browse_detail().is_none());
    s.select_repo(0);
    assert_eq!(s.browse_detail().unwrap().id, 3);
    assert_eq!(s.search_input("tok".into()).as_deref(), Some("tok"));
    assert_eq!(s.search_input(String::new()), None);
    s.show_search_results(vec![repo(5)]);
    assert!(s.search_detail().is_none());
}

#[test]
fn ai_search_flow() {
    let mut s = state(Config::default());
    s.open_ai_search();
    assert!(matches!(s.ai_submit(), AiSubmit::Ignored));
    s.ai_query = " async http ".into();
    assert!(matches!(s.ai_submit(), AiSubmit::MissingCredentials));
    assert_eq!(s.ai_error.as_deref(), Some("No OpenAI API key configured. Set one in Settings."));
    s.config.openai_api_key = Some("sk".into());
    s.config.openai_base_url = Some("http://h/v1/".into());
    match s.ai_submit() {
        AiSubmit::Search { query, client } => {
            assert_eq!(query, "async http");
            assert_eq!(client.base_url, "http://h/v1");
            assert_eq!(client.model, "gpt-4o-mini");
        }
        _ => panic!("expected a search"),
    }
    assert!(s.ai_loading);
    assert!(matches!(s.ai_submit(), AiSubmit::Ignored));
    s.ai_finished(Ok(vec![repo(1)]));
    assert!(!s.ai_loading);
    assert_eq!(s.ai_detail().unwrap().id, 1);
    s.ai_finished(Err("AI API error".into()));
    assert_eq!(s.ai_error.as_deref(), Some("AI API error"));
    s.config.use_copilot = true;
    assert!(matches!(s.ai_submit(), AiSubmit::MissingCredentials));
    assert_eq!(s.ai_error.as_deref(), Some("Copilot token not set. Go to Settings and add a GitHub PAT."));
    s.config.copilot_github_token = Some("ghp".into());
    s.config.openai_model = None;
    match s.ai_submit() {
        AiSubmit::Search { client, .. } => {
            assert_eq!(client.api_key, "ghp");
            assert_eq!(client.base_url, "https://models.inference.ai.azure.com");
            assert_eq!(client.model, "gpt-4o-mini");
        }
        _ => panic!("expected a search"),
    }
}

#[test]
fn settings_and_sync() {
    let mut s = state(Config { github_token: Some("t".into()), ..Config::default() });
    let cfg = s.settings_to_save(" sk ", "", " gpt-4o ", "   ");
    assert_eq!(cfg.openai_api_key.as_deref(), Some("sk"));
    assert_eq!(cfg.openai_base_url, None);
    assert_eq!(cfg.openai_model.as_deref(), Some("gpt-4o"));
    assert_eq!(cfg.copilot_github_token, None);
    s.settings_saved(&cfg);
    assert_eq!(s.config.openai_api_key.as_deref(), Some("sk"));
    s.open_sync();
    assert_eq!(s.sync_begin().as_deref(), Some("t"));
    s.sync_progress(0);
    s.sync_progress(100);
    assert_eq!(s.sync_log.len(), 2);
    assert_eq!(s.sync_log[1].text, "Fetching page 101…");
    s.sync_fetched(100);
    assert_eq!(s.sync_log[2].text, "Fetched 100 repos — storing…");
    s.sync_done(100, 100, 3, Vec::new(), "now".into());
    assert_eq!(s.sync_status, SyncStatus::Done);
    assert_eq!(s.selected_category, None);
    assert_eq!(s.sync_log[3].text, "Done! Synced 100 repos.");
    s.log_out();
    assert_eq!(s.screen, GuiScreen::Login);
    let mut s = state(Config::default());
    assert!(s.sync_begin().is_none());
    assert_eq!(s.sync_status, SyncStatus::Failed);
    assert_eq!(s.sync_log[1].color, "#f85149");
}

#[test]
fn navigation_and_overview() {
    let mut s = state(Config { github_token: Some("t".into()), ..Config::default() });
    assert_eq!(s.screen, GuiScreen::Home);
    s.open_browse();
    assert_eq!(s.screen, GuiScreen::Browse);
    s.search_query = "old".into();
    s.open_search();
    assert_eq!(s.screen, GuiScreen::Search);
    assert_eq!(s.search_query, "");
    s.go_home();
    assert_eq!(s.screen, GuiScreen::Home);
    let cats = vec![CategoryRow { id: 1, name: "Rust".into(), category_type: "language".into(), count: 2 }];
    s.show_overview(12, 1, cats, vec![repo(1), repo(2)]);
    assert_eq!(s.total_repos, 12);
    assert_eq!(s.total_categories, 1);
    assert_eq!(s.selected_category, Some(0));
    assert_eq!(s.displayed_repos.len(), 2);
    s.show_overview(0, 0, Vec::new(), Vec::new());
    assert_eq!(s.selected_category, Some(0));
    assert!(s.categories.is_empty());
}

#[test]
fn settings_switches_and_sync_failures() {
    let mut s = state(Config { github_token: Some("t".into()), ..Config::default() });
    s.auth_failed("denied".into());
    assert_eq!(s.auth_error.as_deref(), Some("denied"));
    let auto = s.config.auto_update;
    s.toggle_auto_update();
    assert_eq!(s.config.auto_update, !auto);
    s.toggle_copilot();
    assert!(s.config.use_copilot);
    s.toggle_copilot();
    assert!(!s.config.use_copilot);

    s.sync_begin();
    s.sync_fetch_failed("timeout");
    assert_eq!(s.sync_status, SyncStatus::Failed);
    assert_eq!(s.sync_log.last().unwrap().text, "Fetch error: timeout");
    assert_eq!(s.sync_log.last().unwrap().color, "#f85149");
    s.sync_begin();
    s.sync_task_failed();
    assert_eq!(s.sync_log.last().unwrap().text, "Fetch task panicked.");
    s.sync_begin();
    s.sync_store_failed("disk full");
    assert_eq!(s.sync_log.last().unwrap().text, "Store error: disk full");
    assert_eq!(s.sync_status, SyncStatus::Failed);
}

#[test]
fn sync_success_returns_home_and_login_url() {
    let mut s = state(Config { github_token: Some("t".into()), ..Config::default() });
    s.open_sync();
    s.sync_begin();
    s.sync_pause_over();
    assert_eq!(s.screen, GuiScreen::Syncing);
    s.sync_fetch_failed("x");
    s.sync_pause_over();
    assert_eq!(s.screen, GuiScreen::Syncing);
    s.sync_begin();
    s.sync_done(1, 1, 0, Vec::new(), "now".into());
    s.sync_pause_over();
    assert_eq!(s.screen, GuiScreen::Home);

    assert_eq!(s.verification_url(), "https://github.com/login/device");
    s.device_verification_uri = Some("https://github.com/login/device/x".into());
    assert_eq!(s.verification_url(), "https://github.com/login/device/x");
}
