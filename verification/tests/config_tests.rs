use github_stars_pocket::config::{default_auto_update, Config, SettingEntry};

fn sample() -> Config {
    Config {
        auto_update: false,
        github_token: Some("gho_abc".to_string()),
        last_sync: Some("2026-04-09 03:32 UTC".to_string()),
        client_id: Some("Ov23li".to_string()),
        openai_api_key: None,
        openai_base_url: Some("http://localhost:11434/v1".to_string()),
        openai_model: Some("llama3".to_string()),
        use_copilot: true,
        copilot_github_token: None,
    }
}

fn same(a: &Config, b: &Config) -> bool {
    a.auto_update == b.auto_update
        && a.github_token == b.github_token
        && a.last_sync == b.last_sync
        && a.client_id == b.client_id
        && a.openai_api_key == b.openai_api_key
        && a.openai_base_url == b.openai_base_url
        && a.openai_model == b.openai_model
        && a.use_copilot == b.use_copilot
        && a.copilot_github_token == b.copilot_github_token
}

#[test]
fn defaults() {
    let c = Config::default();
    assert!(c.auto_update);
    assert!(default_auto_update());
    assert!(!c.use_copilot);
    assert!(c.github_token.is_none() && c.client_id.is_none());
}

#[test]
fn settings_rows_round_trip() {
    let c = sample();
    let rows = c.settings_rows();
    assert_eq!(rows.len(), 9);
    assert_eq!(rows[0].key, "auto_update");
    assert_eq!(rows[0].value.as_deref(), Some("false"));
    assert_eq!(rows[7].key, "use_copilot");
    assert_eq!(rows[7].value.as_deref(), Some("true"));
    let back = Config::from_settings_rows(rows);
    assert!(same(&back, &c));
    let d = Config::default();
    assert!(same(&Config::from_settings_rows(d.settings_rows()), &d));
}

#[test]
fn unknown_keys_and_odd_booleans() {
    let rows = vec![
        SettingEntry { key: "auto_update".into(), value: Some("yes".into()) },
        SettingEntry { key: "theme".into(), value: Some("dark".into()) },
        SettingEntry { key: "client_id".into(), value: Some("first".into()) },
        SettingEntry { key: "client_id".into(), value: Some("second".into()) },
        SettingEntry { key: "use_copilot".into(), value: None },
    ];
    let c = Config::from_settings_rows(rows);
    assert!(!c.auto_update);
    assert!(!c.use_copilot);
    assert_eq!(c.client_id.as_deref(), Some("second"));
    assert!(c.github_token.is_none());
}

#[test]
fn authentication_and_client_id() {
    let mut c = Config::default();
    assert!(!c.is_authenticated());
    c.github_token = Some(String::new());
    assert!(!c.is_authenticated());
    c.github_token = Some("t".into());
    assert!(c.is_authenticated());
    assert_eq!(c.client_id(), None);
    c.client_id = Some(String::new());
    assert_eq!(c.client_id(), None);
    c.client_id = Some("abc".into());
    assert_eq!(c.client_id(), Some("abc"));
}

#[test]
fn paths_and_initial_config() {
    let p = Config::config_path("/home/u/.config/my-gh-stars");
    assert!(p.ends_with("config.toml"));
    assert_eq!(p, "/home/u/.config/my-gh-stars/config.toml");
    let d = Config::db_path("/tmp/x");
    assert_eq!(d, "/tmp/x/stars.db");
    // A directory that already ends in a separator gets none added.
    assert_eq!(Config::db_path("/tmp/x/"), "/tmp/x/stars.db");
    assert_eq!(Config::config_path(""), "config.toml");
    // The database sits beside the settings file, in the same directory.
    let dir = "/home/u/.config/github-stars-pocket";
    assert_eq!(Config::config_path(dir), format!("{dir}/config.toml"));
    assert_eq!(Config::db_path(dir), format!("{dir}/stars.db"));
    // Here `:` is an ordinary character, so a separator follows it.
    assert_eq!(Config::db_path("/tmp/a:"), "/tmp/a:/stars.db");
    assert!(Config::initial(None).auto_update);
    assert!(!Config::initial(Some(sample())).auto_update);
}
