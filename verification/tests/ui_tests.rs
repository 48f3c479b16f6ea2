use github_stars_pocket::config::Config;
use github_stars_pocket::ui::{
    ai_detail_placeholder, ai_panel, ai_results_title, centered_rect, fmt_stars, settings_endpoint, shorten, AiPanel, Rect,
};

#[test]
fn star_counts() {
    assert_eq!(fmt_stars(0).as_deref(), Some("0"));
    assert_eq!(fmt_stars(999).as_deref(), Some("999"));
    assert_eq!(fmt_stars(1_000).as_deref(), Some("1k"));
    assert_eq!(fmt_stars(12_345).as_deref(), Some("12k"));
    assert_eq!(fmt_stars(999_999).as_deref(), Some("999k"));
    assert_eq!(fmt_stars(-5).as_deref(), Some("-5"));
    assert!(fmt_stars(1_000_000).is_none());
}

#[test]
fn centring() {
    let area = Rect { x: 2, y: 1, width: 100, height: 40 };
    assert_eq!(centered_rect(62, 10, area), Rect { x: 21, y: 16, width: 62, height: 10 });
    assert_eq!(centered_rect(200, 50, area), Rect { x: 2, y: 1, width: 100, height: 40 });
}

#[test]
fn shortened_secrets() {
    assert_eq!(shorten("abc"), "abc");
    assert_eq!(shorten("12345678"), "12345678");
    assert_eq!(shorten("Ov23liABCDEF"), "Ov23liAB…");
    assert_eq!(shorten("ééééé"), "éééé…");
}

#[test]
fn settings_endpoint_shown() {
    let mut c = Config::default();
    assert_eq!(settings_endpoint(&c), ("https://api.openai.com/v1".to_string(), "gpt-4o-mini".to_string()));
    c.openai_base_url = Some("http://localhost:11434/v1/".into());
    c.openai_model = Some("llama3".into());
    assert_eq!(settings_endpoint(&c), ("http://localhost:11434/v1/".to_string(), "llama3".to_string()));
    c.use_copilot = true;
    assert_eq!(
        settings_endpoint(&c),
        ("https://models.inference.ai.azure.com".to_string(), "llama3".to_string())
    );
    c.openai_model = None;
    assert_eq!(
        settings_endpoint(&c),
        ("https://models.inference.ai.azure.com".to_string(), "gpt-4o-mini".to_string())
    );
}

#[test]
fn ai_screen_choices() {
    assert!(matches!(ai_panel(true, true), AiPanel::Loading));
    assert!(matches!(ai_panel(false, true), AiPanel::Failed));
    assert!(matches!(ai_panel(false, false), AiPanel::Results));
    assert_eq!(ai_results_title(0, false), "Results (0 — try a different query)");
    assert_eq!(ai_results_title(0, true), "Results (0)");
    assert_eq!(ai_results_title(12, false), "Results (12)");
    assert_eq!(ai_detail_placeholder(true), "Type a natural-language query and press Enter…");
    assert_eq!(ai_detail_placeholder(false), "Select a result to see details.");
}
