use github_stars_pocket::ai::{reply_names, repo_line, user_prompt, AiClient, SYSTEM_PROMPT};
use github_stars_pocket::storage::RepoRow;
use github_stars_pocket::config::Config;

fn row(full_name: &str, desc: Option<&str>, lang: Option<&str>, topics: &str) -> RepoRow {
    RepoRow {
        id: 1,
        github_id: 1,
        name: "x".into(),
        full_name: full_name.into(),
        owner: "o".into(),
        description: desc.map(String::from),
        language: lang.map(String::from),
        url: "u".into(),
        stars_count: 1,
        topics_json: topics.into(),
        starred_at: "t".into(),
    }
}

#[test]
fn client_defaults_and_url() {
    let c = AiClient::new("k", None, None);
    assert_eq!(c.base_url, "https://api.openai.com/v1");
    assert_eq!(c.model, "gpt-4o-mini");
    let c = AiClient::new("k", Some("http://localhost:11434/v1//"), Some("llama3"));
    assert_eq!(c.base_url, "http://localhost:11434/v1");
    assert_eq!(c.chat_url(), "http://localhost:11434/v1/chat/completions");
}

#[test]
fn prompt_lines() {
    assert_eq!(
        repo_line(&row("tokio-rs/tokio", Some("Async runtime"), Some("Rust"), "[\"async\",\"io\"]")),
        "- tokio-rs/tokio: Async runtime (Rust [async, io])\n"
    );
    assert_eq!(repo_line(&row("a/b", None, None, "[]")), "- a/b:  ()\n");
    let long = "d".repeat(150);
    assert_eq!(repo_line(&row("a/b", Some(&long), None, "[]")), format!("- a/b: {} ()\n", "d".repeat(120)));
    let p = user_prompt("http client", &vec![row("a/b", None, Some("Go"), "[]")]);
    assert!(p.starts_with("Search query: \"http client\"\n\nRepositories:\n- a/b:  (Go)\n\nReturn a JSON array"));
    assert!(p.ends_with("Return only the JSON array, no explanation."));
}

#[test]
fn chat_request_messages() {
    let c = AiClient::new("k", None, Some("m"));
    let req = c.chat_request("q", &Vec::new());
    assert_eq!(req.model, "m");
    assert_eq!(req.messages.len(), 2);
    assert_eq!(req.messages[0].role, "system");
    assert_eq!(req.messages[0].content, SYSTEM_PROMPT);
    assert_eq!(req.messages[1].role, "user");
}

#[test]
fn reply_parsing() {
    assert_eq!(reply_names(Some("[\"a/b\", \"c/d\"]")), vec!["a/b", "c/d"]);
    assert_eq!(reply_names(Some("```json\n[\"a/b\"]\n```")), vec!["a/b"]);
    assert_eq!(reply_names(Some("  ```\n[\"x/y\"]```  ")), vec!["x/y"]);
    assert!(reply_names(Some("I think a/b")).is_empty());
    assert!(reply_names(None).is_empty());
}

#[test]
fn copilot_client_and_config_choice() {
    let c = AiClient::new_copilot("ghp_1", None);
    assert_eq!(c.api_key, "ghp_1");
    assert_eq!(c.base_url, "https://models.inference.ai.azure.com");
    assert_eq!(c.model, "gpt-4o-mini");
    assert_eq!(AiClient::new_copilot("t", Some("gpt-4o")).model, "gpt-4o");

    let mut cfg = Config::default();
    match AiClient::for_config(&cfg) {
        Err(e) => assert_eq!(e, "No OpenAI API key configured. Set one in Settings."),
        Ok(_) => panic!("no key is configured"),
    }
    cfg.openai_api_key = Some("sk".into());
    cfg.openai_base_url = Some("http://localhost:8080/v1/".into());
    cfg.openai_model = Some("llama".into());
    let c = AiClient::for_config(&cfg).unwrap();
    assert_eq!(c.api_key, "sk");
    assert_eq!(c.base_url, "http://localhost:8080/v1");
    assert_eq!(c.model, "llama");
    cfg.use_copilot = true;
    match AiClient::for_config(&cfg) {
        Err(e) => assert_eq!(e, "Copilot token not set. Go to Settings and add a GitHub PAT."),
        Ok(_) => panic!("no Copilot token is configured"),
    }
    cfg.copilot_github_token = Some("ghp".into());
    let c = AiClient::for_config(&cfg).unwrap();
    assert_eq!(c.api_key, "ghp");
    assert_eq!(c.base_url, "https://models.inference.ai.azure.com");
    assert_eq!(c.model, "llama");
}

#[test]
fn chat_error_text_and_empty_reply() {
    assert_eq!(
        github_stars_pocket::ai::api_error_message("500 Internal Server Error", "boom"),
        "AI API error 500 Internal Server Error: boom"
    );
    assert!(reply_names(None).is_empty());
}
