use github_stars_pocket::storage::{order_by_full_names, search_pattern, RepoRow};

pub fn row(id: i64, full_name: &str, stars: i64, topics_json: &str) -> RepoRow {
    let name = full_name.split('/').last().unwrap().to_string();
    RepoRow {
        id,
        github_id: id * 100,
        name,
        full_name: full_name.to_string(),
        owner: full_name.split('/').next().unwrap().to_string(),
        description: Some(format!("about {full_name}")),
        language: Some("Rust".to_string()),
        url: format!("https://github.com/{full_name}"),
        stars_count: stars,
        topics_json: topics_json.to_string(),
        starred_at: "2024-01-01T00:00:00+00:00".to_string(),
    }
}

#[test]
fn topics_parse_or_empty() {
    assert_eq!(row(1, "a/b", 1, "[\"cli\",\"tui\"]").topics(), vec!["cli", "tui"]);
    assert!(row(1, "a/b", 1, "not json").topics().is_empty());
    assert!(row(1, "a/b", 1, "[]").topics().is_empty());
}

#[test]
fn search_pattern_lowercases_and_wraps() {
    assert_eq!(search_pattern("Tokio"), "%tokio%");
    assert_eq!(search_pattern(""), "%%");
    assert_eq!(search_pattern("ÄB"), "%äb%");
}

#[test]
fn order_follows_names_and_skips_missing() {
    let rows = vec![row(1, "a/one", 5, "[]"), row(2, "b/two", 7, "[]"), row(3, "c/three", 9, "[]")];
    let names = vec!["c/three".to_string(), "x/missing".to_string(), "a/one".to_string(), "c/three".to_string()];
    let ordered = order_by_full_names(&rows, &names);
    let got: Vec<&str> = ordered.iter().map(|r| r.full_name.as_str()).collect();
    assert_eq!(got, vec!["c/three", "a/one", "c/three"]);
    assert!(order_by_full_names(&rows, &Vec::new()).is_empty());
}
