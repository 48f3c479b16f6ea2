use github_stars_pocket::api::StarredRepo;
use github_stars_pocket::classifier::Classifier;

fn repo(language: Option<&str>, topics: &[&str]) -> StarredRepo {
    StarredRepo {
        github_id: 1,
        name: "r".into(),
        full_name: "o/r".into(),
        owner: "o".into(),
        description: None,
        language: language.map(|s| s.to_string()),
        html_url: "https://github.com/o/r".into(),
        stargazers_count: 3,
        topics: topics.iter().map(|s| s.to_string()).collect(),
        starred_at: "2024-01-01T00:00:00Z".into(),
        updated_at: "2024-01-02T00:00:00Z".into(),
    }
}

fn cats(r: &StarredRepo) -> Vec<(String, String)> {
    Classifier::categories(r).into_iter().map(|c| (c.name, c.category_type)).collect()
}

#[test]
fn language_then_topics() {
    let got = cats(&repo(Some("Rust"), &["cli", "", "tui"]));
    assert_eq!(
        got,
        vec![
            ("Rust".to_string(), "language".to_string()),
            ("cli".to_string(), "topic".to_string()),
            ("tui".to_string(), "topic".to_string())
        ]
    );
}

#[test]
fn uncategorized_only_without_language_and_topics() {
    assert_eq!(cats(&repo(None, &[])), vec![("Uncategorized".to_string(), "other".to_string())]);
    assert!(cats(&repo(Some(""), &[])).is_empty());
    assert!(cats(&repo(None, &[""])).is_empty());
    assert_eq!(cats(&repo(None, &["web"])), vec![("web".to_string(), "topic".to_string())]);
}
