use github_stars_pocket::api::{
    current_user_url, has_next_page, starred_page_url, ApiClient, ApiOwner, ApiRepo, ApiStarredItem, FetchStep,
    StarredFetch, StarredRepo,
};

fn item(id: i64, topics: Option<Vec<&str>>) -> ApiStarredItem {
    ApiStarredItem {
        starred_at: "2024-05-01T10:00:00Z".into(),
        repo: ApiRepo {
            id,
            name: format!("r{id}"),
            full_name: format!("o/r{id}"),
            owner: ApiOwner { login: "o".into() },
            description: None,
            language: Some("Go".into()),
            html_url: format!("https://github.com/o/r{id}"),
            stargazers_count: id * 10,
            topics: topics.map(|t| t.into_iter().map(String::from).collect()),
            updated_at: "2024-05-02T10:00:00Z".into(),
        },
    }
}

#[test]
fn urls_and_headers() {
    assert_eq!(starred_page_url(3), "https://api.github.com/user/starred?per_page=100&page=3");
    assert_eq!(current_user_url(), "https://api.github.com/user");
    assert_eq!(ApiClient::new("tok".into()).authorization(), "Bearer tok");
    assert!(has_next_page(Some("<u?page=2>; rel=\"next\", <u?page=5>; rel=\"last\"")));
    assert!(!has_next_page(Some("<u?page=1>; rel=\"prev\"")));
    assert!(!has_next_page(None));
}

#[test]
fn item_conversion() {
    let r = StarredRepo::from_item(item(7, None));
    assert_eq!(r.github_id, 7);
    assert_eq!(r.owner, "o");
    assert!(r.topics.is_empty());
    assert_eq!(r.starred_at, "2024-05-01T10:00:00Z");
    let r = StarredRepo::from_item(item(8, Some(vec!["a", "b"])));
    assert_eq!(r.topics_json().unwrap(), "[\"a\",\"b\"]");
}

#[test]
fn pagination_gathers_pages_in_order() {
    let mut f = StarredFetch::new();
    assert_eq!(f.pages_fetched(), 0);
    assert_eq!(f.url(), "https://api.github.com/user/starred?per_page=100&page=1");
    let step = f.receive_page(true, vec![item(1, None), item(2, None)]);
    assert!(matches!(step, FetchStep::NextPage(2)));
    // The progress is the live page count, not the number of repositories.
    assert_eq!(f.pages_fetched(), 1);
    assert_eq!(f.repos.len(), 2);
    let step = f.receive_page(false, vec![item(3, None)]);
    assert!(matches!(step, FetchStep::LastPage));
    let ids: Vec<i64> = f.repos.iter().map(|r| r.github_id).collect();
    assert_eq!(ids, vec![1, 2, 3]);
    assert!(matches!(f.receive_page(true, vec![]), FetchStep::NoMoreItems));
    assert_eq!(f.pages_fetched(), 2);
    assert_eq!(f.repos.len(), 3);
    assert_eq!(
        StarredFetch::status_error(401).as_deref(),
        Some("GitHub token is invalid or expired. Please re-authenticate.")
    );
    assert!(StarredFetch::status_error(200).is_none());
}

#[test]
fn stored_topics_read_back() {
    let mut r = StarredRepo::from_item(item(9, Some(vec!["a\"b", "back\\slash", "ünïcode", "line\nbreak", ""])));
    let json = r.topics_json().unwrap();
    let row = github_stars_pocket::storage::RepoRow {
        id: 1,
        github_id: 9,
        name: r.name.clone(),
        full_name: r.full_name.clone(),
        owner: r.owner.clone(),
        description: None,
        language: None,
        url: r.html_url.clone(),
        stars_count: 0,
        topics_json: json,
        starred_at: r.starred_at.clone(),
    };
    assert_eq!(row.topics(), r.topics);
    r.topics.clear();
    assert_eq!(r.topics_json().unwrap(), "[]");
}
