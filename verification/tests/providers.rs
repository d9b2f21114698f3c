use git_tui_cloner::git_service::github::GitHubService;
use git_tui_cloner::git_service::gitlab::GitLabService;
use git_tui_cloner::git_service::{interpret_listing_response, GitServiceTrait, RepoRecord};
use git_tui_cloner::types::AppError;

fn record(id: u64, name: &str) -> RepoRecord {
    RepoRecord {
        id,
        name: String::from(name),
        full_name: format!("org/{}", name),
        description: Some(String::from("a description")),
        clone_url: format!("https://example.com/org/{}.git", name),
        ssh_url: format!("git@example.com:org/{}.git", name),
        stars: 10,
        forks: 2,
        private: false,
    }
}

#[test]
fn github_search_without_token_is_auth_required() {
    let client = GitHubService::new(None, None);
    let e = client.search_request("rust git client", 1).unwrap_err();
    match e {
        AppError::AuthRequired(m) => assert_eq!(
            m,
            "GitHub: To prevent hitting rate limits, please provide a GitHub token"
        ),
        _ => panic!("expected AuthRequired"),
    }
}

#[test]
fn github_search_request_url_and_headers() {
    let client = GitHubService::new(Some(String::from("gh-token")), None);
    let req = client.search_request("rust git client", 1).unwrap();
    assert_eq!(
        req.url,
        "https://api.github.com/search/repositories?q=rust%20git%20client&page=1&per_page=30"
    );
    assert_eq!(req.bearer_token.as_deref(), Some("gh-token"));
    assert_eq!(req.headers.len(), 3);
    assert_eq!(req.headers[0].name, "User-Agent");
    assert_eq!(req.headers[0].value, "git-tui-cloner/0.1.0");
    assert_eq!(req.headers[1].name, "Accept");
    assert_eq!(req.headers[1].value, "application/vnd.github+json");
    assert_eq!(req.headers[2].name, "X-GitHub-Api-Version");
    assert_eq!(req.headers[2].value, "2022-11-28");
}

#[test]
fn github_user_repositories_request_url() {
    let client = GitHubService::new(Some(String::from("gh-token")), None);
    let req = client.user_repositories_request(3).unwrap();
    assert_eq!(req.url, "https://api.github.com/user/repos?page=3&per_page=30");
    let anonymous = GitHubService::new(None, None);
    assert!(anonymous.user_repositories_request(1).is_err());
}

#[test]
fn github_service_name_and_authentication() {
    let anonymous = GitHubService::new(None, None);
    assert_eq!(anonymous.get_service_name(), "GitHub");
    assert!(!anonymous.is_authenticated());
    let with_key = GitHubService::new(None, Some(String::from("/home/user/.ssh/id_ed25519")));
    assert!(with_key.is_authenticated());
}

#[test]
fn gitlab_search_is_permitted_without_token() {
    let client = GitLabService::new(
        String::from("GitLab"),
        String::from("https://gitlab.com"),
        None,
        None,
    );
    let req = client.search_request("rust git client", 2);
    assert_eq!(
        req.url,
        "https://gitlab.com/api/v4/projects?search=rust%20git%20client&page=2&per_page=30"
    );
    assert!(req.bearer_token.is_none());
    assert!(req.headers.is_empty());
}

#[test]
fn gitlab_user_repositories_requires_token() {
    let client = GitLabService::new(
        String::from("corp-a"),
        String::from("https://gitlab.corp-a.example"),
        None,
        None,
    );
    let e = client.user_repositories_request(1).unwrap_err();
    match e {
        AppError::AuthRequired(m) => assert_eq!(
            m,
            "corp-a: a personal access token is required to list your repositories"
        ),
        _ => panic!("expected AuthRequired"),
    }
    let with_token = GitLabService::new(
        String::from("corp-a"),
        String::from("https://gitlab.corp-a.example"),
        Some(String::from("glpat-x")),
        None,
    );
    let req = with_token.user_repositories_request(1).unwrap();
    assert_eq!(
        req.url,
        "https://gitlab.corp-a.example/api/v4/projects?membership=true&page=1&per_page=30"
    );
    assert_eq!(req.bearer_token.as_deref(), Some("glpat-x"));
}

#[test]
fn gitlab_service_name_is_the_instance_name() {
    let client = GitLabService::new(
        String::from("corp-b"),
        String::from("https://gitlab.corp-b.example"),
        Some(String::from("t")),
        None,
    );
    assert_eq!(client.get_service_name(), "corp-b");
    assert!(client.is_authenticated());
}

#[test]
fn interpretation_maps_records_in_order() {
    let records = vec![record(42, "alpha"), record(7, "beta")];
    let repos = interpret_listing_response(200, String::new(), Ok(records)).unwrap();
    assert_eq!(repos.len(), 2);
    assert_eq!(repos[0].id, "42");
    assert_eq!(repos[0].name, "alpha");
    assert_eq!(repos[0].full_name, "org/alpha");
    assert_eq!(repos[0].description.as_deref(), Some("a description"));
    assert_eq!(repos[0].clone_url, "https://example.com/org/alpha.git");
    assert_eq!(repos[0].ssh_url, "git@example.com:org/alpha.git");
    assert_eq!(repos[0].stars, 10);
    assert_eq!(repos[0].forks, 2);
    assert!(!repos[0].private);
    assert!(repos[0].clone_type.is_none());
    assert_eq!(repos[1].id, "7");
    assert_eq!(repos[1].name, "beta");
}

#[test]
fn interpretation_of_a_full_page_stays_within_page_size() {
    let mut records = Vec::new();
    for i in 0..30u64 {
        records.push(record(i, "repo"));
    }
    let repos = interpret_listing_response(200, String::new(), Ok(records)).unwrap();
    assert_eq!(repos.len(), 30);
    for (i, repo) in repos.iter().enumerate() {
        assert_eq!(repo.id, format!("{}", i));
    }
}

#[test]
fn interpretation_of_empty_page_is_empty() {
    let repos = interpret_listing_response(204, String::new(), Ok(Vec::new())).unwrap();
    assert!(repos.is_empty());
}

#[test]
fn non_success_status_is_upstream_error() {
    let e = interpret_listing_response(
        403,
        String::from("rate limit exceeded"),
        Ok(vec![record(1, "ignored")]),
    )
    .unwrap_err();
    match e {
        AppError::UpstreamError { status, body } => {
            assert_eq!(status, 403);
            assert_eq!(body, "rate limit exceeded");
        }
        _ => panic!("expected UpstreamError"),
    }
}

#[test]
fn schema_mismatch_is_decode_error() {
    let e = interpret_listing_response(
        200,
        String::from("not json"),
        Err(String::from("missing field `items`")),
    )
    .unwrap_err();
    match e {
        AppError::DecodeError(m) => assert_eq!(m, "missing field `items`"),
        _ => panic!("expected DecodeError"),
    }
}

#[test]
fn search_twice_with_identical_inputs_is_identical() {
    let client = GitHubService::new(Some(String::from("gh-token")), None);
    let first = client.search_request("stable query", 1).unwrap();
    let second = client.search_request("stable query", 1).unwrap();
    assert_eq!(first.url, second.url);
    assert_eq!(first.bearer_token, second.bearer_token);
    let records = || vec![record(42, "alpha"), record(7, "beta")];
    let a = interpret_listing_response(200, String::new(), Ok(records())).unwrap();
    let b = interpret_listing_response(200, String::new(), Ok(records())).unwrap();
    assert_eq!(a.len(), b.len());
    for (x, y) in a.iter().zip(b.iter()) {
        assert_eq!(x.id, y.id);
        assert_eq!(x.name, y.name);
        assert_eq!(x.full_name, y.full_name);
        assert_eq!(x.description, y.description);
        assert_eq!(x.clone_url, y.clone_url);
        assert_eq!(x.ssh_url, y.ssh_url);
        assert_eq!(x.stars, y.stars);
        assert_eq!(x.forks, y.forks);
        assert_eq!(x.private, y.private);
    }
}
