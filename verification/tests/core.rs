use git_tui_cloner::config::Config;
use git_tui_cloner::config::GitLabInstance;
use git_tui_cloner::text::{u16_to_string, u32_to_string, u64_to_string};
use git_tui_cloner::types::{AppError, CloneType, Repository};

fn sample_repo(clone_url: &str, ssh_url: &str, private: bool) -> Repository {
    Repository {
        id: String::from("1"),
        name: String::from("repo"),
        full_name: String::from("org/repo"),
        description: None,
        clone_url: String::from(clone_url),
        ssh_url: String::from(ssh_url),
        stars: 0,
        forks: 0,
        private,
        clone_type: None,
    }
}

#[test]
fn decimal_rendering_exact_values() {
    assert_eq!(u64_to_string(0), "0");
    assert_eq!(u64_to_string(7), "7");
    assert_eq!(u64_to_string(30), "30");
    assert_eq!(u64_to_string(12345), "12345");
    assert_eq!(u64_to_string(u64::MAX), "18446744073709551615");
    assert_eq!(u32_to_string(1), "1");
    assert_eq!(u16_to_string(404), "404");
}

#[test]
fn default_config_under_home() {
    let c = Config::default_with_home(Some("/home/user"));
    assert!(c.github_token.is_none());
    assert!(c.gitlab_token.is_none());
    assert!(c.ssh_key.is_none());
    assert_eq!(c.default_clone_path, "/home/user/projects");
    assert_eq!(c.gitlab_instance.len(), 1);
    assert_eq!(c.gitlab_instance[0].name, "GitLab");
    assert_eq!(c.gitlab_instance[0].url, "https://gitlab.com");
    assert!(c.gitlab_instance[0].token.is_none());
}

#[test]
fn default_config_without_home() {
    let c = Config::default_with_home(None);
    assert_eq!(c.default_clone_path, "./projects");
}

#[test]
fn config_path_under_home() {
    let p = Config::config_path_from_home(Some("/home/user")).unwrap();
    assert_eq!(p, "/home/user/.config/git-tui-cloner/config.json");
}

#[test]
fn config_path_without_home_is_config_error() {
    let e = Config::config_path_from_home(None).unwrap_err();
    match e {
        AppError::ConfigError(m) => assert_eq!(m, "Failed to determine home directory"),
        _ => panic!("expected a configuration error"),
    }
}

#[test]
fn find_instance_by_name() {
    let mut c = Config::default_with_home(None);
    c.gitlab_instance = vec![
        GitLabInstance {
            name: String::from("corp-a"),
            url: String::from("https://gitlab.corp-a.example"),
            token: Some(String::from("token-a")),
        },
        GitLabInstance {
            name: String::from("corp-b"),
            url: String::from("https://gitlab.corp-b.example"),
            token: None,
        },
    ];
    let a = c.find_instance("corp-a").unwrap();
    assert_eq!(a.url, "https://gitlab.corp-a.example");
    let b = c.find_instance("corp-b").unwrap();
    assert!(b.token.is_none());
    assert!(c.find_instance("corp-c").is_none());
}

#[test]
fn derived_copy_carries_chosen_protocol() {
    let repo = sample_repo("https://example.com/org/repo.git", "git@example.com:org/repo.git", false);
    let derived = repo.with_clone_type(CloneType::SSH);
    assert!(matches!(derived.clone_type, Some(CloneType::SSH)));
    assert_eq!(derived.full_name, repo.full_name);
    assert_eq!(derived.clone_url, repo.clone_url);
    assert!(repo.clone_type.is_none());
}

#[test]
fn clone_target_pairs_url_with_protocol() {
    let repo = sample_repo("https://example.com/org/repo.git", "git@example.com:org/repo.git", false);
    let https = repo.clone_target(CloneType::HTTPS);
    assert_eq!(https.url, "https://example.com/org/repo.git");
    assert!(matches!(https.clone_type, CloneType::HTTPS));
    let ssh = repo.clone_target(CloneType::SSH);
    assert_eq!(ssh.url, "git@example.com:org/repo.git");
    assert!(matches!(ssh.clone_type, CloneType::SSH));
}

#[test]
fn error_messages_are_displayable() {
    assert_eq!(
        AppError::AuthRequired(String::from("a token is needed")).message(),
        "Authentication required: a token is needed"
    );
    assert_eq!(
        AppError::UpstreamError { status: 403, body: String::from("rate limited") }.message(),
        "Upstream error (status 403): rate limited"
    );
    assert_eq!(
        AppError::DecodeError(String::from("bad schema")).message(),
        "Decode error: bad schema"
    );
    assert_eq!(
        AppError::AuthenticationError(String::from("key rejected")).message(),
        "Authentication error: key rejected"
    );
    assert_eq!(
        AppError::DestinationExists(String::from("/tmp/dest")).message(),
        "Destination already exists: /tmp/dest"
    );
    assert_eq!(
        AppError::TransportError(String::from("host unreachable")).message(),
        "Transport error: host unreachable"
    );
    assert_eq!(
        AppError::ConfigError(String::from("unreadable")).message(),
        "Configuration error: unreadable"
    );
}
