use bgit::auth_url::{
    host_from_http, is_known_host, parse_http, parse_ssh_like, to_https, to_ssh,
    transform_url_for_preference,
};
use bgit::global_config::PreferredAuth;

#[test]
fn ssh_scp_to_https_known_hosts() {
    assert_eq!(
        transform_url_for_preference("git@github.com:owner/repo.git", PreferredAuth::Https)
            .as_deref(),
        Some("https://github.com/owner/repo.git")
    );
    assert_eq!(
        transform_url_for_preference("ssh://git@gitlab.com/owner/repo", PreferredAuth::Https)
            .as_deref(),
        Some("https://gitlab.com/owner/repo")
    );
}

#[test]
fn https_to_ssh_known_hosts() {
    assert_eq!(
        transform_url_for_preference("https://github.com/owner/repo.git", PreferredAuth::Ssh)
            .as_deref(),
        Some("git@github.com:owner/repo.git")
    );
    assert_eq!(
        transform_url_for_preference("https://bitbucket.org/owner/repo", PreferredAuth::Ssh)
            .as_deref(),
        Some("git@bitbucket.org:owner/repo")
    );
}

#[test]
fn http_upgrade_to_https_for_known_hosts() {
    assert_eq!(
        transform_url_for_preference("http://github.com/owner/repo", PreferredAuth::Https)
            .as_deref(),
        Some("https://github.com/owner/repo")
    );
}

#[test]
fn unknown_hosts_do_not_transform() {
    assert!(
        transform_url_for_preference("git@example.com:owner/repo", PreferredAuth::Https).is_none()
    );
    assert!(
        transform_url_for_preference("https://example.com/owner/repo", PreferredAuth::Ssh)
            .is_none()
    );
    assert!(
        transform_url_for_preference("http://example.com/owner/repo", PreferredAuth::Https)
            .is_none()
    );
}

#[test]
fn no_op_when_already_matching_preference() {
    assert!(
        transform_url_for_preference("https://github.com/owner/repo", PreferredAuth::Https)
            .is_none()
    );
    assert!(transform_url_for_preference("git@github.com:owner/repo", PreferredAuth::Ssh).is_none());
}

#[test]
fn repository_url_based_never_transforms() {
    assert!(transform_url_for_preference(
        "git@github.com:owner/repo",
        PreferredAuth::RepositoryURLBased
    )
    .is_none());
    assert!(transform_url_for_preference(
        "https://github.com/owner/repo",
        PreferredAuth::RepositoryURLBased
    )
    .is_none());
}

#[test]
fn round_trip_between_ssh_and_https() {
    let https =
        transform_url_for_preference("git@gitlab.com:group/project.git", PreferredAuth::Https)
            .unwrap();
    assert_eq!(https, "https://gitlab.com/group/project.git");
    let back = transform_url_for_preference(&https, PreferredAuth::Ssh).unwrap();
    assert_eq!(back, "git@gitlab.com:group/project.git");
    assert!(transform_url_for_preference(&https, PreferredAuth::Https).is_none());
}

#[test]
fn ssh_url_with_leading_slash_path_and_no_path() {
    assert_eq!(
        transform_url_for_preference("ssh://git@github.com//owner/repo", PreferredAuth::Https)
            .as_deref(),
        Some("https://github.com/owner/repo")
    );
    assert_eq!(
        transform_url_for_preference("ssh://git@github.com", PreferredAuth::Https).as_deref(),
        Some("https://github.com/")
    );
    assert!(transform_url_for_preference("git@github.com", PreferredAuth::Https).is_none());
    assert_eq!(
        transform_url_for_preference("ftp://github.com/owner/repo", PreferredAuth::Ssh)
            .as_deref(),
        Some("git@github.com:owner/repo")
    );
}

#[test]
fn parse_helpers() {
    assert_eq!(
        parse_ssh_like("git@github.com:a/b.git"),
        Some(("github.com".to_string(), "a/b.git".to_string()))
    );
    assert_eq!(
        parse_ssh_like("ssh://git@host.example/x/y"),
        Some(("host.example".to_string(), "x/y".to_string()))
    );
    assert_eq!(parse_ssh_like("https://github.com/a"), None);
    assert_eq!(
        parse_http("https://github.com"),
        Some(("github.com".to_string(), String::new()))
    );
    assert_eq!(host_from_http("no-scheme"), None);
    assert!(is_known_host("bitbucket.org"));
    assert!(!is_known_host("GitHub.com"));
    assert_eq!(to_ssh("git@github.com:a/b"), None);
    assert_eq!(to_https("http://example.com/a"), None);
}
