use araki::cli::get::{parse_repo_arg, RemoteRepo};

fn bare(repo: &str) -> RemoteRepo {
    RemoteRepo { org: None, repo: repo.to_string(), domain: None, protocol: None }
}

#[test]
fn ssh_url_applies_all_defaults() {
    let r = bare("x");
    assert_eq!(r.as_ssh_url().as_str(), "git@github.com:openteams-ai/x.git");
}

#[test]
fn https_url_applies_all_defaults() {
    let r = bare("widgets");
    assert_eq!(r.as_url().as_str(), "https://github.com/openteams-ai/widgets");
}

#[test]
fn urls_use_given_fields_over_defaults() {
    let r = RemoteRepo {
        org: Some("acme".to_string()),
        repo: "widgets".to_string(),
        domain: Some("example.org".to_string()),
        protocol: Some("http://".to_string()),
    };
    assert_eq!(r.as_url().as_str(), "http://example.org/acme/widgets");
    assert_eq!(r.as_ssh_url().as_str(), "git@example.org:acme/widgets.git");
}

#[test]
fn parse_org_and_repo() {
    let r = parse_repo_arg("acme/widgets").unwrap();
    assert_eq!(r.org.as_deref(), Some("acme"));
    assert_eq!(r.repo.as_str(), "widgets");
    assert!(r.domain.is_none());
    assert!(r.protocol.is_none());
}

#[test]
fn parse_repo_alone() {
    let r = parse_repo_arg("widgets").unwrap();
    assert!(r.org.is_none());
    assert_eq!(r.repo.as_str(), "widgets");
    assert!(r.domain.is_none());
    assert!(r.protocol.is_none());
}

#[test]
fn parse_empty_string_fails() {
    let e = parse_repo_arg("").unwrap_err();
    assert_eq!(e.as_str(), "Unrecognized format for repo name or URL: .");
}

#[test]
fn parse_full_https_url() {
    let r = parse_repo_arg("https://github.com/acme/widgets").unwrap();
    assert_eq!(r.protocol.as_deref(), Some("https://"));
    assert_eq!(r.domain.as_deref(), Some("github.com"));
    assert_eq!(r.org.as_deref(), Some("acme"));
    assert_eq!(r.repo.as_str(), "widgets");
}

#[test]
fn parse_git_plus_https_url() {
    let r = parse_repo_arg("git+https://github.com/acme/widgets").unwrap();
    assert_eq!(r.protocol.as_deref(), Some("git+https://"));
    assert_eq!(r.domain.as_deref(), Some("github.com"));
}

#[test]
fn parse_domain_without_protocol() {
    let r = parse_repo_arg("github.com/acme/widgets").unwrap();
    assert!(r.protocol.is_none());
    assert_eq!(r.domain.as_deref(), Some("github.com"));
    assert_eq!(r.org.as_deref(), Some("acme"));
    assert_eq!(r.repo.as_str(), "widgets");
}

#[test]
fn parse_domain_without_org() {
    let r = parse_repo_arg("github.com/widgets").unwrap();
    assert!(r.org.is_none());
    assert_eq!(r.repo.as_str(), "widgets");
}

#[test]
fn parse_protocol_needs_recognized_domain() {
    assert!(parse_repo_arg("https://example.org/acme/widgets").is_err());
}

#[test]
fn parse_rejects_extra_path_segments() {
    assert!(parse_repo_arg("acme/widgets/extra").is_err());
}

#[test]
fn parse_rejects_bad_identifier() {
    assert!(parse_repo_arg("acme/wid gets").is_err());
    assert!(parse_repo_arg("acme/").is_err());
    assert!(parse_repo_arg("/widgets").is_err());
}

#[test]
fn parse_rejects_a_bare_domain() {
    assert!(parse_repo_arg("github.com").is_err());
    assert!(parse_repo_arg("github.com/").is_err());
}

#[test]
fn parse_round_trips_into_ssh_url() {
    let r = parse_repo_arg("acme/widgets").unwrap();
    assert_eq!(r.as_ssh_url().as_str(), "git@github.com:acme/widgets.git");
}
