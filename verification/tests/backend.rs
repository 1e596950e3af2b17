use araki::backends::{
    create_repository_body, create_repository_result, device_code_url, get_current_backend,
    json_escape, make_authenticated_request_headers, repo_create_path, repo_metadata_path,
    response_has_name_field, token_cache_path, token_file_content, token_request_url, urlencode,
    GitHubBackend,
};
use araki::settings::Settings;

#[test]
fn unauthenticated_requests_fail_fast_with_guidance() {
    let backend = GitHubBackend::new(false);
    let e = backend.request_url("/repos/acme/widgets").unwrap_err();
    assert_eq!(e.as_str(), "Please authenticate with `araki auth login` before continuing.");
}

#[test]
fn authenticated_requests_join_base_and_path() {
    let backend = GitHubBackend::new(true);
    let url = backend.request_url("/repos/acme/widgets").unwrap();
    assert_eq!(url.as_str(), "https://api.github.com/repos/acme/widgets");
}

#[test]
fn api_paths_follow_the_provider_layout() {
    assert_eq!(repo_metadata_path("acme", "widgets").as_str(), "/repos/acme/widgets");
    assert_eq!(repo_create_path("acme").as_str(), "/orgs/acme/repos");
}

#[test]
fn existence_check_keys_on_the_name_field() {
    let with_name = vec!["id".to_string(), "name".to_string()];
    let without = vec!["message".to_string(), "documentation_url".to_string()];
    assert!(response_has_name_field(&with_name));
    assert!(!response_has_name_field(&without));
}

#[test]
fn creation_body_is_the_fixed_private_document() {
    assert_eq!(
        create_repository_body("widgets").as_str(),
        "{\"name\":\"widgets\",\"private\":true}"
    );
}

#[test]
fn creation_body_escapes_the_name() {
    assert_eq!(
        create_repository_body("wi\"dg\\ets").as_str(),
        "{\"name\":\"wi\\\"dg\\\\ets\",\"private\":true}"
    );
    assert_eq!(json_escape("a\nb").as_str(), "a\\u000Ab");
}

#[test]
fn creation_succeeds_only_on_http_success() {
    assert!(create_repository_result(201, "").is_ok());
    assert!(create_repository_result(204, "").is_ok());
    let e = create_repository_result(422, "name already exists").unwrap_err();
    assert_eq!(e.as_str(), "name already exists");
    assert!(create_repository_result(301, "moved").is_err());
}

#[test]
fn repo_info_pins_domain_and_protocol() {
    let backend = GitHubBackend::new(true);
    let r = backend.get_repo_info("acme", "widgets");
    assert_eq!(r.org.as_deref(), Some("acme"));
    assert_eq!(r.repo.as_str(), "widgets");
    assert_eq!(r.domain.as_deref(), Some("github.com"));
    assert_eq!(r.protocol.as_deref(), Some("https://"));
    assert_eq!(r.as_url().as_str(), "https://github.com/acme/widgets");
}

#[test]
fn headers_carry_the_trimmed_bearer_token() {
    let headers = make_authenticated_request_headers("tok123\n");
    assert_eq!(headers.len(), 4);
    assert_eq!(headers[0].0.as_str(), "Accept");
    assert_eq!(headers[0].1.as_str(), "application/vnd.github+json");
    assert_eq!(headers[1].0.as_str(), "X-GitHub-Api-Version");
    assert_eq!(headers[1].1.as_str(), "2022-11-28");
    assert_eq!(headers[2].0.as_str(), "Authorization");
    assert_eq!(headers[2].1.as_str(), "Bearer tok123");
    assert_eq!(headers[3].0.as_str(), "User-Agent");
    assert_eq!(headers[3].1.as_str(), "araki");
}

#[test]
fn token_cache_round_trips_through_the_file_form() {
    let path = token_cache_path("/home/u/.config/araki");
    assert_eq!(path.as_str(), "/home/u/.config/araki/araki-token");
    let content = token_file_content("tok123");
    assert_eq!(content.as_str(), "tok123\n");
    let headers = make_authenticated_request_headers(content.as_str());
    assert_eq!(headers[2].1.as_str(), "Bearer tok123");
}

#[test]
fn device_code_request_targets_the_fixed_endpoint() {
    assert_eq!(
        device_code_url().as_str(),
        "https://github.com/login/device/code?client_id=Ov23linBvMCnaKWY4CBz&scope=repo+admin%3Aorg"
    );
}

#[test]
fn token_request_carries_the_device_code() {
    assert_eq!(
        token_request_url("dc-123").as_str(),
        "https://github.com/login/oauth/access_token?client_id=Ov23linBvMCnaKWY4CBz&device_code=dc-123&grant_type=urn%3Aietf%3Aparams%3Aoauth%3Agrant-type%3Adevice_code"
    );
}

#[test]
fn urlencode_escapes_outside_the_safe_set() {
    assert_eq!(urlencode("repo admin:org").as_str(), "repo+admin%3Aorg");
    assert_eq!(urlencode("AZaz09*-._").as_str(), "AZaz09*-._");
    assert_eq!(urlencode("a/b=c&d").as_str(), "a%2Fb%3Dc%26d");
    assert_eq!(urlencode("é").as_str(), "%C3%A9");
}

#[test]
fn current_backend_reflects_the_cached_token() {
    let authenticated = get_current_backend(true);
    assert!(authenticated.authenticated);
    let fresh = get_current_backend(false);
    assert!(!fresh.authenticated);
    assert_eq!(fresh.api_url.as_str(), "https://api.github.com/");
}

#[test]
fn all_whitespace_token_trims_to_nothing() {
    let headers = make_authenticated_request_headers(" \t\r\n");
    assert_eq!(headers[2].1.as_str(), "Bearer ");
}

#[test]
fn urlencode_of_empty_input_is_empty() {
    assert_eq!(urlencode("").as_str(), "");
    assert_eq!(json_escape("").as_str(), "");
}

#[test]
fn default_settings_select_github() {
    let s: Settings = Default::default();
    assert_eq!(s.backend.as_str(), "github");
}
