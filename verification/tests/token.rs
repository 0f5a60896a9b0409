use image_checker::registry::TokenStrategy;
use image_checker::token::{
    docker_token_url, github_token_url, google_token_url, token_from_body, token_from_json,
    token_url, TokenError,
};

#[test]
fn token_member_is_read() {
    assert_eq!(token_from_body("{\"token\":\"abc\"}"), Ok(String::from("abc")));
}

#[test]
fn token_among_other_members_is_read() {
    let body = "{\"expires_in\": 300, \"token\": \"t0k\", \"issued_at\": \"now\"}";
    assert_eq!(token_from_body(body), Ok(String::from("t0k")));
}

#[test]
fn missing_token_is_not_found() {
    assert_eq!(token_from_body("{\"access_token\":\"abc\"}"), Err(TokenError::TokenNotFound));
    assert_eq!(token_from_body("{}"), Err(TokenError::TokenNotFound));
}

#[test]
fn token_that_is_no_string_is_not_found() {
    assert_eq!(token_from_body("{\"token\": 17}"), Err(TokenError::TokenNotFound));
    assert_eq!(token_from_body("{\"token\": null}"), Err(TokenError::TokenNotFound));
    assert_eq!(token_from_body("{\"token\": {\"token\": \"x\"}}"), Err(TokenError::TokenNotFound));
}

#[test]
fn document_that_is_no_object_has_no_token() {
    assert_eq!(token_from_body("[\"token\"]"), Err(TokenError::TokenNotFound));
    assert_eq!(token_from_body("\"token\""), Err(TokenError::TokenNotFound));
    assert_eq!(token_from_body("null"), Err(TokenError::TokenNotFound));
}

#[test]
fn text_that_is_no_json_is_invalid() {
    assert_eq!(token_from_body(""), Err(TokenError::InvalidJson));
    assert_eq!(token_from_body("<html>denied</html>"), Err(TokenError::InvalidJson));
    assert_eq!(token_from_body("{\"token\":\"abc\""), Err(TokenError::InvalidJson));
}

#[test]
fn empty_token_is_a_token() {
    assert_eq!(token_from_body("{\"token\":\"\"}"), Ok(String::new()));
}

#[test]
fn escapes_in_the_token_are_resolved() {
    assert_eq!(token_from_body("{\"token\":\"a\\u0062\\\"c\"}"), Ok(String::from("ab\"c")));
}

#[test]
fn last_of_two_token_members_counts() {
    assert_eq!(token_from_body("{\"token\":\"one\",\"token\":\"two\"}"), Ok(String::from("two")));
}

#[test]
fn token_of_a_parsed_document() {
    let parsed = serde_json::from_str::<serde_json::Value>("{\"token\":\"abc\"}");
    assert_eq!(token_from_json(parsed), Ok(String::from("abc")));
    let parsed = serde_json::from_str::<serde_json::Value>("{\"nekot\":\"abc\"}");
    assert_eq!(token_from_json(parsed), Err(TokenError::TokenNotFound));
    let parsed = serde_json::from_str::<serde_json::Value>("token");
    assert_eq!(token_from_json(parsed), Err(TokenError::InvalidJson));
}

#[test]
fn docker_hub_endpoint() {
    assert_eq!(
        docker_token_url("library/nginx"),
        "https://auth.docker.io/token?service=registry.docker.io&scope=repository:library/nginx:pull"
    );
}

#[test]
fn github_endpoint() {
    assert_eq!(
        github_token_url("owner/app"),
        "https://ghcr.io/token?scope=repository:owner/app:pull"
    );
}

#[test]
fn google_endpoint() {
    assert_eq!(
        google_token_url("project/image"),
        "https://gcr.io/v2/token?scope=repository:project/image:pull&service=gcr.io"
    );
}

#[test]
fn endpoint_by_strategy() {
    assert_eq!(token_url(TokenStrategy::Anonymous, "a/b"), None);
    assert_eq!(token_url(TokenStrategy::DockerHub, "a/b"), Some(docker_token_url("a/b")));
    assert_eq!(token_url(TokenStrategy::GithubPackages, "a/b"), Some(github_token_url("a/b")));
    assert_eq!(token_url(TokenStrategy::GoogleRegistry, "a/b"), Some(google_token_url("a/b")));
}
