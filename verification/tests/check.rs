use image_checker::check::{
    after_manifest, after_token, bearer_header, begin, manifest_request, resume, token_of_reply,
    Pending, Reply, Request, Step, Verdict,
};
use image_checker::registry::{default_registries, MediaType, Registry, TokenStrategy};
use image_checker::token::TokenError;

fn response(status: u16, body: &str) -> Reply {
    Reply::Response { status, body: String::from(body) }
}

fn quay() -> Registry {
    Registry::new("quay.io", TokenStrategy::Anonymous, MediaType::DockerManifest)
}

#[test]
fn status_200_is_available() {
    assert_eq!(after_manifest(&response(200, "")), Verdict::Available);
}

#[test]
fn denied_and_missing_are_unavailable() {
    assert_eq!(after_manifest(&response(404, "")), Verdict::Unavailable);
    assert_eq!(after_manifest(&response(401, "")), Verdict::Unavailable);
    assert_eq!(after_manifest(&response(403, "")), Verdict::Unavailable);
}

#[test]
fn only_statuses_from_200_to_299_are_available() {
    assert_eq!(after_manifest(&response(199, "")), Verdict::Unavailable);
    assert_eq!(after_manifest(&response(204, "")), Verdict::Available);
    assert_eq!(after_manifest(&response(299, "")), Verdict::Available);
    assert_eq!(after_manifest(&response(300, "")), Verdict::Unavailable);
    assert_eq!(after_manifest(&response(500, "")), Verdict::Unavailable);
    assert_eq!(after_manifest(&response(0, "")), Verdict::Unavailable);
}

#[test]
fn failed_manifest_request_is_unavailable() {
    assert_eq!(after_manifest(&Reply::Failed), Verdict::Unavailable);
}

#[test]
fn bearer_header_of_a_token() {
    assert_eq!(bearer_header("abc"), Some(String::from("Bearer abc")));
    assert_eq!(bearer_header(""), None);
}

#[test]
fn manifest_request_of_a_docker_style_registry() {
    let request = manifest_request(&quay(), "coreos/etcd", "v3.5.0", "https://", "");
    assert_eq!(
        request,
        Request {
            url: String::from("https://quay.io/v2/coreos/etcd/manifests/v3.5.0"),
            accept: Some(String::from("application/vnd.docker.distribution.manifest.v2+json")),
            authorization: None,
        }
    );
}

#[test]
fn manifest_request_of_the_google_registry() {
    let table = default_registries();
    let request = manifest_request(&table[2], "distroless/base", "latest", "https://", "tok");
    assert_eq!(
        request,
        Request {
            url: String::from("https://gcr.io/v2/distroless/base/manifests/latest"),
            accept: Some(String::from("application/vnd.oci.image.index.v1+json")),
            authorization: Some(String::from("Bearer tok")),
        }
    );
}

#[test]
fn manifest_request_with_another_protocol() {
    let local = Registry::new("localhost:5000", TokenStrategy::Anonymous, MediaType::DockerManifest);
    let request = manifest_request(&local, "app", "dev", "http://", "");
    assert_eq!(request.url, "http://localhost:5000/v2/app/manifests/dev");
}

#[test]
fn check_without_token_endpoint_begins_with_the_manifest() {
    let (pending, request) = begin(&quay(), "a/b", "1", "https://");
    assert_eq!(pending, Pending::Manifest);
    assert_eq!(request, manifest_request(&quay(), "a/b", "1", "https://", ""));
    assert_eq!(request.authorization, None);
}

#[test]
fn check_with_token_endpoint_begins_with_the_token() {
    let table = default_registries();
    let (pending, request) = begin(&table[0], "library/nginx", "latest", "https://");
    assert_eq!(pending, Pending::Token);
    assert_eq!(
        request,
        Request {
            url: String::from(
                "https://auth.docker.io/token?service=registry.docker.io&scope=repository:library/nginx:pull"
            ),
            accept: None,
            authorization: None,
        }
    );
    let (pending, request) = begin(&table[1], "owner/app", "v2", "https://");
    assert_eq!(pending, Pending::Token);
    assert_eq!(request.url, "https://ghcr.io/token?scope=repository:owner/app:pull");
    let (pending, request) = begin(&table[2], "p/i", "v2", "https://");
    assert_eq!(pending, Pending::Token);
    assert_eq!(request.url, "https://gcr.io/v2/token?scope=repository:p/i:pull&service=gcr.io");
}

#[test]
fn token_leads_to_the_manifest_request() {
    let table = default_registries();
    let step = after_token(&table[0], "library/nginx", "latest", "https://", Ok(String::from("abc")));
    assert_eq!(
        step,
        Step::Ask(
            Pending::Manifest,
            Request {
                url: String::from("https://registry-1.docker.io/v2/library/nginx/manifests/latest"),
                accept: Some(String::from("application/vnd.docker.distribution.manifest.v2+json")),
                authorization: Some(String::from("Bearer abc")),
            }
        )
    );
}

#[test]
fn empty_token_leads_to_a_request_without_authorization() {
    let table = default_registries();
    let step = after_token(&table[1], "o/a", "1", "https://", Ok(String::new()));
    assert_eq!(step, Step::Ask(Pending::Manifest, manifest_request(&table[1], "o/a", "1", "https://", "")));
}

#[test]
fn no_token_is_unavailable() {
    let table = default_registries();
    for error in [TokenError::Transport, TokenError::InvalidJson, TokenError::TokenNotFound] {
        for registry in &table {
            let step = after_token(registry, "o/a", "1", "https://", Err(error));
            assert_eq!(step, Step::Done(Verdict::Unavailable));
        }
    }
}

#[test]
fn token_of_a_reply() {
    assert_eq!(token_of_reply(&response(200, "{\"token\":\"abc\"}")), Ok(String::from("abc")));
    assert_eq!(token_of_reply(&response(200, "{}")), Err(TokenError::TokenNotFound));
    assert_eq!(token_of_reply(&response(200, "nope")), Err(TokenError::InvalidJson));
    assert_eq!(token_of_reply(&Reply::Failed), Err(TokenError::Transport));
}

#[test]
fn status_of_the_token_reply_is_not_looked_at() {
    assert_eq!(token_of_reply(&response(401, "{\"token\":\"abc\"}")), Ok(String::from("abc")));
}

#[test]
fn resume_after_the_token_reply() {
    let table = default_registries();
    let step = resume(&table[0], "a/b", "1", "https://", Pending::Token, &response(200, "{\"token\":\"abc\"}"));
    assert_eq!(step, Step::Ask(Pending::Manifest, manifest_request(&table[0], "a/b", "1", "https://", "abc")));
    let step = resume(&table[0], "a/b", "1", "https://", Pending::Token, &response(200, "{\"detail\":\"x\"}"));
    assert_eq!(step, Step::Done(Verdict::Unavailable));
    let step = resume(&table[0], "a/b", "1", "https://", Pending::Token, &Reply::Failed);
    assert_eq!(step, Step::Done(Verdict::Unavailable));
}

#[test]
fn resume_after_the_manifest_reply() {
    let table = default_registries();
    let step = resume(&table[0], "a/b", "1", "https://", Pending::Manifest, &response(200, "{}"));
    assert_eq!(step, Step::Done(Verdict::Available));
    let step = resume(&table[0], "a/b", "1", "https://", Pending::Manifest, &response(404, "{}"));
    assert_eq!(step, Step::Done(Verdict::Unavailable));
    let step = resume(&table[0], "a/b", "1", "https://", Pending::Manifest, &Reply::Failed);
    assert_eq!(step, Step::Done(Verdict::Unavailable));
}
