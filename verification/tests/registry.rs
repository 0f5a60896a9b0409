use image_checker::registry::{default_registries, MediaType, Registry, TokenStrategy};

#[test]
fn six_registries_in_their_order() {
    let table = default_registries();
    let hosts: Vec<&str> = table.iter().map(|r| r.host.as_str()).collect();
    assert_eq!(
        hosts,
        vec![
            "registry-1.docker.io",
            "ghcr.io",
            "gcr.io",
            "registry.k8s.io",
            "quay.io",
            "registry.opensource.zalan.do",
        ]
    );
}

#[test]
fn token_strategies_of_the_table() {
    let table = default_registries();
    let strategies: Vec<TokenStrategy> = table.iter().map(|r| r.strategy).collect();
    assert_eq!(
        strategies,
        vec![
            TokenStrategy::DockerHub,
            TokenStrategy::GithubPackages,
            TokenStrategy::GoogleRegistry,
            TokenStrategy::Anonymous,
            TokenStrategy::Anonymous,
            TokenStrategy::Anonymous,
        ]
    );
}

#[test]
fn only_the_google_registry_is_asked_for_an_index() {
    let table = default_registries();
    for registry in &table {
        let expected =
            if registry.host == "gcr.io" { MediaType::OciIndex } else { MediaType::DockerManifest };
        assert_eq!(registry.media, expected);
    }
}

#[test]
fn media_types_as_text() {
    assert_eq!(
        MediaType::DockerManifest.as_str(),
        "application/vnd.docker.distribution.manifest.v2+json"
    );
    assert_eq!(MediaType::OciIndex.as_str(), "application/vnd.oci.image.index.v1+json");
}

#[test]
fn descriptor_holds_what_it_was_made_of() {
    let registry = Registry::new("example.org", TokenStrategy::Anonymous, MediaType::OciIndex);
    assert_eq!(
        registry,
        Registry {
            host: String::from("example.org"),
            strategy: TokenStrategy::Anonymous,
            media: MediaType::OciIndex,
        }
    );
}
