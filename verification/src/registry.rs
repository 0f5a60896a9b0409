//! Registry descriptors and the fixed table of registries that are asked.

use vstd::prelude::*;

verus! {

/// How a registry hands out the bearer token for a pull.
#[derive(Clone, Copy, Debug, PartialEq, Eq, Structural)]
pub enum TokenStrategy {
    /// No token endpoint is known: the manifest is asked for without a token.
    Anonymous,
    /// The token service of Docker Hub.
    DockerHub,
    /// The token endpoint of the GitHub Container Registry.
    GithubPackages,
    /// The token endpoint of the Google Container Registry.
    GoogleRegistry,
}

/// The media type that a manifest request accepts.
#[derive(Clone, Copy, Debug, PartialEq, Eq, Structural)]
pub enum MediaType {
    /// A Docker distribution manifest, version 2.
    DockerManifest,
    /// An OCI image index.
    OciIndex,
}

impl MediaType {
    /// The media type as it stands in an `Accept` header.
    pub open spec fn text(self) -> Seq<char> {
        match self {
            MediaType::DockerManifest => "application/vnd.docker.distribution.manifest.v2+json"@,
            MediaType::OciIndex => "application/vnd.oci.image.index.v1+json"@,
        }
    }

    /// The media type as it stands in an `Accept` header.
    pub fn as_str(self) -> (r: &'static str)
        ensures
            r@ == self.text(),
    {
        match self {
            MediaType::DockerManifest => "application/vnd.docker.distribution.manifest.v2+json",
            MediaType::OciIndex => "application/vnd.oci.image.index.v1+json",
        }
    }
}

/// One registry: its host name, how it hands out tokens, and the media type
/// its manifests are asked in.
#[derive(Clone, Debug, PartialEq, Eq)]
pub struct Registry {
    pub host: String,
    pub strategy: TokenStrategy,
    pub media: MediaType,
}

/// A registry descriptor as a mathematical value.
pub ghost struct RegistryView {
    pub host: Seq<char>,
    pub strategy: TokenStrategy,
    pub media: MediaType,
}

impl View for Registry {
    type V = RegistryView;

    open spec fn view(&self) -> RegistryView {
        RegistryView { host: self.host@, strategy: self.strategy, media: self.media }
    }
}

/// The descriptors of a table, in its order.
pub open spec fn table_view(table: Seq<Registry>) -> Seq<RegistryView> {
    Seq::new(table.len(), |i: int| table[i]@)
}

/// The six registries that are asked, in the order in which they are asked:
/// Docker Hub, GitHub, Google, Kubernetes, Quay, Zalando.
pub open spec fn default_table() -> Seq<RegistryView> {
    seq![
        RegistryView {
            host: "registry-1.docker.io"@,
            strategy: TokenStrategy::DockerHub,
            media: MediaType::DockerManifest,
        },
        RegistryView {
            host: "ghcr.io"@,
            strategy: TokenStrategy::GithubPackages,
            media: MediaType::DockerManifest,
        },
        RegistryView {
            host: "gcr.io"@,
            strategy: TokenStrategy::GoogleRegistry,
            media: MediaType::OciIndex,
        },
        RegistryView {
            host: "registry.k8s.io"@,
            strategy: TokenStrategy::Anonymous,
            media: MediaType::DockerManifest,
        },
        RegistryView {
            host: "quay.io"@,
            strategy: TokenStrategy::Anonymous,
            media: MediaType::DockerManifest,
        },
        RegistryView {
            host: "registry.opensource.zalan.do"@,
            strategy: TokenStrategy::Anonymous,
            media: MediaType::DockerManifest,
        },
    ]
}

impl Registry {
    /// A descriptor for `host`.
    pub fn new(host: &str, strategy: TokenStrategy, media: MediaType) -> (r: Registry)
        ensures
            r@ == (RegistryView { host: host@, strategy, media }),
    {
        Registry { host: String::from_str(host), strategy, media }
    }
}

/// The six registries that are asked, in the order in which they are asked.
pub fn default_registries() -> (table: Vec<Registry>)
    ensures
        table_view(table@) == default_table(),
{
    let mut table: Vec<Registry> = Vec::new();
    table.push(
        Registry::new("registry-1.docker.io", TokenStrategy::DockerHub, MediaType::DockerManifest),
    );
    table.push(Registry::new("ghcr.io", TokenStrategy::GithubPackages, MediaType::DockerManifest));
    table.push(Registry::new("gcr.io", TokenStrategy::GoogleRegistry, MediaType::OciIndex));
    table.push(Registry::new("registry.k8s.io", TokenStrategy::Anonymous, MediaType::DockerManifest));
    table.push(Registry::new("quay.io", TokenStrategy::Anonymous, MediaType::DockerManifest));
    table.push(
        Registry::new(
            "registry.opensource.zalan.do",
            TokenStrategy::Anonymous,
            MediaType::DockerManifest,
        ),
    );
    assert(table_view(table@) =~= default_table());
    table
}

} // verus!
