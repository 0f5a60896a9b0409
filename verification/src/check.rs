//! The check of one image against one registry, as a sequence of decisions:
//! each one names the next request, or the verdict.

use crate::registry::{Registry, RegistryView};
use crate::token::{
    parsed_strings, token_endpoint, token_from_body, token_of_parsed, token_url, token_view,
    TokenError,
};
use vstd::prelude::*;

verus! {

/// A GET request: its address and the two headers that it may carry.
#[derive(Clone, Debug, PartialEq, Eq)]
pub struct Request {
    pub url: String,
    pub accept: Option<String>,
    pub authorization: Option<String>,
}

/// A request as a mathematical value.
pub ghost struct RequestView {
    pub url: Seq<char>,
    pub accept: Option<Seq<char>>,
    pub authorization: Option<Seq<char>>,
}

/// An optional text as a mathematical value.
pub open spec fn text_view(text: Option<String>) -> Option<Seq<char>> {
    match text {
        Some(t) => Some(t@),
        None => None,
    }
}

impl View for Request {
    type V = RequestView;

    open spec fn view(&self) -> RequestView {
        RequestView {
            url: self.url@,
            accept: text_view(self.accept),
            authorization: text_view(self.authorization),
        }
    }
}

/// What came of a request.
#[derive(Clone, Debug, PartialEq, Eq)]
pub enum Reply {
    /// The server answered, with this status and body.
    Response { status: u16, body: String },
    /// The request did not complete.
    Failed,
}

/// A reply as a mathematical value.
pub ghost enum ReplyView {
    Response { status: u16, body: Seq<char> },
    Failed,
}

impl View for Reply {
    type V = ReplyView;

    open spec fn view(&self) -> ReplyView {
        match self {
            Reply::Response { status, body } => ReplyView::Response {
                status: *status,
                body: body@,
            },
            Reply::Failed => ReplyView::Failed,
        }
    }
}

/// The request whose reply a check waits for.
#[derive(Clone, Copy, Debug, PartialEq, Eq, Structural)]
pub enum Pending {
    /// The request to the token endpoint.
    Token,
    /// The request for the manifest.
    Manifest,
}

/// Whether the image can be pulled from a registry.
#[derive(Clone, Copy, Debug, PartialEq, Eq, Structural)]
pub enum Verdict {
    Available,
    Unavailable,
}

/// The next move of a check.
#[derive(Clone, Debug, PartialEq, Eq)]
pub enum Step {
    /// Send this request and come back with its reply.
    Ask(Pending, Request),
    /// The check is over.
    Done(Verdict),
}

/// A move as a mathematical value.
pub ghost enum StepView {
    Ask(Pending, RequestView),
    Done(Verdict),
}

impl View for Step {
    type V = StepView;

    open spec fn view(&self) -> StepView {
        match self {
            Step::Ask(pending, request) => StepView::Ask(*pending, request@),
            Step::Done(verdict) => StepView::Done(*verdict),
        }
    }
}

/// The address of the manifest of `repo:tag` at `host`.
pub open spec fn manifest_address(
    protocol: Seq<char>,
    host: Seq<char>,
    repo: Seq<char>,
    tag: Seq<char>,
) -> Seq<char> {
    protocol + host + "/v2/"@ + repo + "/manifests/"@ + tag
}

/// The `Authorization` header that presents `token`: none for an empty token.
pub open spec fn bearer(token: Seq<char>) -> Option<Seq<char>> {
    if token.len() == 0 {
        None
    } else {
        Some("Bearer "@ + token)
    }
}

/// The request for the manifest of `repo:tag` at a registry, with `token`.
pub open spec fn manifest_request_spec(
    registry: RegistryView,
    repo: Seq<char>,
    tag: Seq<char>,
    protocol: Seq<char>,
    token: Seq<char>,
) -> RequestView {
    RequestView {
        url: manifest_address(protocol, registry.host, repo, tag),
        accept: Some(registry.media.text()),
        authorization: bearer(token),
    }
}

/// The first move of a check: the request to the registry's token endpoint,
/// or, where it has none, the request for the manifest without a token.
pub open spec fn begin_spec(
    registry: RegistryView,
    repo: Seq<char>,
    tag: Seq<char>,
    protocol: Seq<char>,
) -> (Pending, RequestView) {
    match token_endpoint(registry.strategy, repo) {
        Some(url) => (Pending::Token, RequestView { url, accept: None, authorization: None }),
        None => (
            Pending::Manifest,
            manifest_request_spec(registry, repo, tag, protocol, Seq::empty()),
        ),
    }
}

/// The move after the token endpoint's answer was read: with a token the
/// manifest is asked for, without one the image counts as unavailable.
pub open spec fn after_token_spec(
    registry: RegistryView,
    repo: Seq<char>,
    tag: Seq<char>,
    protocol: Seq<char>,
    token: Result<Seq<char>, TokenError>,
) -> StepView {
    match token {
        Ok(t) => StepView::Ask(
            Pending::Manifest,
            manifest_request_spec(registry, repo, tag, protocol, t),
        ),
        Err(_) => StepView::Done(Verdict::Unavailable),
    }
}

/// A status from 200 to 299 says that the manifest exists.
pub open spec fn verdict_of_status(status: u16) -> Verdict {
    if 200 <= status < 300 {
        Verdict::Available
    } else {
        Verdict::Unavailable
    }
}

/// The verdict that the reply to the manifest request gives.
pub open spec fn after_manifest_spec(reply: ReplyView) -> Verdict {
    match reply {
        ReplyView::Response { status, body } => verdict_of_status(status),
        ReplyView::Failed => Verdict::Unavailable,
    }
}

/// The token that the reply of a token endpoint holds. The status of the
/// reply is not looked at.
pub open spec fn token_of_reply_spec(reply: ReplyView) -> Result<Seq<char>, TokenError> {
    match reply {
        ReplyView::Response { status, body } => token_of_parsed(parsed_strings(body)),
        ReplyView::Failed => Err(TokenError::Transport),
    }
}

/// The move that follows the reply to the pending request.
pub open spec fn resume_spec(
    registry: RegistryView,
    repo: Seq<char>,
    tag: Seq<char>,
    protocol: Seq<char>,
    pending: Pending,
    reply: ReplyView,
) -> StepView {
    match pending {
        Pending::Token => after_token_spec(
            registry,
            repo,
            tag,
            protocol,
            token_of_reply_spec(reply),
        ),
        Pending::Manifest => StepView::Done(after_manifest_spec(reply)),
    }
}

/// The `Authorization` header that presents `token`: none for an empty token.
pub fn bearer_header(token: &str) -> (header: Option<String>)
    ensures
        text_view(header) == bearer(token@),
{
    if token.is_empty() {
        None
    } else {
        let mut header = String::from_str("Bearer ");
        header.append(token);
        Some(header)
    }
}

/// The request for the manifest of `repo:tag` at `registry`, with `token`.
pub fn manifest_request(
    registry: &Registry,
    repo: &str,
    tag: &str,
    protocol: &str,
    token: &str,
) -> (request: Request)
    ensures
        request@ == manifest_request_spec(registry@, repo@, tag@, protocol@, token@),
{
    let mut url = String::from_str(protocol);
    url.append(registry.host.as_str());
    url.append("/v2/");
    url.append(repo);
    url.append("/manifests/");
    url.append(tag);
    Request {
        url,
        accept: Some(String::from_str(registry.media.as_str())),
        authorization: bearer_header(token),
    }
}

/// The first move of a check of `repo:tag` at `registry`.
pub fn begin(registry: &Registry, repo: &str, tag: &str, protocol: &str) -> (first: (
    Pending,
    Request,
))
    ensures
        (first.0, first.1@) == begin_spec(registry@, repo@, tag@, protocol@),
{
    match token_url(registry.strategy, repo) {
        Some(url) => (Pending::Token, Request { url, accept: None, authorization: None }),
        None => {
            proof {
                reveal_strlit("");
                assert(""@ =~= Seq::<char>::empty());
            }
            (Pending::Manifest, manifest_request(registry, repo, tag, protocol, ""))
        },
    }
}

/// The move after the token endpoint's answer was read.
pub fn after_token(
    registry: &Registry,
    repo: &str,
    tag: &str,
    protocol: &str,
    token: Result<String, TokenError>,
) -> (step: Step)
    ensures
        step@ == after_token_spec(registry@, repo@, tag@, protocol@, token_view(token)),
{
    match token {
        Ok(t) => Step::Ask(
            Pending::Manifest,
            manifest_request(registry, repo, tag, protocol, t.as_str()),
        ),
        Err(_) => Step::Done(Verdict::Unavailable),
    }
}

/// The verdict that the reply to the manifest request gives: available for a
/// status from 200 to 299, unavailable for any other and for a request that
/// did not complete.
pub fn after_manifest(reply: &Reply) -> (verdict: Verdict)
    ensures
        verdict == after_manifest_spec(reply@),
{
    match reply {
        Reply::Response { status, body } => {
            if 200 <= *status && *status < 300 {
                Verdict::Available
            } else {
                Verdict::Unavailable
            }
        },
        Reply::Failed => Verdict::Unavailable,
    }
}

/// The token that the reply of a token endpoint holds.
pub fn token_of_reply(reply: &Reply) -> (token: Result<String, TokenError>)
    ensures
        token_view(token) == token_of_reply_spec(reply@),
{
    match reply {
        Reply::Response { status, body } => token_from_body(body.as_str()),
        Reply::Failed => Err(TokenError::Transport),
    }
}

/// The move that follows the reply to the pending request of a check of
/// `repo:tag` at `registry`.
pub fn resume(
    registry: &Registry,
    repo: &str,
    tag: &str,
    protocol: &str,
    pending: Pending,
    reply: &Reply,
) -> (step: Step)
    ensures
        step@ == resume_spec(registry@, repo@, tag@, protocol@, pending, reply@),
{
    match pending {
        Pending::Token => after_token(registry, repo, tag, protocol, token_of_reply(reply)),
        Pending::Manifest => Step::Done(after_manifest(reply)),
    }
}

} // verus!
