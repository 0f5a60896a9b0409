//! Bearer tokens: where each registry hands them out, and how a token
//! endpoint's answer is read.

use crate::registry::TokenStrategy;
use serde_json::Value;
use vstd::prelude::*;

verus! {

/// `serde_json::Value`, a parsed JSON document. Nothing inside it is seen; what
/// it holds is named by `json_strings`.
#[verifier::external_type_specification]
#[verifier::external_body]
pub struct ExValue(serde_json::Value);

/// `serde_json::Error`, what a failed parse returns. It is only carried
/// through.
#[verifier::external_type_specification]
#[verifier::external_body]
pub struct ExJsonError(serde_json::Error);

/// The members of a JSON object whose values are strings, by name. It is empty
/// for a value that is no object.
pub uninterp spec fn json_strings(v: Value) -> Map<Seq<char>, Seq<char>>;

/// What parsing a text as JSON gives: nothing where the text is no JSON
/// document, else the string members of the document.
pub uninterp spec fn parsed_strings(body: Seq<char>) -> Option<Map<Seq<char>, Seq<char>>>;

/// `serde_json::from_str`, for a `Value`. It fails exactly on the texts that
/// `parsed_strings` has nothing for; the value it returns holds the string
/// members that `parsed_strings` names.
#[verifier::external_body]
fn parse_json(body: &str) -> (r: Result<Value, serde_json::Error>)
    ensures
        match r {
            Ok(v) => parsed_strings(body@) == Some(json_strings(v)),
            Err(_) => parsed_strings(body@) is None,
        },
{
    serde_json::from_str(body)
}

/// Indexing a `serde_json::Value` by a member's name, which gives `Null` for a
/// value that is no object or has no such member. The result is the member's
/// text where the member is a JSON string, and nothing otherwise.
#[verifier::external_body]
fn string_member(v: &Value, name: &str) -> (r: Option<String>)
    ensures
        match r {
            Some(s) => json_strings(*v).contains_key(name@) && json_strings(*v)[name@] == s@,
            None => !json_strings(*v).contains_key(name@),
        },
{
    match &v[name] {
        Value::String(s) => Some(s.clone()),
        _ => None,
    }
}

/// Why no token was obtained.
#[derive(Clone, Copy, Debug, PartialEq, Eq, Structural)]
pub enum TokenError {
    /// The request to the token endpoint did not complete.
    Transport,
    /// The endpoint's answer is no JSON document.
    InvalidJson,
    /// The answer has no member `token` that is a string.
    TokenNotFound,
}

/// The name of the member that holds the token.
pub open spec fn token_member() -> Seq<char> {
    "token"@
}

/// A token, or the reason why there is none, as a mathematical value.
pub open spec fn token_view(r: Result<String, TokenError>) -> Result<Seq<char>, TokenError> {
    match r {
        Ok(token) => Ok(token@),
        Err(e) => Err(e),
    }
}

/// The token among the string members of a document.
pub open spec fn token_among(strings: Map<Seq<char>, Seq<char>>) -> Result<
    Seq<char>,
    TokenError,
> {
    if strings.contains_key(token_member()) {
        Ok(strings[token_member()])
    } else {
        Err(TokenError::TokenNotFound)
    }
}

/// The token that a parsed answer holds.
pub open spec fn token_of_parsed(parsed: Option<Map<Seq<char>, Seq<char>>>) -> Result<
    Seq<char>,
    TokenError,
> {
    match parsed {
        Some(strings) => token_among(strings),
        None => Err(TokenError::InvalidJson),
    }
}

/// What a parse result stands for: the string members of the document, or
/// nothing where parsing failed.
pub open spec fn parse_view(parsed: Result<Value, serde_json::Error>) -> Option<
    Map<Seq<char>, Seq<char>>,
> {
    match parsed {
        Ok(v) => Some(json_strings(v)),
        Err(_) => None,
    }
}

/// Reads the token out of a parsed answer: the string member `token` of the
/// document. A failed parse gives `InvalidJson`, a document without such a
/// member `TokenNotFound`.
pub fn token_from_json(parsed: Result<Value, serde_json::Error>) -> (r: Result<
    String,
    TokenError,
>)
    ensures
        token_view(r) == token_of_parsed(parse_view(parsed)),
{
    match parsed {
        Ok(v) => match string_member(&v, "token") {
            Some(token) => Ok(token),
            None => Err(TokenError::TokenNotFound),
        },
        Err(_) => Err(TokenError::InvalidJson),
    }
}

/// Reads the token out of the body of a token endpoint's answer.
pub fn token_from_body(body: &str) -> (r: Result<String, TokenError>)
    ensures
        token_view(r) == token_of_parsed(parsed_strings(body@)),
{
    token_from_json(parse_json(body))
}

/// The address of the token endpoint for a pull of `repo`, where the strategy
/// has one.
pub open spec fn token_endpoint(strategy: TokenStrategy, repo: Seq<char>) -> Option<Seq<char>> {
    match strategy {
        TokenStrategy::Anonymous => None,
        TokenStrategy::DockerHub => Some(
            "https://auth.docker.io/token?service=registry.docker.io&scope=repository:"@ + repo
                + ":pull"@,
        ),
        TokenStrategy::GithubPackages => Some(
            "https://ghcr.io/token?scope=repository:"@ + repo + ":pull"@,
        ),
        TokenStrategy::GoogleRegistry => Some(
            "https://gcr.io/v2/token?scope=repository:"@ + repo + ":pull&service=gcr.io"@,
        ),
    }
}

/// The address of Docker Hub's token endpoint for a pull of `repo`.
pub fn docker_token_url(repo: &str) -> (url: String)
    ensures
        Some(url@) == token_endpoint(TokenStrategy::DockerHub, repo@),
{
    let mut url = String::from_str(
        "https://auth.docker.io/token?service=registry.docker.io&scope=repository:",
    );
    url.append(repo);
    url.append(":pull");
    url
}

/// The address of the GitHub Container Registry's token endpoint for a pull
/// of `repo`.
pub fn github_token_url(repo: &str) -> (url: String)
    ensures
        Some(url@) == token_endpoint(TokenStrategy::GithubPackages, repo@),
{
    let mut url = String::from_str("https://ghcr.io/token?scope=repository:");
    url.append(repo);
    url.append(":pull");
    url
}

/// The address of the Google Container Registry's token endpoint for a pull
/// of `repo`.
pub fn google_token_url(repo: &str) -> (url: String)
    ensures
        Some(url@) == token_endpoint(TokenStrategy::GoogleRegistry, repo@),
{
    let mut url = String::from_str("https://gcr.io/v2/token?scope=repository:");
    url.append(repo);
    url.append(":pull&service=gcr.io");
    url
}

/// The address of the token endpoint for a pull of `repo`, where the strategy
/// has one.
pub fn token_url(strategy: TokenStrategy, repo: &str) -> (url: Option<String>)
    ensures
        match url {
            Some(u) => token_endpoint(strategy, repo@) == Some(u@),
            None => token_endpoint(strategy, repo@) is None,
        },
{
    match strategy {
        TokenStrategy::Anonymous => None,
        TokenStrategy::DockerHub => Some(docker_token_url(repo)),
        TokenStrategy::GithubPackages => Some(github_token_url(repo)),
        TokenStrategy::GoogleRegistry => Some(google_token_url(repo)),
    }
}

} // verus!
