//! From a URL to the one request that fetches its metadata.

use crate::inspect::{hostname_of, inspect};
use crate::provider::{provider_of, resolve};
use crate::text::{
    is_prefix, is_suffix, lemma_segments_two_iff_separator, lemma_suffix_restores, segments, split,
    starts_with, strip_prefix, strip_suffix, texts, without_prefix, without_suffix,
};
use crate::types::{text_of, PreviewError, PreviewErrorView, Provider, ResolvedUrl};
use vstd::prelude::*;

verus! {

/// One outbound call: where to send it and which headers identify it.
#[derive(Debug, Clone, PartialEq, Eq)]
pub struct FetchRequest {
    pub provider: Provider,
    pub endpoint: String,
    pub user_agent: String,
    pub accept: Option<String>,
}

/// The view of a `FetchRequest`.
pub struct FetchRequestView {
    pub provider: Provider,
    pub endpoint: Seq<char>,
    pub user_agent: Seq<char>,
    pub accept: Option<Seq<char>>,
}

impl View for FetchRequest {
    type V = FetchRequestView;

    open spec fn view(&self) -> FetchRequestView {
        FetchRequestView {
            provider: self.provider,
            endpoint: self.endpoint@,
            user_agent: self.user_agent@,
            accept: text_of(self.accept),
        }
    }
}

/// The name under which every request is sent.
pub open spec fn user_agent() -> Seq<char> {
    "TheBunnyBot (bunny-bot)"@
}

/// The representation asked of GitHub.
pub open spec fn github_accept() -> Seq<char> {
    "application/vnd.github.raw+json"@
}

/// What is left of a GitHub URL once a leading scheme, and then a leading `github.com/`, are
/// taken away. Only one scheme is taken away, and `http://` only where `https://` was not
/// there.
pub open spec fn repository_path(raw: Seq<char>) -> Seq<char> {
    let rest = if is_prefix("https://"@, raw) {
        without_prefix(raw, "https://"@)
    } else {
        without_prefix(raw, "http://"@)
    };
    without_prefix(rest, "github.com/"@)
}

/// The repository endpoint for a GitHub URL: the first two pieces of its path are the owner
/// and the repository, and whatever follows them is ignored. A path of fewer than two pieces
/// names no repository.
pub open spec fn github_endpoint_of(raw: Seq<char>) -> Option<Seq<char>> {
    let parts = segments(repository_path(raw), '/');
    if parts.len() < 2 {
        None
    } else {
        Some("https://api.github.com/repos/"@ + parts[0] + "/"@ + parts[1])
    }
}

/// The listing endpoint for a Reddit URL: the URL without one trailing `/`, then `.json`.
pub open spec fn reddit_endpoint_of(raw: Seq<char>) -> Seq<char> {
    without_suffix(raw, "/"@) + ".json"@
}

/// The request for a URL whose host is `host`, or the error that ends the resolution.
pub open spec fn request_of(raw: Seq<char>, host: Seq<char>) -> Result<
    FetchRequestView,
    PreviewErrorView,
> {
    match provider_of(host) {
        Provider::GitHub => match github_endpoint_of(raw) {
            Some(endpoint) => Ok(
                FetchRequestView {
                    provider: Provider::GitHub,
                    endpoint,
                    user_agent: user_agent(),
                    accept: Some(github_accept()),
                },
            ),
            None => Err(PreviewErrorView::InvalidUrl),
        },
        Provider::Reddit => Ok(
            FetchRequestView {
                provider: Provider::Reddit,
                endpoint: reddit_endpoint_of(raw),
                user_agent: user_agent(),
                accept: None,
            },
        ),
        Provider::Unsupported => Err(PreviewErrorView::UnsupportedProvider(host)),
    }
}

/// The request for an input whose host, where it has one, is `host`.
pub open spec fn plan_of(raw: Seq<char>, host: Option<Seq<char>>) -> Result<
    FetchRequestView,
    PreviewErrorView,
> {
    match host {
        Some(h) => request_of(raw, h),
        None => Err(PreviewErrorView::InvalidUrl),
    }
}

/// The view of a planned request or of the error in its place.
pub open spec fn plan_view(r: Result<FetchRequest, PreviewError>) -> Result<
    FetchRequestView,
    PreviewErrorView,
> {
    match r {
        Ok(request) => Ok(request@),
        Err(e) => Err(e@),
    }
}

/// The repository endpoint for the GitHub URL `raw`, or `None` where its path names no
/// repository.
pub fn github_endpoint(raw: &str) -> (r: Option<String>)
    ensures
        text_of(r) == github_endpoint_of(raw@),
{
    let rest = if starts_with(raw, "https://") {
        strip_prefix(raw, "https://")
    } else {
        strip_prefix(raw, "http://")
    };
    let path = strip_prefix(rest, "github.com/");
    let parts = split(path, '/');
    if parts.len() < 2 {
        return None;
    }
    let mut endpoint = String::from_str("https://api.github.com/repos/");
    endpoint.append(parts[0].as_str());
    endpoint.append("/");
    endpoint.append(parts[1].as_str());
    proof {
        let model = segments(repository_path(raw@), '/');
        assert(texts(parts@)[0] == model[0]);
        assert(texts(parts@)[1] == model[1]);
    }
    Some(endpoint)
}

/// The listing endpoint for the Reddit URL `raw`.
pub fn reddit_endpoint(raw: &str) -> (r: String)
    ensures
        r@ == reddit_endpoint_of(raw@),
{
    let mut endpoint = String::from_str(strip_suffix(raw, "/"));
    endpoint.append(".json");
    endpoint
}

/// The request that fetches the metadata of a resolved URL. A host of no supported provider
/// ends the resolution with that host; a GitHub URL whose path names no repository ends it as
/// invalid.
pub fn request_for(url: &ResolvedUrl) -> (r: Result<FetchRequest, PreviewError>)
    ensures
        plan_view(r) == request_of(url@.raw, url@.host),
{
    match resolve(url.host.as_str()) {
        Provider::GitHub => match github_endpoint(url.raw.as_str()) {
            Some(endpoint) => Ok(
                FetchRequest {
                    provider: Provider::GitHub,
                    endpoint,
                    user_agent: String::from_str("TheBunnyBot (bunny-bot)"),
                    accept: Some(String::from_str("application/vnd.github.raw+json")),
                },
            ),
            None => Err(PreviewError::InvalidUrl),
        },
        Provider::Reddit => Ok(
            FetchRequest {
                provider: Provider::Reddit,
                endpoint: reddit_endpoint(url.raw.as_str()),
                user_agent: String::from_str("TheBunnyBot (bunny-bot)"),
                accept: None,
            },
        ),
        Provider::Unsupported => Err(PreviewError::UnsupportedProvider(url.host.clone())),
    }
}

/// The first half of a resolution: from the input to the request to send, or to the error
/// that ends it before anything is sent.
pub fn plan(raw: &str) -> (r: Result<FetchRequest, PreviewError>)
    ensures
        plan_view(r) == plan_of(raw@, hostname_of(raw@)),
{
    match inspect(raw) {
        Ok(url) => request_for(&url),
        Err(e) => Err(e),
    }
}

/// A GitHub URL names a repository exactly where its path holds a `/`, and what follows the
/// second piece of the path does not change the endpoint.
pub proof fn lemma_github_endpoint_needs_a_slash(raw: Seq<char>)
    ensures
        github_endpoint_of(raw) is Some <==> exists|i: int|
            0 <= i < repository_path(raw).len() && repository_path(raw)[i] == '/',
        github_endpoint_of(raw) matches Some(endpoint) ==> is_prefix(
            "https://api.github.com/repos/"@,
            endpoint,
        ),
{
    lemma_segments_two_iff_separator(repository_path(raw), '/');
}

/// A Reddit endpoint always ends with `.json`, and what stands before it is the input, less
/// one trailing `/` where it had one.
pub proof fn lemma_reddit_endpoint_shape(raw: Seq<char>)
    ensures
        is_suffix(".json"@, reddit_endpoint_of(raw)),
        !is_suffix("/"@, raw) ==> reddit_endpoint_of(raw) == raw + ".json"@,
        is_suffix("/"@, raw) ==> without_suffix(raw, "/"@) + "/"@ == raw,
{
    lemma_suffix_restores(raw, "/"@);
    let end = reddit_endpoint_of(raw);
    assert forall|k: int| 0 <= k < ".json"@.len() implies end[end.len() - ".json"@.len() + k]
        == ".json"@[k] by {}
}

/// An input whose host belongs to no supported provider is answered with an error that
/// carries exactly that host, and never with a request.
pub proof fn lemma_unsupported_host_is_carried(raw: Seq<char>, host: Seq<char>)
    requires
        provider_of(host) == Provider::Unsupported,
    ensures
        plan_of(raw, Some(host)) == Err::<FetchRequestView, PreviewErrorView>(
            PreviewErrorView::UnsupportedProvider(host),
        ),
{
}

/// An input that names no host is invalid, whatever else it holds.
pub proof fn lemma_no_host_is_invalid(raw: Seq<char>)
    ensures
        plan_of(raw, None) == Err::<FetchRequestView, PreviewErrorView>(
            PreviewErrorView::InvalidUrl,
        ),
{
}

/// A request goes out only to a supported provider, and under the one name.
pub proof fn lemma_requests_are_supported(raw: Seq<char>, host: Option<Seq<char>>)
    ensures
        plan_of(raw, host) matches Ok(request) ==> {
            &&& host matches Some(h)
            &&& request.provider == provider_of(h)
            &&& request.provider != Provider::Unsupported
            &&& request.user_agent == user_agent()
            &&& (request.accept is Some <==> request.provider == Provider::GitHub)
        },
{
}

} // verus!
