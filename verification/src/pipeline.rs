//! The second half of a resolution: from a provider's answer to the preview.
//!
//! Sending the request is left to the caller. What came back, a status and a body, is turned
//! here into a preview document or into the error that ends the resolution. The stages run
//! in a fixed order and the first error ends them: no later stage runs, and nothing that was
//! built so far is shown.

use crate::classify::{categorize_reddit_post, category_of, lowercase_of};
use crate::decode::{
    decode_github, decode_reddit, first_post_payload, github_record_of, post_payload_of,
    reddit_record_of,
};
use crate::json::{json_of, parse_json};
use crate::normalize::{github_preview_of, normalize_github, normalize_reddit, reddit_preview_of};
use crate::provider::{provider_of, resolve};
use crate::types::{
    FetchError, GitHubRepoRecord, GitHubRepoView, PreviewDocument, PreviewError, PreviewErrorView,
    PreviewView, Provider, RedditPostRecord, RedditPostView, ResolvedUrl, ResolvedUrlView,
};
use serde_json::Value;
use vstd::prelude::*;

verus! {

/// A status that stands for success.
pub open spec fn is_success(status: u16) -> bool {
    200 <= status <= 299
}

/// The repository that an answer describes, given the value that its body parsed to.
pub open spec fn github_answer_of(status: u16, parsed: Option<Value>) -> Result<
    GitHubRepoView,
    FetchError,
> {
    if !is_success(status) {
        Err(FetchError::Status(status))
    } else {
        match parsed {
            Some(v) => match github_record_of(v) {
                Some(repo) => Ok(repo),
                None => Err(FetchError::Shape),
            },
            None => Err(FetchError::Shape),
        }
    }
}

/// The post that an answer describes, given the value that its body parsed to.
pub open spec fn reddit_answer_of(status: u16, parsed: Option<Value>) -> Result<
    RedditPostView,
    FetchError,
> {
    if !is_success(status) {
        Err(FetchError::Status(status))
    } else {
        match parsed {
            Some(listing) => match post_payload_of(listing) {
                Some(payload) => match reddit_record_of(payload) {
                    Some(post) => Ok(post),
                    None => Err(FetchError::Shape),
                },
                None => Err(FetchError::Shape),
            },
            None => Err(FetchError::Shape),
        }
    }
}

/// The outcome of a resolution of `url`, given the status of the answer and the value that
/// its body parsed to.
pub open spec fn outcome_of(url: ResolvedUrlView, status: u16, parsed: Option<Value>) -> Result<
    PreviewView,
    PreviewErrorView,
> {
    match provider_of(url.host) {
        Provider::GitHub => match github_answer_of(status, parsed) {
            Ok(repo) => Ok(github_preview_of(repo)),
            Err(e) => Err(PreviewErrorView::Fetch(e)),
        },
        Provider::Reddit => match reddit_answer_of(status, parsed) {
            Ok(post) => Ok(
                reddit_preview_of(url.raw, post, category_of(post, lowercase_of(post.url))),
            ),
            Err(e) => Err(PreviewErrorView::Fetch(e)),
        },
        Provider::Unsupported => Err(PreviewErrorView::UnsupportedProvider(url.host)),
    }
}

/// The view of an outcome.
pub open spec fn outcome_view(r: Result<PreviewDocument, PreviewError>) -> Result<
    PreviewView,
    PreviewErrorView,
> {
    match r {
        Ok(doc) => Ok(doc@),
        Err(e) => Err(e@),
    }
}

/// Accepts a status in 200..=299 and rejects any other, keeping it in the error.
pub fn check_status(status: u16) -> (r: Result<(), FetchError>)
    ensures
        is_success(status) ==> r is Ok,
        !is_success(status) ==> r == Err::<(), FetchError>(FetchError::Status(status)),
{
    if 200 <= status && status <= 299 {
        Ok(())
    } else {
        Err(FetchError::Status(status))
    }
}

/// The repository that a GitHub answer describes. The status is looked at first; the body is
/// read only where the status stands for success.
pub fn github_record(status: u16, body: &str) -> (r: Result<GitHubRepoRecord, FetchError>)
    ensures
        match github_answer_of(status, json_of(body@)) {
            Ok(repo) => r matches Ok(record) && record@ == repo,
            Err(e) => r == Err::<GitHubRepoRecord, FetchError>(e),
        },
{
    match check_status(status) {
        Ok(_) => {},
        Err(e) => {
            return Err(e);
        },
    }
    match parse_json(body) {
        Ok(v) => decode_github(&v),
        Err(_) => Err(FetchError::Shape),
    }
}

/// The first post that a Reddit listing answer describes. The status is looked at first; the
/// body is read only where the status stands for success.
pub fn reddit_record(status: u16, body: &str) -> (r: Result<RedditPostRecord, FetchError>)
    ensures
        match reddit_answer_of(status, json_of(body@)) {
            Ok(post) => r matches Ok(record) && record@ == post,
            Err(e) => r == Err::<RedditPostRecord, FetchError>(e),
        },
{
    match check_status(status) {
        Ok(_) => {},
        Err(e) => {
            return Err(e);
        },
    }
    match parse_json(body) {
        Ok(listing) => match first_post_payload(&listing) {
            Ok(payload) => decode_reddit(payload),
            Err(e) => Err(e),
        },
        Err(_) => Err(FetchError::Shape),
    }
}

/// The preview of a post: it is classified, then normalized for its category.
pub fn preview_reddit(link: &str, post: &RedditPostRecord) -> (doc: PreviewDocument)
    ensures
        doc@ == reddit_preview_of(link@, post@, category_of(post@, lowercase_of(post@.url))),
{
    let category = categorize_reddit_post(post);
    normalize_reddit(link, post, category)
}

/// Ends the resolution of `url` with the answer that came back: a preview document, or the
/// error of the first stage that failed.
pub fn complete(url: &ResolvedUrl, status: u16, body: &str) -> (r: Result<
    PreviewDocument,
    PreviewError,
>)
    ensures
        outcome_view(r) == outcome_of(url@, status, json_of(body@)),
{
    match resolve(url.host.as_str()) {
        Provider::GitHub => match github_record(status, body) {
            Ok(repo) => Ok(normalize_github(&repo)),
            Err(e) => Err(PreviewError::Fetch(e)),
        },
        Provider::Reddit => match reddit_record(status, body) {
            Ok(post) => Ok(preview_reddit(url.raw.as_str(), &post)),
            Err(e) => Err(PreviewError::Fetch(e)),
        },
        Provider::Unsupported => Err(PreviewError::UnsupportedProvider(url.host.clone())),
    }
}

/// A status that does not stand for success ends the resolution with that status, whatever
/// the body holds.
pub proof fn lemma_status_comes_first(url: ResolvedUrlView, status: u16, parsed: Option<Value>)
    requires
        !is_success(status),
        provider_of(url.host) != Provider::Unsupported,
    ensures
        outcome_of(url, status, parsed) == Err::<PreviewView, PreviewErrorView>(
            PreviewErrorView::Fetch(FetchError::Status(status)),
        ),
{
}

/// A preview is shown only where every stage succeeded: the provider is supported, the
/// status stands for success, the body parsed, and the record was there in full.
pub proof fn lemma_preview_needs_every_stage(
    url: ResolvedUrlView,
    status: u16,
    parsed: Option<Value>,
)
    requires
        outcome_of(url, status, parsed) is Ok,
    ensures
        provider_of(url.host) != Provider::Unsupported,
        is_success(status),
        parsed is Some,
        provider_of(url.host) == Provider::GitHub ==> github_record_of(parsed->0) is Some,
        provider_of(url.host) == Provider::Reddit ==> post_payload_of(parsed->0) is Some
            && reddit_record_of(post_payload_of(parsed->0)->0) is Some,
{
}

/// A host of no supported provider ends the resolution with an error that carries that host,
/// whatever came back.
pub proof fn lemma_unsupported_outcome(url: ResolvedUrlView, status: u16, parsed: Option<Value>)
    requires
        provider_of(url.host) == Provider::Unsupported,
    ensures
        outcome_of(url, status, parsed) == Err::<PreviewView, PreviewErrorView>(
            PreviewErrorView::UnsupportedProvider(url.host),
        ),
{
}

} // verus!
