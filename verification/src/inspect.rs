//! The URL inspector: whether an input is an absolute URL, and which host it names.

use crate::types::{text_of, PreviewError, ResolvedUrl, ResolvedUrlView};
use vstd::prelude::*;

verus! {

#[verifier::external_type_specification]
#[verifier::external_body]
pub struct ExUrl(url::Url);

#[verifier::external_type_specification]
#[verifier::external_body]
pub struct ExParseError(url::ParseError);

/// The URL that `url::Url::parse` reads from `input`; `None` where it reports an error.
pub uninterp spec fn parsed_url(input: Seq<char>) -> Option<url::Url>;

/// The host that `url::Url::host_str` gives for `url`; `None` where the URL has no host.
pub uninterp spec fn host_text(url: url::Url) -> Option<Seq<char>>;

/// `url::Url::parse` reads an absolute URL from a text. It is taken to depend on the
/// characters of the text alone, and to return either the URL or an error, never both.
pub assume_specification[ url::Url::parse ](input: &str) -> (r: Result<url::Url, url::ParseError>)
    ensures
        match r {
            Ok(u) => parsed_url(input@) == Some(u),
            Err(_) => parsed_url(input@) is None,
        },
;

/// `url::Url::host_str` returns the host of a parsed URL as text, where the URL has one. It
/// is taken to depend on the URL alone.
pub assume_specification<'a>[ url::Url::host_str ](u: &'a url::Url) -> (r: Option<&'a str>)
    ensures
        match r {
            Some(h) => host_text(*u) == Some(h@),
            None => host_text(*u) is None,
        },
;

/// The host that an input names: that of the URL read from it, where it reads as one.
pub open spec fn hostname_of(link: Seq<char>) -> Option<Seq<char>> {
    match parsed_url(link) {
        Some(u) => host_text(u),
        None => None,
    }
}

/// The host named by `link`, or `None` where `link` is no absolute URL or names no host.
pub fn get_hostname(link: &str) -> (host: Option<String>)
    ensures
        text_of(host) == hostname_of(link@),
        parsed_url(link@) is None ==> host is None,
{
    match url::Url::parse(link) {
        Ok(url) => match url.host_str() {
            Some(h) => Some(h.to_owned()),
            None => None,
        },
        Err(_) => None,
    }
}

/// Reads `raw` as an absolute URL and keeps it together with its host. An input that does
/// not read as one, or that names no host, is rejected as invalid.
pub fn inspect(raw: &str) -> (r: Result<ResolvedUrl, PreviewError>)
    ensures
        match hostname_of(raw@) {
            Some(h) => r matches Ok(u) && u@ == (ResolvedUrlView { raw: raw@, host: h }),
            None => r == Err::<ResolvedUrl, PreviewError>(PreviewError::InvalidUrl),
        },
        parsed_url(raw@) is None ==> r == Err::<ResolvedUrl, PreviewError>(
            PreviewError::InvalidUrl,
        ),
{
    match get_hostname(raw) {
        Some(host) => Ok(ResolvedUrl { raw: raw.to_owned(), host }),
        None => Err(PreviewError::InvalidUrl),
    }
}

} // verus!
