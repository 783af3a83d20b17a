//! From a provider's JSON answer to its record.
//!
//! A record is built only where every field that it needs is there with the right type; any
//! other answer is a shape error, never a partly filled record.

use crate::json::{
    element, json_element, json_flag, json_integer, json_is_null, json_member, json_text, member,
};
use crate::types::{
    text_of, FetchError, GitHubRepoRecord, GitHubRepoView, RedditPostRecord, RedditPostView,
};
use serde_json::Value;
use vstd::prelude::*;

verus! {

/// The text under `key`, where `obj` has a member of that name and it is a string.
pub open spec fn field_text(obj: Value, key: Seq<char>) -> Option<Seq<char>> {
    match json_member(obj, key) {
        Some(v) => json_text(v),
        None => None,
    }
}

/// The integer under `key`, where `obj` has a member of that name and it is an integer.
pub open spec fn field_integer(obj: Value, key: Seq<char>) -> Option<i64> {
    match json_member(obj, key) {
        Some(v) => json_integer(v),
        None => None,
    }
}

/// The integer under `key`, where it is there and fits in an `i32`.
pub open spec fn field_i32(obj: Value, key: Seq<char>) -> Option<i32> {
    match field_integer(obj, key) {
        Some(n) => if i32::MIN <= n <= i32::MAX {
            Some(n as i32)
        } else {
            None
        },
        None => None,
    }
}

/// The integer under `key`, where it is there and fits in a `u32`.
pub open spec fn field_u32(obj: Value, key: Seq<char>) -> Option<u32> {
    match field_integer(obj, key) {
        Some(n) => if 0 <= n <= u32::MAX {
            Some(n as u32)
        } else {
            None
        },
        None => None,
    }
}

/// The text under `key`, or the empty text where `obj` has no member of that name. A member
/// that is there and is no string is a mismatch.
pub open spec fn field_text_or_empty(obj: Value, key: Seq<char>) -> Option<Seq<char>> {
    match json_member(obj, key) {
        Some(v) => json_text(v),
        None => Some(Seq::<char>::empty()),
    }
}

/// The boolean under `key`, or `false` where `obj` has no member of that name. A member that
/// is there and is no boolean is a mismatch.
pub open spec fn field_flag_or_false(obj: Value, key: Seq<char>) -> Option<bool> {
    match json_member(obj, key) {
        Some(v) => json_flag(v),
        None => Some(false),
    }
}

/// The member under `key` where it is there and is not null.
pub open spec fn present_member(obj: Value, key: Seq<char>) -> Option<Value> {
    match json_member(obj, key) {
        Some(v) => if json_is_null(v) {
            None
        } else {
            Some(v)
        },
        None => None,
    }
}

/// The optional text under `key`: no text where the member is missing or null, the text where
/// it is a string. The outer `None` is a mismatch: the member is there and is neither.
pub open spec fn field_optional_text(obj: Value, key: Seq<char>) -> Option<Option<Seq<char>>> {
    match present_member(obj, key) {
        Some(v) => match json_text(v) {
            Some(t) => Some(Some(t)),
            None => None,
        },
        None => Some(None),
    }
}

/// The fallback playback URL of a post: the text at `secure_media.reddit_video.fallback_url`,
/// where each step is there and not null. The outer `None` is a mismatch.
pub open spec fn fallback_url_of(post: Value) -> Option<Option<Seq<char>>> {
    match present_member(post, "secure_media"@) {
        Some(media) => match present_member(media, "reddit_video"@) {
            Some(video) => field_optional_text(video, "fallback_url"@),
            None => Some(None),
        },
        None => Some(None),
    }
}

/// The repository that a GitHub answer describes, where it has every field with its type.
pub open spec fn github_record_of(v: Value) -> Option<GitHubRepoView> {
    let full_name = field_text(v, "full_name"@);
    let owner = json_member(v, "owner"@);
    let html_url = field_text(v, "html_url"@);
    let description = field_text(v, "description"@);
    let forks = field_i32(v, "forks"@);
    let open_issues = field_i32(v, "open_issues"@);
    let stars = field_i32(v, "stargazers_count"@);
    if full_name is Some && owner is Some && field_text(owner->0, "login"@) is Some && field_text(
        owner->0,
        "avatar_url"@,
    ) is Some && html_url is Some && description is Some && forks is Some && open_issues is Some
        && stars is Some {
        Some(
            GitHubRepoView {
                full_name: full_name->0,
                owner_login: field_text(owner->0, "login"@)->0,
                owner_avatar_url: field_text(owner->0, "avatar_url"@)->0,
                html_url: html_url->0,
                description: description->0,
                fork_count: forks->0 as int,
                open_issue_count: open_issues->0 as int,
                star_count: stars->0 as int,
            },
        )
    } else {
        None
    }
}

/// The post that a payload describes, where it has every needed field with its type. The
/// thumbnail and the two flags may be missing; the hint and the fallback playback URL may be
/// missing or null.
pub open spec fn reddit_record_of(v: Value) -> Option<RedditPostView> {
    let subreddit = field_text(v, "subreddit"@);
    let title = field_text(v, "title"@);
    let score = field_integer(v, "score"@);
    let num_comments = field_u32(v, "num_comments"@);
    let permalink = field_text(v, "permalink"@);
    let selftext = field_text(v, "selftext"@);
    let author = field_text(v, "author"@);
    let url = field_text(v, "url"@);
    let thumbnail = field_text_or_empty(v, "thumbnail"@);
    let is_video = field_flag_or_false(v, "is_video"@);
    let is_self = field_flag_or_false(v, "is_self"@);
    let post_hint = field_optional_text(v, "post_hint"@);
    let fallback = fallback_url_of(v);
    if subreddit is Some && title is Some && score is Some && num_comments is Some && permalink
        is Some && selftext is Some && author is Some && url is Some && thumbnail is Some
        && is_video is Some && is_self is Some && post_hint is Some && fallback is Some {
        Some(
            RedditPostView {
                subreddit: subreddit->0,
                title: title->0,
                score: score->0 as int,
                num_comments: num_comments->0 as int,
                permalink: permalink->0,
                selftext: selftext->0,
                author: author->0,
                url: url->0,
                thumbnail: thumbnail->0,
                is_video: is_video->0,
                is_self: is_self->0,
                post_hint: post_hint->0,
                secure_media_video_fallback_url: fallback->0,
            },
        )
    } else {
        None
    }
}

/// The payload of the first post of a listing answer: `[0].data.children[0].data`, where
/// each step is there.
pub open spec fn post_payload_of(listing: Value) -> Option<Value> {
    match json_element(listing, 0) {
        Some(first) => match json_member(first, "data"@) {
            Some(data) => match json_member(data, "children"@) {
                Some(children) => match json_element(children, 0) {
                    Some(child) => json_member(child, "data"@),
                    None => None,
                },
                None => None,
            },
            None => None,
        },
        None => None,
    }
}

fn text_field(obj: &Value, key: &str) -> (r: Option<String>)
    ensures
        text_of(r) == field_text(*obj, key@),
{
    match member(obj, key) {
        Some(v) => match v.as_str() {
            Some(s) => Some(s.to_owned()),
            None => None,
        },
        None => None,
    }
}

fn integer_field(obj: &Value, key: &str) -> (r: Option<i64>)
    ensures
        r == field_integer(*obj, key@),
{
    match member(obj, key) {
        Some(v) => v.as_i64(),
        None => None,
    }
}

fn i32_field(obj: &Value, key: &str) -> (r: Option<i32>)
    ensures
        r == field_i32(*obj, key@),
{
    match integer_field(obj, key) {
        Some(n) => if -2147483648 <= n && n <= 2147483647 {
            Some(n as i32)
        } else {
            None
        },
        None => None,
    }
}

fn u32_field(obj: &Value, key: &str) -> (r: Option<u32>)
    ensures
        r == field_u32(*obj, key@),
{
    match integer_field(obj, key) {
        Some(n) => if 0 <= n && n <= 4294967295 {
            Some(n as u32)
        } else {
            None
        },
        None => None,
    }
}

fn text_field_or_empty(obj: &Value, key: &str) -> (r: Option<String>)
    ensures
        text_of(r) == field_text_or_empty(*obj, key@),
{
    match member(obj, key) {
        Some(v) => match v.as_str() {
            Some(s) => Some(s.to_owned()),
            None => None,
        },
        None => Some(String::new()),
    }
}

fn flag_field_or_false(obj: &Value, key: &str) -> (r: Option<bool>)
    ensures
        r == field_flag_or_false(*obj, key@),
{
    match member(obj, key) {
        Some(v) => v.as_bool(),
        None => Some(false),
    }
}

fn member_if_present<'a>(obj: &'a Value, key: &str) -> (r: Option<&'a Value>)
    ensures
        match r {
            Some(v) => present_member(*obj, key@) == Some(*v),
            None => present_member(*obj, key@) is None,
        },
{
    match member(obj, key) {
        Some(v) => if v.is_null() {
            None
        } else {
            Some(v)
        },
        None => None,
    }
}

fn optional_text_field(obj: &Value, key: &str) -> (r: Option<Option<String>>)
    ensures
        match r {
            Some(t) => field_optional_text(*obj, key@) == Some(text_of(t)),
            None => field_optional_text(*obj, key@) is None,
        },
{
    match member_if_present(obj, key) {
        Some(v) => match v.as_str() {
            Some(s) => Some(Some(s.to_owned())),
            None => None,
        },
        None => Some(None),
    }
}

fn fallback_url(post: &Value) -> (r: Option<Option<String>>)
    ensures
        match r {
            Some(t) => fallback_url_of(*post) == Some(text_of(t)),
            None => fallback_url_of(*post) is None,
        },
{
    match member_if_present(post, "secure_media") {
        Some(media) => match member_if_present(media, "reddit_video") {
            Some(video) => optional_text_field(video, "fallback_url"),
            None => Some(None),
        },
        None => Some(None),
    }
}

/// The repository that the GitHub answer `v` describes. A missing field, or one of another
/// type, makes the answer a shape error.
pub fn decode_github(v: &Value) -> (r: Result<GitHubRepoRecord, FetchError>)
    ensures
        match github_record_of(*v) {
            Some(repo) => r matches Ok(record) && record@ == repo,
            None => r == Err::<GitHubRepoRecord, FetchError>(FetchError::Shape),
        },
{
    let full_name = text_field(v, "full_name");
    let owner = member(v, "owner");
    let html_url = text_field(v, "html_url");
    let description = text_field(v, "description");
    let forks = i32_field(v, "forks");
    let open_issues = i32_field(v, "open_issues");
    let stars = i32_field(v, "stargazers_count");
    match (full_name, owner, html_url, description, forks, open_issues, stars) {
        (
            Some(full_name),
            Some(owner),
            Some(html_url),
            Some(description),
            Some(fork_count),
            Some(open_issue_count),
            Some(star_count),
        ) => {
            match (text_field(owner, "login"), text_field(owner, "avatar_url")) {
                (Some(owner_login), Some(owner_avatar_url)) => Ok(
                    GitHubRepoRecord {
                        full_name,
                        owner_login,
                        owner_avatar_url,
                        html_url,
                        description,
                        fork_count,
                        open_issue_count,
                        star_count,
                    },
                ),
                _ => Err(FetchError::Shape),
            }
        },
        _ => Err(FetchError::Shape),
    }
}

/// The post that the payload `v` describes. A missing field, or one of another type, makes
/// the payload a shape error; the thumbnail and the two flags have defaults.
pub fn decode_reddit(v: &Value) -> (r: Result<RedditPostRecord, FetchError>)
    ensures
        match reddit_record_of(*v) {
            Some(post) => r matches Ok(record) && record@ == post,
            None => r == Err::<RedditPostRecord, FetchError>(FetchError::Shape),
        },
{
    let texts = (
        text_field(v, "subreddit"),
        text_field(v, "title"),
        text_field(v, "permalink"),
        text_field(v, "selftext"),
        text_field(v, "author"),
        text_field(v, "url"),
        text_field_or_empty(v, "thumbnail"),
    );
    let numbers = (integer_field(v, "score"), u32_field(v, "num_comments"));
    let flags = (flag_field_or_false(v, "is_video"), flag_field_or_false(v, "is_self"));
    let options = (optional_text_field(v, "post_hint"), fallback_url(v));
    match (texts, numbers, flags, options) {
        (
            (
                Some(subreddit),
                Some(title),
                Some(permalink),
                Some(selftext),
                Some(author),
                Some(url),
                Some(thumbnail),
            ),
            (Some(score), Some(num_comments)),
            (Some(is_video), Some(is_self)),
            (Some(post_hint), Some(secure_media_video_fallback_url)),
        ) => Ok(
            RedditPostRecord {
                subreddit,
                title,
                score,
                num_comments,
                permalink,
                selftext,
                author,
                url,
                thumbnail,
                is_video,
                is_self,
                post_hint,
                secure_media_video_fallback_url,
            },
        ),
        _ => Err(FetchError::Shape),
    }
}

/// The payload of the first post of the listing answer `listing`. An answer without a first
/// listing, or a listing without a first post, is a shape error.
pub fn first_post_payload<'a>(listing: &'a Value) -> (r: Result<&'a Value, FetchError>)
    ensures
        match post_payload_of(*listing) {
            Some(payload) => r matches Ok(found) && *found == payload,
            None => r == Err::<&Value, FetchError>(FetchError::Shape),
        },
{
    let first = match element(listing, 0) {
        Some(first) => first,
        None => {
            return Err(FetchError::Shape);
        },
    };
    let data = match member(first, "data") {
        Some(data) => data,
        None => {
            return Err(FetchError::Shape);
        },
    };
    let children = match member(data, "children") {
        Some(children) => children,
        None => {
            return Err(FetchError::Shape);
        },
    };
    let child = match element(children, 0) {
        Some(child) => child,
        None => {
            return Err(FetchError::Shape);
        },
    };
    match member(child, "data") {
        Some(payload) => Ok(payload),
        None => Err(FetchError::Shape),
    }
}

} // verus!
