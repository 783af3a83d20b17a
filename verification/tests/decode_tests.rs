use bunny_bot::decode::{decode_github, decode_reddit, first_post_payload};
use bunny_bot::types::{FetchError, GitHubRepoRecord, RedditPostRecord};
use serde_json::Value;

fn json(text: &str) -> Value {
    serde_json::from_str(text).unwrap()
}

const REPO: &str = r#"{
    "full_name": "rust-lang/rust",
    "owner": { "login": "rust-lang", "avatar_url": "https://x/a.png", "id": 5430905 },
    "html_url": "https://github.com/rust-lang/rust",
    "description": "desc",
    "forks": 10,
    "open_issues": 5,
    "stargazers_count": 100,
    "language": "Rust"
}"#;

const POST: &str = r#"{
    "subreddit": "rust",
    "title": "A title",
    "score": -3,
    "num_comments": 12,
    "permalink": "/r/rust/comments/1/a_title/",
    "selftext": "hello",
    "author": "someone",
    "url": "https://example.com/page",
    "thumbnail": "default",
    "is_video": true,
    "is_self": false,
    "post_hint": "hosted:video",
    "secure_media": { "reddit_video": { "fallback_url": "https://v.redd.it/abc/DASH_720.mp4" } }
}"#;

fn repo() -> GitHubRepoRecord {
    GitHubRepoRecord {
        full_name: String::from("rust-lang/rust"),
        owner_login: String::from("rust-lang"),
        owner_avatar_url: String::from("https://x/a.png"),
        html_url: String::from("https://github.com/rust-lang/rust"),
        description: String::from("desc"),
        fork_count: 10,
        open_issue_count: 5,
        star_count: 100,
    }
}

fn post() -> RedditPostRecord {
    RedditPostRecord {
        subreddit: String::from("rust"),
        title: String::from("A title"),
        score: -3,
        num_comments: 12,
        permalink: String::from("/r/rust/comments/1/a_title/"),
        selftext: String::from("hello"),
        author: String::from("someone"),
        url: String::from("https://example.com/page"),
        thumbnail: String::from("default"),
        is_video: true,
        is_self: false,
        post_hint: Some(String::from("hosted:video")),
        secure_media_video_fallback_url: Some(String::from("https://v.redd.it/abc/DASH_720.mp4")),
    }
}

fn without(text: &str, key: &str) -> Value {
    let mut v = json(text);
    v.as_object_mut().unwrap().remove(key);
    v
}

fn with(text: &str, key: &str, value: &str) -> Value {
    let mut v = json(text);
    v.as_object_mut().unwrap().insert(String::from(key), json(value));
    v
}

#[test]
fn decode_github_reads_every_field() {
    assert_eq!(decode_github(&json(REPO)), Ok(repo()));
}

#[test]
fn decode_github_needs_every_field() {
    for key in [
        "full_name",
        "owner",
        "html_url",
        "description",
        "forks",
        "open_issues",
        "stargazers_count",
    ] {
        assert_eq!(decode_github(&without(REPO, key)), Err(FetchError::Shape));
    }
    assert_eq!(
        decode_github(&with(REPO, "owner", r#"{ "login": "rust-lang" }"#)),
        Err(FetchError::Shape)
    );
    assert_eq!(
        decode_github(&with(REPO, "owner", r#"{ "avatar_url": "https://x/a.png" }"#)),
        Err(FetchError::Shape)
    );
}

#[test]
fn decode_github_rejects_fields_of_another_type() {
    assert_eq!(decode_github(&with(REPO, "full_name", "1")), Err(FetchError::Shape));
    assert_eq!(decode_github(&with(REPO, "description", "null")), Err(FetchError::Shape));
    assert_eq!(decode_github(&with(REPO, "forks", "\"10\"")), Err(FetchError::Shape));
    assert_eq!(decode_github(&with(REPO, "forks", "10.5")), Err(FetchError::Shape));
    assert_eq!(decode_github(&with(REPO, "open_issues", "true")), Err(FetchError::Shape));
    assert_eq!(decode_github(&with(REPO, "owner", "\"rust-lang\"")), Err(FetchError::Shape));
    assert_eq!(decode_github(&json("[]")), Err(FetchError::Shape));
    assert_eq!(decode_github(&json("null")), Err(FetchError::Shape));
    assert_eq!(decode_github(&json("\"text\"")), Err(FetchError::Shape));
}

#[test]
fn decode_github_keeps_counts_within_their_range() {
    let mut expected = repo();
    expected.star_count = 2147483647;
    expected.fork_count = -2147483648;
    let v = with(REPO, "stargazers_count", "2147483647");
    let mut v = v;
    v.as_object_mut().unwrap().insert(String::from("forks"), json("-2147483648"));
    assert_eq!(decode_github(&v), Ok(expected));
    assert_eq!(
        decode_github(&with(REPO, "stargazers_count", "2147483648")),
        Err(FetchError::Shape)
    );
    assert_eq!(decode_github(&with(REPO, "forks", "-2147483649")), Err(FetchError::Shape));
    assert_eq!(
        decode_github(&with(REPO, "forks", "18446744073709551615")),
        Err(FetchError::Shape)
    );
}

#[test]
fn decode_reddit_reads_every_field() {
    assert_eq!(decode_reddit(&json(POST)), Ok(post()));
}

#[test]
fn decode_reddit_needs_the_required_fields() {
    for key in [
        "subreddit",
        "title",
        "score",
        "num_comments",
        "permalink",
        "selftext",
        "author",
        "url",
    ] {
        assert_eq!(decode_reddit(&without(POST, key)), Err(FetchError::Shape));
    }
    assert_eq!(decode_reddit(&json("{}")), Err(FetchError::Shape));
    assert_eq!(decode_reddit(&json("null")), Err(FetchError::Shape));
}

#[test]
fn decode_reddit_defaults_the_thumbnail_and_the_flags() {
    let mut expected = post();
    expected.thumbnail = String::new();
    assert_eq!(decode_reddit(&without(POST, "thumbnail")), Ok(expected));
    let mut expected = post();
    expected.is_video = false;
    assert_eq!(decode_reddit(&without(POST, "is_video")), Ok(expected));
    let mut expected = post();
    expected.is_self = false;
    assert_eq!(decode_reddit(&without(POST, "is_self")), Ok(expected));
    let mut expected = post();
    expected.is_self = true;
    assert_eq!(decode_reddit(&with(POST, "is_self", "true")), Ok(expected));
}

#[test]
fn decode_reddit_reads_a_missing_or_null_hint_as_none() {
    let mut expected = post();
    expected.post_hint = None;
    assert_eq!(decode_reddit(&without(POST, "post_hint")), Ok(expected.clone()));
    assert_eq!(decode_reddit(&with(POST, "post_hint", "null")), Ok(expected));
}

#[test]
fn decode_reddit_reads_a_missing_or_null_fallback_as_none() {
    let mut expected = post();
    expected.secure_media_video_fallback_url = None;
    assert_eq!(decode_reddit(&without(POST, "secure_media")), Ok(expected.clone()));
    assert_eq!(decode_reddit(&with(POST, "secure_media", "null")), Ok(expected.clone()));
    assert_eq!(decode_reddit(&with(POST, "secure_media", "{}")), Ok(expected.clone()));
    assert_eq!(
        decode_reddit(&with(POST, "secure_media", r#"{ "reddit_video": null }"#)),
        Ok(expected.clone())
    );
    assert_eq!(
        decode_reddit(&with(POST, "secure_media", r#"{ "reddit_video": {} }"#)),
        Ok(expected.clone())
    );
    assert_eq!(
        decode_reddit(&with(
            POST,
            "secure_media",
            r#"{ "reddit_video": { "fallback_url": null } }"#
        )),
        Ok(expected)
    );
}

#[test]
fn decode_reddit_rejects_fields_of_another_type() {
    assert_eq!(decode_reddit(&with(POST, "title", "1")), Err(FetchError::Shape));
    assert_eq!(decode_reddit(&with(POST, "title", "null")), Err(FetchError::Shape));
    assert_eq!(decode_reddit(&with(POST, "score", "\"1\"")), Err(FetchError::Shape));
    assert_eq!(decode_reddit(&with(POST, "score", "1.5")), Err(FetchError::Shape));
    assert_eq!(decode_reddit(&with(POST, "num_comments", "-1")), Err(FetchError::Shape));
    assert_eq!(decode_reddit(&with(POST, "num_comments", "4294967296")), Err(FetchError::Shape));
    assert_eq!(decode_reddit(&with(POST, "thumbnail", "null")), Err(FetchError::Shape));
    assert_eq!(decode_reddit(&with(POST, "thumbnail", "7")), Err(FetchError::Shape));
    assert_eq!(decode_reddit(&with(POST, "is_video", "\"yes\"")), Err(FetchError::Shape));
    assert_eq!(decode_reddit(&with(POST, "is_self", "null")), Err(FetchError::Shape));
    assert_eq!(decode_reddit(&with(POST, "post_hint", "3")), Err(FetchError::Shape));
    assert_eq!(
        decode_reddit(&with(
            POST,
            "secure_media",
            r#"{ "reddit_video": { "fallback_url": 3 } }"#
        )),
        Err(FetchError::Shape)
    );
}

#[test]
fn decode_reddit_keeps_numbers_at_their_limits() {
    let mut expected = post();
    expected.score = i64::MIN;
    expected.num_comments = u32::MAX;
    let mut v = with(POST, "score", "-9223372036854775808");
    v.as_object_mut().unwrap().insert(String::from("num_comments"), json("4294967295"));
    assert_eq!(decode_reddit(&v), Ok(expected));
    assert_eq!(
        decode_reddit(&with(POST, "score", "9223372036854775808")),
        Err(FetchError::Shape)
    );
}

#[test]
fn first_post_payload_is_the_data_of_the_first_child() {
    let listing = json(
        r#"[
            { "kind": "Listing", "data": { "children": [
                { "kind": "t3", "data": { "title": "first" } },
                { "kind": "t3", "data": { "title": "second" } }
            ] } },
            { "kind": "Listing", "data": { "children": [
                { "kind": "t1", "data": { "body": "a comment" } }
            ] } }
        ]"#,
    );
    assert_eq!(first_post_payload(&listing), Ok(&json(r#"{ "title": "first" }"#)));
}

#[test]
fn first_post_payload_of_an_empty_listing_is_a_shape_error() {
    let listing = json(r#"[ { "data": { "children": [] } }, { "data": { "children": [] } } ]"#);
    assert_eq!(first_post_payload(&listing), Err(FetchError::Shape));
}

#[test]
fn first_post_payload_needs_every_step() {
    for text in [
        "[]",
        "{}",
        "null",
        "\"text\"",
        r#"[ {} ]"#,
        r#"[ { "data": {} } ]"#,
        r#"[ { "data": { "children": {} } } ]"#,
        r#"[ { "data": { "children": [ {} ] } } ]"#,
        r#"[ { "data": { "children": [ 1 ] } } ]"#,
        r#"{ "data": { "children": [ { "data": {} } ] } }"#,
    ] {
        assert_eq!(first_post_payload(&json(text)), Err(FetchError::Shape));
    }
}

#[test]
fn first_post_payload_may_be_any_value() {
    let listing = json(r#"[ { "data": { "children": [ { "data": null } ] } } ]"#);
    assert_eq!(first_post_payload(&listing), Ok(&Value::Null));
}
