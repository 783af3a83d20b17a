//! The content classifier: which kind of post a Reddit record describes.
//!
//! The rules are tried in a fixed order and the first that holds decides.

use crate::text::{contains, ends_with, equal, is_suffix, occurs_in};
use crate::types::{RedditPostCategory, RedditPostRecord, RedditPostView};
use vstd::prelude::*;

verus! {

/// The text that `str::to_lowercase` returns for `s`.
pub uninterp spec fn lowercase_of(s: Seq<char>) -> Seq<char>;

/// `str::to_lowercase` returns the lowercase equivalent of a text as a new `String`. It is
/// taken to depend on the characters of the text alone.
pub assume_specification[ str::to_lowercase ](s: &str) -> (r: String)
    ensures
        r@ == lowercase_of(s@),
;

/// The number of rules, the last of which always holds.
pub open spec fn rule_count() -> int {
    8
}

/// A lower-cased URL ends like the name of an image file.
pub open spec fn has_image_suffix(lower_url: Seq<char>) -> bool {
    ||| is_suffix(".jpg"@, lower_url)
    ||| is_suffix(".png"@, lower_url)
    ||| is_suffix(".gif"@, lower_url)
    ||| is_suffix(".jpeg"@, lower_url)
    ||| is_suffix(".webp"@, lower_url)
}

/// Whether the rule at position `k` holds of a post whose lower-cased URL is `lower_url`.
pub open spec fn rule_holds(k: int, post: RedditPostView, lower_url: Seq<char>) -> bool {
    if k == 0 {
        post.is_self
    } else if k == 1 {
        post.is_video
    } else if k == 2 {
        post.post_hint == Some("image"@)
    } else if k == 3 {
        post.post_hint matches Some(hint) && occurs_in("video"@, hint)
    } else if k == 4 {
        post.post_hint == Some("link"@)
    } else if k == 5 {
        has_image_suffix(lower_url)
    } else if k == 6 {
        post.url.len() > 0 && post.url != post.permalink
    } else {
        true
    }
}

/// The category that the rule at position `k` assigns.
pub open spec fn rule_category(k: int) -> RedditPostCategory {
    if k == 0 {
        RedditPostCategory::SelfPost
    } else if k == 1 {
        RedditPostCategory::Video
    } else if k == 2 {
        RedditPostCategory::Image
    } else if k == 3 {
        RedditPostCategory::Video
    } else if k == 4 {
        RedditPostCategory::Link
    } else if k == 5 {
        RedditPostCategory::Image
    } else if k == 6 {
        RedditPostCategory::Link
    } else {
        RedditPostCategory::Unknown
    }
}

/// The position of the first rule that holds.
pub open spec fn first_rule(post: RedditPostView, lower_url: Seq<char>) -> int {
    if rule_holds(0, post, lower_url) {
        0
    } else if rule_holds(1, post, lower_url) {
        1
    } else if rule_holds(2, post, lower_url) {
        2
    } else if rule_holds(3, post, lower_url) {
        3
    } else if rule_holds(4, post, lower_url) {
        4
    } else if rule_holds(5, post, lower_url) {
        5
    } else if rule_holds(6, post, lower_url) {
        6
    } else {
        7
    }
}

/// The category of a post whose lower-cased URL is `lower_url`: that of the first rule that
/// holds.
pub open spec fn category_of(post: RedditPostView, lower_url: Seq<char>) -> RedditPostCategory {
    rule_category(first_rule(post, lower_url))
}

/// The category of `post`, given its URL in lower case.
pub fn categorize_with_lowered(post: &RedditPostRecord, lower_url: &str) -> (c: RedditPostCategory)
    ensures
        c == category_of(post@, lower_url@),
{
    if post.is_self {
        return RedditPostCategory::SelfPost;
    }
    if post.is_video {
        return RedditPostCategory::Video;
    }
    if let Some(hint) = &post.post_hint {
        if equal(hint.as_str(), "image") {
            return RedditPostCategory::Image;
        }
        if contains(hint.as_str(), "video") {
            return RedditPostCategory::Video;
        }
        if equal(hint.as_str(), "link") {
            return RedditPostCategory::Link;
        }
    }
    if ends_with(lower_url, ".jpg") || ends_with(lower_url, ".png") || ends_with(lower_url, ".gif")
        || ends_with(lower_url, ".jpeg") || ends_with(lower_url, ".webp") {
        return RedditPostCategory::Image;
    }
    if !post.url.as_str().is_empty() && !(post.url == post.permalink) {
        return RedditPostCategory::Link;
    }
    RedditPostCategory::Unknown
}

/// The category of a post. The URL is lower-cased as `str::to_lowercase` does it.
pub fn categorize_reddit_post(post_data: &RedditPostRecord) -> (c: RedditPostCategory)
    ensures
        c == category_of(post_data@, lowercase_of(post_data@.url)),
{
    let lower_url = post_data.url.as_str().to_lowercase();
    categorize_with_lowered(post_data, lower_url.as_str())
}

/// First match wins: where the rule at `k` holds and none before it does, the category is the
/// one that rule assigns, whatever the later rules say.
pub proof fn lemma_first_match_wins(post: RedditPostView, lower_url: Seq<char>, k: int)
    requires
        0 <= k < rule_count(),
        rule_holds(k, post, lower_url),
        forall|j: int| 0 <= j < k ==> !rule_holds(j, post, lower_url),
    ensures
        category_of(post, lower_url) == rule_category(k),
{
    assert(first_rule(post, lower_url) <= k);
    if first_rule(post, lower_url) < k {
        assert(rule_holds(first_rule(post, lower_url), post, lower_url));
    }
}

/// A self post is a `SelfPost`, whatever else the record says, a video flag included.
pub proof fn lemma_self_flag_decides(post: RedditPostView, lower_url: Seq<char>)
    requires
        post.is_self,
    ensures
        category_of(post, lower_url) == RedditPostCategory::SelfPost,
{
}

/// A post that is neither a self post nor flagged as a video, and whose hint is `image`, is an
/// `Image` by its hint: the ending of its URL is never looked at.
pub proof fn lemma_image_hint_decides(post: RedditPostView, lower_url: Seq<char>)
    requires
        !post.is_self,
        !post.is_video,
        post.post_hint == Some("image"@),
    ensures
        first_rule(post, lower_url) == 2,
        category_of(post, lower_url) == RedditPostCategory::Image,
{
}

/// The category does not depend on the fields that no rule reads.
pub proof fn lemma_category_reads_few_fields(a: RedditPostView, b: RedditPostView, lower_url: Seq<char>)
    requires
        a.is_self == b.is_self,
        a.is_video == b.is_video,
        a.post_hint == b.post_hint,
        a.url == b.url,
        a.permalink == b.permalink,
    ensures
        category_of(a, lower_url) == category_of(b, lower_url),
{
}

} // verus!
