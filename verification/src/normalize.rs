//! The preview normalizer: from a provider's record to the preview document.

use crate::decimal::{decimal, push_decimal};
use crate::text::{
    contains, equal, first_position, is_first_occurrence, is_prefix, lemma_first_occurrence_exists,
    occurs_at, occurs_in, replace_first, replace_first_occurrence, starts_with,
};
use crate::types::{
    text_of, Author, AuthorView, GitHubRepoRecord, GitHubRepoView, PreviewDocument, PreviewView,
    RedditPostCategory, RedditPostRecord, RedditPostView, StatField, StatFieldView,
};
use vstd::prelude::*;

verus! {

/// The colour of a GitHub preview.
pub const GITHUB_COLOR: u32 = 0x24292F;

/// The colour of a Reddit preview.
pub const REDDIT_COLOR: u32 = 0xFF5700;

/// The one stat field of a repository: stars, open issues and forks, in that order.
pub open spec fn github_stats_of(repo: GitHubRepoView) -> StatFieldView {
    StatFieldView {
        label: Seq::<char>::empty(),
        value: ":star: "@ + decimal(repo.star_count)
            + " \u{2022} <:issues:1377465408881164388> "@ + decimal(repo.open_issue_count)
            + " \u{2022} <:forks:1377466537832743016> "@ + decimal(repo.fork_count),
    }
}

/// The preview of a repository.
pub open spec fn github_preview_of(repo: GitHubRepoView) -> PreviewView {
    PreviewView {
        title: repo.full_name,
        url: repo.html_url,
        description: Some(repo.description),
        color: GITHUB_COLOR,
        thumbnail_url: None,
        image_url: None,
        stat_fields: seq![github_stats_of(repo)],
        author: Some(AuthorView { name: repo.owner_login, icon_url: repo.owner_avatar_url }),
    }
}

/// The one stat field of a post: subreddit, score and number of comments, in that order.
pub open spec fn reddit_stats_of(post: RedditPostView) -> StatFieldView {
    StatFieldView {
        label: Seq::<char>::empty(),
        value: "r/"@ + post.subreddit + " \u{2022} <:upvotes:1377464305695326258> "@ + decimal(
            post.score,
        ) + " \u{2022} :speech_balloon: "@ + decimal(post.num_comments),
    }
}

/// The address of the discussion of a post.
pub open spec fn discussion_url_of(post: RedditPostView) -> Seq<char> {
    "https://www.reddit.com"@ + post.permalink
}

/// The thumbnail to show for a raw thumbnail value: the value itself where it starts with
/// `http` and is neither of the placeholders `default` and `nsfw`, and none otherwise.
pub open spec fn shown_thumbnail(thumbnail: Seq<char>) -> Option<Seq<char>> {
    if is_prefix("http"@, thumbnail) && thumbnail != "default"@ && thumbnail != "nsfw"@ {
        Some(thumbnail)
    } else {
        None
    }
}

/// Whether the image address of a post is rewritten: it holds `i.redd.it/`, holds no
/// `/gallery/` yet, and the post is hinted as an image.
pub open spec fn needs_gallery_segment(post: RedditPostView) -> bool {
    &&& occurs_in("i.redd.it/"@, post.url)
    &&& !occurs_in("/gallery/"@, post.url)
    &&& post.post_hint == Some("image"@)
}

/// The address of the image of a post: its URL, with the first `i.redd.it/` turned into
/// `i.redd.it/gallery/` where the rewrite applies.
pub open spec fn image_url_of(post: RedditPostView) -> Seq<char> {
    if needs_gallery_segment(post) {
        replace_first(post.url, "i.redd.it/"@, "i.redd.it/gallery/"@)
    } else {
        post.url
    }
}

/// The address a video preview links to: the fallback playback URL where the record has one,
/// and the URL of the post otherwise.
pub open spec fn video_url_of(post: RedditPostView) -> Seq<char> {
    match post.secure_media_video_fallback_url {
        Some(fallback) => fallback,
        None => post.url,
    }
}

/// The message that points from a link preview to what it links.
pub open spec fn link_message_of(post: RedditPostView) -> Seq<char> {
    "[Link to original content]("@ + post.url + ")"@
}

/// The preview of a post of the given category, reached through the input `link`.
pub open spec fn reddit_preview_of(
    link: Seq<char>,
    post: RedditPostView,
    category: RedditPostCategory,
) -> PreviewView {
    let base = PreviewView {
        title: post.title,
        url: link,
        description: None,
        color: REDDIT_COLOR,
        thumbnail_url: None,
        image_url: None,
        stat_fields: seq![reddit_stats_of(post)],
        author: None,
    };
    match category {
        RedditPostCategory::SelfPost => PreviewView {
            url: discussion_url_of(post),
            description: Some(post.selftext),
            ..base
        },
        RedditPostCategory::Image => PreviewView {
            url: discussion_url_of(post),
            image_url: Some(image_url_of(post)),
            ..base
        },
        RedditPostCategory::Video => PreviewView {
            url: video_url_of(post),
            thumbnail_url: shown_thumbnail(post.thumbnail),
            ..base
        },
        RedditPostCategory::Link => PreviewView {
            url: post.url,
            description: Some(link_message_of(post)),
            thumbnail_url: shown_thumbnail(post.thumbnail),
            ..base
        },
        RedditPostCategory::Unknown => base,
    }
}

/// The preview of a repository: its full name as the title, its page as the link, its
/// description, its owner as the author, and one field with stars, open issues and forks.
pub fn normalize_github(repo: &GitHubRepoRecord) -> (doc: PreviewDocument)
    ensures
        doc@ == github_preview_of(repo@),
{
    let mut value = String::from_str(":star: ");
    push_decimal(&mut value, repo.star_count as i64);
    value.append(" \u{2022} <:issues:1377465408881164388> ");
    push_decimal(&mut value, repo.open_issue_count as i64);
    value.append(" \u{2022} <:forks:1377466537832743016> ");
    push_decimal(&mut value, repo.fork_count as i64);
    let mut stat_fields: Vec<StatField> = Vec::new();
    stat_fields.push(StatField { label: String::new(), value });
    let doc = PreviewDocument {
        title: repo.full_name.clone(),
        url: repo.html_url.clone(),
        description: Some(repo.description.clone()),
        color: GITHUB_COLOR,
        thumbnail_url: None,
        image_url: None,
        stat_fields,
        author: Some(
            Author { name: repo.owner_login.clone(), icon_url: repo.owner_avatar_url.clone() },
        ),
    };
    assert(doc@.stat_fields =~= seq![github_stats_of(repo@)]);
    doc
}

/// The thumbnail to show for the raw value `thumbnail`.
pub fn thumbnail_to_show(thumbnail: &String) -> (r: Option<String>)
    ensures
        text_of(r) == shown_thumbnail(thumbnail@),
{
    if starts_with(thumbnail.as_str(), "http") && !equal(thumbnail.as_str(), "default") && !equal(
        thumbnail.as_str(),
        "nsfw",
    ) {
        Some(thumbnail.clone())
    } else {
        None
    }
}

/// The address of the image of `post`.
pub fn image_url(post: &RedditPostRecord) -> (r: String)
    ensures
        r@ == image_url_of(post@),
{
    let hinted = match &post.post_hint {
        Some(hint) => equal(hint.as_str(), "image"),
        None => false,
    };
    if contains(post.url.as_str(), "i.redd.it/") && !contains(post.url.as_str(), "/gallery/")
        && hinted {
        replace_first_occurrence(post.url.as_str(), "i.redd.it/", "i.redd.it/gallery/")
    } else {
        post.url.clone()
    }
}

/// The preview of a post of the given category, reached through the input `link`. Every
/// category has the title, the colour and the stat field; the link, the description, the
/// image and the thumbnail depend on the category.
pub fn normalize_reddit(link: &str, post: &RedditPostRecord, category: RedditPostCategory) -> (doc:
    PreviewDocument)
    ensures
        doc@ == reddit_preview_of(link@, post@, category),
{
    let mut value = String::from_str("r/");
    value.append(post.subreddit.as_str());
    value.append(" \u{2022} <:upvotes:1377464305695326258> ");
    push_decimal(&mut value, post.score);
    value.append(" \u{2022} :speech_balloon: ");
    push_decimal(&mut value, post.num_comments as i64);
    let mut stat_fields: Vec<StatField> = Vec::new();
    stat_fields.push(StatField { label: String::new(), value });
    let mut doc = PreviewDocument {
        title: post.title.clone(),
        url: String::from_str(link),
        description: None,
        color: REDDIT_COLOR,
        thumbnail_url: None,
        image_url: None,
        stat_fields,
        author: None,
    };
    assert(doc@.stat_fields =~= seq![reddit_stats_of(post@)]);
    match category {
        RedditPostCategory::SelfPost => {
            let mut url = String::from_str("https://www.reddit.com");
            url.append(post.permalink.as_str());
            doc.url = url;
            doc.description = Some(post.selftext.clone());
        },
        RedditPostCategory::Image => {
            let mut url = String::from_str("https://www.reddit.com");
            url.append(post.permalink.as_str());
            doc.url = url;
            doc.image_url = Some(image_url(post));
        },
        RedditPostCategory::Video => {
            doc.url = match &post.secure_media_video_fallback_url {
                Some(fallback) => fallback.clone(),
                None => post.url.clone(),
            };
            doc.thumbnail_url = thumbnail_to_show(&post.thumbnail);
        },
        RedditPostCategory::Link => {
            let mut message = String::from_str("[Link to original content](");
            message.append(post.url.as_str());
            message.append(")");
            doc.url = post.url.clone();
            doc.description = Some(message);
            doc.thumbnail_url = thumbnail_to_show(&post.thumbnail);
        },
        RedditPostCategory::Unknown => {},
    }
    assert(doc@.stat_fields =~= seq![reddit_stats_of(post@)]);
    doc
}

/// A thumbnail is shown exactly where its raw value starts with `http`, and then as it is.
/// The placeholders `default` and `nsfw` are never shown.
pub proof fn lemma_thumbnail_shown_iff_http(thumbnail: Seq<char>)
    ensures
        shown_thumbnail(thumbnail) is Some <==> is_prefix("http"@, thumbnail),
        shown_thumbnail(thumbnail) matches Some(shown) ==> shown == thumbnail,
        thumbnail == "default"@ || thumbnail == "nsfw"@ ==> shown_thumbnail(thumbnail) is None,
{
    reveal_strlit("http");
    reveal_strlit("default");
    reveal_strlit("nsfw");
    if is_prefix("http"@, thumbnail) {
        assert(thumbnail[0int + 0int] == "http"@[0]);
        assert(thumbnail[0] == 'h');
        assert("default"@[0] == 'd');
        assert("nsfw"@[0] == 'n');
    }
}

/// The image address is left as it is unless the rewrite applies, and the rewrite puts
/// `gallery/` right behind the first `i.redd.it/` and changes nothing else.
pub proof fn lemma_gallery_rewrite(post: RedditPostView)
    ensures
        !needs_gallery_segment(post) ==> image_url_of(post) == post.url,
        occurs_in("/gallery/"@, post.url) ==> image_url_of(post) == post.url,
        post.post_hint != Some("image"@) ==> image_url_of(post) == post.url,
        needs_gallery_segment(post) ==> {
            let at = first_position(post.url, "i.redd.it/"@);
            &&& is_first_occurrence(post.url, "i.redd.it/"@, at)
            &&& image_url_of(post) == post.url.subrange(0, at + 10) + "gallery/"@
                + post.url.subrange(at + 10, post.url.len() as int)
            &&& occurs_at(image_url_of(post), "/gallery/"@, at + 9)
        },
{
    reveal_strlit("i.redd.it/");
    reveal_strlit("i.redd.it/gallery/");
    reveal_strlit("/gallery/");
    reveal_strlit("gallery/");
    if needs_gallery_segment(post) {
        let url = post.url;
        let witness = choose|i: int| occurs_at(url, "i.redd.it/"@, i);
        lemma_first_occurrence_exists(url, "i.redd.it/"@, witness);
        let at = first_position(url, "i.redd.it/"@);
        let out = image_url_of(post);
        assert(out == url.subrange(0, at) + "i.redd.it/gallery/"@ + url.subrange(
            at + 10,
            url.len() as int,
        ));
        assert("i.redd.it/gallery/"@ =~= "i.redd.it/"@ + "gallery/"@);
        assert("i.redd.it/gallery/"@.subrange(9, 18) =~= "/gallery/"@);
        assert(url.subrange(at, at + 10) =~= "i.redd.it/"@);
        assert(url.subrange(0, at + 10) =~= url.subrange(0, at) + url.subrange(at, at + 10));
        assert(out =~= url.subrange(0, at + 10) + "gallery/"@ + url.subrange(
            at + 10,
            url.len() as int,
        ));
        assert forall|k: int| 0 <= k < "/gallery/"@.len() implies out[at + 9 + k]
            == "/gallery/"@[k] by {
            assert(out[at + 9 + k] == "i.redd.it/gallery/"@[9 + k]);
            assert("i.redd.it/gallery/"@.subrange(9, 18)[k] == "i.redd.it/gallery/"@[9 + k]);
        }
    }
}

/// Rewriting an image address a second time changes nothing.
pub proof fn lemma_gallery_rewrite_once(post: RedditPostView)
    ensures
        image_url_of(RedditPostView { url: image_url_of(post), ..post }) == image_url_of(post),
{
    lemma_gallery_rewrite(post);
    if needs_gallery_segment(post) {
        let at = first_position(post.url, "i.redd.it/"@);
        assert(occurs_at(image_url_of(post), "/gallery/"@, at + 9));
    }
}

/// A preview never has both an image and a thumbnail. Only an `Image` has an image, and
/// only a `Video` or a `Link` whose raw thumbnail starts with `http` has a thumbnail.
pub proof fn lemma_image_or_thumbnail(
    link: Seq<char>,
    post: RedditPostView,
    category: RedditPostCategory,
)
    ensures
        ({
            let doc = reddit_preview_of(link, post, category);
            &&& doc.image_url is Some <==> category == RedditPostCategory::Image
            &&& doc.thumbnail_url is Some <==> (category == RedditPostCategory::Video || category
                == RedditPostCategory::Link) && is_prefix("http"@, post.thumbnail)
            &&& !(doc.image_url is Some && doc.thumbnail_url is Some)
        }),
{
    lemma_thumbnail_shown_iff_http(post.thumbnail);
}

/// Every Reddit preview has the title of the post, the Reddit colour, exactly one stat field
/// and no author; a self post and an image link to the discussion.
pub proof fn lemma_reddit_base(link: Seq<char>, post: RedditPostView, category: RedditPostCategory)
    ensures
        ({
            let doc = reddit_preview_of(link, post, category);
            &&& doc.title == post.title
            &&& doc.color == REDDIT_COLOR
            &&& doc.stat_fields == seq![reddit_stats_of(post)]
            &&& doc.author is None
            &&& category == RedditPostCategory::Unknown ==> doc.url == link
            &&& category == RedditPostCategory::SelfPost || category == RedditPostCategory::Image
                ==> doc.url == discussion_url_of(post)
        }),
{
}

} // verus!
