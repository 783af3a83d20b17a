//! The data that one resolution passes from stage to stage, and the mathematical view of each.

use vstd::prelude::*;

verus! {

/// State shared by all resolutions. Each resolution is a stateless request and response, so
/// there is nothing to keep.
#[derive(Debug, Clone, Copy, PartialEq, Eq)]
pub struct Data {}

/// The content source that a host belongs to.
#[derive(Debug, Clone, Copy, PartialEq, Eq, Structural)]
pub enum Provider {
    GitHub,
    Reddit,
    Unsupported,
}

/// The semantic shape of a Reddit post.
#[derive(Debug, Clone, Copy, PartialEq, Eq, Structural)]
pub enum RedditPostCategory {
    SelfPost,
    Image,
    Video,
    Link,
    Unknown,
}

/// Why a provider's answer could not be turned into a record.
#[derive(Debug, Clone, Copy, PartialEq, Eq, Structural)]
pub enum FetchError {
    /// The provider answered with a status outside 200..=299.
    Status(u16),
    /// The answer does not have the expected shape.
    Shape,
}

/// Why a resolution ended without a preview.
#[derive(Debug, Clone, PartialEq, Eq)]
pub enum PreviewError {
    /// The input is no absolute URL with a host.
    InvalidUrl,
    /// The host, carried here, belongs to no supported provider.
    UnsupportedProvider(String),
    /// The provider could not be read.
    Fetch(FetchError),
}

/// The view of a `PreviewError`.
pub enum PreviewErrorView {
    InvalidUrl,
    UnsupportedProvider(Seq<char>),
    Fetch(FetchError),
}

impl View for PreviewError {
    type V = PreviewErrorView;

    open spec fn view(&self) -> PreviewErrorView {
        match *self {
            PreviewError::InvalidUrl => PreviewErrorView::InvalidUrl,
            PreviewError::UnsupportedProvider(host) => PreviewErrorView::UnsupportedProvider(host@),
            PreviewError::Fetch(e) => PreviewErrorView::Fetch(e),
        }
    }
}

/// An input that parsed as an absolute URL, with the host found in it.
#[derive(Debug, Clone, PartialEq, Eq)]
pub struct ResolvedUrl {
    pub raw: String,
    pub host: String,
}

/// The view of a `ResolvedUrl`.
pub struct ResolvedUrlView {
    pub raw: Seq<char>,
    pub host: Seq<char>,
}

impl View for ResolvedUrl {
    type V = ResolvedUrlView;

    open spec fn view(&self) -> ResolvedUrlView {
        ResolvedUrlView { raw: self.raw@, host: self.host@ }
    }
}

/// What GitHub tells about a repository.
#[derive(Debug, Clone, PartialEq, Eq)]
pub struct GitHubRepoRecord {
    pub full_name: String,
    pub owner_login: String,
    pub owner_avatar_url: String,
    pub html_url: String,
    pub description: String,
    pub fork_count: i32,
    pub open_issue_count: i32,
    pub star_count: i32,
}

/// The view of a `GitHubRepoRecord`.
pub struct GitHubRepoView {
    pub full_name: Seq<char>,
    pub owner_login: Seq<char>,
    pub owner_avatar_url: Seq<char>,
    pub html_url: Seq<char>,
    pub description: Seq<char>,
    pub fork_count: int,
    pub open_issue_count: int,
    pub star_count: int,
}

impl View for GitHubRepoRecord {
    type V = GitHubRepoView;

    open spec fn view(&self) -> GitHubRepoView {
        GitHubRepoView {
            full_name: self.full_name@,
            owner_login: self.owner_login@,
            owner_avatar_url: self.owner_avatar_url@,
            html_url: self.html_url@,
            description: self.description@,
            fork_count: self.fork_count as int,
            open_issue_count: self.open_issue_count as int,
            star_count: self.star_count as int,
        }
    }
}

/// What Reddit tells about a post. A field without a value in the source is empty or false
/// here, except the hint and the fallback playback URL, whose absence is itself read.
#[derive(Debug, Clone, PartialEq, Eq)]
pub struct RedditPostRecord {
    pub subreddit: String,
    pub title: String,
    pub score: i64,
    pub num_comments: u32,
    pub permalink: String,
    pub selftext: String,
    pub author: String,
    pub url: String,
    pub thumbnail: String,
    pub is_video: bool,
    pub is_self: bool,
    pub post_hint: Option<String>,
    pub secure_media_video_fallback_url: Option<String>,
}

/// The view of a `RedditPostRecord`.
pub struct RedditPostView {
    pub subreddit: Seq<char>,
    pub title: Seq<char>,
    pub score: int,
    pub num_comments: int,
    pub permalink: Seq<char>,
    pub selftext: Seq<char>,
    pub author: Seq<char>,
    pub url: Seq<char>,
    pub thumbnail: Seq<char>,
    pub is_video: bool,
    pub is_self: bool,
    pub post_hint: Option<Seq<char>>,
    pub secure_media_video_fallback_url: Option<Seq<char>>,
}

/// The characters of an optional text.
pub open spec fn text_of(o: Option<String>) -> Option<Seq<char>> {
    match o {
        Some(s) => Some(s@),
        None => None,
    }
}

impl View for RedditPostRecord {
    type V = RedditPostView;

    open spec fn view(&self) -> RedditPostView {
        RedditPostView {
            subreddit: self.subreddit@,
            title: self.title@,
            score: self.score as int,
            num_comments: self.num_comments as int,
            permalink: self.permalink@,
            selftext: self.selftext@,
            author: self.author@,
            url: self.url@,
            thumbnail: self.thumbnail@,
            is_video: self.is_video,
            is_self: self.is_self,
            post_hint: text_of(self.post_hint),
            secure_media_video_fallback_url: text_of(self.secure_media_video_fallback_url),
        }
    }
}

/// A labelled value shown under a preview.
#[derive(Debug, Clone, PartialEq, Eq)]
pub struct StatField {
    pub label: String,
    pub value: String,
}

/// The view of a `StatField`.
pub struct StatFieldView {
    pub label: Seq<char>,
    pub value: Seq<char>,
}

impl View for StatField {
    type V = StatFieldView;

    open spec fn view(&self) -> StatFieldView {
        StatFieldView { label: self.label@, value: self.value@ }
    }
}

/// Who a preview is attributed to.
#[derive(Debug, Clone, PartialEq, Eq)]
pub struct Author {
    pub name: String,
    pub icon_url: String,
}

/// The view of an `Author`.
pub struct AuthorView {
    pub name: Seq<char>,
    pub icon_url: Seq<char>,
}

impl View for Author {
    type V = AuthorView;

    open spec fn view(&self) -> AuthorView {
        AuthorView { name: self.name@, icon_url: self.icon_url@ }
    }
}

/// The normalized description of a link, ready to be rendered and then discarded.
#[derive(Debug, Clone, PartialEq, Eq)]
pub struct PreviewDocument {
    pub title: String,
    pub url: String,
    pub description: Option<String>,
    pub color: u32,
    pub thumbnail_url: Option<String>,
    pub image_url: Option<String>,
    pub stat_fields: Vec<StatField>,
    pub author: Option<Author>,
}

/// The view of a `PreviewDocument`.
pub struct PreviewView {
    pub title: Seq<char>,
    pub url: Seq<char>,
    pub description: Option<Seq<char>>,
    pub color: u32,
    pub thumbnail_url: Option<Seq<char>>,
    pub image_url: Option<Seq<char>>,
    pub stat_fields: Seq<StatFieldView>,
    pub author: Option<AuthorView>,
}

impl View for PreviewDocument {
    type V = PreviewView;

    open spec fn view(&self) -> PreviewView {
        PreviewView {
            title: self.title@,
            url: self.url@,
            description: text_of(self.description),
            color: self.color,
            thumbnail_url: text_of(self.thumbnail_url),
            image_url: text_of(self.image_url),
            stat_fields: Seq::new(self.stat_fields@.len(), |i: int| self.stat_fields@[i]@),
            author: match self.author {
                Some(a) => Some(a@),
                None => None,
            },
        }
    }
}

} // verus!
