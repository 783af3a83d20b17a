//! Link previews for a chat bot.
//!
//! One resolution takes a URL, finds the provider that its host belongs to, plans the one
//! request that fetches the provider's metadata, and turns the answer into a preview
//! document: title, link, description, colour, image or thumbnail, and stat fields. Sending
//! the request is left to the caller; everything before and after it is decided here.
//!
//! A resolution runs `request::plan`, sends what it returns, and hands the status and body of
//! the answer to `pipeline::complete`. Each stage is also offered on its own:
//! `inspect::inspect`, `provider::resolve`, `request::request_for`, `pipeline::github_record`
//! and `pipeline::reddit_record`, `classify::categorize_reddit_post`, and
//! `normalize::normalize_github` and `normalize::normalize_reddit`.
//!
//! Parsing URLs is left to the `url` crate and parsing JSON to `serde_json`. What is assumed
//! of them is stated where they are called, in `inspect` and in `json`.

pub mod classify;
pub mod decimal;
pub mod decode;
pub mod inspect;
pub mod json;
pub mod normalize;
pub mod pipeline;
pub mod provider;
pub mod request;
pub mod text;
pub mod types;
