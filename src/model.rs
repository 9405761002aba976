//! The backend's records, as the pages read them.

use vstd::prelude::*;

verus! {

#[derive(Debug, Clone)]
pub struct AuthorSummary {
    pub uuid: String,
    pub name: String,
}

#[derive(Debug, Clone)]
pub struct ChannelSummary {
    pub uuid: String,
    pub handle: String,
    pub name: String,
    pub lang: String,
}

/// A post in a listing. The author and the channel are absent in listings
/// that leave them out.
#[derive(Debug, Clone)]
pub struct PostSummary {
    pub post_uuid: String,
    pub revision_uuid: String,
    /// Seconds since the UNIX epoch.
    pub revision_date: u64,
    pub title: String,
    pub author: Option<AuthorSummary>,
    pub channel: Option<ChannelSummary>,
}

#[derive(Debug, Clone)]
pub struct ChannelInfo {
    pub uuid: String,
    pub handle: String,
    pub name: String,
    pub created_date: u64,
    pub lang: String,
    /// Markdown.
    pub description_text: String,
}

#[derive(Debug, Clone)]
pub struct PostInfo {
    pub post_uuid: String,
    pub channel: ChannelSummary,
    pub tags: Vec<String>,
    pub revision_uuid: String,
    pub revision_date: u64,
    pub title: String,
    /// Markdown.
    pub revision_text: String,
    pub author: AuthorSummary,
}

#[derive(Debug, Clone)]
pub struct AuthorInfo {
    pub uuid: String,
    pub name: String,
    pub created_date: u64,
    /// Markdown.
    pub description_text: String,
}

/// A static editorial page.
#[derive(Debug, Clone)]
pub struct MetaPage {
    pub page_name: String,
    pub updated_date: u64,
    pub title: String,
    /// Markdown.
    pub text: String,
}

#[derive(Debug, Clone)]
pub struct MetaPageListItem {
    pub page_name: String,
    pub updated_date: u64,
    pub title: String,
}

#[derive(Debug, Clone)]
pub struct TagListItem {
    pub tag_name: String,
    pub page_count: u64,
}

} // verus!
