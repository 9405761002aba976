//! The markup of every fragment, and the typed fields each content fragment
//! is written from.

use vstd::prelude::*;

use crate::html::{
    blank_values, is_markup_char, joined, lemma_skeleton_shape, pieces, render, rendered,
    segments_view,
    slots_within, Segment, SegmentView,
};

verus! {

pub const META_PAGE_0: &'static str = "<article class=\"meta-page\"><h2 class=\"meta-page-heading\">";
pub const META_PAGE_1: &'static str = "</h2><p class=\"meta-page-date\">Updated: <time class=\"meta-page-time\" datetime=\"";
pub const META_PAGE_2: &'static str = "\">";
pub const META_PAGE_3: &'static str = "</time></p><div class=\"meta-page-content markdown\">";
pub const META_PAGE_4: &'static str = "</div></article>";
pub const POST_LIST_0: &'static str = "<section class=\"post-list\"><h2 class=\"post-list-title\">";
pub const POST_LIST_1: &'static str = "</h2><div class=\"post-list-items\">";
pub const POST_LIST_2: &'static str = "</div></section>";
pub const META_PAGE_LIST_ITEM_0: &'static str = "<article class=\"list-item meta-page-list-item\"><h3 class=\"list-item-title\"><a class=\"meta-page-link\" href=\"/meta/";
pub const META_PAGE_LIST_ITEM_1: &'static str = "/\">";
pub const META_PAGE_LIST_ITEM_2: &'static str = "</a></h3><p class=\"list-item-meta\"><time class=\"meta-page-time\" datetime=\"";
pub const META_PAGE_LIST_ITEM_3: &'static str = "\">";
pub const META_PAGE_LIST_ITEM_4: &'static str = "</time></p></article>";
pub const SINGLE_PARAGRAPH_MESSAGE_0: &'static str = "<p class=\"message\">";
pub const SINGLE_PARAGRAPH_MESSAGE_1: &'static str = "</p>";
pub const POST_LIST_ITEM_0: &'static str = "<article class=\"list-item post-list-item\" lang=\"";
pub const POST_LIST_ITEM_1: &'static str = "\"><h3 class=\"list-item-title\"><a class=\"post-link\" href=\"/";
pub const POST_LIST_ITEM_2: &'static str = "/";
pub const POST_LIST_ITEM_3: &'static str = "/\">";
pub const POST_LIST_ITEM_4: &'static str = "</a></h3><p class=\"list-item-meta\"><time class=\"post-time\" datetime=\"";
pub const POST_LIST_ITEM_5: &'static str = "\">";
pub const POST_LIST_ITEM_6: &'static str = "</time> by <a class=\"author-link\" href=\"/a/";
pub const POST_LIST_ITEM_7: &'static str = "/\">";
pub const POST_LIST_ITEM_8: &'static str = "</a> in <a class=\"channel-link\" href=\"/c/";
pub const POST_LIST_ITEM_9: &'static str = "/\">";
pub const POST_LIST_ITEM_10: &'static str = "</a></p></article>";
pub const CHANNEL_LIST_ITEM_0: &'static str = "<article class=\"list-item channel-list-item\" lang=\"";
pub const CHANNEL_LIST_ITEM_1: &'static str = "\"><h3 class=\"list-item-title\"><a class=\"channel-link\" href=\"/c/";
pub const CHANNEL_LIST_ITEM_2: &'static str = "/\">";
pub const CHANNEL_LIST_ITEM_3: &'static str = "</a></h3><p class=\"channel-handle\">@";
pub const CHANNEL_LIST_ITEM_4: &'static str = "</p></article>";
pub const CHANNEL_0: &'static str = "<section class=\"channel\" lang=\"";
pub const CHANNEL_1: &'static str = "\"><h2 class=\"channel-name\"><a class=\"channel-link\" href=\"/c/";
pub const CHANNEL_2: &'static str = "/\">";
pub const CHANNEL_3: &'static str = "</a></h2><p class=\"channel-handle\">@";
pub const CHANNEL_4: &'static str = "</p><p class=\"channel-meta\">Since <time class=\"channel-time\" datetime=\"";
pub const CHANNEL_5: &'static str = "\">";
pub const CHANNEL_6: &'static str = "</time></p><div class=\"channel-description markdown\">";
pub const CHANNEL_7: &'static str = "</div><div class=\"post-list-items\">";
pub const CHANNEL_8: &'static str = "</div></section>";
pub const POST_0: &'static str = "<article class=\"post\" lang=\"";
pub const POST_1: &'static str = "\"><header class=\"post-header\"><h2 class=\"post-title\"><a class=\"post-link\" href=\"/";
pub const POST_2: &'static str = "/";
pub const POST_3: &'static str = "/\">";
pub const POST_4: &'static str = "</a></h2><p class=\"post-meta\"><time class=\"post-time\" datetime=\"";
pub const POST_5: &'static str = "\">";
pub const POST_6: &'static str = "</time> by <a class=\"author-link\" href=\"/a/";
pub const POST_7: &'static str = "/\">";
pub const POST_8: &'static str = "</a> in <a class=\"channel-link\" href=\"/c/";
pub const POST_9: &'static str = "/\">";
pub const POST_10: &'static str = "</a></p><ul class=\"tag-list\">";
pub const POST_11: &'static str = "</ul></header><div class=\"post-content markdown\">";
pub const POST_12: &'static str = "</div></article>";
pub const AUTHOR_LIST_ITEM_0: &'static str = "<article class=\"list-item author-list-item\"><h3 class=\"list-item-title\"><a class=\"author-link\" href=\"/a/";
pub const AUTHOR_LIST_ITEM_1: &'static str = "/\">";
pub const AUTHOR_LIST_ITEM_2: &'static str = "</a></h3></article>";
pub const AUTHOR_0: &'static str = "<section class=\"author\"><h2 class=\"author-name\"><a class=\"author-link\" href=\"/a/";
pub const AUTHOR_1: &'static str = "/\">";
pub const AUTHOR_2: &'static str = "</a></h2><p class=\"author-meta\">Since <time class=\"author-time\" datetime=\"";
pub const AUTHOR_3: &'static str = "\">";
pub const AUTHOR_4: &'static str = "</time></p><div class=\"author-description markdown\">";
pub const AUTHOR_5: &'static str = "</div><div class=\"post-list-items\">";
pub const AUTHOR_6: &'static str = "</div></section>";
pub const TAG_LIST_ITEM_0: &'static str = "<li class=\"tag-list-item\"><a class=\"tag-link\" href=\"/t/";
pub const TAG_LIST_ITEM_1: &'static str = "/\">";
pub const TAG_LIST_ITEM_2: &'static str = "</a></li>";
pub const TAG_0: &'static str = "<section class=\"tag\"><h2 class=\"tag-name\"><a class=\"tag-link\" href=\"/t/";
pub const TAG_1: &'static str = "/\">";
pub const TAG_2: &'static str = "</a></h2><div class=\"post-list-items\">";
pub const TAG_3: &'static str = "</div></section>";
pub const INVITES_0: &'static str = "<section class=\"invites\"><h2 class=\"invites-heading\">Invites</h2><p class=\"invites-message\"></p><ul class=\"invite-list\"></ul><button class=\"invites-new\" type=\"button\">New invite</button></section>";
pub const BASE_HEAD_0: &'static str = "<!doctype html><html lang=\"en\"><head><meta charset=\"utf-8\"><meta name=\"viewport\" content=\"width=device-width, initial-scale=1\"><title>";
pub const BASE_HEAD_1: &'static str = "</title><meta name=\"description\" content=\"";
pub const BASE_HEAD_2: &'static str = "\"><link rel=\"canonical\" href=\"";
pub const BASE_HEAD_3: &'static str = "\"><meta property=\"og:type\" content=\"website\"><meta property=\"og:title\" content=\"";
pub const BASE_HEAD_4: &'static str = "\"><meta property=\"og:site_name\" content=\"";
pub const BASE_HEAD_5: &'static str = "\"><meta property=\"og:description\" content=\"";
pub const BASE_HEAD_6: &'static str = "\"><meta property=\"og:url\" content=\"";
pub const BASE_HEAD_7: &'static str = "\"><meta property=\"og:image\" content=\"";
pub const BASE_HEAD_8: &'static str = "\"><link rel=\"stylesheet\" href=\"/assets/style.css\"><script type=\"module\" src=\"/assets/main.js\"></script></head><body><header id=\"header\"><p class=\"site-name\"><a href=\"/\">";
pub const BASE_HEAD_9: &'static str = "</a></p><nav class=\"header-navigation\"><ul>";
pub const BASE_MAIN_0: &'static str = "</ul></nav></header><main id=\"main\"><h1 id=\"page-title\">";
pub const BASE_MAIN_1: &'static str = "</h1><div id=\"content\">";
pub const BASE_MAIN_2: &'static str = "</div></main><footer id=\"footer\"><nav class=\"footer-navigation\"><ul>";
pub const BASE_FOOT_0: &'static str = "</ul></nav><p class=\"site-copyright\">";
pub const BASE_FOOT_1: &'static str = "</p></footer>";
pub const BASE_END_0: &'static str = "</body></html>";
pub const NAVIGATION_LINK_0: &'static str = "<li class=\"navigation-item\"><a href=\"";
pub const NAVIGATION_LINK_1: &'static str = "\">";
pub const NAVIGATION_LINK_2: &'static str = "</a></li>";
pub const TEMPLATE_HOLDER_0: &'static str = "<template id=\"";
pub const TEMPLATE_HOLDER_1: &'static str = "\">";
pub const TEMPLATE_HOLDER_2: &'static str = "</template>";

/// Every fragment that pages are built from: the content fragments, which
/// client-side code renders too, and the pieces of the page around them.
#[derive(Debug, Clone, Copy, PartialEq, Eq, Structural)]
pub enum Fragment {
    MetaPage,
    PostList,
    MetaPageListItem,
    SingleParagraphMessage,
    PostListItem,
    ChannelListItem,
    Channel,
    Post,
    AuthorListItem,
    Author,
    TagListItem,
    Tag,
    Invites,
    BaseHead,
    BaseMain,
    BaseFoot,
    BaseEnd,
    NavigationLink,
    TemplateHolder,
}

/// The segments of a fragment.
pub open spec fn fragment_segments(f: Fragment) -> Seq<SegmentView> {
    match f {
        Fragment::MetaPage => seq![SegmentView::Markup(META_PAGE_0@), SegmentView::Text(0), SegmentView::Markup(META_PAGE_1@), SegmentView::Text(2), SegmentView::Markup(META_PAGE_2@), SegmentView::Text(1), SegmentView::Markup(META_PAGE_3@), SegmentView::Html(3), SegmentView::Markup(META_PAGE_4@)],
        Fragment::PostList => seq![SegmentView::Markup(POST_LIST_0@), SegmentView::Text(0), SegmentView::Markup(POST_LIST_1@), SegmentView::Html(1), SegmentView::Markup(POST_LIST_2@)],
        Fragment::MetaPageListItem => seq![SegmentView::Markup(META_PAGE_LIST_ITEM_0@), SegmentView::Text(0), SegmentView::Markup(META_PAGE_LIST_ITEM_1@), SegmentView::Text(1), SegmentView::Markup(META_PAGE_LIST_ITEM_2@), SegmentView::Text(3), SegmentView::Markup(META_PAGE_LIST_ITEM_3@), SegmentView::Text(2), SegmentView::Markup(META_PAGE_LIST_ITEM_4@)],
        Fragment::SingleParagraphMessage => seq![SegmentView::Markup(SINGLE_PARAGRAPH_MESSAGE_0@), SegmentView::Text(0), SegmentView::Markup(SINGLE_PARAGRAPH_MESSAGE_1@)],
        Fragment::PostListItem => seq![SegmentView::Markup(POST_LIST_ITEM_0@), SegmentView::Text(8), SegmentView::Markup(POST_LIST_ITEM_1@), SegmentView::Text(6), SegmentView::Markup(POST_LIST_ITEM_2@), SegmentView::Text(0), SegmentView::Markup(POST_LIST_ITEM_3@), SegmentView::Text(1), SegmentView::Markup(POST_LIST_ITEM_4@), SegmentView::Text(3), SegmentView::Markup(POST_LIST_ITEM_5@), SegmentView::Text(2), SegmentView::Markup(POST_LIST_ITEM_6@), SegmentView::Text(4), SegmentView::Markup(POST_LIST_ITEM_7@), SegmentView::Text(5), SegmentView::Markup(POST_LIST_ITEM_8@), SegmentView::Text(6), SegmentView::Markup(POST_LIST_ITEM_9@), SegmentView::Text(7), SegmentView::Markup(POST_LIST_ITEM_10@)],
        Fragment::ChannelListItem => seq![SegmentView::Markup(CHANNEL_LIST_ITEM_0@), SegmentView::Text(2), SegmentView::Markup(CHANNEL_LIST_ITEM_1@), SegmentView::Text(0), SegmentView::Markup(CHANNEL_LIST_ITEM_2@), SegmentView::Text(1), SegmentView::Markup(CHANNEL_LIST_ITEM_3@), SegmentView::Text(0), SegmentView::Markup(CHANNEL_LIST_ITEM_4@)],
        Fragment::Channel => seq![SegmentView::Markup(CHANNEL_0@), SegmentView::Text(2), SegmentView::Markup(CHANNEL_1@), SegmentView::Text(0), SegmentView::Markup(CHANNEL_2@), SegmentView::Text(1), SegmentView::Markup(CHANNEL_3@), SegmentView::Text(0), SegmentView::Markup(CHANNEL_4@), SegmentView::Text(5), SegmentView::Markup(CHANNEL_5@), SegmentView::Text(4), SegmentView::Markup(CHANNEL_6@), SegmentView::Html(3), SegmentView::Markup(CHANNEL_7@), SegmentView::Html(6), SegmentView::Markup(CHANNEL_8@)],
        Fragment::Post => seq![SegmentView::Markup(POST_0@), SegmentView::Text(8), SegmentView::Markup(POST_1@), SegmentView::Text(6), SegmentView::Markup(POST_2@), SegmentView::Text(0), SegmentView::Markup(POST_3@), SegmentView::Text(1), SegmentView::Markup(POST_4@), SegmentView::Text(3), SegmentView::Markup(POST_5@), SegmentView::Text(2), SegmentView::Markup(POST_6@), SegmentView::Text(4), SegmentView::Markup(POST_7@), SegmentView::Text(5), SegmentView::Markup(POST_8@), SegmentView::Text(6), SegmentView::Markup(POST_9@), SegmentView::Text(7), SegmentView::Markup(POST_10@), SegmentView::Html(9), SegmentView::Markup(POST_11@), SegmentView::Html(10), SegmentView::Markup(POST_12@)],
        Fragment::AuthorListItem => seq![SegmentView::Markup(AUTHOR_LIST_ITEM_0@), SegmentView::Text(0), SegmentView::Markup(AUTHOR_LIST_ITEM_1@), SegmentView::Text(1), SegmentView::Markup(AUTHOR_LIST_ITEM_2@)],
        Fragment::Author => seq![SegmentView::Markup(AUTHOR_0@), SegmentView::Text(0), SegmentView::Markup(AUTHOR_1@), SegmentView::Text(1), SegmentView::Markup(AUTHOR_2@), SegmentView::Text(3), SegmentView::Markup(AUTHOR_3@), SegmentView::Text(2), SegmentView::Markup(AUTHOR_4@), SegmentView::Html(4), SegmentView::Markup(AUTHOR_5@), SegmentView::Html(5), SegmentView::Markup(AUTHOR_6@)],
        Fragment::TagListItem => seq![SegmentView::Markup(TAG_LIST_ITEM_0@), SegmentView::Text(1), SegmentView::Markup(TAG_LIST_ITEM_1@), SegmentView::Text(0), SegmentView::Markup(TAG_LIST_ITEM_2@)],
        Fragment::Tag => seq![SegmentView::Markup(TAG_0@), SegmentView::Text(1), SegmentView::Markup(TAG_1@), SegmentView::Text(0), SegmentView::Markup(TAG_2@), SegmentView::Html(2), SegmentView::Markup(TAG_3@)],
        Fragment::Invites => seq![SegmentView::Markup(INVITES_0@)],
        Fragment::BaseHead => seq![SegmentView::Markup(BASE_HEAD_0@), SegmentView::Text(0), SegmentView::Markup(BASE_HEAD_1@), SegmentView::Text(1), SegmentView::Markup(BASE_HEAD_2@), SegmentView::Text(2), SegmentView::Markup(BASE_HEAD_3@), SegmentView::Text(0), SegmentView::Markup(BASE_HEAD_4@), SegmentView::Text(3), SegmentView::Markup(BASE_HEAD_5@), SegmentView::Text(1), SegmentView::Markup(BASE_HEAD_6@), SegmentView::Text(2), SegmentView::Markup(BASE_HEAD_7@), SegmentView::Text(4), SegmentView::Markup(BASE_HEAD_8@), SegmentView::Text(3), SegmentView::Markup(BASE_HEAD_9@)],
        Fragment::BaseMain => seq![SegmentView::Markup(BASE_MAIN_0@), SegmentView::Text(0), SegmentView::Markup(BASE_MAIN_1@), SegmentView::Html(1), SegmentView::Markup(BASE_MAIN_2@)],
        Fragment::BaseFoot => seq![SegmentView::Markup(BASE_FOOT_0@), SegmentView::Text(0), SegmentView::Markup(BASE_FOOT_1@)],
        Fragment::BaseEnd => seq![SegmentView::Markup(BASE_END_0@)],
        Fragment::NavigationLink => seq![SegmentView::Markup(NAVIGATION_LINK_0@), SegmentView::Text(0), SegmentView::Markup(NAVIGATION_LINK_1@), SegmentView::Text(1), SegmentView::Markup(NAVIGATION_LINK_2@)],
        Fragment::TemplateHolder => seq![SegmentView::Markup(TEMPLATE_HOLDER_0@), SegmentView::Text(0), SegmentView::Markup(TEMPLATE_HOLDER_1@), SegmentView::Html(1), SegmentView::Markup(TEMPLATE_HOLDER_2@)],
    }
}

/// How many fields a fragment has.
pub open spec fn fragment_field_count(f: Fragment) -> nat {
    match f {
        Fragment::MetaPage => 4,
        Fragment::PostList => 2,
        Fragment::MetaPageListItem => 4,
        Fragment::SingleParagraphMessage => 1,
        Fragment::PostListItem => 9,
        Fragment::ChannelListItem => 3,
        Fragment::Channel => 7,
        Fragment::Post => 11,
        Fragment::AuthorListItem => 2,
        Fragment::Author => 6,
        Fragment::TagListItem => 2,
        Fragment::Tag => 3,
        Fragment::Invites => 0,
        Fragment::BaseHead => 5,
        Fragment::BaseMain => 2,
        Fragment::BaseFoot => 1,
        Fragment::BaseEnd => 0,
        Fragment::NavigationLink => 2,
        Fragment::TemplateHolder => 2,
    }
}

/// The name under which client-side code finds a content fragment; empty
/// for the pieces of the page around it.
pub open spec fn fragment_id(f: Fragment) -> Seq<char> {
    match f {
        Fragment::MetaPage => "content-meta-page"@,
        Fragment::PostList => "content-post-list"@,
        Fragment::MetaPageListItem => "content-meta-page-list-item"@,
        Fragment::SingleParagraphMessage => "content-single-paragraph-message"@,
        Fragment::PostListItem => "content-post-list-item"@,
        Fragment::ChannelListItem => "content-channel-list-item"@,
        Fragment::Channel => "content-channel"@,
        Fragment::Post => "content-post"@,
        Fragment::AuthorListItem => "content-author-list-item"@,
        Fragment::Author => "content-author"@,
        Fragment::TagListItem => "content-tag-list-item"@,
        Fragment::Tag => "content-tag"@,
        Fragment::Invites => "content-invites"@,
        Fragment::BaseHead => ""@,
        Fragment::BaseMain => ""@,
        Fragment::BaseFoot => ""@,
        Fragment::BaseEnd => ""@,
        Fragment::NavigationLink => ""@,
        Fragment::TemplateHolder => ""@,
    }
}

/// A fragment with every field empty, as client-side code receives it.
pub open spec fn skeleton(f: Fragment) -> Seq<char> {
    rendered(fragment_segments(f), blank_values(fragment_field_count(f)))
}

impl Fragment {
    pub fn segments(&self) -> (r: Vec<Segment>)
        ensures
            segments_view(r@) == fragment_segments(*self),
            slots_within(segments_view(r@), fragment_field_count(*self)),
    {
        let r = match self {
            Fragment::MetaPage => vec![Segment::Markup(META_PAGE_0), Segment::Text(0), Segment::Markup(META_PAGE_1), Segment::Text(2), Segment::Markup(META_PAGE_2), Segment::Text(1), Segment::Markup(META_PAGE_3), Segment::Html(3), Segment::Markup(META_PAGE_4)],
            Fragment::PostList => vec![Segment::Markup(POST_LIST_0), Segment::Text(0), Segment::Markup(POST_LIST_1), Segment::Html(1), Segment::Markup(POST_LIST_2)],
            Fragment::MetaPageListItem => vec![Segment::Markup(META_PAGE_LIST_ITEM_0), Segment::Text(0), Segment::Markup(META_PAGE_LIST_ITEM_1), Segment::Text(1), Segment::Markup(META_PAGE_LIST_ITEM_2), Segment::Text(3), Segment::Markup(META_PAGE_LIST_ITEM_3), Segment::Text(2), Segment::Markup(META_PAGE_LIST_ITEM_4)],
            Fragment::SingleParagraphMessage => vec![Segment::Markup(SINGLE_PARAGRAPH_MESSAGE_0), Segment::Text(0), Segment::Markup(SINGLE_PARAGRAPH_MESSAGE_1)],
            Fragment::PostListItem => vec![Segment::Markup(POST_LIST_ITEM_0), Segment::Text(8), Segment::Markup(POST_LIST_ITEM_1), Segment::Text(6), Segment::Markup(POST_LIST_ITEM_2), Segment::Text(0), Segment::Markup(POST_LIST_ITEM_3), Segment::Text(1), Segment::Markup(POST_LIST_ITEM_4), Segment::Text(3), Segment::Markup(POST_LIST_ITEM_5), Segment::Text(2), Segment::Markup(POST_LIST_ITEM_6), Segment::Text(4), Segment::Markup(POST_LIST_ITEM_7), Segment::Text(5), Segment::Markup(POST_LIST_ITEM_8), Segment::Text(6), Segment::Markup(POST_LIST_ITEM_9), Segment::Text(7), Segment::Markup(POST_LIST_ITEM_10)],
            Fragment::ChannelListItem => vec![Segment::Markup(CHANNEL_LIST_ITEM_0), Segment::Text(2), Segment::Markup(CHANNEL_LIST_ITEM_1), Segment::Text(0), Segment::Markup(CHANNEL_LIST_ITEM_2), Segment::Text(1), Segment::Markup(CHANNEL_LIST_ITEM_3), Segment::Text(0), Segment::Markup(CHANNEL_LIST_ITEM_4)],
            Fragment::Channel => vec![Segment::Markup(CHANNEL_0), Segment::Text(2), Segment::Markup(CHANNEL_1), Segment::Text(0), Segment::Markup(CHANNEL_2), Segment::Text(1), Segment::Markup(CHANNEL_3), Segment::Text(0), Segment::Markup(CHANNEL_4), Segment::Text(5), Segment::Markup(CHANNEL_5), Segment::Text(4), Segment::Markup(CHANNEL_6), Segment::Html(3), Segment::Markup(CHANNEL_7), Segment::Html(6), Segment::Markup(CHANNEL_8)],
            Fragment::Post => vec![Segment::Markup(POST_0), Segment::Text(8), Segment::Markup(POST_1), Segment::Text(6), Segment::Markup(POST_2), Segment::Text(0), Segment::Markup(POST_3), Segment::Text(1), Segment::Markup(POST_4), Segment::Text(3), Segment::Markup(POST_5), Segment::Text(2), Segment::Markup(POST_6), Segment::Text(4), Segment::Markup(POST_7), Segment::Text(5), Segment::Markup(POST_8), Segment::Text(6), Segment::Markup(POST_9), Segment::Text(7), Segment::Markup(POST_10), Segment::Html(9), Segment::Markup(POST_11), Segment::Html(10), Segment::Markup(POST_12)],
            Fragment::AuthorListItem => vec![Segment::Markup(AUTHOR_LIST_ITEM_0), Segment::Text(0), Segment::Markup(AUTHOR_LIST_ITEM_1), Segment::Text(1), Segment::Markup(AUTHOR_LIST_ITEM_2)],
            Fragment::Author => vec![Segment::Markup(AUTHOR_0), Segment::Text(0), Segment::Markup(AUTHOR_1), Segment::Text(1), Segment::Markup(AUTHOR_2), Segment::Text(3), Segment::Markup(AUTHOR_3), Segment::Text(2), Segment::Markup(AUTHOR_4), Segment::Html(4), Segment::Markup(AUTHOR_5), Segment::Html(5), Segment::Markup(AUTHOR_6)],
            Fragment::TagListItem => vec![Segment::Markup(TAG_LIST_ITEM_0), Segment::Text(1), Segment::Markup(TAG_LIST_ITEM_1), Segment::Text(0), Segment::Markup(TAG_LIST_ITEM_2)],
            Fragment::Tag => vec![Segment::Markup(TAG_0), Segment::Text(1), Segment::Markup(TAG_1), Segment::Text(0), Segment::Markup(TAG_2), Segment::Html(2), Segment::Markup(TAG_3)],
            Fragment::Invites => vec![Segment::Markup(INVITES_0)],
            Fragment::BaseHead => vec![Segment::Markup(BASE_HEAD_0), Segment::Text(0), Segment::Markup(BASE_HEAD_1), Segment::Text(1), Segment::Markup(BASE_HEAD_2), Segment::Text(2), Segment::Markup(BASE_HEAD_3), Segment::Text(0), Segment::Markup(BASE_HEAD_4), Segment::Text(3), Segment::Markup(BASE_HEAD_5), Segment::Text(1), Segment::Markup(BASE_HEAD_6), Segment::Text(2), Segment::Markup(BASE_HEAD_7), Segment::Text(4), Segment::Markup(BASE_HEAD_8), Segment::Text(3), Segment::Markup(BASE_HEAD_9)],
            Fragment::BaseMain => vec![Segment::Markup(BASE_MAIN_0), Segment::Text(0), Segment::Markup(BASE_MAIN_1), Segment::Html(1), Segment::Markup(BASE_MAIN_2)],
            Fragment::BaseFoot => vec![Segment::Markup(BASE_FOOT_0), Segment::Text(0), Segment::Markup(BASE_FOOT_1)],
            Fragment::BaseEnd => vec![Segment::Markup(BASE_END_0)],
            Fragment::NavigationLink => vec![Segment::Markup(NAVIGATION_LINK_0), Segment::Text(0), Segment::Markup(NAVIGATION_LINK_1), Segment::Text(1), Segment::Markup(NAVIGATION_LINK_2)],
            Fragment::TemplateHolder => vec![Segment::Markup(TEMPLATE_HOLDER_0), Segment::Text(0), Segment::Markup(TEMPLATE_HOLDER_1), Segment::Html(1), Segment::Markup(TEMPLATE_HOLDER_2)],
        };
        assert(segments_view(r@) =~= fragment_segments(*self));
        r
    }

    pub fn field_count(&self) -> (r: usize)
        ensures
            r == fragment_field_count(*self),
    {
        match self {
            Fragment::MetaPage => 4,
            Fragment::PostList => 2,
            Fragment::MetaPageListItem => 4,
            Fragment::SingleParagraphMessage => 1,
            Fragment::PostListItem => 9,
            Fragment::ChannelListItem => 3,
            Fragment::Channel => 7,
            Fragment::Post => 11,
            Fragment::AuthorListItem => 2,
            Fragment::Author => 6,
            Fragment::TagListItem => 2,
            Fragment::Tag => 3,
            Fragment::Invites => 0,
            Fragment::BaseHead => 5,
            Fragment::BaseMain => 2,
            Fragment::BaseFoot => 1,
            Fragment::BaseEnd => 0,
            Fragment::NavigationLink => 2,
            Fragment::TemplateHolder => 2,
        }
    }

    pub fn id(&self) -> (r: &'static str)
        ensures
            r@ == fragment_id(*self),
    {
        match self {
            Fragment::MetaPage => "content-meta-page",
            Fragment::PostList => "content-post-list",
            Fragment::MetaPageListItem => "content-meta-page-list-item",
            Fragment::SingleParagraphMessage => "content-single-paragraph-message",
            Fragment::PostListItem => "content-post-list-item",
            Fragment::ChannelListItem => "content-channel-list-item",
            Fragment::Channel => "content-channel",
            Fragment::Post => "content-post",
            Fragment::AuthorListItem => "content-author-list-item",
            Fragment::Author => "content-author",
            Fragment::TagListItem => "content-tag-list-item",
            Fragment::Tag => "content-tag",
            Fragment::Invites => "content-invites",
            Fragment::BaseHead => "",
            Fragment::BaseMain => "",
            Fragment::BaseFoot => "",
            Fragment::BaseEnd => "",
            Fragment::NavigationLink => "",
            Fragment::TemplateHolder => "",
        }
    }
}

pub struct ContentMetaPageTemplate {
    pub content_heading: String,
    pub content_date: String,
    pub content_date_value: String,
    pub content_html: String,
}

impl ContentMetaPageTemplate {
    pub open spec fn field_values(&self) -> Seq<Seq<char>> {
        seq![self.content_heading@, self.content_date@, self.content_date_value@, self.content_html@]
    }

    pub fn render(&self) -> (r: String)
        ensures
            r@ == rendered(fragment_segments(Fragment::MetaPage), self.field_values()),
    {
        let values = vec![self.content_heading.clone(), self.content_date.clone(), self.content_date_value.clone(), self.content_html.clone()];
        assert(values.deep_view() =~= self.field_values());
        render(&Fragment::MetaPage.segments(), &values)
    }
}

pub struct ContentPostListTemplate {
    pub post_list_title: String,
    pub post_list_html: String,
}

impl ContentPostListTemplate {
    pub open spec fn field_values(&self) -> Seq<Seq<char>> {
        seq![self.post_list_title@, self.post_list_html@]
    }

    pub fn render(&self) -> (r: String)
        ensures
            r@ == rendered(fragment_segments(Fragment::PostList), self.field_values()),
    {
        let values = vec![self.post_list_title.clone(), self.post_list_html.clone()];
        assert(values.deep_view() =~= self.field_values());
        render(&Fragment::PostList.segments(), &values)
    }
}

pub struct ContentMetaPageListItemTemplate {
    pub page_name: String,
    pub title: String,
    pub date: String,
    pub date_value: String,
}

impl ContentMetaPageListItemTemplate {
    pub open spec fn field_values(&self) -> Seq<Seq<char>> {
        seq![self.page_name@, self.title@, self.date@, self.date_value@]
    }

    pub fn render(&self) -> (r: String)
        ensures
            r@ == rendered(fragment_segments(Fragment::MetaPageListItem), self.field_values()),
    {
        let values = vec![self.page_name.clone(), self.title.clone(), self.date.clone(), self.date_value.clone()];
        assert(values.deep_view() =~= self.field_values());
        render(&Fragment::MetaPageListItem.segments(), &values)
    }
}

pub struct ContentSingleParagraphMessageTemplate {
    pub message: String,
}

impl ContentSingleParagraphMessageTemplate {
    pub open spec fn field_values(&self) -> Seq<Seq<char>> {
        seq![self.message@]
    }

    pub fn render(&self) -> (r: String)
        ensures
            r@ == rendered(fragment_segments(Fragment::SingleParagraphMessage), self.field_values()),
    {
        let values = vec![self.message.clone()];
        assert(values.deep_view() =~= self.field_values());
        render(&Fragment::SingleParagraphMessage.segments(), &values)
    }
}

pub struct ContentPostListItemTemplate {
    pub post_uuid: String,
    pub title: String,
    pub date: String,
    pub date_value: String,
    pub author_uuid: String,
    pub author_name: String,
    pub channel_handle: String,
    pub channel_name: String,
    pub channel_lang: String,
}

impl ContentPostListItemTemplate {
    pub open spec fn field_values(&self) -> Seq<Seq<char>> {
        seq![self.post_uuid@, self.title@, self.date@, self.date_value@, self.author_uuid@, self.author_name@, self.channel_handle@, self.channel_name@, self.channel_lang@]
    }

    pub fn render(&self) -> (r: String)
        ensures
            r@ == rendered(fragment_segments(Fragment::PostListItem), self.field_values()),
    {
        let values = vec![self.post_uuid.clone(), self.title.clone(), self.date.clone(), self.date_value.clone(), self.author_uuid.clone(), self.author_name.clone(), self.channel_handle.clone(), self.channel_name.clone(), self.channel_lang.clone()];
        assert(values.deep_view() =~= self.field_values());
        render(&Fragment::PostListItem.segments(), &values)
    }
}

pub struct ContentChannelListItemTemplate {
    pub channel_handle: String,
    pub channel_name: String,
    pub channel_lang: String,
}

impl ContentChannelListItemTemplate {
    pub open spec fn field_values(&self) -> Seq<Seq<char>> {
        seq![self.channel_handle@, self.channel_name@, self.channel_lang@]
    }

    pub fn render(&self) -> (r: String)
        ensures
            r@ == rendered(fragment_segments(Fragment::ChannelListItem), self.field_values()),
    {
        let values = vec![self.channel_handle.clone(), self.channel_name.clone(), self.channel_lang.clone()];
        assert(values.deep_view() =~= self.field_values());
        render(&Fragment::ChannelListItem.segments(), &values)
    }
}

pub struct ContentChannelTemplate {
    pub channel_handle: String,
    pub channel_name: String,
    pub channel_lang: String,
    pub channel_description_html: String,
    pub channel_date: String,
    pub channel_date_value: String,
    pub post_list_html: String,
}

impl ContentChannelTemplate {
    pub open spec fn field_values(&self) -> Seq<Seq<char>> {
        seq![self.channel_handle@, self.channel_name@, self.channel_lang@, self.channel_description_html@, self.channel_date@, self.channel_date_value@, self.post_list_html@]
    }

    pub fn render(&self) -> (r: String)
        ensures
            r@ == rendered(fragment_segments(Fragment::Channel), self.field_values()),
    {
        let values = vec![self.channel_handle.clone(), self.channel_name.clone(), self.channel_lang.clone(), self.channel_description_html.clone(), self.channel_date.clone(), self.channel_date_value.clone(), self.post_list_html.clone()];
        assert(values.deep_view() =~= self.field_values());
        render(&Fragment::Channel.segments(), &values)
    }
}

pub struct ContentPostTemplate {
    pub post_uuid: String,
    pub title: String,
    pub date: String,
    pub date_value: String,
    pub author_uuid: String,
    pub author_name: String,
    pub channel_handle: String,
    pub channel_name: String,
    pub channel_lang: String,
    pub tag_list_html: String,
    pub content_html: String,
}

impl ContentPostTemplate {
    pub open spec fn field_values(&self) -> Seq<Seq<char>> {
        seq![self.post_uuid@, self.title@, self.date@, self.date_value@, self.author_uuid@, self.author_name@, self.channel_handle@, self.channel_name@, self.channel_lang@, self.tag_list_html@, self.content_html@]
    }

    pub fn render(&self) -> (r: String)
        ensures
            r@ == rendered(fragment_segments(Fragment::Post), self.field_values()),
    {
        let values = vec![self.post_uuid.clone(), self.title.clone(), self.date.clone(), self.date_value.clone(), self.author_uuid.clone(), self.author_name.clone(), self.channel_handle.clone(), self.channel_name.clone(), self.channel_lang.clone(), self.tag_list_html.clone(), self.content_html.clone()];
        assert(values.deep_view() =~= self.field_values());
        render(&Fragment::Post.segments(), &values)
    }
}

pub struct ContentAuthorListItemTemplate {
    pub author_uuid: String,
    pub author_name: String,
}

impl ContentAuthorListItemTemplate {
    pub open spec fn field_values(&self) -> Seq<Seq<char>> {
        seq![self.author_uuid@, self.author_name@]
    }

    pub fn render(&self) -> (r: String)
        ensures
            r@ == rendered(fragment_segments(Fragment::AuthorListItem), self.field_values()),
    {
        let values = vec![self.author_uuid.clone(), self.author_name.clone()];
        assert(values.deep_view() =~= self.field_values());
        render(&Fragment::AuthorListItem.segments(), &values)
    }
}

pub struct ContentAuthorTemplate {
    pub author_uuid: String,
    pub author_name: String,
    pub author_date: String,
    pub author_date_value: String,
    pub author_description_html: String,
    pub post_list_html: String,
}

impl ContentAuthorTemplate {
    pub open spec fn field_values(&self) -> Seq<Seq<char>> {
        seq![self.author_uuid@, self.author_name@, self.author_date@, self.author_date_value@, self.author_description_html@, self.post_list_html@]
    }

    pub fn render(&self) -> (r: String)
        ensures
            r@ == rendered(fragment_segments(Fragment::Author), self.field_values()),
    {
        let values = vec![self.author_uuid.clone(), self.author_name.clone(), self.author_date.clone(), self.author_date_value.clone(), self.author_description_html.clone(), self.post_list_html.clone()];
        assert(values.deep_view() =~= self.field_values());
        render(&Fragment::Author.segments(), &values)
    }
}

pub struct ContentTagListItemTemplate {
    pub tag_name: String,
    pub tag_name_urlencoded: String,
}

impl ContentTagListItemTemplate {
    pub open spec fn field_values(&self) -> Seq<Seq<char>> {
        seq![self.tag_name@, self.tag_name_urlencoded@]
    }

    pub fn render(&self) -> (r: String)
        ensures
            r@ == rendered(fragment_segments(Fragment::TagListItem), self.field_values()),
    {
        let values = vec![self.tag_name.clone(), self.tag_name_urlencoded.clone()];
        assert(values.deep_view() =~= self.field_values());
        render(&Fragment::TagListItem.segments(), &values)
    }
}

pub struct ContentTagTemplate {
    pub tag_name: String,
    pub tag_name_urlencoded: String,
    pub post_list_html: String,
}

impl ContentTagTemplate {
    pub open spec fn field_values(&self) -> Seq<Seq<char>> {
        seq![self.tag_name@, self.tag_name_urlencoded@, self.post_list_html@]
    }

    pub fn render(&self) -> (r: String)
        ensures
            r@ == rendered(fragment_segments(Fragment::Tag), self.field_values()),
    {
        let values = vec![self.tag_name.clone(), self.tag_name_urlencoded.clone(), self.post_list_html.clone()];
        assert(values.deep_view() =~= self.field_values());
        render(&Fragment::Tag.segments(), &values)
    }
}

/// Every fragment keeps the markup of its skeleton whatever its fields hold:
/// written from any values, it is its skeleton's sequence of pieces with the
/// same markup pieces in the same places, where only the field pieces, empty in
/// the skeleton, differ; a text field's piece holds no `<`, `>`, `"` or `'`.
pub proof fn lemma_fragment_keeps_skeleton(f: Fragment, values: Seq<Seq<char>>)
    requires
        values.len() == fragment_field_count(f),
    ensures
        skeleton(f) == rendered(fragment_segments(f), blank_values(values.len())),
        rendered(fragment_segments(f), values) == joined(
            pieces(fragment_segments(f), values),
        ),
        skeleton(f) == joined(pieces(fragment_segments(f), blank_values(values.len()))),
        pieces(fragment_segments(f), values).len() == pieces(
            fragment_segments(f),
            blank_values(values.len()),
        ).len(),
        forall|k: int|
            0 <= k < fragment_segments(f).len() ==> match #[trigger] fragment_segments(f)[k] {
                SegmentView::Markup(m) => pieces(fragment_segments(f), values)[k] == m && pieces(
                    fragment_segments(f),
                    blank_values(values.len()),
                )[k] == m,
                SegmentView::Text(_) => pieces(fragment_segments(f), blank_values(values.len()))[k].len()
                    == 0 && forall|j: int|
                    0 <= j < pieces(fragment_segments(f), values)[k].len() ==> !is_markup_char(
                        #[trigger] pieces(fragment_segments(f), values)[k][j],
                    ),
                SegmentView::Html(_) => pieces(fragment_segments(f), blank_values(values.len()))[k].len()
                    == 0,
            },
{
    assert(slots_within(fragment_segments(f), fragment_field_count(f)));
    lemma_skeleton_shape(fragment_segments(f), values);
}

} // verus!
