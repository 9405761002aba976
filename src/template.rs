//! Navigation, the registry of content fragments, and the page around them.

use vstd::prelude::*;

use crate::config::Config;
use crate::error_reporting::PageError;
use crate::fragment::{
    fragment_id, fragment_segments, skeleton, ContentTagListItemTemplate, ContentTagTemplate,
    Fragment,
};
use crate::html::{blank_values, render, rendered};

verus! {

/// A link in the header or footer navigation.
#[derive(Debug, Clone)]
pub struct NavigationItem {
    /// Relative or absolute URL.
    pub url: String,
    /// Link text.
    pub text: String,
}

pub open spec fn nav_view(v: Seq<NavigationItem>) -> Seq<(Seq<char>, Seq<char>)> {
    v.map_values(|n: NavigationItem| (n.url@, n.text@))
}

/// What the url crate makes of `input` resolved against `base`, written out:
/// none where `base` does not parse or `input` does not resolve.
pub uninterp spec fn joined_url(base: Seq<char>, input: Seq<char>) -> Option<Seq<char>>;

/// What urlencoding writes for a text: each UTF-8 byte percent-encoded but
/// ASCII letters, digits, `-`, `_`, `.` and `~`.
pub uninterp spec fn url_encoded(s: Seq<char>) -> Seq<char>;

/// Relies on url's `Url::parse` and `Url::join`, and its serialisation: the
/// result depends on the two texts alone.
#[verifier::external_body]
pub(crate) fn join_url(base: &str, input: &str) -> (r: Option<String>)
    ensures
        match r {
            Some(s) => joined_url(base@, input@) == Some(s@),
            None => joined_url(base@, input@) is None,
        },
{
    match url::Url::parse(base) {
        Ok(b) => match b.join(input) {
            Ok(u) => Some(u.to_string()),
            Err(_) => None,
        },
        Err(_) => None,
    }
}

/// Relies on urlencoding::encode, which keeps an empty text empty.
#[verifier::external_body]
fn url_encode(s: &str) -> (r: String)
    ensures
        r@ == url_encoded(s@),
        s@.len() == 0 ==> r@.len() == 0,
{
    urlencoding::encode(s).into_owned()
}

impl ContentTagListItemTemplate {
    pub fn new(tag_name: &str) -> (r: Self)
        ensures
            r.tag_name@ == tag_name@,
            r.tag_name_urlencoded@ == url_encoded(tag_name@),
    {
        ContentTagListItemTemplate {
            tag_name: tag_name.to_string(),
            tag_name_urlencoded: url_encode(tag_name),
        }
    }
}

impl ContentTagTemplate {
    pub fn new(tag_name: &str, post_list_html: &str) -> (r: Self)
        ensures
            r.tag_name@ == tag_name@,
            r.tag_name_urlencoded@ == url_encoded(tag_name@),
            r.post_list_html@ == post_list_html@,
    {
        ContentTagTemplate {
            tag_name: tag_name.to_string(),
            tag_name_urlencoded: url_encode(tag_name),
            post_list_html: post_list_html.to_string(),
        }
    }
}

/// A content fragment as client-side code receives it, in a `<template>` tag.
#[derive(Debug, Clone)]
pub struct ContentTemplateItem {
    /// The `template-*` id of the tag.
    pub template_id: String,
    /// The fragment's markup.
    pub html: String,
}

pub open spec fn template_item_id(id: Seq<char>) -> Seq<char> {
    "template-"@ + id
}

impl ContentTemplateItem {
    pub fn new(template_id: &str, html: &str) -> (r: Self)
        ensures
            r.template_id@ == template_item_id(template_id@),
            r.html@ == html@,
    {
        let mut id = "template-".to_string();
        id.append(template_id);
        ContentTemplateItem { template_id: id, html: html.to_string() }
    }

    /// One item for each pair of a fragment name and its markup, in order.
    pub fn new_map(pairs: Vec<(String, String)>) -> (r: Vec<Self>)
        ensures
            r@.len() == pairs@.len(),
            forall|k: int|
                0 <= k < r@.len() ==> (#[trigger] r@[k]).template_id@ == template_item_id(
                    pairs@[k].0@,
                ) && r@[k].html@ == pairs@[k].1@,
    {
        let mut out: Vec<Self> = Vec::new();
        let mut k: usize = 0;
        while k < pairs.len()
            invariant
                k <= pairs@.len(),
                out@.len() == k,
                forall|j: int|
                    0 <= j < k ==> (#[trigger] out@[j]).template_id@ == template_item_id(
                        pairs@[j].0@,
                    ) && out@[j].html@ == pairs@[j].1@,
            decreases pairs@.len() - k,
        {
            out.push(ContentTemplateItem::new(pairs[k].0.as_str(), pairs[k].1.as_str()));
            k = k + 1;
        }
        out
    }
}

/// The content fragments that client-side code renders, in registry order.
pub open spec fn registry() -> Seq<Fragment> {
    seq![
        Fragment::MetaPage,
        Fragment::PostList,
        Fragment::MetaPageListItem,
        Fragment::SingleParagraphMessage,
        Fragment::PostListItem,
        Fragment::ChannelListItem,
        Fragment::Channel,
        Fragment::Post,
        Fragment::AuthorListItem,
        Fragment::Author,
        Fragment::TagListItem,
        Fragment::Tag,
        Fragment::Invites,
    ]
}

fn registry_fragments() -> (r: Vec<Fragment>)
    ensures
        r@ == registry(),
{
    let r = vec![
        Fragment::MetaPage,
        Fragment::PostList,
        Fragment::MetaPageListItem,
        Fragment::SingleParagraphMessage,
        Fragment::PostListItem,
        Fragment::ChannelListItem,
        Fragment::Channel,
        Fragment::Post,
        Fragment::AuthorListItem,
        Fragment::Author,
        Fragment::TagListItem,
        Fragment::Tag,
        Fragment::Invites,
    ];
    assert(r@ =~= registry());
    r
}

fn blank_strings(n: usize) -> (r: Vec<String>)
    ensures
        r@.len() == n,
        r.deep_view() == blank_values(n as nat),
{
    let mut r: Vec<String> = Vec::new();
    let mut k: usize = 0;
    while k < n
        invariant
            k <= n,
            r@.len() == k,
            forall|j: int| 0 <= j < k ==> (#[trigger] r@[j])@ == Seq::<char>::empty(),
        decreases n - k,
    {
        r.push(String::new());
        k = k + 1;
    }
    assert(r.deep_view() =~= blank_values(n as nat));
    r
}

/// Each content fragment with every field empty, under its `template-*` id:
/// the same markup that pages are written with, for client-side rendering.
pub fn content_templates() -> (r: Vec<ContentTemplateItem>)
    ensures
        r@.len() == registry().len(),
        forall|k: int|
            0 <= k < r@.len() ==> (#[trigger] r@[k]).template_id@ == template_item_id(
                fragment_id(registry()[k]),
            ) && r@[k].html@ == skeleton(registry()[k]),
{
    let fragments = registry_fragments();
    let mut pairs: Vec<(String, String)> = Vec::new();
    let mut k: usize = 0;
    while k < fragments.len()
        invariant
            k <= fragments@.len(),
            fragments@ == registry(),
            pairs@.len() == k,
            forall|j: int|
                0 <= j < k ==> (#[trigger] pairs@[j]).0@ == fragment_id(registry()[j])
                    && pairs@[j].1@ == skeleton(registry()[j]),
        decreases fragments@.len() - k,
    {
        let f = fragments[k];
        let blanks = blank_strings(f.field_count());
        let html = render(&f.segments(), &blanks);
        pairs.push((f.id().to_string(), html));
        k = k + 1;
    }
    ContentTemplateItem::new_map(pairs)
}

/// The text of fragment `f` once for each pair of field values, in order.
pub open spec fn repeated(f: Fragment, items: Seq<(Seq<char>, Seq<char>)>) -> Seq<char>
    decreases items.len(),
{
    if items.len() == 0 {
        Seq::empty()
    } else {
        repeated(f, items.drop_last()) + rendered(
            fragment_segments(f),
            seq![items.last().0, items.last().1],
        )
    }
}

/// The registry as pairs of a `template-*` id and a skeleton.
pub open spec fn registry_pairs() -> Seq<(Seq<char>, Seq<char>)> {
    registry().map_values(|f: Fragment| (template_item_id(fragment_id(f)), skeleton(f)))
}

fn navigation_html(items: &Vec<NavigationItem>) -> (r: String)
    ensures
        r@ == repeated(Fragment::NavigationLink, nav_view(items@)),
{
    let ghost all = nav_view(items@);
    let mut out = String::new();
    let mut k: usize = 0;
    while k < items.len()
        invariant
            k <= items@.len(),
            all == nav_view(items@),
            out@ == repeated(Fragment::NavigationLink, all.subrange(0, k as int)),
        decreases items@.len() - k,
    {
        let values = vec![items[k].url.clone(), items[k].text.clone()];
        let piece = render(&Fragment::NavigationLink.segments(), &values);
        out.append(piece.as_str());
        assert(values.deep_view() =~= seq![all[k as int].0, all[k as int].1]);
        assert(all.subrange(0, k as int + 1).drop_last() =~= all.subrange(0, k as int));
        k = k + 1;
    }
    assert(all.subrange(0, items@.len() as int) =~= all);
    out
}

fn template_holders_html(items: &Vec<ContentTemplateItem>) -> (r: String)
    ensures
        r@ == repeated(
            Fragment::TemplateHolder,
            items@.map_values(|i: ContentTemplateItem| (i.template_id@, i.html@)),
        ),
{
    let ghost all = items@.map_values(|i: ContentTemplateItem| (i.template_id@, i.html@));
    let mut out = String::new();
    let mut k: usize = 0;
    while k < items.len()
        invariant
            k <= items@.len(),
            all == items@.map_values(|i: ContentTemplateItem| (i.template_id@, i.html@)),
            out@ == repeated(Fragment::TemplateHolder, all.subrange(0, k as int)),
        decreases items@.len() - k,
    {
        let values = vec![items[k].template_id.clone(), items[k].html.clone()];
        let piece = render(&Fragment::TemplateHolder.segments(), &values);
        out.append(piece.as_str());
        assert(values.deep_view() =~= seq![all[k as int].0, all[k as int].1]);
        assert(all.subrange(0, k as int + 1).drop_last() =~= all.subrange(0, k as int));
        k = k + 1;
    }
    assert(all.subrange(0, items@.len() as int) =~= all);
    out
}

fn copy_navigation(v: &Vec<NavigationItem>) -> (r: Vec<NavigationItem>)
    ensures
        r@ == v@,
{
    let mut out: Vec<NavigationItem> = Vec::new();
    let mut k: usize = 0;
    while k < v.len()
        invariant
            k <= v@.len(),
            out@ == v@.subrange(0, k as int),
        decreases v@.len() - k,
    {
        out.push(NavigationItem { url: v[k].url.clone(), text: v[k].text.clone() });
        assert(out@ =~= v@.subrange(0, k as int + 1));
        k = k + 1;
    }
    assert(v@.subrange(0, v@.len() as int) =~= v@);
    out
}

/// The page around a content fragment: branding, navigation, title, canonical
/// URL and social image.
pub struct BaseTemplate {
    /// Absolute URL of the page.
    pub url: String,
    /// The heading on the page.
    pub title: String,
    /// The full title of the document.
    pub page_title: String,
    pub site_name: String,
    pub site_description: String,
    pub site_copyright: String,
    pub header_navigation: Vec<NavigationItem>,
    pub footer_navigation: Vec<NavigationItem>,
    /// Absolute URL of the social image.
    pub og_image: String,
    pub content_html: String,
}

/// The title given to a page, empty where none is.
pub open spec fn given_title(title: Option<&str>) -> Seq<char> {
    match title {
        Some(t) => t@,
        None => Seq::empty(),
    }
}

/// The document title: `<title> - <site name>`, or the site name alone.
pub open spec fn page_title_of(title: Seq<char>, site_name: Seq<char>) -> Seq<char> {
    if title.len() == 0 {
        site_name
    } else {
        title + " - "@ + site_name
    }
}

/// The heading: the title, or the site name where there is none.
pub open spec fn heading_of(title: Seq<char>, site_name: Seq<char>) -> Seq<char> {
    if title.len() == 0 {
        site_name
    } else {
        title
    }
}

/// Whether a page at `url` can be composed under `config`: the URL and the
/// social image both resolve against the top URL.
pub open spec fn page_resolves(config: Config, url: Seq<char>) -> bool {
    joined_url(config.top_url@, url) is Some && joined_url(config.top_url@, config.og_image@) is Some
}

/// The page template that `try_new` fills from its arguments.
pub open spec fn base_for(
    b: BaseTemplate,
    url: Seq<char>,
    title: Seq<char>,
    content_html: Seq<char>,
    config: Config,
) -> bool {
    &&& joined_url(config.top_url@, url) == Some(b.url@)
    &&& joined_url(config.top_url@, config.og_image@) == Some(b.og_image@)
    &&& b.title@ == heading_of(title, config.site_name@)
    &&& b.page_title@ == page_title_of(title, config.site_name@)
    &&& b.site_name@ == config.site_name@
    &&& b.site_description@ == config.site_description@
    &&& b.site_copyright@ == config.site_copyright@
    &&& b.header_navigation@ == config.header_navigation@
    &&& b.footer_navigation@ == config.footer_navigation@
    &&& b.content_html@ == content_html
}

/// The text of a whole page.
pub open spec fn base_page(b: BaseTemplate) -> Seq<char> {
    rendered(
        fragment_segments(Fragment::BaseHead),
        seq![b.page_title@, b.site_description@, b.url@, b.site_name@, b.og_image@],
    ) + repeated(Fragment::NavigationLink, nav_view(b.header_navigation@)) + rendered(
        fragment_segments(Fragment::BaseMain),
        seq![b.title@, b.content_html@],
    ) + repeated(Fragment::NavigationLink, nav_view(b.footer_navigation@)) + rendered(
        fragment_segments(Fragment::BaseFoot),
        seq![b.site_copyright@],
    ) + repeated(Fragment::TemplateHolder, registry_pairs()) + rendered(
        fragment_segments(Fragment::BaseEnd),
        seq![],
    )
}

impl BaseTemplate {
    /// The page at `url` around `content_html`; fails where the URL or the
    /// social image does not resolve against the site's top URL.
    pub fn try_new(url: &str, title: Option<&str>, content_html: &str, config: &Config) -> (r:
        Result<Self, PageError>)
        ensures
            r is Ok <==> page_resolves(*config, url@),
            r is Err ==> r == Err::<Self, PageError>(PageError::InvalidUrl),
            r matches Ok(b) ==> base_for(b, url@, given_title(title), content_html@, *config),
    {
        let t: &str = match title {
            Some(t) => t,
            None => "",
        };
        assert(t@ == given_title(title)) by {
            reveal_strlit("");
        }
        let page_url = match join_url(config.top_url.as_str(), url) {
            Some(u) => u,
            None => {
                return Err(PageError::InvalidUrl);
            },
        };
        let og_image = match join_url(config.top_url.as_str(), config.og_image.as_str()) {
            Some(u) => u,
            None => {
                return Err(PageError::InvalidUrl);
            },
        };
        let empty = t.is_empty();
        let page_title = if empty {
            config.site_name.clone()
        } else {
            let mut p = t.to_string();
            p.append(" - ");
            p.append(config.site_name.as_str());
            p
        };
        let heading = if empty {
            config.site_name.clone()
        } else {
            t.to_string()
        };
        Ok(BaseTemplate {
            url: page_url,
            title: heading,
            page_title,
            site_name: config.site_name.clone(),
            site_description: config.site_description.clone(),
            site_copyright: config.site_copyright.clone(),
            header_navigation: copy_navigation(&config.header_navigation),
            footer_navigation: copy_navigation(&config.footer_navigation),
            og_image,
            content_html: content_html.to_string(),
        })
    }

    /// The whole page.
    pub fn render(&self) -> (r: String)
        ensures
            r@ == base_page(*self),
    {
        let head = vec![
            self.page_title.clone(),
            self.site_description.clone(),
            self.url.clone(),
            self.site_name.clone(),
            self.og_image.clone(),
        ];
        let main = vec![self.title.clone(), self.content_html.clone()];
        let foot = vec![self.site_copyright.clone()];
        let end: Vec<String> = Vec::new();
        let templates = content_templates();
        let mut out = render(&Fragment::BaseHead.segments(), &head);
        out.append(navigation_html(&self.header_navigation).as_str());
        out.append(render(&Fragment::BaseMain.segments(), &main).as_str());
        out.append(navigation_html(&self.footer_navigation).as_str());
        out.append(render(&Fragment::BaseFoot.segments(), &foot).as_str());
        out.append(template_holders_html(&templates).as_str());
        out.append(render(&Fragment::BaseEnd.segments(), &end).as_str());
        assert(head.deep_view() =~= seq![self.page_title@, self.site_description@, self.url@, self.site_name@, self.og_image@]);
        assert(main.deep_view() =~= seq![self.title@, self.content_html@]);
        assert(foot.deep_view() =~= seq![self.site_copyright@]);
        assert(end.deep_view() =~= Seq::<Seq<char>>::empty());
        assert(templates@.map_values(|i: ContentTemplateItem| (i.template_id@, i.html@)) =~= registry_pairs());
        out
    }
}

} // verus!
