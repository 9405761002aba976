//! Each route's page, composed from the records fetched for it.

use vstd::prelude::*;

use crate::config::{effective_timezone, Config};
use crate::error_reporting::PageError;
use crate::fragment::{
    fragment_segments, ContentAuthorListItemTemplate, ContentAuthorTemplate,
    ContentChannelListItemTemplate, ContentChannelTemplate, ContentMetaPageListItemTemplate,
    ContentMetaPageTemplate, ContentPostListItemTemplate, ContentPostListTemplate,
    ContentPostTemplate, ContentSingleParagraphMessageTemplate, ContentTagListItemTemplate,
    ContentTagTemplate, Fragment,
};
use crate::html::rendered;
use crate::markdown::{markdown_html, to_html};
use crate::model::{
    AuthorInfo, AuthorSummary, ChannelInfo, ChannelSummary, MetaPage, MetaPageListItem, PostInfo,
    PostSummary, TagListItem,
};
use crate::template::{
    given_title, heading_of, joined_url, nav_view, page_resolves, page_title_of, registry_pairs,
    repeated, url_encoded, BaseTemplate,
};
use crate::unix_time::{timezone_known, utc_datetime_text, zoned_datetime_text, UnixTime, MAX_TIMESTAMP};

verus! {

pub open spec fn res_view(r: Result<String, PageError>) -> Result<Seq<char>, PageError> {
    match r {
        Ok(s) => Ok(s@),
        Err(e) => Err(e),
    }
}

/// The page at `url` headed `title` (empty for none) around `content`.
pub open spec fn composed_page(config: Config, url: Seq<char>, title: Seq<char>, content: Seq<char>) -> Result<
    Seq<char>,
    PageError,
> {
    if page_resolves(config, url) {
        Ok(
            rendered(
                fragment_segments(Fragment::BaseHead),
                seq![
                    page_title_of(title, config.site_name@),
                    config.site_description@,
                    joined_url(config.top_url@, url).unwrap(),
                    config.site_name@,
                    joined_url(config.top_url@, config.og_image@).unwrap(),
                ],
            ) + repeated(Fragment::NavigationLink, nav_view(config.header_navigation@)) + rendered(
                fragment_segments(Fragment::BaseMain),
                seq![heading_of(title, config.site_name@), content],
            ) + repeated(Fragment::NavigationLink, nav_view(config.footer_navigation@)) + rendered(
                fragment_segments(Fragment::BaseFoot),
                seq![config.site_copyright@],
            ) + repeated(Fragment::TemplateHolder, registry_pairs()) + rendered(
                fragment_segments(Fragment::BaseEnd),
                seq![],
            ),
        )
    } else {
        Err(PageError::InvalidUrl)
    }
}

/// Puts `content` in the page at `url`.
pub fn compose_page(url: &str, title: Option<&str>, content: &str, config: &Config) -> (r: Result<
    String,
    PageError,
>)
    ensures
        res_view(r) == composed_page(*config, url@, given_title(title), content@),
{
    match BaseTemplate::try_new(url, title, content, config) {
        Ok(b) => Ok(b.render()),
        Err(e) => Err(e),
    }
}

pub open spec fn message_html(message: Seq<char>) -> Seq<char> {
    rendered(fragment_segments(Fragment::SingleParagraphMessage), seq![message])
}

/// The items of a list, or the message where the list is empty.
pub open spec fn list_or_message(is_empty: bool, message: Seq<char>, items: Seq<char>) -> Seq<char> {
    if is_empty {
        message_html(message)
    } else {
        items
    }
}

pub open spec fn post_list_html(title: Seq<char>, items: Seq<char>) -> Seq<char> {
    rendered(fragment_segments(Fragment::PostList), seq![title, items])
}

fn list_or_message_html(is_empty: bool, message: &str, items: String) -> (r: String)
    ensures
        r@ == list_or_message(is_empty, message@, items@),
{
    if is_empty {
        let m = ContentSingleParagraphMessageTemplate { message: message.to_string() };
        m.render()
    } else {
        items
    }
}

fn post_list(title: &str, items: &str) -> (r: String)
    ensures
        r@ == post_list_html(title@, items@),
{
    let t = ContentPostListTemplate {
        post_list_title: title.to_string(),
        post_list_html: items.to_string(),
    };
    t.render()
}

/// The fixed value where a page gives one, else the record's own.
pub open spec fn shown<T>(fixed: Option<T>, own: Option<T>) -> Option<T> {
    match fixed {
        Some(x) => Some(x),
        None => own,
    }
}

/// A post in a listing; its author and channel are the ones that the page
/// fixes, or else the post's own.
pub open spec fn post_item(
    p: PostSummary,
    author: Option<AuthorSummary>,
    channel: Option<ChannelSummary>,
    zone: Seq<char>,
) -> Result<Seq<char>, PageError> {
    match shown(author, p.author) {
        None => Err(PageError::MissingAuthor),
        Some(a) => match shown(channel, p.channel) {
            None => Err(PageError::MissingChannel),
            Some(c) => if p.revision_date > MAX_TIMESTAMP {
                Err(PageError::TimestampOutOfRange)
            } else {
                Ok(
                    rendered(
                        fragment_segments(Fragment::PostListItem),
                        seq![
                            p.post_uuid@,
                            p.title@,
                            zoned_datetime_text(p.revision_date as int, zone),
                            utc_datetime_text(p.revision_date as int),
                            a.uuid@,
                            a.name@,
                            c.handle@,
                            c.name@,
                            c.lang@,
                        ],
                    ),
                )
            },
        },
    }
}

/// The posts of a listing, in order; the first post that cannot be shown
/// decides the error.
pub open spec fn post_items(
    ps: Seq<PostSummary>,
    author: Option<AuthorSummary>,
    channel: Option<ChannelSummary>,
    zone: Seq<char>,
) -> Result<Seq<char>, PageError>
    decreases ps.len(),
{
    if ps.len() == 0 {
        Ok(Seq::empty())
    } else {
        match post_item(ps[0], author, channel, zone) {
            Err(e) => Err(e),
            Ok(h) => match post_items(ps.drop_first(), author, channel, zone) {
                Ok(t) => Ok(h + t),
                Err(e) => Err(e),
            },
        }
    }
}

fn post_item_html(
    p: &PostSummary,
    author: &Option<AuthorSummary>,
    channel: &Option<ChannelSummary>,
    zone: &str,
) -> (r: Result<String, PageError>)
    requires
        timezone_known(zone@),
    ensures
        res_view(r) == post_item(*p, *author, *channel, zone@),
{
    let a = match author {
        Some(a) => a,
        None => match &p.author {
            Some(a) => a,
            None => {
                return Err(PageError::MissingAuthor);
            },
        },
    };
    let c = match channel {
        Some(c) => c,
        None => match &p.channel {
            Some(c) => c,
            None => {
                return Err(PageError::MissingChannel);
            },
        },
    };
    if p.revision_date > MAX_TIMESTAMP {
        return Err(PageError::TimestampOutOfRange);
    }
    let t = UnixTime::new(p.revision_date);
    let item = ContentPostListItemTemplate {
        post_uuid: p.post_uuid.clone(),
        title: p.title.clone(),
        date: t.default_format_in_timezone(zone),
        date_value: t.to_utc_datetime_string(),
        author_uuid: a.uuid.clone(),
        author_name: a.name.clone(),
        channel_handle: c.handle.clone(),
        channel_name: c.name.clone(),
        channel_lang: c.lang.clone(),
    };
    Ok(item.render())
}

fn post_items_html(
    ps: &Vec<PostSummary>,
    author: &Option<AuthorSummary>,
    channel: &Option<ChannelSummary>,
    zone: &str,
) -> (r: Result<String, PageError>)
    requires
        timezone_known(zone@),
    ensures
        res_view(r) == post_items(ps@, *author, *channel, zone@),
{
    let ghost all = post_items(ps@, *author, *channel, zone@);
    let mut out = String::new();
    let mut k: usize = 0;
    assert(ps@.subrange(0, ps@.len() as int) =~= ps@);
    proof {
        if let Ok(t) = all {
            assert(out@ + t =~= t);
        }
    }
    while k < ps.len()
        invariant
            k <= ps@.len(),
            timezone_known(zone@),
            all == post_items(ps@, *author, *channel, zone@),
            match post_items(ps@.subrange(k as int, ps@.len() as int), *author, *channel, zone@) {
                Ok(t) => all == Ok::<Seq<char>, PageError>(out@ + t),
                Err(e) => all == Err::<Seq<char>, PageError>(e),
            },
        decreases ps@.len() - k,
    {
        let ghost rest = ps@.subrange(k as int, ps@.len() as int);
        assert(rest.drop_first() =~= ps@.subrange(k as int + 1, ps@.len() as int));
        assert(rest[0] == ps@[k as int]);
        match post_item_html(&ps[k], author, channel, zone) {
            Ok(h) => {
                let ghost before = out@;
                out.append(h.as_str());
                proof {
                    if let Ok(t) = post_items(rest.drop_first(), *author, *channel, zone@) {
                        assert(before + (h@ + t) =~= out@ + t);
                    }
                }
            },
            Err(e) => {
                return Err(e);
            },
        }
        k = k + 1;
    }
    assert(ps@.subrange(k as int, ps@.len() as int) =~= Seq::<PostSummary>::empty());
    assert(out@ + Seq::<char>::empty() =~= out@);
    Ok(out)
}

pub open spec fn meta_item(m: MetaPageListItem, zone: Seq<char>) -> Result<Seq<char>, PageError> {
    if m.updated_date > MAX_TIMESTAMP {
        Err(PageError::TimestampOutOfRange)
    } else {
        Ok(
            rendered(
                fragment_segments(Fragment::MetaPageListItem),
                seq![
                    m.page_name@,
                    m.title@,
                    zoned_datetime_text(m.updated_date as int, zone),
                    utc_datetime_text(m.updated_date as int),
                ],
            ),
        )
    }
}

pub open spec fn meta_items(ms: Seq<MetaPageListItem>, zone: Seq<char>) -> Result<Seq<char>, PageError>
    decreases ms.len(),
{
    if ms.len() == 0 {
        Ok(Seq::empty())
    } else {
        match meta_item(ms[0], zone) {
            Err(e) => Err(e),
            Ok(h) => match meta_items(ms.drop_first(), zone) {
                Ok(t) => Ok(h + t),
                Err(e) => Err(e),
            },
        }
    }
}

fn meta_items_html(ms: &Vec<MetaPageListItem>, zone: &str) -> (r: Result<String, PageError>)
    requires
        timezone_known(zone@),
    ensures
        res_view(r) == meta_items(ms@, zone@),
{
    let ghost all = meta_items(ms@, zone@);
    let mut out = String::new();
    let mut k: usize = 0;
    assert(ms@.subrange(0, ms@.len() as int) =~= ms@);
    proof {
        if let Ok(t) = all {
            assert(out@ + t =~= t);
        }
    }
    while k < ms.len()
        invariant
            k <= ms@.len(),
            timezone_known(zone@),
            all == meta_items(ms@, zone@),
            match meta_items(ms@.subrange(k as int, ms@.len() as int), zone@) {
                Ok(t) => all == Ok::<Seq<char>, PageError>(out@ + t),
                Err(e) => all == Err::<Seq<char>, PageError>(e),
            },
        decreases ms@.len() - k,
    {
        let ghost rest = ms@.subrange(k as int, ms@.len() as int);
        assert(rest.drop_first() =~= ms@.subrange(k as int + 1, ms@.len() as int));
        assert(rest[0] == ms@[k as int]);
        let m = &ms[k];
        if m.updated_date > MAX_TIMESTAMP {
            return Err(PageError::TimestampOutOfRange);
        }
        let t = UnixTime::new(m.updated_date);
        let item = ContentMetaPageListItemTemplate {
            page_name: m.page_name.clone(),
            title: m.title.clone(),
            date: t.default_format_in_timezone(zone),
            date_value: t.to_utc_datetime_string(),
        };
        let h = item.render();
        let ghost before = out@;
        out.append(h.as_str());
        proof {
            if let Ok(t) = meta_items(rest.drop_first(), zone@) {
                assert(before + (h@ + t) =~= out@ + t);
            }
        }
        k = k + 1;
    }
    assert(ms@.subrange(k as int, ms@.len() as int) =~= Seq::<MetaPageListItem>::empty());
    assert(out@ + Seq::<char>::empty() =~= out@);
    Ok(out)
}

pub open spec fn channel_items(cs: Seq<ChannelSummary>) -> Seq<char>
    decreases cs.len(),
{
    if cs.len() == 0 {
        Seq::empty()
    } else {
        channel_items(cs.drop_last()) + rendered(
            fragment_segments(Fragment::ChannelListItem),
            seq![cs.last().handle@, cs.last().name@, cs.last().lang@],
        )
    }
}

fn channel_items_html(cs: &Vec<ChannelSummary>) -> (r: String)
    ensures
        r@ == channel_items(cs@),
{
    let mut out = String::new();
    let mut k: usize = 0;
    while k < cs.len()
        invariant
            k <= cs@.len(),
            out@ == channel_items(cs@.subrange(0, k as int)),
        decreases cs@.len() - k,
    {
        let c = &cs[k];
        let item = ContentChannelListItemTemplate {
            channel_handle: c.handle.clone(),
            channel_name: c.name.clone(),
            channel_lang: c.lang.clone(),
        };
        out.append(item.render().as_str());
        assert(cs@.subrange(0, k as int + 1).drop_last() =~= cs@.subrange(0, k as int));
        k = k + 1;
    }
    assert(cs@.subrange(0, cs@.len() as int) =~= cs@);
    out
}

pub open spec fn author_items(authors: Seq<AuthorSummary>) -> Seq<char>
    decreases authors.len(),
{
    if authors.len() == 0 {
        Seq::empty()
    } else {
        author_items(authors.drop_last()) + rendered(
            fragment_segments(Fragment::AuthorListItem),
            seq![authors.last().uuid@, authors.last().name@],
        )
    }
}

fn author_items_html(authors: &Vec<AuthorSummary>) -> (r: String)
    ensures
        r@ == author_items(authors@),
{
    let mut out = String::new();
    let mut k: usize = 0;
    while k < authors.len()
        invariant
            k <= authors@.len(),
            out@ == author_items(authors@.subrange(0, k as int)),
        decreases authors@.len() - k,
    {
        let a = &authors[k];
        let item = ContentAuthorListItemTemplate {
            author_uuid: a.uuid.clone(),
            author_name: a.name.clone(),
        };
        out.append(item.render().as_str());
        assert(authors@.subrange(0, k as int + 1).drop_last() =~= authors@.subrange(0, k as int));
        k = k + 1;
    }
    assert(authors@.subrange(0, authors@.len() as int) =~= authors@);
    out
}

pub open spec fn tag_link(tag_name: Seq<char>) -> Seq<char> {
    rendered(fragment_segments(Fragment::TagListItem), seq![tag_name, url_encoded(tag_name)])
}

pub open spec fn tag_items(tags: Seq<TagListItem>) -> Seq<char>
    decreases tags.len(),
{
    if tags.len() == 0 {
        Seq::empty()
    } else {
        tag_items(tags.drop_last()) + tag_link(tags.last().tag_name@)
    }
}

fn tag_items_html(tags: &Vec<TagListItem>) -> (r: String)
    ensures
        r@ == tag_items(tags@),
{
    let mut out = String::new();
    let mut k: usize = 0;
    while k < tags.len()
        invariant
            k <= tags@.len(),
            out@ == tag_items(tags@.subrange(0, k as int)),
        decreases tags@.len() - k,
    {
        let item = ContentTagListItemTemplate::new(tags[k].tag_name.as_str());
        out.append(item.render().as_str());
        assert(item.field_values() =~= seq![tags@[k as int].tag_name@, url_encoded(tags@[k as int].tag_name@)]);
        assert(tags@.subrange(0, k as int + 1).drop_last() =~= tags@.subrange(0, k as int));
        k = k + 1;
    }
    assert(tags@.subrange(0, tags@.len() as int) =~= tags@);
    out
}

/// A post's tags, one link each, a line break between two.
pub open spec fn tag_links(tags: Seq<String>) -> Seq<char>
    decreases tags.len(),
{
    if tags.len() == 0 {
        Seq::empty()
    } else if tags.len() == 1 {
        tag_link(tags[0]@)
    } else {
        tag_links(tags.drop_last()) + "\n"@ + tag_link(tags.last()@)
    }
}

fn tag_links_html(tags: &Vec<String>) -> (r: String)
    ensures
        r@ == tag_links(tags@),
{
    let mut out = String::new();
    let mut k: usize = 0;
    while k < tags.len()
        invariant
            k <= tags@.len(),
            out@ == tag_links(tags@.subrange(0, k as int)),
        decreases tags@.len() - k,
    {
        if k > 0 {
            out.append("\n");
        }
        let item = ContentTagListItemTemplate::new(tags[k].as_str());
        out.append(item.render().as_str());
        assert(item.field_values() =~= seq![tags@[k as int]@, url_encoded(tags@[k as int]@)]);
        assert(tags@.subrange(0, k as int + 1).drop_last() =~= tags@.subrange(0, k as int));
        k = k + 1;
    }
    assert(tags@.subrange(0, tags@.len() as int) =~= tags@);
    out
}

pub open spec fn summary_of_channel(c: ChannelInfo) -> ChannelSummary {
    ChannelSummary { uuid: c.uuid, handle: c.handle, name: c.name, lang: c.lang }
}

pub open spec fn summary_of_author(a: AuthorInfo) -> AuthorSummary {
    AuthorSummary { uuid: a.uuid, name: a.name }
}

pub open spec fn zone_of(config: Config) -> Seq<char> {
    effective_timezone(config.server_timezone@)
}

pub open spec fn not_found_text(config: Config, url: Seq<char>) -> Result<Seq<char>, PageError> {
    composed_page(config, url, "Not Found"@, "<h1>404: Not Found</h1>"@)
}

pub open spec fn javascript_required_text(config: Config, url: Seq<char>) -> Result<Seq<char>, PageError> {
    composed_page(
        config,
        url,
        "Loading"@,
        "<h1>Loading</h1><p>JavaScript is required to view this page.</p>"@,
    )
}

pub open spec fn root_text(config: Config, url: Seq<char>, posts: Seq<PostSummary>) -> Result<Seq<char>, PageError> {
    match post_items(posts, None, None, zone_of(config)) {
        Err(e) => Err(e),
        Ok(items) => composed_page(
            config,
            url,
            Seq::empty(),
            post_list_html(
                "Latest Posts"@,
                list_or_message(posts.len() == 0, "There is no post in this list."@, items),
            ),
        ),
    }
}

pub open spec fn meta_list_text(config: Config, url: Seq<char>, pages: Seq<MetaPageListItem>) -> Result<Seq<char>, PageError> {
    match meta_items(pages, zone_of(config)) {
        Err(e) => Err(e),
        Ok(items) => composed_page(
            config,
            url,
            "Meta Pages"@,
            post_list_html(
                "Meta Pages"@,
                list_or_message(pages.len() == 0, "There is no page in this list."@, items),
            ),
        ),
    }
}

pub open spec fn meta_page_text(config: Config, url: Seq<char>, m: MetaPage) -> Result<Seq<char>, PageError> {
    if m.updated_date > MAX_TIMESTAMP {
        Err(PageError::TimestampOutOfRange)
    } else {
        composed_page(
            config,
            url,
            m.title@,
            rendered(
                fragment_segments(Fragment::MetaPage),
                seq![
                    m.title@,
                    zoned_datetime_text(m.updated_date as int, zone_of(config)),
                    utc_datetime_text(m.updated_date as int),
                    markdown_html(m.text@),
                ],
            ),
        )
    }
}

pub open spec fn channel_list_text(config: Config, url: Seq<char>, channels: Seq<ChannelSummary>) -> Result<Seq<char>, PageError> {
    composed_page(
        config,
        url,
        "Channels"@,
        post_list_html(
            "Channels"@,
            list_or_message(
                channels.len() == 0,
                "There is no channel in this list."@,
                channel_items(channels),
            ),
        ),
    )
}

pub open spec fn channel_text(
    config: Config,
    url: Seq<char>,
    c: ChannelInfo,
    posts: Seq<PostSummary>,
) -> Result<Seq<char>, PageError> {
    match post_items(posts, None, Some(summary_of_channel(c)), zone_of(config)) {
        Err(e) => Err(e),
        Ok(items) => if c.created_date > MAX_TIMESTAMP {
            Err(PageError::TimestampOutOfRange)
        } else {
            composed_page(
                config,
                url,
                c.name@,
                rendered(
                    fragment_segments(Fragment::Channel),
                    seq![
                        c.handle@,
                        c.name@,
                        c.lang@,
                        markdown_html(c.description_text@),
                        zoned_datetime_text(c.created_date as int, zone_of(config)),
                        utc_datetime_text(c.created_date as int),
                        list_or_message(
                            posts.len() == 0,
                            "There is no channel in this list."@,
                            items,
                        ),
                    ],
                ),
            )
        },
    }
}

pub open spec fn post_text(config: Config, url: Seq<char>, p: PostInfo) -> Result<Seq<char>, PageError> {
    if p.revision_date > MAX_TIMESTAMP {
        Err(PageError::TimestampOutOfRange)
    } else {
        composed_page(
            config,
            url,
            p.title@,
            rendered(
                fragment_segments(Fragment::Post),
                seq![
                    p.post_uuid@,
                    p.title@,
                    zoned_datetime_text(p.revision_date as int, zone_of(config)),
                    utc_datetime_text(p.revision_date as int),
                    p.author.uuid@,
                    p.author.name@,
                    p.channel.handle@,
                    p.channel.name@,
                    p.channel.lang@,
                    tag_links(p.tags@),
                    markdown_html(p.revision_text@),
                ],
            ),
        )
    }
}

pub open spec fn author_list_text(config: Config, url: Seq<char>, authors: Seq<AuthorSummary>) -> Result<Seq<char>, PageError> {
    composed_page(
        config,
        url,
        "Authors"@,
        post_list_html(
            "Authors"@,
            list_or_message(
                authors.len() == 0,
                "There is no author in this list."@,
                author_items(authors),
            ),
        ),
    )
}

pub open spec fn author_text(
    config: Config,
    url: Seq<char>,
    a: AuthorInfo,
    posts: Seq<PostSummary>,
) -> Result<Seq<char>, PageError> {
    match post_items(posts, Some(summary_of_author(a)), None, zone_of(config)) {
        Err(e) => Err(e),
        Ok(items) => if a.created_date > MAX_TIMESTAMP {
            Err(PageError::TimestampOutOfRange)
        } else {
            composed_page(
                config,
                url,
                a.name@,
                rendered(
                    fragment_segments(Fragment::Author),
                    seq![
                        a.uuid@,
                        a.name@,
                        zoned_datetime_text(a.created_date as int, zone_of(config)),
                        utc_datetime_text(a.created_date as int),
                        markdown_html(a.description_text@),
                        list_or_message(posts.len() == 0, "There is no post in this list."@, items),
                    ],
                ),
            )
        },
    }
}

pub open spec fn tag_list_text(config: Config, url: Seq<char>, tags: Seq<TagListItem>) -> Result<Seq<char>, PageError> {
    composed_page(
        config,
        url,
        "Tags"@,
        post_list_html(
            "Tags"@,
            list_or_message(tags.len() == 0, "There is no tag in this list."@, tag_items(tags)),
        ),
    )
}

pub open spec fn tag_text(
    config: Config,
    url: Seq<char>,
    tag_name: Seq<char>,
    posts: Seq<PostSummary>,
) -> Result<Seq<char>, PageError> {
    match post_items(posts, None, None, zone_of(config)) {
        Err(e) => Err(e),
        Ok(items) => composed_page(
            config,
            url,
            "Tag: "@ + tag_name,
            rendered(
                fragment_segments(Fragment::Tag),
                seq![
                    tag_name,
                    url_encoded(tag_name),
                    list_or_message(posts.len() == 0, "There is no post in this list."@, items),
                ],
            ),
        ),
    }
}

/// The not-found page.
pub fn not_found_page(config: &Config, url: &str) -> (r: Result<String, PageError>)
    ensures
        res_view(r) == not_found_text(*config, url@),
{
    compose_page(url, Some("Not Found"), "<h1>404: Not Found</h1>", config)
}

/// The page of a route that only client-side code can show.
pub fn javascript_required_page(config: &Config, url: &str) -> (r: Result<String, PageError>)
    ensures
        res_view(r) == javascript_required_text(*config, url@),
{
    compose_page(
        url,
        Some("Loading"),
        "<h1>Loading</h1><p>JavaScript is required to view this page.</p>",
        config,
    )
}

/// The top page: the latest posts.
pub fn root_page(config: &Config, url: &str, posts: &Vec<PostSummary>) -> (r: Result<
    String,
    PageError,
>)
    ensures
        res_view(r) == root_text(*config, url@, posts@),
{
    let zone = config.server_timezone();
    let items = match post_items_html(posts, &None, &None, zone.as_str()) {
        Ok(h) => h,
        Err(e) => {
            return Err(e);
        },
    };
    let list = list_or_message_html(posts.len() == 0, "There is no post in this list.", items);
    compose_page(url, None, post_list("Latest Posts", list.as_str()).as_str(), config)
}

pub fn meta_list_page(config: &Config, url: &str, pages: &Vec<MetaPageListItem>) -> (r: Result<
    String,
    PageError,
>)
    ensures
        res_view(r) == meta_list_text(*config, url@, pages@),
{
    let zone = config.server_timezone();
    let items = match meta_items_html(pages, zone.as_str()) {
        Ok(h) => h,
        Err(e) => {
            return Err(e);
        },
    };
    let list = list_or_message_html(pages.len() == 0, "There is no page in this list.", items);
    compose_page(url, Some("Meta Pages"), post_list("Meta Pages", list.as_str()).as_str(), config)
}

pub fn meta_page(config: &Config, url: &str, m: &MetaPage) -> (r: Result<String, PageError>)
    ensures
        res_view(r) == meta_page_text(*config, url@, *m),
{
    let zone = config.server_timezone();
    let html = to_html(m.text.as_str());
    if m.updated_date > MAX_TIMESTAMP {
        return Err(PageError::TimestampOutOfRange);
    }
    let t = UnixTime::new(m.updated_date);
    let content = ContentMetaPageTemplate {
        content_heading: m.title.clone(),
        content_date: t.default_format_in_timezone(zone.as_str()),
        content_date_value: t.to_utc_datetime_string(),
        content_html: html,
    };
    compose_page(url, Some(m.title.as_str()), content.render().as_str(), config)
}

pub fn channel_list_page(config: &Config, url: &str, channels: &Vec<ChannelSummary>) -> (r:
    Result<String, PageError>)
    ensures
        res_view(r) == channel_list_text(*config, url@, channels@),
{
    let items = channel_items_html(channels);
    let list = list_or_message_html(
        channels.len() == 0,
        "There is no channel in this list.",
        items,
    );
    compose_page(url, Some("Channels"), post_list("Channels", list.as_str()).as_str(), config)
}

pub fn channel_page(config: &Config, url: &str, c: &ChannelInfo, posts: &Vec<PostSummary>) -> (r:
    Result<String, PageError>)
    ensures
        res_view(r) == channel_text(*config, url@, *c, posts@),
{
    let zone = config.server_timezone();
    let fixed = Some(
        ChannelSummary {
            uuid: c.uuid.clone(),
            handle: c.handle.clone(),
            name: c.name.clone(),
            lang: c.lang.clone(),
        },
    );
    let items = match post_items_html(posts, &None, &fixed, zone.as_str()) {
        Ok(h) => h,
        Err(e) => {
            return Err(e);
        },
    };
    let list = list_or_message_html(posts.len() == 0, "There is no channel in this list.", items);
    if c.created_date > MAX_TIMESTAMP {
        return Err(PageError::TimestampOutOfRange);
    }
    let t = UnixTime::new(c.created_date);
    let content = ContentChannelTemplate {
        channel_handle: c.handle.clone(),
        channel_name: c.name.clone(),
        channel_lang: c.lang.clone(),
        channel_description_html: to_html(c.description_text.as_str()),
        channel_date: t.default_format_in_timezone(zone.as_str()),
        channel_date_value: t.to_utc_datetime_string(),
        post_list_html: list,
    };
    compose_page(url, Some(c.name.as_str()), content.render().as_str(), config)
}

pub fn post_page(config: &Config, url: &str, p: &PostInfo) -> (r: Result<String, PageError>)
    ensures
        res_view(r) == post_text(*config, url@, *p),
{
    let zone = config.server_timezone();
    let tags = tag_links_html(&p.tags);
    if p.revision_date > MAX_TIMESTAMP {
        return Err(PageError::TimestampOutOfRange);
    }
    let t = UnixTime::new(p.revision_date);
    let content = ContentPostTemplate {
        post_uuid: p.post_uuid.clone(),
        title: p.title.clone(),
        date: t.default_format_in_timezone(zone.as_str()),
        date_value: t.to_utc_datetime_string(),
        author_uuid: p.author.uuid.clone(),
        author_name: p.author.name.clone(),
        channel_handle: p.channel.handle.clone(),
        channel_name: p.channel.name.clone(),
        channel_lang: p.channel.lang.clone(),
        tag_list_html: tags,
        content_html: to_html(p.revision_text.as_str()),
    };
    compose_page(url, Some(p.title.as_str()), content.render().as_str(), config)
}

pub fn author_list_page(config: &Config, url: &str, authors: &Vec<AuthorSummary>) -> (r: Result<
    String,
    PageError,
>)
    ensures
        res_view(r) == author_list_text(*config, url@, authors@),
{
    let items = author_items_html(authors);
    let list = list_or_message_html(authors.len() == 0, "There is no author in this list.", items);
    compose_page(url, Some("Authors"), post_list("Authors", list.as_str()).as_str(), config)
}

pub fn author_page(config: &Config, url: &str, a: &AuthorInfo, posts: &Vec<PostSummary>) -> (r:
    Result<String, PageError>)
    ensures
        res_view(r) == author_text(*config, url@, *a, posts@),
{
    let zone = config.server_timezone();
    let fixed = Some(AuthorSummary { uuid: a.uuid.clone(), name: a.name.clone() });
    let items = match post_items_html(posts, &fixed, &None, zone.as_str()) {
        Ok(h) => h,
        Err(e) => {
            return Err(e);
        },
    };
    let list = list_or_message_html(posts.len() == 0, "There is no post in this list.", items);
    if a.created_date > MAX_TIMESTAMP {
        return Err(PageError::TimestampOutOfRange);
    }
    let t = UnixTime::new(a.created_date);
    let content = ContentAuthorTemplate {
        author_uuid: a.uuid.clone(),
        author_name: a.name.clone(),
        author_date: t.default_format_in_timezone(zone.as_str()),
        author_date_value: t.to_utc_datetime_string(),
        author_description_html: to_html(a.description_text.as_str()),
        post_list_html: list,
    };
    compose_page(url, Some(a.name.as_str()), content.render().as_str(), config)
}

pub fn tag_list_page(config: &Config, url: &str, tags: &Vec<TagListItem>) -> (r: Result<
    String,
    PageError,
>)
    ensures
        res_view(r) == tag_list_text(*config, url@, tags@),
{
    let items = tag_items_html(tags);
    let list = list_or_message_html(tags.len() == 0, "There is no tag in this list.", items);
    compose_page(url, Some("Tags"), post_list("Tags", list.as_str()).as_str(), config)
}

pub fn tag_page(config: &Config, url: &str, tag_name: &str, posts: &Vec<PostSummary>) -> (r:
    Result<String, PageError>)
    ensures
        res_view(r) == tag_text(*config, url@, tag_name@, posts@),
{
    let zone = config.server_timezone();
    let items = match post_items_html(posts, &None, &None, zone.as_str()) {
        Ok(h) => h,
        Err(e) => {
            return Err(e);
        },
    };
    let list = list_or_message_html(posts.len() == 0, "There is no post in this list.", items);
    let content = ContentTagTemplate::new(tag_name, list.as_str());
    let mut title = "Tag: ".to_string();
    title.append(tag_name);
    compose_page(url, Some(title.as_str()), content.render().as_str(), config)
}

} // verus!
