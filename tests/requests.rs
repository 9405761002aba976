use alarkhabil_frontend::backend_api::{BackendApi, BackendApiVersion};
use alarkhabil_frontend::config::Config;
use alarkhabil_frontend::error_reporting::{internal_error_html, ErrorReporting, PageError};
use alarkhabil_frontend::handler::{on_first, on_second, start, Action, Endpoint, FetchOutcome, Payload, Route};
use alarkhabil_frontend::model::{
    AuthorInfo, AuthorSummary, ChannelInfo, ChannelSummary, MetaPage, MetaPageListItem, PostInfo,
    PostSummary, TagListItem,
};
use alarkhabil_frontend::page::{channel_list_page, not_found_page, post_page, root_page};

fn s(v: &str) -> String {
    v.to_string()
}

fn config() -> Config {
    let mut c = Config::default();
    c.top_url = s("https://example.com/");
    c
}

fn author() -> AuthorSummary {
    AuthorSummary { uuid: s("a1"), name: s("Alice") }
}

fn channel(handle: &str) -> ChannelSummary {
    ChannelSummary { uuid: s("c1"), handle: s(handle), name: s("News"), lang: s("en") }
}

fn summary(date: u64, with_author: bool, with_channel: bool) -> PostSummary {
    PostSummary {
        post_uuid: s("post-1"),
        revision_uuid: s("r1"),
        revision_date: date,
        title: s("Hello"),
        author: if with_author { Some(author()) } else { None },
        channel: if with_channel { Some(channel("news")) } else { None },
    }
}

fn post_info(handle: &str) -> PostInfo {
    PostInfo {
        post_uuid: s("post-1"),
        channel: channel(handle),
        tags: vec![s("rust"), s("a b")],
        revision_uuid: s("r1"),
        revision_date: 0,
        title: s("Hello"),
        revision_text: s("# Hi"),
        author: author(),
    }
}

fn status_and_body(a: &Action) -> (u16, String) {
    match a {
        Action::Respond(r) => (r.status, r.body.clone()),
        Action::Fetch(_) => panic!("expected a response"),
    }
}

fn fetch_of(a: &Action) -> (Endpoint, Vec<(String, String)>) {
    match a {
        Action::Fetch(f) => (f.endpoint, f.query.clone()),
        Action::Respond(_) => panic!("expected a fetch"),
    }
}

#[test]
fn empty_channel_list_shows_the_message() {
    let c = config();
    let route = Route::ChannelList;
    let first = start(&route, "/c/", &c);
    assert_eq!(fetch_of(&first), (Endpoint::ChannelList, vec![]));
    let next = on_first(&route, "/c/", &c, &FetchOutcome::Received(Payload::Channels(vec![])));
    let (status, body) = status_and_body(&next);
    assert_eq!(status, 200);
    assert!(body.contains(
        "<div class=\"post-list-items\"><p class=\"message\">There is no channel in this list.</p></div>"
    ));
    let content = &body[body.find("<div id=\"content\">").unwrap()..body.find("</main>").unwrap()];
    assert!(!content.contains("<article class=\"list-item channel-list-item\""));
    assert!(content.contains("There is no channel in this list."));
}

#[test]
fn channel_list_shows_each_channel() {
    let page = channel_list_page(&config(), "/c/", &vec![channel("news"), channel("sports")]).unwrap();
    assert!(page.contains("<a class=\"channel-link\" href=\"/c/news/\">News</a>"));
    assert!(page.contains("<a class=\"channel-link\" href=\"/c/sports/\">News</a>"));
    assert!(!page.contains("There is no channel in this list."));
}

#[test]
fn post_in_another_channel_is_not_found() {
    let c = config();
    let route = Route::Post { channel_handle: s("sports"), post_uuid: s("post-1") };
    let first = start(&route, "/sports/post-1/", &c);
    assert_eq!(fetch_of(&first), (Endpoint::PostInfo, vec![(s("uuid"), s("post-1"))]));
    let next = on_first(&route, "/sports/post-1/", &c, &FetchOutcome::Received(Payload::Post(post_info("news"))));
    let (status, body) = status_and_body(&next);
    assert_eq!(status, 404);
    assert!(body.contains("<h1>404: Not Found</h1>"));
}

#[test]
fn post_in_its_channel_is_shown() {
    let c = config();
    let route = Route::Post { channel_handle: s("news"), post_uuid: s("post-1") };
    let next = on_first(&route, "/news/post-1/", &c, &FetchOutcome::Received(Payload::Post(post_info("news"))));
    let (status, body) = status_and_body(&next);
    assert_eq!(status, 200);
    assert!(body.contains("<title>Hello - Alarkhabil</title>"));
    assert!(body.contains("<div class=\"post-content markdown\"><h1>Hi</h1>\n</div>"));
    assert!(body.contains(
        "<ul class=\"tag-list\"><li class=\"tag-list-item\"><a class=\"tag-link\" href=\"/t/rust/\">rust</a></li>\n<li class=\"tag-list-item\"><a class=\"tag-link\" href=\"/t/a%20b/\">a b</a></li></ul>"
    ));
    assert!(body.contains("<time class=\"post-time\" datetime=\"1970-01-01T00:00:00+0000\">1970-01-01 00:00:00 UTC</time>"));
}

#[test]
fn failed_lookups_are_not_found() {
    let c = config();
    let routes = vec![
        Route::Meta { page_name: s("about") },
        Route::Channel { handle: s("news") },
        Route::Post { channel_handle: s("news"), post_uuid: s("post-1") },
        Route::Author { uuid: s("a1") },
    ];
    for route in routes {
        let (endpoint, _) = fetch_of(&start(&route, "/x/", &c));
        assert!(endpoint.is_lookup());
        let (status, body) = status_and_body(&on_first(&route, "/x/", &c, &FetchOutcome::Failed));
        assert_eq!(status, 404);
        assert!(body.contains("<title>Not Found - Alarkhabil</title>"));
    }
}

#[test]
fn failed_listings_are_internal_errors() {
    let c = config();
    let routes = vec![
        Route::Root,
        Route::MetaList,
        Route::ChannelList,
        Route::AuthorList,
        Route::TagList,
        Route::Tag { tag_name: s("rust") },
    ];
    for route in routes {
        let (endpoint, _) = fetch_of(&start(&route, "/x/", &c));
        assert!(!endpoint.is_lookup());
        let (status, body) = status_and_body(&on_first(&route, "/x/", &c, &FetchOutcome::Failed));
        assert_eq!(status, 500);
        assert_eq!(body, internal_error_html());
    }
}

#[test]
fn failed_second_fetch_is_an_internal_error() {
    let c = config();
    let ch = ChannelInfo {
        uuid: s("c1"),
        handle: s("news"),
        name: s("News"),
        created_date: 0,
        lang: s("en"),
        description_text: s(""),
    };
    let route = Route::Channel { handle: s("news") };
    let next = on_first(&route, "/c/news/", &c, &FetchOutcome::Received(Payload::Channel(ch.clone())));
    assert_eq!(fetch_of(&next), (Endpoint::ChannelPosts, vec![(s("uuid"), s("c1"))]));
    let (status, _) = status_and_body(&on_second("/c/news/", &c, &Payload::Channel(ch), &FetchOutcome::Failed));
    assert_eq!(status, 500);
}

#[test]
fn undecodable_payload_is_an_internal_error() {
    let c = config();
    let (status, _) = status_and_body(&on_first(&Route::Root, "/", &c, &FetchOutcome::Undecodable));
    assert_eq!(status, 500);
    let (status, _) = status_and_body(&on_first(&Route::Root, "/", &c, &FetchOutcome::Received(Payload::Tags(vec![]))));
    assert_eq!(status, 500);
}

#[test]
fn channel_page_lists_its_posts() {
    let c = config();
    let ch = ChannelInfo {
        uuid: s("c1"),
        handle: s("news"),
        name: s("News"),
        created_date: 0,
        lang: s("en"),
        description_text: s("About *news*"),
    };
    let posts = vec![summary(0, true, false)];
    let (status, body) = status_and_body(&on_second("/c/news/", &c, &Payload::Channel(ch.clone()), &FetchOutcome::Received(Payload::Posts(posts))));
    assert_eq!(status, 200);
    assert!(body.contains("<title>News - Alarkhabil</title>"));
    assert!(body.contains("<p>About <em>news</em></p>"));
    assert!(body.contains("<a class=\"post-link\" href=\"/news/post-1/\">Hello</a>"));
    let (_, body) = status_and_body(&on_second("/c/news/", &c, &Payload::Channel(ch), &FetchOutcome::Received(Payload::Posts(vec![]))));
    assert!(body.contains("There is no channel in this list."));
}

#[test]
fn author_page_lists_its_posts() {
    let c = config();
    let a = AuthorInfo { uuid: s("a1"), name: s("Alice"), created_date: 0, description_text: s("") };
    let route = Route::Author { uuid: s("a1") };
    let next = on_first(&route, "/a/a1/", &c, &FetchOutcome::Received(Payload::Author(a.clone())));
    assert_eq!(fetch_of(&next), (Endpoint::AuthorPosts, vec![(s("uuid"), s("a1"))]));
    let posts = vec![summary(0, false, true)];
    let (status, body) = status_and_body(&on_second("/a/a1/", &c, &Payload::Author(a), &FetchOutcome::Received(Payload::Posts(posts))));
    assert_eq!(status, 200);
    assert!(body.contains("<a class=\"author-link\" href=\"/a/a1/\">Alice</a>"));
    assert!(body.contains("<a class=\"channel-link\" href=\"/c/news/\">News</a>"));
}

#[test]
fn other_pages_are_composed() {
    let c = config();
    let meta = MetaPage { page_name: s("about"), updated_date: 0, title: s("About"), text: s("x") };
    let (status, body) = status_and_body(&on_first(&Route::Meta { page_name: s("about") }, "/meta/about/", &c, &FetchOutcome::Received(Payload::MetaPage(meta))));
    assert_eq!(status, 200);
    assert!(body.contains("<h2 class=\"meta-page-heading\">About</h2>"));
    let items = vec![MetaPageListItem { page_name: s("about"), updated_date: 0, title: s("About") }];
    let (_, body) = status_and_body(&on_first(&Route::MetaList, "/meta/", &c, &FetchOutcome::Received(Payload::MetaPages(items))));
    assert!(body.contains("href=\"/meta/about/\""));
    let (_, body) = status_and_body(&on_first(&Route::MetaList, "/meta/", &c, &FetchOutcome::Received(Payload::MetaPages(vec![]))));
    assert!(body.contains("There is no page in this list."));
    let (_, body) = status_and_body(&on_first(&Route::AuthorList, "/a/", &c, &FetchOutcome::Received(Payload::Authors(vec![]))));
    assert!(body.contains("There is no author in this list."));
    let (_, body) = status_and_body(&on_first(&Route::AuthorList, "/a/", &c, &FetchOutcome::Received(Payload::Authors(vec![author()]))));
    assert!(body.contains("href=\"/a/a1/\">Alice</a>"));
    let (_, body) = status_and_body(&on_first(&Route::TagList, "/t/", &c, &FetchOutcome::Received(Payload::Tags(vec![]))));
    assert!(body.contains("There is no tag in this list."));
    let tags = vec![TagListItem { tag_name: s("a/b"), page_count: 3 }];
    let (_, body) = status_and_body(&on_first(&Route::TagList, "/t/", &c, &FetchOutcome::Received(Payload::Tags(tags))));
    assert!(body.contains("href=\"/t/a%2Fb/\">a/b</a>"));
    let (_, body) = status_and_body(&on_first(&Route::Tag { tag_name: s("rust") }, "/t/rust/", &c, &FetchOutcome::Received(Payload::Posts(vec![]))));
    assert!(body.contains("<title>Tag: rust - Alarkhabil</title>"));
    assert!(body.contains("There is no post in this list."));
}

#[test]
fn pages_without_fetches_answer_at_once() {
    let c = config();
    let (status, body) = status_and_body(&start(&Route::JavascriptRequired, "/signin/", &c));
    assert_eq!(status, 200);
    assert!(body.contains("JavaScript is required to view this page."));
    let (status, body) = status_and_body(&start(&Route::NotFound, "/nowhere", &c));
    assert_eq!(status, 404);
    assert!(body.contains("<link rel=\"canonical\" href=\"https://example.com/nowhere\">"));
}

#[test]
fn not_found_page_with_a_broken_top_url_is_an_internal_error() {
    let mut c = config();
    c.top_url = s("::");
    assert_eq!(not_found_page(&c, "/x/"), Err(PageError::InvalidUrl));
    let (status, body) = status_and_body(&on_first(&Route::Author { uuid: s("a") }, "/x/", &c, &FetchOutcome::Failed));
    assert_eq!(status, 500);
    assert_eq!(body, internal_error_html());
}

#[test]
fn root_page_errors() {
    let c = config();
    assert_eq!(root_page(&c, "/", &vec![summary(u64::MAX, true, true)]), Err(PageError::TimestampOutOfRange));
    assert_eq!(root_page(&c, "/", &vec![summary(0, false, true)]), Err(PageError::MissingAuthor));
    assert_eq!(root_page(&c, "/", &vec![summary(0, true, false)]), Err(PageError::MissingChannel));
    let page = root_page(&c, "/", &vec![]).unwrap();
    assert!(page.contains("<h2 class=\"post-list-title\">Latest Posts</h2>"));
    assert!(page.contains("There is no post in this list."));
    let page = root_page(&c, "/", &vec![summary(0, true, true), summary(86400, true, true)]).unwrap();
    assert!(page.contains("1970-01-02T00:00:00+0000"));
    let mut p = post_info("news");
    p.revision_date = u64::MAX;
    assert_eq!(post_page(&c, "/news/post-1/", &p), Err(PageError::TimestampOutOfRange));
}

#[test]
fn endpoint_paths() {
    assert_eq!(Endpoint::PostList.path(), "post/list");
    assert_eq!(Endpoint::ChannelPosts.path(), "channel/posts");
    assert_eq!(Endpoint::TagPosts.path(), "tag/posts");
    assert!(Endpoint::MetaInfo.is_lookup());
    assert!(!Endpoint::TagPosts.is_lookup());
}

#[test]
fn backend_urls_have_the_version_prefix() {
    let c = Config::default();
    let api = BackendApi::new_v1(&c);
    assert_eq!(api.get_url("post/list", &vec![]).unwrap(), "http://localhost:7781/api/v1/post/list?");
    assert_eq!(
        api.get_url("post/info", &vec![(s("uuid"), s("a b&c"))]).unwrap(),
        "http://localhost:7781/api/v1/post/info?uuid=a+b%26c"
    );
    let mut bad = Config::default();
    bad.api_url = s("nowhere");
    assert!(BackendApi::new(&bad, BackendApiVersion::V1).get_url("post/list", &vec![]).is_none());
}

#[test]
fn default_config_values() {
    let c = Config::default();
    assert_eq!(c.site_name, Config::default_site_name());
    assert_eq!(c.server_timezone, "UTC");
    assert_eq!(c.header_navigation.len(), 3);
    assert_eq!(Config::default_footer_navigation()[0].url, "/meta/about/");
    assert_eq!(Config::default_top_url(), "http://localhost:7780/");
    assert_eq!(Config::default_og_image(), "/branding/og-image.png");
    assert_eq!(Config::default_api_url(), "http://localhost:7781/");
    assert!(!Config::default_site_description().is_empty());
    assert!(!Config::default_site_copyright().is_empty());
    assert_eq!(Config::default_header_navigation()[1].text, "Channels");
    assert_ne!(ErrorReporting::Html, ErrorReporting::Json);
}
