use alarkhabil_frontend::config::Config;
use alarkhabil_frontend::error_reporting::PageError;
use alarkhabil_frontend::fragment::{
    ContentAuthorListItemTemplate, ContentAuthorTemplate, ContentChannelListItemTemplate,
    ContentChannelTemplate, ContentMetaPageListItemTemplate, ContentMetaPageTemplate,
    ContentPostListItemTemplate, ContentPostListTemplate, ContentPostTemplate,
    ContentSingleParagraphMessageTemplate, ContentTagListItemTemplate, ContentTagTemplate,
};
use alarkhabil_frontend::template::{content_templates, BaseTemplate, ContentTemplateItem, NavigationItem};

/// The element and attribute names of a text, in order, without any text or
/// attribute value.
fn tag_skeleton(html: &str) -> Vec<String> {
    let mut out = Vec::new();
    let mut in_tag = false;
    let mut in_value = false;
    let mut current = String::new();
    for c in html.chars() {
        if in_tag {
            if in_value {
                if c == '"' {
                    in_value = false;
                }
            } else if c == '"' {
                in_value = true;
            } else if c == '>' {
                in_tag = false;
                out.push(current.clone());
                current.clear();
            } else {
                current.push(c);
            }
        } else if c == '<' {
            in_tag = true;
        }
    }
    out
}

fn s(v: &str) -> String {
    v.to_string()
}

fn populated_and_skeleton() -> Vec<(String, String)> {
    vec![
        (
            ContentMetaPageTemplate {
                content_heading: s("About <us>"),
                content_date: s("2015-05-15 00:00:00 UTC"),
                content_date_value: s("2015-05-15T00:00:00+0000"),
                content_html: s(""),
            }
            .render(),
            ContentMetaPageTemplate {
                content_heading: s(""),
                content_date: s(""),
                content_date_value: s(""),
                content_html: s(""),
            }
            .render(),
        ),
        (
            ContentPostListTemplate { post_list_title: s("Latest \"Posts\""), post_list_html: s("") }.render(),
            ContentPostListTemplate { post_list_title: s(""), post_list_html: s("") }.render(),
        ),
        (
            ContentMetaPageListItemTemplate { page_name: s("about"), title: s("About"), date: s("d"), date_value: s("v") }.render(),
            ContentMetaPageListItemTemplate { page_name: s(""), title: s(""), date: s(""), date_value: s("") }.render(),
        ),
        (
            ContentSingleParagraphMessageTemplate { message: s("x < y & 'z'") }.render(),
            ContentSingleParagraphMessageTemplate { message: s("") }.render(),
        ),
        (
            ContentPostListItemTemplate {
                post_uuid: s("post-1"),
                title: s("T"),
                date: s("d"),
                date_value: s("v"),
                author_uuid: s("a1"),
                author_name: s("A"),
                channel_handle: s("news"),
                channel_name: s("News"),
                channel_lang: s("en"),
            }
            .render(),
            ContentPostListItemTemplate {
                post_uuid: s(""),
                title: s(""),
                date: s(""),
                date_value: s(""),
                author_uuid: s(""),
                author_name: s(""),
                channel_handle: s(""),
                channel_name: s(""),
                channel_lang: s(""),
            }
            .render(),
        ),
        (
            ContentChannelListItemTemplate { channel_handle: s("news"), channel_name: s("News"), channel_lang: s("en") }.render(),
            ContentChannelListItemTemplate { channel_handle: s(""), channel_name: s(""), channel_lang: s("") }.render(),
        ),
        (
            ContentChannelTemplate {
                channel_handle: s("news"),
                channel_name: s("News"),
                channel_lang: s("en"),
                channel_description_html: s(""),
                channel_date: s("d"),
                channel_date_value: s("v"),
                post_list_html: s(""),
            }
            .render(),
            ContentChannelTemplate {
                channel_handle: s(""),
                channel_name: s(""),
                channel_lang: s(""),
                channel_description_html: s(""),
                channel_date: s(""),
                channel_date_value: s(""),
                post_list_html: s(""),
            }
            .render(),
        ),
        (
            ContentPostTemplate {
                post_uuid: s("post-1"),
                title: s("T"),
                date: s("d"),
                date_value: s("v"),
                author_uuid: s("a1"),
                author_name: s("A"),
                channel_handle: s("news"),
                channel_name: s("News"),
                channel_lang: s("en"),
                tag_list_html: s(""),
                content_html: s(""),
            }
            .render(),
            ContentPostTemplate {
                post_uuid: s(""),
                title: s(""),
                date: s(""),
                date_value: s(""),
                author_uuid: s(""),
                author_name: s(""),
                channel_handle: s(""),
                channel_name: s(""),
                channel_lang: s(""),
                tag_list_html: s(""),
                content_html: s(""),
            }
            .render(),
        ),
        (
            ContentAuthorListItemTemplate { author_uuid: s("a1"), author_name: s("A") }.render(),
            ContentAuthorListItemTemplate { author_uuid: s(""), author_name: s("") }.render(),
        ),
        (
            ContentAuthorTemplate {
                author_uuid: s("a1"),
                author_name: s("A"),
                author_date: s("d"),
                author_date_value: s("v"),
                author_description_html: s(""),
                post_list_html: s(""),
            }
            .render(),
            ContentAuthorTemplate {
                author_uuid: s(""),
                author_name: s(""),
                author_date: s(""),
                author_date_value: s(""),
                author_description_html: s(""),
                post_list_html: s(""),
            }
            .render(),
        ),
        (
            ContentTagListItemTemplate::new("rust lang").render(),
            ContentTagListItemTemplate { tag_name: s(""), tag_name_urlencoded: s("") }.render(),
        ),
        (
            ContentTagTemplate::new("rust lang", "").render(),
            ContentTagTemplate { tag_name: s(""), tag_name_urlencoded: s(""), post_list_html: s("") }.render(),
        ),
    ]
}

#[test]
fn populated_fragments_keep_the_skeleton_markup() {
    for (populated, skeleton) in populated_and_skeleton() {
        assert_eq!(tag_skeleton(&populated), tag_skeleton(&skeleton));
        assert!(populated.len() > skeleton.len());
    }
}

#[test]
fn registry_holds_each_skeleton() {
    let registry = content_templates();
    assert_eq!(registry.len(), 13);
    assert_eq!(registry[0].template_id, "template-content-meta-page");
    assert_eq!(registry[3].template_id, "template-content-single-paragraph-message");
    assert_eq!(registry[12].template_id, "template-content-invites");
    let pairs = populated_and_skeleton();
    for k in 0..12 {
        assert_eq!(registry[k].html, pairs[k].1);
        assert_eq!(tag_skeleton(&registry[k].html), tag_skeleton(&pairs[k].0));
    }
}

#[test]
fn registry_is_the_same_on_each_call() {
    let a = content_templates();
    let b = content_templates();
    for k in 0..a.len() {
        assert_eq!(a[k].template_id, b[k].template_id);
        assert_eq!(a[k].html, b[k].html);
    }
}

#[test]
fn template_item_ids_are_prefixed() {
    let item = ContentTemplateItem::new("x", "<p></p>");
    assert_eq!(item.template_id, "template-x");
    assert_eq!(item.html, "<p></p>");
    let items = ContentTemplateItem::new_map(vec![(s("a"), s("1")), (s("b"), s("2"))]);
    assert_eq!(items.len(), 2);
    assert_eq!(items[1].template_id, "template-b");
    assert_eq!(items[1].html, "2");
}

#[test]
fn message_text_is_escaped() {
    let html = ContentSingleParagraphMessageTemplate { message: s("<b>&'\"") }.render();
    assert_eq!(html, "<p class=\"message\">&lt;b&gt;&amp;&#x27;&quot;</p>");
}

#[test]
fn html_fields_are_inserted_as_they_are() {
    let html = ContentPostListTemplate { post_list_title: s("A&B"), post_list_html: s("<i>x</i>") }.render();
    assert_eq!(
        html,
        "<section class=\"post-list\"><h2 class=\"post-list-title\">A&amp;B</h2><div class=\"post-list-items\"><i>x</i></div></section>"
    );
}

#[test]
fn tag_names_are_percent_encoded() {
    let t = ContentTagListItemTemplate::new("a b/\u{e9}");
    assert_eq!(t.tag_name, "a b/\u{e9}");
    assert_eq!(t.tag_name_urlencoded, "a%20b%2F%C3%A9");
    let t = ContentTagTemplate::new("x?y", "<p></p>");
    assert_eq!(t.tag_name_urlencoded, "x%3Fy");
    assert_eq!(t.post_list_html, "<p></p>");
}

fn example_config() -> Config {
    let mut config = Config::default();
    config.top_url = s("https://example.com/");
    config
}

#[test]
fn relative_path_resolves_against_top_url() {
    let config = example_config();
    let b = BaseTemplate::try_new("foo", None, "", &config).unwrap();
    assert_eq!(b.url, "https://example.com/foo");
    assert_eq!(b.og_image, "https://example.com/branding/og-image.png");
}

#[test]
fn absolute_path_is_kept() {
    let mut config = example_config();
    config.og_image = s("https://cdn.example.com/x.png");
    let b = BaseTemplate::try_new("https://cdn.example.com/x.png?q=1#f", None, "", &config).unwrap();
    assert_eq!(b.og_image, "https://cdn.example.com/x.png");
    assert_eq!(b.url, "https://cdn.example.com/x.png?q=1#f");
}

#[test]
fn titles_with_and_without_a_given_title() {
    let config = example_config();
    let b = BaseTemplate::try_new("/c/", Some("Channels"), "<p>c</p>", &config).unwrap();
    assert_eq!(b.page_title, "Channels - Alarkhabil");
    assert_eq!(b.title, "Channels");
    assert_eq!(b.content_html, "<p>c</p>");
    let b = BaseTemplate::try_new("/", None, "", &config).unwrap();
    assert_eq!(b.page_title, "Alarkhabil");
    assert_eq!(b.title, "Alarkhabil");
    let b = BaseTemplate::try_new("/", Some(""), "", &config).unwrap();
    assert_eq!(b.page_title, "Alarkhabil");
}

#[test]
fn invalid_top_url_is_an_error() {
    let mut config = example_config();
    config.top_url = s("not a url");
    assert!(matches!(BaseTemplate::try_new("/", None, "", &config), Err(PageError::InvalidUrl)));
}

#[test]
fn page_carries_branding_and_navigation() {
    let mut config = example_config();
    config.header_navigation = vec![NavigationItem { url: s("/c/"), text: s("Channels") }];
    config.footer_navigation = vec![NavigationItem { url: s("/meta/about/"), text: s("About & more") }];
    let b = BaseTemplate::try_new("/x/", Some("X"), "<p id=\"c\"></p>", &config).unwrap();
    let page = b.render();
    assert!(page.starts_with("<!doctype html>"));
    assert!(page.contains("<title>X - Alarkhabil</title>"));
    assert!(page.contains("<link rel=\"canonical\" href=\"https://example.com/x/\">"));
    assert!(page.contains("<li class=\"navigation-item\"><a href=\"/c/\">Channels</a></li>"));
    assert!(page.contains("<a href=\"/meta/about/\">About &amp; more</a>"));
    assert!(page.contains("<h1 id=\"page-title\">X</h1><div id=\"content\"><p id=\"c\"></p></div>"));
    assert!(page.contains("<template id=\"template-content-post-list-item\">"));
    assert!(page.ends_with("</body></html>"));
}
