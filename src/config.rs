//! Site-wide settings, and the settings compiled in for when none are given.

use vstd::prelude::*;

use crate::template::{nav_view, NavigationItem};
use crate::unix_time::{is_known_timezone, timezone_known};

verus! {

/// The site's settings, read once for each request.
#[derive(Debug, Clone)]
pub struct Config {
    /// Absolute URL of the content backend.
    pub api_url: String,
    pub site_name: String,
    pub site_description: String,
    pub site_copyright: String,
    pub header_navigation: Vec<NavigationItem>,
    pub footer_navigation: Vec<NavigationItem>,
    /// Absolute URL that page URLs and the social image resolve against.
    pub top_url: String,
    pub og_image: String,
    /// IANA name of the zone that dates are shown in.
    pub server_timezone: String,
}

pub open spec fn default_header_navigation_view() -> Seq<(Seq<char>, Seq<char>)> {
    seq![("/"@, "Home"@), ("/c/"@, "Channels"@), ("/meta/"@, "Meta"@)]
}

pub open spec fn default_footer_navigation_view() -> Seq<(Seq<char>, Seq<char>)> {
    seq![("/meta/about/"@, "About"@), ("/signin/"@, "Sign in"@), ("/signup/"@, "Sign up"@)]
}

/// Whether `c` holds the compiled-in settings.
pub open spec fn is_default_config(c: Config) -> bool {
    &&& c.api_url@ == "http://localhost:7781/"@
    &&& c.site_name@ == "Alarkhabil"@
    &&& c.site_description@ == "A place to publish and read."@
    &&& c.site_copyright@ == "Copyright (c) Alarkhabil contributors"@
    &&& nav_view(c.header_navigation@) == default_header_navigation_view()
    &&& nav_view(c.footer_navigation@) == default_footer_navigation_view()
    &&& c.top_url@ == "http://localhost:7780/"@
    &&& c.og_image@ == "/branding/og-image.png"@
    &&& c.server_timezone@ == "UTC"@
}

/// The zone that dates are shown in: the configured one where chrono-tz knows
/// it, else UTC.
pub open spec fn effective_timezone(name: Seq<char>) -> Seq<char> {
    if timezone_known(name) {
        name
    } else {
        "UTC"@
    }
}

fn navigation_item(url: &str, text: &str) -> (r: NavigationItem)
    ensures
        r.url@ == url@,
        r.text@ == text@,
{
    NavigationItem { url: url.to_string(), text: text.to_string() }
}

impl Config {
    pub fn default_api_url() -> (r: String)
        ensures
            r@ == "http://localhost:7781/"@,
    {
        "http://localhost:7781/".to_string()
    }

    pub fn default_site_name() -> (r: String)
        ensures
            r@ == "Alarkhabil"@,
    {
        "Alarkhabil".to_string()
    }

    pub fn default_site_description() -> (r: String)
        ensures
            r@ == "A place to publish and read."@,
    {
        "A place to publish and read.".to_string()
    }

    pub fn default_site_copyright() -> (r: String)
        ensures
            r@ == "Copyright (c) Alarkhabil contributors"@,
    {
        "Copyright (c) Alarkhabil contributors".to_string()
    }

    pub fn default_header_navigation() -> (r: Vec<NavigationItem>)
        ensures
            nav_view(r@) == default_header_navigation_view(),
    {
        let r = vec![
            navigation_item("/", "Home"),
            navigation_item("/c/", "Channels"),
            navigation_item("/meta/", "Meta"),
        ];
        assert(nav_view(r@) =~= default_header_navigation_view());
        r
    }

    pub fn default_footer_navigation() -> (r: Vec<NavigationItem>)
        ensures
            nav_view(r@) == default_footer_navigation_view(),
    {
        let r = vec![
            navigation_item("/meta/about/", "About"),
            navigation_item("/signin/", "Sign in"),
            navigation_item("/signup/", "Sign up"),
        ];
        assert(nav_view(r@) =~= default_footer_navigation_view());
        r
    }

    pub fn default_top_url() -> (r: String)
        ensures
            r@ == "http://localhost:7780/"@,
    {
        "http://localhost:7780/".to_string()
    }

    pub fn default_og_image() -> (r: String)
        ensures
            r@ == "/branding/og-image.png"@,
    {
        "/branding/og-image.png".to_string()
    }

    pub fn default_server_timezone() -> (r: String)
        ensures
            r@ == "UTC"@,
    {
        "UTC".to_string()
    }

    /// The name of the zone that dates are shown in; an unknown name gives UTC.
    pub fn server_timezone(&self) -> (r: String)
        ensures
            r@ == effective_timezone(self.server_timezone@),
            timezone_known(r@),
    {
        if is_known_timezone(self.server_timezone.as_str()) {
            self.server_timezone.clone()
        } else {
            let utc = "UTC".to_string();
            let known = is_known_timezone(utc.as_str());
            assert(known);
            utc
        }
    }
}

impl Default for Config {
    fn default() -> (r: Self)
        ensures
            is_default_config(r),
    {
        Config {
            api_url: Config::default_api_url(),
            site_name: Config::default_site_name(),
            site_description: Config::default_site_description(),
            site_copyright: Config::default_site_copyright(),
            header_navigation: Config::default_header_navigation(),
            footer_navigation: Config::default_footer_navigation(),
            top_url: Config::default_top_url(),
            og_image: Config::default_og_image(),
            server_timezone: Config::default_server_timezone(),
        }
    }
}

} // verus!
