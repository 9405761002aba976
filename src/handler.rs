//! What a request does: which backend fetches it makes, in which order, and
//! what it answers once they are done.
//!
//! A request runs in at most three steps. `start` names the first fetch, or
//! answers at once. `on_first` takes what that fetch gave and answers, or
//! names a second fetch that depends on it. `on_second` takes what the second
//! fetch gave and answers. The caller performs each fetch and reports it.

use vstd::prelude::*;

use crate::backend_api::pairs_view;
use crate::config::Config;
use crate::error_reporting::{internal_error_html, internal_error_page, PageError};
use crate::model::{
    AuthorInfo, AuthorSummary, ChannelInfo, ChannelSummary, MetaPage, MetaPageListItem, PostInfo,
    PostSummary, TagListItem,
};
use crate::page::{
    author_list_page, author_list_text, author_page, author_text, channel_list_page,
    channel_list_text, channel_page, channel_text, javascript_required_page,
    javascript_required_text, meta_list_page, meta_list_text, meta_page, meta_page_text,
    not_found_page, not_found_text, post_page, post_text, res_view, root_page, root_text,
    tag_list_page, tag_list_text, tag_page, tag_text,
};
use crate::template::page_resolves;

verus! {

/// A page route and the identifiers its path carries.
#[derive(Debug, Clone)]
pub enum Route {
    /// `/`: the latest posts.
    Root,
    /// A page that only client-side code shows.
    JavascriptRequired,
    /// Any path that no other route takes.
    NotFound,
    MetaList,
    Meta { page_name: String },
    ChannelList,
    Channel { handle: String },
    Post { channel_handle: String, post_uuid: String },
    AuthorList,
    Author { uuid: String },
    TagList,
    Tag { tag_name: String },
}

/// An endpoint of the backend's API.
#[derive(Debug, Clone, Copy, PartialEq, Eq, Structural)]
pub enum Endpoint {
    PostList,
    PostInfo,
    MetaList,
    MetaInfo,
    ChannelList,
    ChannelInfo,
    ChannelPosts,
    AuthorList,
    AuthorInfo,
    AuthorPosts,
    TagList,
    TagPosts,
}

/// Whether an endpoint looks one record up by an identifier from the URL:
/// its failure means a missing page. The others list records.
pub open spec fn is_lookup(e: Endpoint) -> bool {
    match e {
        Endpoint::PostInfo | Endpoint::MetaInfo | Endpoint::ChannelInfo | Endpoint::AuthorInfo => true,
        _ => false,
    }
}

pub open spec fn endpoint_path(e: Endpoint) -> Seq<char> {
    match e {
        Endpoint::PostList => "post/list"@,
        Endpoint::PostInfo => "post/info"@,
        Endpoint::MetaList => "meta/list"@,
        Endpoint::MetaInfo => "meta/info"@,
        Endpoint::ChannelList => "channel/list"@,
        Endpoint::ChannelInfo => "channel/info"@,
        Endpoint::ChannelPosts => "channel/posts"@,
        Endpoint::AuthorList => "author/list"@,
        Endpoint::AuthorInfo => "author/info"@,
        Endpoint::AuthorPosts => "author/posts"@,
        Endpoint::TagList => "tag/list"@,
        Endpoint::TagPosts => "tag/posts"@,
    }
}

impl Endpoint {
    /// The endpoint's path under the API's version prefix.
    pub fn path(&self) -> (r: &'static str)
        ensures
            r@ == endpoint_path(*self),
    {
        match self {
            Endpoint::PostList => "post/list",
            Endpoint::PostInfo => "post/info",
            Endpoint::MetaList => "meta/list",
            Endpoint::MetaInfo => "meta/info",
            Endpoint::ChannelList => "channel/list",
            Endpoint::ChannelInfo => "channel/info",
            Endpoint::ChannelPosts => "channel/posts",
            Endpoint::AuthorList => "author/list",
            Endpoint::AuthorInfo => "author/info",
            Endpoint::AuthorPosts => "author/posts",
            Endpoint::TagList => "tag/list",
            Endpoint::TagPosts => "tag/posts",
        }
    }

    pub fn is_lookup(&self) -> (r: bool)
        ensures
            r == is_lookup(*self),
    {
        match self {
            Endpoint::PostInfo | Endpoint::MetaInfo | Endpoint::ChannelInfo | Endpoint::AuthorInfo => true,
            _ => false,
        }
    }
}

/// A fetch to make: an endpoint and its query.
#[derive(Debug, Clone)]
pub struct FetchRequest {
    pub endpoint: Endpoint,
    pub query: Vec<(String, String)>,
}

/// What a fetch gave once decoded: the records of the endpoint's kind.
#[derive(Debug, Clone)]
pub enum Payload {
    Posts(Vec<PostSummary>),
    Post(PostInfo),
    MetaPages(Vec<MetaPageListItem>),
    MetaPage(MetaPage),
    Channels(Vec<ChannelSummary>),
    Channel(ChannelInfo),
    Authors(Vec<AuthorSummary>),
    Author(AuthorInfo),
    Tags(Vec<TagListItem>),
}

/// How a fetch ended.
#[derive(Debug, Clone)]
pub enum FetchOutcome {
    /// No URL could be built, the connection failed, or the status was not a
    /// success.
    Failed,
    /// The body was not the records the endpoint returns.
    Undecodable,
    Received(Payload),
}

/// An HTML answer and its status.
#[derive(Debug, Clone)]
pub struct Response {
    pub status: u16,
    pub body: String,
}

/// What a request does next.
#[derive(Debug, Clone)]
pub enum Action {
    Fetch(FetchRequest),
    Respond(Response),
}

pub enum ActionView {
    Fetch(Endpoint, Seq<(Seq<char>, Seq<char>)>),
    Respond(u16, Seq<char>),
}

impl View for Action {
    type V = ActionView;

    open spec fn view(&self) -> ActionView {
        match *self {
            Action::Fetch(f) => ActionView::Fetch(f.endpoint, pairs_view(f.query@)),
            Action::Respond(r) => ActionView::Respond(r.status, r.body@),
        }
    }
}

/// The status an action answers with, if it answers.
pub open spec fn action_status(a: ActionView) -> Option<u16> {
    match a {
        ActionView::Fetch(_, _) => None,
        ActionView::Respond(status, _) => Some(status),
    }
}

pub open spec fn internal_error_action() -> ActionView {
    ActionView::Respond(500, internal_error_page())
}

/// A composed page with `status`, or the internal error page where it could
/// not be composed.
pub open spec fn respond_with(page: Result<Seq<char>, PageError>, status: u16) -> ActionView {
    match page {
        Ok(p) => ActionView::Respond(status, p),
        Err(_) => internal_error_action(),
    }
}

pub open spec fn not_found_action(config: Config, url: Seq<char>) -> ActionView {
    respond_with(not_found_text(config, url), 404)
}

pub open spec fn start_action(route: Route, url: Seq<char>, config: Config) -> ActionView {
    match route {
        Route::Root => ActionView::Fetch(Endpoint::PostList, seq![]),
        Route::JavascriptRequired => respond_with(javascript_required_text(config, url), 200),
        Route::NotFound => not_found_action(config, url),
        Route::MetaList => ActionView::Fetch(Endpoint::MetaList, seq![]),
        Route::Meta { page_name } => ActionView::Fetch(
            Endpoint::MetaInfo,
            seq![("page_name"@, page_name@)],
        ),
        Route::ChannelList => ActionView::Fetch(Endpoint::ChannelList, seq![]),
        Route::Channel { handle } => ActionView::Fetch(
            Endpoint::ChannelInfo,
            seq![("handle"@, handle@)],
        ),
        Route::Post { channel_handle, post_uuid } => ActionView::Fetch(
            Endpoint::PostInfo,
            seq![("uuid"@, post_uuid@)],
        ),
        Route::AuthorList => ActionView::Fetch(Endpoint::AuthorList, seq![]),
        Route::Author { uuid } => ActionView::Fetch(Endpoint::AuthorInfo, seq![("uuid"@, uuid@)]),
        Route::TagList => ActionView::Fetch(Endpoint::TagList, seq![]),
        Route::Tag { tag_name } => ActionView::Fetch(
            Endpoint::TagPosts,
            seq![("tag_name"@, tag_name@)],
        ),
    }
}

/// What follows the first fetch. A failed lookup is a missing page; a failed
/// listing, or records of the wrong kind, an internal error.
pub open spec fn first_outcome_action(
    route: Route,
    url: Seq<char>,
    config: Config,
    outcome: FetchOutcome,
) -> ActionView {
    match outcome {
        FetchOutcome::Failed => match start_action(route, url, config) {
            ActionView::Fetch(e, _) => if is_lookup(e) {
                not_found_action(config, url)
            } else {
                internal_error_action()
            },
            ActionView::Respond(_, _) => internal_error_action(),
        },
        FetchOutcome::Undecodable => internal_error_action(),
        FetchOutcome::Received(p) => match route {
            Route::Root => match p {
                Payload::Posts(ps) => respond_with(root_text(config, url, ps@), 200),
                _ => internal_error_action(),
            },
            Route::MetaList => match p {
                Payload::MetaPages(ms) => respond_with(meta_list_text(config, url, ms@), 200),
                _ => internal_error_action(),
            },
            Route::Meta { page_name } => match p {
                Payload::MetaPage(m) => respond_with(meta_page_text(config, url, m), 200),
                _ => internal_error_action(),
            },
            Route::ChannelList => match p {
                Payload::Channels(cs) => respond_with(channel_list_text(config, url, cs@), 200),
                _ => internal_error_action(),
            },
            Route::Channel { handle } => match p {
                Payload::Channel(c) => ActionView::Fetch(
                    Endpoint::ChannelPosts,
                    seq![("uuid"@, c.uuid@)],
                ),
                _ => internal_error_action(),
            },
            Route::Post { channel_handle, post_uuid } => match p {
                Payload::Post(post) => if channel_handle@ != post.channel.handle@ {
                    not_found_action(config, url)
                } else {
                    respond_with(post_text(config, url, post), 200)
                },
                _ => internal_error_action(),
            },
            Route::AuthorList => match p {
                Payload::Authors(a) => respond_with(author_list_text(config, url, a@), 200),
                _ => internal_error_action(),
            },
            Route::Author { uuid } => match p {
                Payload::Author(a) => ActionView::Fetch(
                    Endpoint::AuthorPosts,
                    seq![("uuid"@, a.uuid@)],
                ),
                _ => internal_error_action(),
            },
            Route::TagList => match p {
                Payload::Tags(t) => respond_with(tag_list_text(config, url, t@), 200),
                _ => internal_error_action(),
            },
            Route::Tag { tag_name } => match p {
                Payload::Posts(ps) => respond_with(tag_text(config, url, tag_name@, ps@), 200),
                _ => internal_error_action(),
            },
            _ => internal_error_action(),
        },
    }
}

/// What follows the second fetch, a listing of the posts of the record that
/// the first fetch gave.
pub open spec fn second_outcome_action(
    url: Seq<char>,
    config: Config,
    first: Payload,
    outcome: FetchOutcome,
) -> ActionView {
    match outcome {
        FetchOutcome::Received(p) => match first {
            Payload::Channel(c) => match p {
                Payload::Posts(ps) => respond_with(channel_text(config, url, c, ps@), 200),
                _ => internal_error_action(),
            },
            Payload::Author(a) => match p {
                Payload::Posts(ps) => respond_with(author_text(config, url, a, ps@), 200),
                _ => internal_error_action(),
            },
            _ => internal_error_action(),
        },
        _ => internal_error_action(),
    }
}

fn respond(page: Result<String, PageError>, status: u16) -> (r: Action)
    ensures
        r@ == respond_with(res_view(page), status),
{
    match page {
        Ok(body) => Action::Respond(Response { status, body }),
        Err(_) => Action::Respond(Response { status: 500, body: internal_error_html() }),
    }
}

fn fetch(endpoint: Endpoint, key: &str, value: &String) -> (r: Action)
    ensures
        r@ == ActionView::Fetch(endpoint, seq![(key@, value@)]),
{
    let query = vec![(key.to_string(), value.clone())];
    assert(pairs_view(query@) =~= seq![(key@, value@)]);
    Action::Fetch(FetchRequest { endpoint, query })
}

fn fetch_all(endpoint: Endpoint) -> (r: Action)
    ensures
        r@ == ActionView::Fetch(endpoint, seq![]),
{
    let query: Vec<(String, String)> = Vec::new();
    assert(pairs_view(query@) =~= seq![]);
    Action::Fetch(FetchRequest { endpoint, query })
}

fn internal_error() -> (r: Action)
    ensures
        r@ == internal_error_action(),
{
    Action::Respond(Response { status: 500, body: internal_error_html() })
}

/// The first step of a request for `route` at path `url`.
pub fn start(route: &Route, url: &str, config: &Config) -> (r: Action)
    ensures
        r@ == start_action(*route, url@, *config),
{
    match route {
        Route::Root => fetch_all(Endpoint::PostList),
        Route::JavascriptRequired => respond(javascript_required_page(config, url), 200),
        Route::NotFound => respond(not_found_page(config, url), 404),
        Route::MetaList => fetch_all(Endpoint::MetaList),
        Route::Meta { page_name } => fetch(Endpoint::MetaInfo, "page_name", page_name),
        Route::ChannelList => fetch_all(Endpoint::ChannelList),
        Route::Channel { handle } => fetch(Endpoint::ChannelInfo, "handle", handle),
        Route::Post { channel_handle, post_uuid } => fetch(Endpoint::PostInfo, "uuid", post_uuid),
        Route::AuthorList => fetch_all(Endpoint::AuthorList),
        Route::Author { uuid } => fetch(Endpoint::AuthorInfo, "uuid", uuid),
        Route::TagList => fetch_all(Endpoint::TagList),
        Route::Tag { tag_name } => fetch(Endpoint::TagPosts, "tag_name", tag_name),
    }
}

/// The step after the first fetch that `start` named ended with `outcome`.
pub fn on_first(route: &Route, url: &str, config: &Config, outcome: &FetchOutcome) -> (r: Action)
    ensures
        r@ == first_outcome_action(*route, url@, *config, *outcome),
{
    match outcome {
        FetchOutcome::Failed => {
            let lookup = match route {
                Route::Meta { .. } | Route::Channel { .. } | Route::Post { .. } | Route::Author {
                    ..
                } => true,
                _ => false,
            };
            let fetches = match route {
                Route::JavascriptRequired | Route::NotFound => false,
                _ => true,
            };
            if fetches && lookup {
                respond(not_found_page(config, url), 404)
            } else {
                internal_error()
            }
        },
        FetchOutcome::Undecodable => internal_error(),
        FetchOutcome::Received(p) => match (route, p) {
            (Route::Root, Payload::Posts(ps)) => respond(root_page(config, url, ps), 200),
            (Route::MetaList, Payload::MetaPages(ms)) => respond(
                meta_list_page(config, url, ms),
                200,
            ),
            (Route::Meta { .. }, Payload::MetaPage(m)) => respond(meta_page(config, url, m), 200),
            (Route::ChannelList, Payload::Channels(cs)) => respond(
                channel_list_page(config, url, cs),
                200,
            ),
            (Route::Channel { .. }, Payload::Channel(c)) => fetch(
                Endpoint::ChannelPosts,
                "uuid",
                &c.uuid,
            ),
            (Route::Post { channel_handle, .. }, Payload::Post(post)) => {
                if *channel_handle != post.channel.handle {
                    respond(not_found_page(config, url), 404)
                } else {
                    respond(post_page(config, url, post), 200)
                }
            },
            (Route::AuthorList, Payload::Authors(a)) => respond(
                author_list_page(config, url, a),
                200,
            ),
            (Route::Author { .. }, Payload::Author(a)) => fetch(
                Endpoint::AuthorPosts,
                "uuid",
                &a.uuid,
            ),
            (Route::TagList, Payload::Tags(t)) => respond(tag_list_page(config, url, t), 200),
            (Route::Tag { tag_name }, Payload::Posts(ps)) => respond(
                tag_page(config, url, tag_name.as_str(), ps),
                200,
            ),
            _ => internal_error(),
        },
    }
}

/// The step after the second fetch, which `on_first` named once `first` had
/// come, ended with `outcome`.
pub fn on_second(url: &str, config: &Config, first: &Payload, outcome: &FetchOutcome) -> (r:
    Action)
    ensures
        r@ == second_outcome_action(url@, *config, *first, *outcome),
{
    match outcome {
        FetchOutcome::Received(p) => match (first, p) {
            (Payload::Channel(c), Payload::Posts(ps)) => respond(
                channel_page(config, url, c, ps),
                200,
            ),
            (Payload::Author(a), Payload::Posts(ps)) => respond(
                author_page(config, url, a, ps),
                200,
            ),
            _ => internal_error(),
        },
        _ => internal_error(),
    }
}

/// A failed fetch decides the status alone. Where the route's first fetch is a
/// lookup of one record by an identifier from the URL (a meta page, channel,
/// post or author), its failure answers 404 with the not-found page, or 500
/// where even that page cannot be composed; where it is a listing, 500. The
/// second fetch of a route is always a listing, and its failure answers 500.
pub proof fn lemma_failed_fetch_status(route: Route, url: Seq<char>, config: Config, first: Payload)
    ensures
        start_action(route, url, config) matches ActionView::Fetch(e, _) ==> (is_lookup(e) <==> (
        route is Meta || route is Channel || route is Post || route is Author)),
        start_action(route, url, config) matches ActionView::Fetch(e, _) ==> action_status(
            first_outcome_action(route, url, config, FetchOutcome::Failed),
        ) == Some(
            if is_lookup(e) && page_resolves(config, url) {
                404u16
            } else {
                500u16
            },
        ),
        action_status(second_outcome_action(url, config, first, FetchOutcome::Failed)) == Some(
            500u16,
        ),
{
}

/// A post whose channel is not the one the URL names is not found: the request
/// fetches the post once, then answers with the not-found page and asks for
/// nothing more.
pub proof fn lemma_post_in_other_channel(
    channel_handle: String,
    post_uuid: String,
    url: Seq<char>,
    config: Config,
    post: PostInfo,
)
    requires
        post.channel.handle@ != channel_handle@,
    ensures
        start_action(Route::Post { channel_handle, post_uuid }, url, config) == ActionView::Fetch(
            Endpoint::PostInfo,
            seq![("uuid"@, post_uuid@)],
        ),
        first_outcome_action(
            Route::Post { channel_handle, post_uuid },
            url,
            config,
            FetchOutcome::Received(Payload::Post(post)),
        ) == not_found_action(config, url),
        not_found_action(config, url) is Respond,
        action_status(not_found_action(config, url)) == Some(
            if page_resolves(config, url) {
                404u16
            } else {
                500u16
            },
        ),
{
}

} // verus!
