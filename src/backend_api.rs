//! Where the backend's endpoints are: URLs under a versioned prefix of the
//! backend's base URL.

use vstd::prelude::*;

use crate::config::Config;
use crate::template::{join_url, joined_url};

verus! {

#[derive(Debug, Clone, Copy, PartialEq, Eq, Structural, Hash, PartialOrd, Ord)]
pub enum BackendApiVersion {
    V1,
}

/// What the url crate makes of `url` with `pairs` appended, form-encoded and in
/// order, through `Url::query_pairs_mut`: none where `url` does not parse.
pub uninterp spec fn url_with_query(url: Seq<char>, pairs: Seq<(Seq<char>, Seq<char>)>) -> Option<
    Seq<char>,
>;

pub open spec fn pairs_view(pairs: Seq<(String, String)>) -> Seq<(Seq<char>, Seq<char>)> {
    pairs.map_values(|p: (String, String)| (p.0@, p.1@))
}

/// Relies on url's `Url::parse`, `Url::query_pairs_mut` with `extend_pairs`,
/// and its serialisation: the result depends on the text and the pairs alone.
#[verifier::external_body]
fn append_query(url: &str, pairs: &Vec<(String, String)>) -> (r: Option<String>)
    ensures
        match r {
            Some(s) => url_with_query(url@, pairs_view(pairs@)) == Some(s@),
            None => url_with_query(url@, pairs_view(pairs@)) is None,
        },
{
    match url::Url::parse(url) {
        Ok(mut u) => {
            u.query_pairs_mut().extend_pairs(pairs.iter());
            Some(u.to_string())
        },
        Err(_) => None,
    }
}

/// The URL of the backend endpoint `path` with `query`, under the `v1` prefix
/// of the backend at `api_url`.
pub open spec fn endpoint_url(
    api_url: Seq<char>,
    path: Seq<char>,
    query: Seq<(Seq<char>, Seq<char>)>,
) -> Option<Seq<char>> {
    match joined_url(api_url, "/api/v1/"@) {
        Some(base) => match joined_url(base, path) {
            Some(u) => url_with_query(u, query),
            None => None,
        },
        None => None,
    }
}

/// A client of one version of the backend's API.
#[derive(Debug, Clone)]
pub struct BackendApi {
    api_url: String,
    version: BackendApiVersion,
}

impl BackendApi {
    pub closed spec fn spec_api_url(&self) -> Seq<char> {
        self.api_url@
    }

    pub closed spec fn spec_version(&self) -> BackendApiVersion {
        self.version
    }

    pub fn new(config: &Config, version: BackendApiVersion) -> (r: Self)
        ensures
            r.spec_api_url() == config.api_url@,
            r.spec_version() == version,
    {
        BackendApi { api_url: config.api_url.clone(), version }
    }

    pub fn new_v1(config: &Config) -> (r: Self)
        ensures
            r.spec_api_url() == config.api_url@,
            r.spec_version() == BackendApiVersion::V1,
    {
        Self::new(config, BackendApiVersion::V1)
    }

    /// The URL to fetch for endpoint `path` with `query`; none where the
    /// backend URL does not parse or the path does not resolve.
    pub fn get_url(&self, path: &str, query: &Vec<(String, String)>) -> (r: Option<String>)
        ensures
            match r {
                Some(s) => endpoint_url(self.spec_api_url(), path@, pairs_view(query@)) == Some(
                    s@,
                ),
                None => endpoint_url(self.spec_api_url(), path@, pairs_view(query@)) is None,
            },
    {
        match self.version {
            BackendApiVersion::V1 => {},
        }
        let base = match join_url(self.api_url.as_str(), "/api/v1/") {
            Some(u) => u,
            None => {
                return None;
            },
        };
        let url = match join_url(base.as_str(), path) {
            Some(u) => u,
            None => {
                return None;
            },
        };
        append_query(url.as_str(), query)
    }
}

} // verus!
