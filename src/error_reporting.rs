//! How a failed request is reported.

use vstd::prelude::*;

verus! {

/// The form a failure is reported in.
#[derive(Debug, Clone, Copy, PartialEq, Eq, Structural)]
pub enum ErrorReporting {
    Html,
    Json,
}

/// Why a page could not be composed.
#[derive(Debug, Clone, Copy, PartialEq, Eq, Structural)]
pub enum PageError {
    /// The site's top URL does not parse, or a page path or the social image
    /// does not resolve against it.
    InvalidUrl,
    /// A backend date lies beyond what can be written as a date.
    TimestampOutOfRange,
    /// A listed post lacks the author that the page shows.
    MissingAuthor,
    /// A listed post lacks the channel that the page shows.
    MissingChannel,
}

pub open spec fn internal_error_page() -> Seq<char> {
    "<!doctype html><html><head><title>Internal Server Error</title></head><body><h1>Internal Server Error</h1></body></html>"@
}

/// The page shown, with status 500, for any failure past the request itself.
pub fn internal_error_html() -> (r: String)
    ensures
        r@ == internal_error_page(),
{
    "<!doctype html><html><head><title>Internal Server Error</title></head><body><h1>Internal Server Error</h1></body></html>".to_string()
}

} // verus!
