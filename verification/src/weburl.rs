//! Absolute URLs as parsed by the `url` crate, held as plain text.

use url::Url;
use vstd::prelude::*;
use crate::text::pairs_text;

verus! {

/// An error of `url::Url::parse`.
#[verifier::external_type_specification]
#[verifier::external_body]
pub struct ExUrlParseError(url::ParseError);

/// The parts of a parsed URL that requests are built from: the whole
/// serialization, the percent-encoded path, and the query string without its
/// `?`, if there is one.
pub struct ApiUrl {
    pub href: String,
    pub path: String,
    pub query: Option<String>,
}

/// The view of an optional string.
pub open spec fn opt_text(o: Option<String>) -> Option<Seq<char>> {
    match o {
        Some(s) => Some(s@),
        None => None,
    }
}

impl View for ApiUrl {
    type V = (Seq<char>, Seq<char>, Option<Seq<char>>);

    open spec fn view(&self) -> (Seq<char>, Seq<char>, Option<Seq<char>>) {
        (self.href@, self.path@, opt_text(self.query))
    }
}

/// What `url::Url::parse` makes of `input`: the serialization, path and query
/// of the URL, or nothing where it reports an error.
pub uninterp spec fn parsed_url(input: Seq<char>) -> Option<(Seq<char>, Seq<char>, Option<Seq<char>>)>;

/// What `url::Url::parse_with_params` makes of `input` and `params`.
pub uninterp spec fn parsed_url_with_params(
    input: Seq<char>,
    params: Seq<(Seq<char>, Seq<char>)>,
) -> Option<(Seq<char>, Seq<char>, Option<Seq<char>>)>;

/// Parses an absolute URL with `url::Url::parse` and reads back its
/// serialization (`as_str`), `path` and `query`. The contract claims only that
/// the result is the named parse of the input; the WHATWG URL algorithm
/// itself is left unsaid.
#[verifier::external_body]
pub(crate) fn url_parse(input: &str) -> (res: Result<ApiUrl, url::ParseError>)
    ensures
        match res {
            Ok(u) => parsed_url(input@) == Some(u@),
            Err(_) => parsed_url(input@) is None,
        },
{
    match Url::parse(input) {
        Ok(u) => Ok(ApiUrl { href: u.as_str().to_string(), path: u.path().to_string(), query: u.query().map(str::to_string) }),
        Err(e) => Err(e),
    }
}

/// Parses an absolute URL with `url::Url::parse_with_params`, which appends
/// `params` form-urlencoded to its query, and reads back its serialization,
/// path and query. The contract claims that the result is the named parse,
/// and, as the source shows (it parses `input` first and only then appends),
/// that it fails exactly where `url::Url::parse` fails on `input`.
#[verifier::external_body]
pub(crate) fn url_parse_with_params(input: &str, params: &Vec<(String, String)>) -> (res: Result<ApiUrl, url::ParseError>)
    ensures
        match res {
            Ok(u) => parsed_url_with_params(input@, pairs_text(params@)) == Some(u@),
            Err(_) => parsed_url_with_params(input@, pairs_text(params@)) is None,
        },
        res is Ok <==> parsed_url(input@) is Some,
{
    match Url::parse_with_params(input, params) {
        Ok(u) => Ok(ApiUrl { href: u.as_str().to_string(), path: u.path().to_string(), query: u.query().map(str::to_string) }),
        Err(e) => Err(e),
    }
}

} // verus!
