//! Collector endpoints: parsing a base URL and deriving the trace endpoint
//! from it.

use vstd::prelude::*;
use url::{ParseError, Url};

verus! {

/// `url::Url`, a parsed URL. Nothing inside it is visible here; `url_text`
/// names its serialization.
#[verifier::external_type_specification]
#[verifier::external_body]
pub struct ExUrl(Url);

/// `url::ParseError`, the reason why a string is no URL. Nothing inside it
/// is visible here.
#[verifier::external_type_specification]
#[verifier::external_body]
pub struct ExParseError(ParseError);

/// The serialization of a parsed URL, which is what `Url::as_str` returns.
pub uninterp spec fn url_text(url: Url) -> Seq<char>;

/// What `Url::parse` makes of a string: the serialization of the absolute
/// URL it denotes, or the reason why it denotes none.
pub uninterp spec fn parsed_url(input: Seq<char>) -> Result<Seq<char>, ParseError>;

/// What `Url::join` makes of a reference, given the serialization of the
/// base URL: the serialization of the URL that the reference denotes
/// relative to the base, or the reason why it denotes none.
pub uninterp spec fn joined_url(base: Seq<char>, reference: Seq<char>) -> Result<
    Seq<char>,
    ParseError,
>;

/// `parsed` is the URL, or the error, that the named result `expected`
/// describes.
pub open spec fn url_result_is(
    parsed: Result<Url, ParseError>,
    expected: Result<Seq<char>, ParseError>,
) -> bool {
    match parsed {
        Ok(url) => expected == Ok::<Seq<char>, ParseError>(url_text(url)),
        Err(e) => expected == Err::<Seq<char>, ParseError>(e),
    }
}

/// Calls `url::Url::parse`, which parses an absolute URL without a base.
///
/// The outcome is a function of the input alone; `parsed_url` names it.
#[verifier::external_body]
pub(crate) fn url_parse(input: &str) -> (parsed: Result<Url, ParseError>)
    ensures
        url_result_is(parsed, parsed_url(input@)),
{
    Url::parse(input)
}

/// Calls `url::Url::join`, which parses `reference` with `base` as the base
/// URL.
///
/// A `Url` is determined by its serialization, so the outcome is a function
/// of the base's serialization and the reference; `joined_url` names it.
#[verifier::external_body]
pub(crate) fn url_join(base: &Url, reference: &str) -> (joined: Result<Url, ParseError>)
    ensures
        url_result_is(joined, joined_url(url_text(*base), reference@)),
{
    base.join(reference)
}

/// Calls `url::Url::as_str`, which returns the serialization.
#[verifier::external_body]
pub(crate) fn url_as_string(url: &Url) -> (text: String)
    ensures
        text@ == url_text(*url),
{
    url.as_str().to_owned()
}

/// The path of the trace endpoint below a collector's base URL.
pub const TRACES_PATH: &'static str = "/v1/traces";

/// The trace endpoint of the collector at `endpoint`, as a named result:
/// `endpoint` parsed as an absolute URL, then `/v1/traces` joined onto it.
pub open spec fn trace_endpoint_text(endpoint: Seq<char>) -> Result<Seq<char>, ParseError> {
    match parsed_url(endpoint) {
        Ok(base) => joined_url(base, TRACES_PATH@),
        Err(e) => Err(e),
    }
}

/// Parses `endpoint` as an absolute URL and joins `/v1/traces` onto it.
pub fn trace_endpoint(endpoint: &str) -> (joined: Result<Url, ParseError>)
    ensures
        url_result_is(joined, trace_endpoint_text(endpoint@)),
{
    match url_parse(endpoint) {
        Ok(base) => url_join(&base, TRACES_PATH),
        Err(e) => Err(e),
    }
}

/// The serialization of `url`.
pub fn endpoint_text(url: &Url) -> (text: String)
    ensures
        text@ == url_text(*url),
{
    url_as_string(url)
}

} // verus!
