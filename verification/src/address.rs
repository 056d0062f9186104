//! Absolute URLs as text: parsing, joining a reference onto a base, and reading the scheme.
//!
//! The URL grammar is that of the `url` crate, reached as `reqwest::Url`. A URL is held here
//! as the text that the parser writes it back as.

use vstd::prelude::*;

verus! {

/// What parsing `input` as an absolute URL gives: the URL written back as text, or the
/// reason it is refused, as the parser names it.
pub uninterp spec fn url_parse(input: Seq<char>) -> Result<Seq<char>, Seq<char>>;

/// What parsing `base` and then resolving `reference` against it gives: the resulting URL
/// written back as text, or the reason either step is refused, as the parser names it.
pub uninterp spec fn url_join(base: Seq<char>, reference: Seq<char>) -> Result<Seq<char>, Seq<char>>;

/// The scheme of the URL that `url` parses to, without the colon, or the reason `url` is
/// refused, as the parser names it.
pub uninterp spec fn url_scheme(url: Seq<char>) -> Result<Seq<char>, Seq<char>>;

/// `result` holds the text of `named`, in the same variant.
pub open spec fn same_text(result: Result<String, String>, named: Result<Seq<char>, Seq<char>>) -> bool {
    match result {
        Ok(text) => named == Ok::<Seq<char>, Seq<char>>(text@),
        Err(reason) => named == Err::<Seq<char>, Seq<char>>(reason@),
    }
}

/// Calls `reqwest::Url::parse` on `input`. Trusted: the result is a function of `input`
/// alone, named [`url_parse`]: on success the URL's serialization, on failure the name of
/// the `ParseError` variant.
#[verifier::external_body]
pub(crate) fn parse_url(input: &str) -> (result: Result<String, String>)
    ensures
        same_text(result, url_parse(input@)),
{
    match reqwest::Url::parse(input) {
        Ok(url) => Ok(String::from(url)),
        Err(error) => Err(format!("{:?}", error)),
    }
}

/// Calls `reqwest::Url::join` on the URL that `base` parses to, with `reference`. Trusted:
/// the result is a function of the two texts alone, named [`url_join`]: on success the
/// joined URL's serialization, on failure the name of the `ParseError` variant of the step
/// that failed.
#[verifier::external_body]
pub(crate) fn join_url(base: &str, reference: &str) -> (result: Result<String, String>)
    ensures
        same_text(result, url_join(base@, reference@)),
{
    match reqwest::Url::parse(base) {
        Ok(url) => match url.join(reference) {
            Ok(joined) => Ok(String::from(joined)),
            Err(error) => Err(format!("{:?}", error)),
        },
        Err(error) => Err(format!("{:?}", error)),
    }
}

/// Calls `reqwest::Url::scheme` on the URL that `url` parses to. Trusted: the result is a
/// function of `url` alone, named [`url_scheme`]: on success the scheme, lower-cased and
/// without the colon, on failure the name of the `ParseError` variant.
#[verifier::external_body]
pub(crate) fn scheme_of_url(url: &str) -> (result: Result<String, String>)
    ensures
        same_text(result, url_scheme(url@)),
{
    match reqwest::Url::parse(url) {
        Ok(parsed) => Ok(String::from(parsed.scheme())),
        Err(error) => Err(format!("{:?}", error)),
    }
}

} // verus!
