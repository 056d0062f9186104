//! Text encodings that header values and query strings are made of.

use vstd::prelude::*;
use base64::Engine;

verus! {

/// The standard base64 encoding, with padding, of the UTF-8 bytes of `text`.
pub uninterp spec fn base64_standard(text: Seq<char>) -> Seq<char>;

/// `text` as Rust's `Debug` formatting writes a string: in double quotes, with escapes.
pub uninterp spec fn debug_quoted(text: Seq<char>) -> Seq<char>;

/// The `application/x-www-form-urlencoded` form of `pairs`, in their order, or the reason
/// the encoder refuses them, as it reports it.
pub uninterp spec fn form_urlencoded(pairs: Seq<(Seq<char>, Seq<char>)>) -> Result<Seq<char>, Seq<char>>;

/// The texts of a list of pairs of strings.
pub open spec fn pairs_text(pairs: Seq<(String, String)>) -> Seq<(Seq<char>, Seq<char>)> {
    pairs.map_values(|pair: (String, String)| (pair.0@, pair.1@))
}

/// Calls `base64::Engine::encode` of `base64::engine::general_purpose::STANDARD` on the
/// bytes of `text`. Trusted: the result is a function of `text` alone, named
/// [`base64_standard`]. The encoder panics only where the encoded length does not fit
/// `usize`, which no `str` reaches, its length being at most `isize::MAX`.
#[verifier::external_body]
pub(crate) fn base64_encode(text: &str) -> (encoded: String)
    ensures
        encoded@ == base64_standard(text@),
{
    base64::engine::general_purpose::STANDARD.encode(text)
}

/// Formats `text` with `{:?}`. Trusted: the result is a function of `text` alone, named
/// [`debug_quoted`].
#[verifier::external_body]
pub(crate) fn debug_quote(text: &str) -> (quoted: String)
    ensures
        quoted@ == debug_quoted(text@),
{
    format!("{:?}", text)
}

/// Calls `serde_urlencoded::to_string` on `pairs`. Trusted: the result is a function of the
/// pairs' texts alone, named [`form_urlencoded`]: on success the encoded string, on failure
/// the encoder's error as `{:?}` writes it.
#[verifier::external_body]
pub(crate) fn encode_form(pairs: &Vec<(String, String)>) -> (result: Result<String, String>)
    ensures
        crate::address::same_text(result, form_urlencoded(pairs_text(pairs@))),
{
    match serde_urlencoded::to_string(pairs) {
        Ok(encoded) => Ok(encoded),
        Err(error) => Err(format!("{:?}", error)),
    }
}

} // verus!
