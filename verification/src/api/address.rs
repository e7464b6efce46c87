//! Locations of the repository's resources, as texts.

use crate::api::models::optional_text;
use vstd::prelude::*;

verus! {

/// The path component of a URL, or nothing where the text is no URL.
pub uninterp spec fn url_path_of(url: Seq<char>) -> Option<Seq<char>>;

/// A URL with its path replaced, or nothing where the text is no URL.
pub uninterp spec fn url_with_path_of(url: Seq<char>, path: Seq<char>) -> Option<Seq<char>>;

/// The most bytes that a text handed to the URL functions may have: the
/// `url` crate keeps positions in thirty-two bits, and escaping can make a
/// text three times as long.
pub const URL_TEXT_LIMIT: usize = 0x0FFF_FFFF;

/// Whether a text is short enough for the URL functions.
pub open spec fn fits_url(text: Seq<char>) -> bool {
    vstd::utf8::encode_utf8(text).len() <= URL_TEXT_LIMIT
}

/// `Url::parse` and `Url::path` of the `url` crate: the path of a text that
/// parses as a URL.
#[verifier::external_body]
pub(crate) fn url_path(url: &str) -> (path: Option<String>)
    ensures
        optional_text(path) == url_path_of(url@),
{
    match ::url::Url::parse(url) {
        Ok(parsed) => Some(parsed.path().to_owned()),
        Err(_) => None,
    }
}

/// `Url::set_path` of the `url` crate, on a text that parses as a URL: the
/// URL with the new path, written out again. Texts that could take the
/// result beyond the crate's limit are left out.
#[verifier::external_body]
pub(crate) fn url_with_path(url: &str, path: &str) -> (changed: Option<String>)
    requires
        fits_url(url@),
        fits_url(path@),
    ensures
        optional_text(changed) == url_with_path_of(url@, path@),
{
    match ::url::Url::parse(url) {
        Ok(mut parsed) => {
            parsed.set_path(path);
            Some(parsed.into())
        },
        Err(_) => None,
    }
}

} // verus!
