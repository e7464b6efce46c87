//! Reading the caching token and the file name out of response headers.

use crate::api::models::{optional_text, RepoDownloadInfo, RepoDownloadInfoView};
use crate::text::{enclosed, strip_enclosing, trim, trimmed};
use vstd::prelude::*;

verus! {

/// A single double quote.
pub open spec fn quote() -> Seq<char> {
    seq!['"']
}

/// What a `content-disposition` value of an attachment starts with.
pub open spec fn attachment_prefix() -> Seq<char> {
    "attachment; filename=\""@
}

/// The caching token in an `etag` value: what stands between the double
/// quotes that surround the trimmed value, if they are there.
pub open spec fn etag_in(value: Seq<char>) -> Option<Seq<char>> {
    enclosed(trimmed(value), quote(), quote())
}

/// The file name in a `content-disposition` value of the form
/// `attachment; filename="<name>"`.
pub open spec fn file_name_in(value: Seq<char>) -> Option<Seq<char>> {
    enclosed(trimmed(value), attachment_prefix(), quote())
}

/// Reads the caching token out of an `etag` header value.
pub fn parse_etag(value: &str) -> (etag: Option<String>)
    ensures
        optional_text(etag) == etag_in(value@),
{
    let mark = "\"";
    proof {
        reveal_strlit("\"");
        assert(mark@ =~= quote());
    }
    strip_enclosing(trim(value), mark, mark)
}

/// Reads the file name out of a `content-disposition` header value.
pub fn parse_attachment_file_name(value: &str) -> (file_name: Option<String>)
    ensures
        optional_text(file_name) == file_name_in(value@),
{
    let mark = "\"";
    proof {
        reveal_strlit("\"");
        assert(mark@ =~= quote());
    }
    strip_enclosing(trim(value), "attachment; filename=\"", mark)
}

/// The text of a header value that may be missing.
pub open spec fn header_text(value: Option<&str>) -> Option<Seq<char>> {
    match value {
        Some(v) => Some(v@),
        None => None,
    }
}

/// The caching token that an `etag` header yields, if the header is there
/// and has the expected form.
pub open spec fn etag_of(header: Option<Seq<char>>) -> Option<Seq<char>> {
    match header {
        Some(value) => etag_in(value),
        None => None,
    }
}

/// The file name that a `content-disposition` header yields, if the header
/// is there and has the expected form.
pub open spec fn file_name_of(header: Option<Seq<char>>) -> Option<Seq<char>> {
    match header {
        Some(value) => file_name_in(value),
        None => None,
    }
}

/// The download information that a resolved request yields: the final URL,
/// and the token and file name of its headers. A header that is missing, or
/// that does not have the expected form, yields nothing.
pub fn download_info(url: String, etag: Option<&str>, disposition: Option<&str>) -> (info:
    RepoDownloadInfo)
    ensures
        info@ == (RepoDownloadInfoView {
            url: url@,
            etag: etag_of(header_text(etag)),
            file_name: file_name_of(header_text(disposition)),
        }),
{
    let etag = match etag {
        Some(v) => parse_etag(v),
        None => None,
    };
    let file_name = match disposition {
        Some(v) => parse_attachment_file_name(v),
        None => None,
    };
    RepoDownloadInfo { url, etag, file_name }
}

} // verus!
