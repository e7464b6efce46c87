//! Resolving the content hash of an artifact: the published hash document
//! first, and the artifact itself where the repository publishes none.

use crate::api::address::{
    fits_url, url_path, url_path_of, url_with_path, url_with_path_of, URL_TEXT_LIMIT,
};
use crate::api::digest::{hasher_finalize, hasher_input, sha256_of, ArtifactHasher};
use crate::api::models::{optional_text, RepoDownloadHash, RepoDownloadHashView};
use crate::codec::{base64_decoded, decode_standard};
use crate::error::IndexerError;
use vstd::prelude::*;
use vstd::string::*;

verus! {

/// What the answer to the request for the hash document means.
#[derive(Debug, Clone, Copy, PartialEq, Eq, Structural)]
pub enum ProbeVerdict {
    /// No document is published: the artifact has to be hashed here.
    Fallback,
    /// The answer carries the document.
    Document,
    /// The answer is an error.
    Rejected,
}

/// The meaning of a status of the request for the hash document: 400, 403
/// and 404 say that there is none, a status from 200 to 299 brings it, and
/// every other status is an error.
pub open spec fn probe_verdict(status: u16) -> ProbeVerdict {
    if status == 400 || status == 403 || status == 404 {
        ProbeVerdict::Fallback
    } else if 200 <= status <= 299 {
        ProbeVerdict::Document
    } else {
        ProbeVerdict::Rejected
    }
}

/// Classifies the status of the request for the hash document.
pub fn classify_probe(status: u16) -> (verdict: ProbeVerdict)
    ensures
        verdict == probe_verdict(status),
{
    if status == 400 || status == 403 || status == 404 {
        ProbeVerdict::Fallback
    } else if 200 <= status && status <= 299 {
        ProbeVerdict::Document
    } else {
        ProbeVerdict::Rejected
    }
}

/// Whether a status says that the request itself failed, on the client's
/// side or on the server's.
pub open spec fn is_error_status(status: u16) -> bool {
    400 <= status <= 599
}

/// Tells whether a status says that the request failed.
pub fn rejects(status: u16) -> (rejected: bool)
    ensures
        rejected == is_error_status(status),
{
    400 <= status && status <= 599
}

/// The hash that a hash document stands for: its algorithm, and the bytes
/// that its base64 text decodes to.
pub open spec fn hash_in_document(algorithm: Seq<char>, hash: Seq<char>) -> Result<
    RepoDownloadHashView,
    base64::DecodeError,
> {
    match base64_decoded(hash) {
        Ok(value) => Ok(RepoDownloadHashView { algorithm, value }),
        Err(error) => Err(error),
    }
}

/// Reads the hash out of the two fields of a hash document. The only way to
/// fail is a hash that is not valid base64; the error then carries the
/// decoder's reason.
pub fn decode_hash_document(algorithm: String, hash: &str) -> (decoded: Result<
    RepoDownloadHash,
    IndexerError,
>)
    ensures
        match decoded {
            Ok(found) => hash_in_document(algorithm@, hash@) == Ok::<
                RepoDownloadHashView,
                base64::DecodeError,
            >(found@),
            Err(error) => error matches IndexerError::InvalidBase64(reason) && hash_in_document(
                algorithm@,
                hash@,
            ) == Err::<RepoDownloadHashView, base64::DecodeError>(reason),
        },
{
    match decode_standard(hash) {
        Ok(value) => Ok(RepoDownloadHash { algorithm, value }),
        Err(error) => Err(IndexerError::InvalidBase64(error)),
    }
}

/// What is appended to an artifact's path to reach its hash document.
pub open spec fn probe_suffix() -> Seq<char> {
    ".hash.json"@
}

/// The URL of an artifact's hash document: the artifact's URL with the
/// suffix appended to its path. There is none where the text is no URL, or
/// where it is too long for the URL functions.
pub open spec fn probe_url_of(url: Seq<char>) -> Option<Seq<char>> {
    match url_path_of(url) {
        Some(path) => if fits_url(url) && fits_url(path + probe_suffix()) {
            url_with_path_of(url, path + probe_suffix())
        } else {
            None
        },
        None => None,
    }
}

/// Computes the URL of an artifact's hash document.
pub fn hash_probe_url(url: &str) -> (probe: Option<String>)
    ensures
        optional_text(probe) == probe_url_of(url@),
{
    let path = match url_path(url) {
        Some(path) => path,
        None => {
            return None;
        },
    };
    let longer = path.concat(".hash.json");
    if url.as_bytes().len() > URL_TEXT_LIMIT || longer.as_str().as_bytes().len() > URL_TEXT_LIMIT {
        return None;
    }
    url_with_path(url, longer.as_str())
}

/// The name under which a hash computed here is stored.
pub open spec fn fallback_algorithm() -> Seq<char> {
    "SHA-256"@
}

/// Ends the hashing of an artifact: the SHA-256 of all the chunks, in the
/// order in which they were fed, under the name of the algorithm.
pub(crate) fn finish_artifact_hash(hasher: ArtifactHasher) -> (hash: RepoDownloadHash)
    ensures
        hash@ == (RepoDownloadHashView {
            algorithm: fallback_algorithm(),
            value: sha256_of(hasher_input(hasher)),
        }),
        hash@.value.len() == 32,
{
    let value = hasher_finalize(hasher);
    RepoDownloadHash { algorithm: String::from_str("SHA-256"), value }
}

} // verus!
