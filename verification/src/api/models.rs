//! Values that the upstream repository reports.

use vstd::prelude::*;

verus! {

/// The views of a sequence of values, in order.
pub open spec fn views<T: View>(values: Seq<T>) -> Seq<T::V> {
    Seq::new(values.len(), |i: int| values[i]@)
}

/// The texts of a sequence of strings, in order.
pub open spec fn texts(strings: Seq<String>) -> Seq<Seq<char>> {
    Seq::new(strings.len(), |i: int| strings[i]@)
}

/// A plugin as the repository describes it.
#[derive(Debug, Clone, PartialEq, Eq)]
pub struct RepoPluginDetails {
    pub xml_id: String,
    pub id: u64,
}

pub ghost struct RepoPluginDetailsView {
    pub xml_id: Seq<char>,
    pub id: u64,
}

impl View for RepoPluginDetails {
    type V = RepoPluginDetailsView;

    open spec fn view(&self) -> RepoPluginDetailsView {
        RepoPluginDetailsView { xml_id: self.xml_id@, id: self.id }
    }
}

/// One released version of a plugin, bound to the update that carries it.
#[derive(Debug, Clone, PartialEq, Eq)]
pub struct RepoUpdateVersion {
    pub id: u64,
    pub version: String,
    pub channel: String,
}

pub ghost struct RepoUpdateVersionView {
    pub id: u64,
    pub version: Seq<char>,
    pub channel: Seq<char>,
}

impl View for RepoUpdateVersion {
    type V = RepoUpdateVersionView;

    open spec fn view(&self) -> RepoUpdateVersionView {
        RepoUpdateVersionView { id: self.id, version: self.version@, channel: self.channel@ }
    }
}

/// The dependencies that an update declares; either list may be empty.
#[derive(Debug, Clone, PartialEq, Eq)]
pub struct RepoUpdateMetadata {
    pub dependencies: Vec<String>,
    pub optional_dependencies: Vec<String>,
}

pub ghost struct RepoUpdateMetadataView {
    pub dependencies: Seq<Seq<char>>,
    pub optional_dependencies: Seq<Seq<char>>,
}

impl View for RepoUpdateMetadata {
    type V = RepoUpdateMetadataView;

    open spec fn view(&self) -> RepoUpdateMetadataView {
        RepoUpdateMetadataView {
            dependencies: texts(self.dependencies@),
            optional_dependencies: texts(self.optional_dependencies@),
        }
    }
}

/// Where an update's artifact is served from, after redirects, with the
/// caching token and file name that the final answer carried.
#[derive(Debug, Clone, PartialEq, Eq)]
pub struct RepoDownloadInfo {
    pub url: String,
    pub etag: Option<String>,
    pub file_name: Option<String>,
}

/// The text of an optional string.
pub open spec fn optional_text(value: Option<String>) -> Option<Seq<char>> {
    match value {
        Some(s) => Some(s@),
        None => None,
    }
}

pub ghost struct RepoDownloadInfoView {
    pub url: Seq<char>,
    pub etag: Option<Seq<char>>,
    pub file_name: Option<Seq<char>>,
}

impl View for RepoDownloadInfo {
    type V = RepoDownloadInfoView;

    open spec fn view(&self) -> RepoDownloadInfoView {
        RepoDownloadInfoView {
            url: self.url@,
            etag: optional_text(self.etag),
            file_name: optional_text(self.file_name),
        }
    }
}

/// A content hash: the algorithm's name and the raw digest bytes.
#[derive(Debug, Clone, PartialEq, Eq)]
pub struct RepoDownloadHash {
    pub algorithm: String,
    pub value: Vec<u8>,
}

pub ghost struct RepoDownloadHashView {
    pub algorithm: Seq<char>,
    pub value: Seq<u8>,
}

impl View for RepoDownloadHash {
    type V = RepoDownloadHashView;

    open spec fn view(&self) -> RepoDownloadHashView {
        RepoDownloadHashView { algorithm: self.algorithm@, value: self.value@ }
    }
}

} // verus!
