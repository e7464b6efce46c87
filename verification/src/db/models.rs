//! The four kinds of row that the store keeps.

use crate::api::models::optional_text;
use vstd::prelude::*;

verus! {

/// A plugin known locally.
#[derive(Debug, Clone, PartialEq, Eq)]
pub struct CachedPlugin {
    pub xml_id: String,
    pub numeric_id: u64,
}

pub ghost struct CachedPluginView {
    pub xml_id: Seq<char>,
    pub numeric_id: u64,
}

impl View for CachedPlugin {
    type V = CachedPluginView;

    open spec fn view(&self) -> CachedPluginView {
        CachedPluginView { xml_id: self.xml_id@, numeric_id: self.numeric_id }
    }
}

/// A version row, keyed by the plugin and the version string.
#[derive(Debug, Clone, PartialEq, Eq)]
pub struct CachedPluginVersion {
    pub version: String,
    pub update_id: u64,
    pub channel: String,
    pub plugin_xml_id: String,
}

pub ghost struct CachedPluginVersionView {
    pub version: Seq<char>,
    pub update_id: u64,
    pub channel: Seq<char>,
    pub plugin_xml_id: Seq<char>,
}

impl View for CachedPluginVersion {
    type V = CachedPluginVersionView;

    open spec fn view(&self) -> CachedPluginVersionView {
        CachedPluginVersionView {
            version: self.version@,
            update_id: self.update_id,
            channel: self.channel@,
            plugin_xml_id: self.plugin_xml_id@,
        }
    }
}

/// An edge from an update to something it depends on.
#[derive(Debug, Clone, PartialEq, Eq)]
pub struct CachedUpdateDependency {
    pub update_id: u64,
    pub dependency_xml_id: String,
    pub optional: bool,
}

pub ghost struct CachedUpdateDependencyView {
    pub update_id: u64,
    pub dependency_xml_id: Seq<char>,
    pub optional: bool,
}

impl View for CachedUpdateDependency {
    type V = CachedUpdateDependencyView;

    open spec fn view(&self) -> CachedUpdateDependencyView {
        CachedUpdateDependencyView {
            update_id: self.update_id,
            dependency_xml_id: self.dependency_xml_id@,
            optional: self.optional,
        }
    }
}

/// An update row. Every download field is absent until the update has been
/// resolved for the first time.
#[derive(Debug, Clone, PartialEq, Eq)]
pub struct CachedUpdate {
    pub id: u64,
    pub stale: bool,
    pub etag: Option<String>,
    pub file_name: Option<String>,
    pub download_url: Option<String>,
    pub hash_algorithm: Option<String>,
    pub hash: Option<Vec<u8>>,
}

pub ghost struct CachedUpdateView {
    pub id: u64,
    pub stale: bool,
    pub etag: Option<Seq<char>>,
    pub file_name: Option<Seq<char>>,
    pub download_url: Option<Seq<char>>,
    pub hash_algorithm: Option<Seq<char>>,
    pub hash: Option<Seq<u8>>,
}

impl View for CachedUpdate {
    type V = CachedUpdateView;

    open spec fn view(&self) -> CachedUpdateView {
        CachedUpdateView {
            id: self.id,
            stale: self.stale,
            etag: optional_text(self.etag),
            file_name: optional_text(self.file_name),
            download_url: optional_text(self.download_url),
            hash_algorithm: optional_text(self.hash_algorithm),
            hash: match self.hash {
                Some(bytes) => Some(bytes@),
                None => None,
            },
        }
    }
}

impl CachedPlugin {
    /// A second value with the same contents.
    pub fn duplicate(&self) -> (copy: CachedPlugin)
        ensures
            copy@ == self@,
    {
        CachedPlugin { xml_id: self.xml_id.clone(), numeric_id: self.numeric_id }
    }
}

impl CachedPluginVersion {
    /// A second value with the same contents.
    pub fn duplicate(&self) -> (copy: CachedPluginVersion)
        ensures
            copy@ == self@,
    {
        CachedPluginVersion {
            version: self.version.clone(),
            update_id: self.update_id,
            channel: self.channel.clone(),
            plugin_xml_id: self.plugin_xml_id.clone(),
        }
    }
}

impl CachedUpdateView {
    /// A hash never stands without the name of its algorithm.
    pub open spec fn well_formed(self) -> bool {
        self.hash.is_some() ==> self.hash_algorithm.is_some()
    }
}

impl CachedUpdate {
    /// The row of an update that has just been seen for the first time:
    /// stale, and nothing resolved.
    pub fn unresolved(id: u64) -> (row: CachedUpdate)
        ensures
            row@ == (CachedUpdateView {
                id,
                stale: true,
                etag: None,
                file_name: None,
                download_url: None,
                hash_algorithm: None,
                hash: None,
            }),
            row@.well_formed(),
    {
        CachedUpdate {
            id,
            stale: true,
            etag: None,
            file_name: None,
            download_url: None,
            hash_algorithm: None,
            hash: None,
        }
    }

    /// Whether a hash stands only beside the name of its algorithm.
    pub fn is_well_formed(&self) -> (ok: bool)
        ensures
            ok == self@.well_formed(),
    {
        self.hash.is_none() || self.hash_algorithm.is_some()
    }
}

} // verus!
