//! The resources of the repository that the indexer reads.

use crate::api::address::{fits_url, URL_TEXT_LIMIT};
use crate::api::models::{optional_text, texts};
use crate::text::{decimal, decimal_text};
use vstd::prelude::*;
use vstd::string::*;

verus! {

/// Where the repository is served.
pub const REPOSITORY_BASE: &'static str = "https://plugins.jetbrains.com/";

/// How many redirects a request follows before it gives up.
pub const REDIRECT_LIMIT: usize = 10;

/// A resource of the repository.
#[derive(Debug, Clone, PartialEq, Eq)]
pub enum Endpoint {
    /// The identifiers of all plugins.
    AllXmlIds,
    /// The details of the plugin with this identifier.
    PluginDetails(String),
    /// The versions of the plugin with this number.
    PluginVersions(u64),
    /// The metadata of an update of a plugin.
    UpdateMetadata { plugin_id: u64, update_id: u64 },
    /// The redirect to the artifact of an update.
    Download(u64),
}

pub ghost enum EndpointView {
    AllXmlIds,
    PluginDetails(Seq<char>),
    PluginVersions(u64),
    UpdateMetadata { plugin_id: u64, update_id: u64 },
    Download(u64),
}

impl View for Endpoint {
    type V = EndpointView;

    open spec fn view(&self) -> EndpointView {
        match self {
            Endpoint::AllXmlIds => EndpointView::AllXmlIds,
            Endpoint::PluginDetails(xml_id) => EndpointView::PluginDetails(xml_id@),
            Endpoint::PluginVersions(id) => EndpointView::PluginVersions(*id),
            Endpoint::UpdateMetadata { plugin_id, update_id } => EndpointView::UpdateMetadata {
                plugin_id: *plugin_id,
                update_id: *update_id,
            },
            Endpoint::Download(id) => EndpointView::Download(*id),
        }
    }
}

impl EndpointView {
    /// The path of the resource below the repository's base, segment by
    /// segment.
    pub open spec fn segments(self) -> Seq<Seq<char>> {
        match self {
            EndpointView::AllXmlIds => seq!["files"@, "pluginsXMLIds.json"@],
            EndpointView::PluginDetails(xml_id) => seq!["api"@, "plugins"@, "intellij"@, xml_id],
            EndpointView::PluginVersions(id) => seq![
                "api"@,
                "plugins"@,
                decimal(id as nat),
                "updateVersions"@,
            ],
            EndpointView::UpdateMetadata { plugin_id, update_id } => seq![
                "files"@,
                decimal(plugin_id as nat),
                decimal(update_id as nat),
                "meta.json"@,
            ],
            EndpointView::Download(_) => seq!["plugin"@, "download"@],
        }
    }

    /// The one query parameter of the resource, if it takes one.
    pub open spec fn query(self) -> Option<(Seq<char>, Seq<char>)> {
        match self {
            EndpointView::Download(id) => Some(("updateId"@, decimal(id as nat))),
            _ => None,
        }
    }

    /// Whether the answer's body is not read: only where the request ended
    /// and what its headers say is of interest.
    pub open spec fn headers_only(self) -> bool {
        self is Download
    }
}

/// A URL with path segments appended, each escaped as a path needs it, or
/// nothing where the text is no URL that can take segments.
pub uninterp spec fn url_extended_by(base: Seq<char>, segments: Seq<Seq<char>>) -> Option<
    Seq<char>,
>;

/// The number of bytes of all the texts of a list together.
pub open spec fn total_bytes(list: Seq<Seq<char>>) -> nat
    decreases list.len(),
{
    if list.len() == 0 {
        0
    } else {
        total_bytes(list.drop_last()) + vstd::utf8::encode_utf8(list.last()).len()
    }
}

/// Whether a base and a list of segments are short enough for the URL
/// functions.
pub open spec fn extension_fits(base: Seq<char>, segments: Seq<Seq<char>>) -> bool {
    fits_url(base) && segments.len() <= URL_TEXT_LIMIT && total_bytes(segments) <= URL_TEXT_LIMIT
}

/// `Url::parse`, `Url::path_segments_mut` and `PathSegmentsMut::extend` of
/// the `url` crate: the base with the segments appended to its path,
/// written out again. Inputs that could take the result beyond the crate's
/// limit are left out.
#[verifier::external_body]
fn url_extended(base: &str, segments: &Vec<String>) -> (extended: Option<String>)
    requires
        extension_fits(base@, texts(segments@)),
    ensures
        optional_text(extended) == url_extended_by(base@, texts(segments@)),
{
    let mut url = ::url::Url::parse(base).ok()?;
    url.path_segments_mut().ok()?.extend(segments);
    Some(url.into())
}

fn fits(base: &str, segments: &Vec<String>) -> (ok: bool)
    ensures
        ok == extension_fits(base@, texts(segments@)),
{
    if base.as_bytes().len() > URL_TEXT_LIMIT || segments.len() > URL_TEXT_LIMIT {
        return false;
    }
    let mut sum: usize = 0;
    let mut i: usize = 0;
    assert(texts(segments@).take(0) =~= Seq::empty());
    while i < segments.len()
        invariant
            i <= segments.len(),
            sum == total_bytes(texts(segments@).take(i as int)),
            sum <= URL_TEXT_LIMIT,
        decreases segments.len() - i,
    {
        let size: usize = segments[i].as_str().as_bytes().len();
        proof {
            let next = texts(segments@).take(i + 1);
            assert(next.drop_last() =~= texts(segments@).take(i as int));
            assert(next.last() == segments@[i as int]@);
            lemma_total_bytes_grows(texts(segments@), i + 1);
        }
        if size > URL_TEXT_LIMIT - sum {
            return false;
        }
        sum = sum + size;
        i += 1;
    }
    assert(texts(segments@).take(segments.len() as int) =~= texts(segments@));
    true
}

proof fn lemma_total_bytes_grows(list: Seq<Seq<char>>, n: int)
    requires
        0 <= n <= list.len(),
    ensures
        total_bytes(list.take(n)) <= total_bytes(list),
    decreases list.len() - n,
{
    if n < list.len() {
        lemma_total_bytes_grows(list, n + 1);
        assert(list.take(n + 1).drop_last() =~= list.take(n));
    } else {
        assert(list.take(n) =~= list);
    }
}

impl Endpoint {
    /// The path of the resource below the repository's base.
    pub fn segments(&self) -> (segments: Vec<String>)
        ensures
            texts(segments@) == self@.segments(),
    {
        let mut segments: Vec<String> = Vec::new();
        match self {
            Endpoint::AllXmlIds => {
                segments.push(String::from_str("files"));
                segments.push(String::from_str("pluginsXMLIds.json"));
            },
            Endpoint::PluginDetails(xml_id) => {
                segments.push(String::from_str("api"));
                segments.push(String::from_str("plugins"));
                segments.push(String::from_str("intellij"));
                segments.push(xml_id.clone());
            },
            Endpoint::PluginVersions(id) => {
                segments.push(String::from_str("api"));
                segments.push(String::from_str("plugins"));
                segments.push(decimal_text(*id));
                segments.push(String::from_str("updateVersions"));
            },
            Endpoint::UpdateMetadata { plugin_id, update_id } => {
                segments.push(String::from_str("files"));
                segments.push(decimal_text(*plugin_id));
                segments.push(decimal_text(*update_id));
                segments.push(String::from_str("meta.json"));
            },
            Endpoint::Download(_) => {
                segments.push(String::from_str("plugin"));
                segments.push(String::from_str("download"));
            },
        }
        assert(texts(segments@) =~= self@.segments());
        segments
    }

    /// The one query parameter of the resource, if it takes one.
    pub fn query(&self) -> (pair: Option<(String, String)>)
        ensures
            match pair {
                Some((name, value)) => self@.query() == Some((name@, value@)),
                None => self@.query().is_none(),
            },
    {
        match self {
            Endpoint::Download(id) => Some((String::from_str("updateId"), decimal_text(*id))),
            _ => None,
        }
    }

    /// Tells whether the answer's body is not read.
    pub fn is_headers_only(&self) -> (only: bool)
        ensures
            only == self@.headers_only(),
    {
        match self {
            Endpoint::Download(_) => true,
            _ => false,
        }
    }

    /// The URL of the resource below a base, without its query: the base
    /// with the segments appended. There is none where the base is no URL
    /// that can take segments, or where the texts are too long.
    pub open spec fn url_below(self, base: Seq<char>) -> Option<Seq<char>> {
        if extension_fits(base, self@.segments()) {
            url_extended_by(base, self@.segments())
        } else {
            None
        }
    }

    /// Computes the URL of the resource below a base, without its query.
    pub fn url(&self, base: &str) -> (url: Option<String>)
        ensures
            optional_text(url) == self.url_below(base@),
    {
        let segments = self.segments();
        if !fits(base, &segments) {
            return None;
        }
        url_extended(base, &segments)
    }
}

} // verus!
