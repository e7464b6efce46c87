//! Shape of the emitted catalogue: digest paths, per-version entries and the
//! latest version of each channel.

use crate::api::digest::{sha256, sha256_of};
use crate::api::models::{texts, views};
use crate::codec::{base64_encoded, encodable_len, encode_standard};
use crate::db::models::{
    CachedPlugin, CachedPluginVersion, CachedPluginVersionView, CachedUpdate,
    CachedUpdateDependency, CachedUpdateDependencyView, CachedUpdateView,
};
use crate::meta::catalogue::{arrange, arranged, in_order};
use crate::meta::precedence::{replaces, supersedes};
use crate::text::{lowercased, push_char, same_string, same_text, to_lowercase};
use vstd::prelude::*;
use vstd::string::*;

verus! {

/// The lower-case hexadecimal digit that stands for a value below sixteen.
pub open spec fn hex_digit(n: int) -> char
    recommends
        0 <= n < 16,
{
    if n == 0 {
        '0'
    } else if n == 1 {
        '1'
    } else if n == 2 {
        '2'
    } else if n == 3 {
        '3'
    } else if n == 4 {
        '4'
    } else if n == 5 {
        '5'
    } else if n == 6 {
        '6'
    } else if n == 7 {
        '7'
    } else if n == 8 {
        '8'
    } else if n == 9 {
        '9'
    } else if n == 10 {
        'a'
    } else if n == 11 {
        'b'
    } else if n == 12 {
        'c'
    } else if n == 13 {
        'd'
    } else if n == 14 {
        'e'
    } else {
        'f'
    }
}

fn hex_digit_of(n: u8) -> (c: char)
    requires
        n < 16,
    ensures
        c == hex_digit(n as int),
{
    match n {
        0 => '0',
        1 => '1',
        2 => '2',
        3 => '3',
        4 => '4',
        5 => '5',
        6 => '6',
        7 => '7',
        8 => '8',
        9 => '9',
        10 => 'a',
        11 => 'b',
        12 => 'c',
        13 => 'd',
        14 => 'e',
        _ => 'f',
    }
}

/// The two hexadecimal digits of a byte, high nibble first.
pub fn byte_to_hex(byte: u8) -> (digits: (char, char))
    ensures
        digits.0 == hex_digit(byte as int / 16),
        digits.1 == hex_digit(byte as int % 16),
{
    let high: u8 = byte >> 4;
    let low: u8 = byte & 0xF;
    assert(high == byte / 16 && low == byte % 16) by (bit_vector)
        requires
            high == byte >> 4,
            low == byte & 0xF,
    ;
    (hex_digit_of(high), hex_digit_of(low))
}

/// The hexadecimal text of a byte string: two digits for each byte.
pub open spec fn hex_of(bytes: Seq<u8>) -> Seq<char> {
    Seq::new(
        2 * bytes.len(),
        |i: int|
            if i % 2 == 0 {
                hex_digit(bytes[i / 2] as int / 16)
            } else {
                hex_digit(bytes[i / 2] as int % 16)
            },
    )
}

/// Writes a byte string in hexadecimal.
pub fn hex_digest(bytes: &[u8]) -> (text: String)
    ensures
        text@ == hex_of(bytes@),
{
    let mut text = String::new();
    let mut i: usize = 0;
    while i < bytes.len()
        invariant
            i <= bytes.len(),
            text@.len() == 2 * i,
            forall|k: int| 0 <= k < 2 * i ==> text@[k] == hex_of(bytes@)[k],
        decreases bytes.len() - i,
    {
        let (high, low) = byte_to_hex(bytes[i]);
        push_char(&mut text, high);
        push_char(&mut text, low);
        i += 1;
    }
    assert(text@ =~= hex_of(bytes@));
    text
}

/// Where a plugin's part of the catalogue lies: the hexadecimal SHA-256 of
/// its identifier, cut after the second and the fourth digit.
#[derive(Debug, Clone, PartialEq, Eq)]
pub struct PluginLocation {
    pub digest: String,
    pub top: String,
    pub middle: String,
    pub leaf: String,
}

/// The digest by which a plugin is filed.
pub open spec fn location_digest(xml_id: &str) -> Seq<char> {
    hex_of(sha256_of(xml_id.spec_bytes()))
}

/// Computes where a plugin's part of the catalogue lies.
pub fn plugin_location(xml_id: &str) -> (location: PluginLocation)
    ensures
        location.digest@ == location_digest(xml_id),
        location.digest@.len() == 64,
        location.top@ == location.digest@.subrange(0, 2),
        location.middle@ == location.digest@.subrange(2, 4),
        location.leaf@ == location.digest@.subrange(4, 64),
{
    let hash = sha256(xml_id.as_bytes());
    let digest = hex_digest(hash.as_slice());
    let top = String::from_str(digest.as_str().substring_char(0, 2));
    let middle = String::from_str(digest.as_str().substring_char(2, 4));
    let leaf = String::from_str(digest.as_str().substring_char(4, 64));
    PluginLocation { digest, top, middle, leaf }
}

/// What the catalogue says of one version.
#[derive(Debug, Clone, PartialEq, Eq)]
pub struct VersionMetadata {
    pub download_url: String,
    pub sha256: String,
    pub channel: String,
    pub dependencies: Vec<String>,
    pub optional_dependencies: Vec<String>,
}

pub ghost struct VersionMetadataView {
    pub download_url: Seq<char>,
    pub sha256: Seq<char>,
    pub channel: Seq<char>,
    pub dependencies: Seq<Seq<char>>,
    pub optional_dependencies: Seq<Seq<char>>,
}

impl View for VersionMetadata {
    type V = VersionMetadataView;

    open spec fn view(&self) -> VersionMetadataView {
        VersionMetadataView {
            download_url: self.download_url@,
            sha256: self.sha256@,
            channel: self.channel@,
            dependencies: texts(self.dependencies@),
            optional_dependencies: texts(self.optional_dependencies@),
        }
    }
}

/// A version string with what the catalogue says of it.
#[derive(Debug, Clone, PartialEq, Eq)]
pub struct VersionEntry {
    pub version: String,
    pub metadata: VersionMetadata,
}

pub ghost struct VersionEntryView {
    pub version: Seq<char>,
    pub metadata: VersionMetadataView,
}

impl View for VersionEntry {
    type V = VersionEntryView;

    open spec fn view(&self) -> VersionEntryView {
        VersionEntryView { version: self.version@, metadata: self.metadata@ }
    }
}

/// The latest version of one channel.
#[derive(Debug, Clone, PartialEq, Eq)]
pub struct ChannelLatest {
    pub channel: String,
    pub version: String,
}

/// The name of the only hash algorithm that the catalogue carries.
pub open spec fn sha256_name() -> Seq<char> {
    "SHA-256"@
}

/// The channel's name as the catalogue shows it: lower case, and `stable`
/// for the empty name.
pub open spec fn normalized_channel(channel: Seq<char>) -> Seq<char> {
    if channel.len() == 0 {
        "stable"@
    } else {
        lowercased(channel)
    }
}

/// Gives a channel the name under which the catalogue shows it.
pub fn normalize_channel(channel: &str) -> (name: String)
    ensures
        name@ == normalized_channel(channel@),
{
    if channel.is_empty() {
        String::from_str("stable")
    } else {
        to_lowercase(channel)
    }
}

/// The identifiers of the dependencies that are, or are not, optional, in
/// the order of the rows.
pub open spec fn names_with(deps: Seq<CachedUpdateDependencyView>, optional: bool) -> Seq<
    Seq<char>,
>
    decreases deps.len(),
{
    if deps.len() == 0 {
        Seq::empty()
    } else {
        let before = names_with(deps.drop_last(), optional);
        if deps.last().optional == optional {
            before.push(deps.last().dependency_xml_id)
        } else {
            before
        }
    }
}

/// Splits dependency rows into the required and the optional identifiers.
pub fn split_dependencies(deps: &Vec<CachedUpdateDependency>) -> (names: (Vec<String>, Vec<String>))
    ensures
        texts(names.0@) == names_with(views(deps@), false),
        texts(names.1@) == names_with(views(deps@), true),
{
    let mut required: Vec<String> = Vec::new();
    let mut optional: Vec<String> = Vec::new();
    let mut i: usize = 0;
    assert(views(deps@).take(0) =~= Seq::empty());
    assert(texts(required@) =~= Seq::empty());
    assert(texts(optional@) =~= Seq::empty());
    while i < deps.len()
        invariant
            i <= deps.len(),
            texts(required@) == names_with(views(deps@).take(i as int), false),
            texts(optional@) == names_with(views(deps@).take(i as int), true),
        decreases deps.len() - i,
    {
        let ghost before_required = required@;
        let ghost before_optional = optional@;
        let name = deps[i].dependency_xml_id.clone();
        if deps[i].optional {
            optional.push(name);
            assert(texts(optional@) =~= texts(before_optional).push(name@));
        } else {
            required.push(name);
            assert(texts(required@) =~= texts(before_required).push(name@));
        }
        proof {
            let next = views(deps@).take(i + 1);
            assert(next.drop_last() =~= views(deps@).take(i as int));
            assert(next.last() == deps@[i as int]@);
        }
        i += 1;
    }
    assert(views(deps@).take(deps.len() as int) =~= views(deps@));
    (required, optional)
}

/// Whether the catalogue shows an update: it was confirmed in the last
/// pass, has been resolved, and carries a SHA-256 hash.
pub open spec fn listed(update: CachedUpdateView) -> bool {
    !update.stale && update.download_url.is_some() && update.hash_algorithm == Some(
        sha256_name(),
    )
}

/// The catalogue's entry for a version, or nothing where its update is not
/// shown.
pub open spec fn entry_for(
    version: CachedPluginVersionView,
    update: CachedUpdateView,
    deps: Seq<CachedUpdateDependencyView>,
) -> Option<VersionEntryView> {
    if listed(update) && update.hash.is_some() {
        Some(
            VersionEntryView {
                version: version.version,
                metadata: VersionMetadataView {
                    download_url: update.download_url.unwrap(),
                    sha256: base64_encoded(update.hash.unwrap()),
                    channel: normalized_channel(version.channel),
                    dependencies: names_with(deps, false),
                    optional_dependencies: names_with(deps, true),
                },
            },
        )
    } else {
        None
    }
}

/// Builds the catalogue's entry for a version from its update row and the
/// update's dependency rows. An update that would be shown must carry its
/// hash.
pub fn version_entry(
    version: &CachedPluginVersion,
    update: &CachedUpdate,
    deps: &Vec<CachedUpdateDependency>,
) -> (entry: Option<VersionEntry>)
    requires
        listed(update@) ==> update@.hash.is_some(),
        update@.hash matches Some(bytes) ==> bytes.len() <= encodable_len(),
    ensures
        match entry {
            Some(e) => Some(e@),
            None => None,
        } == entry_for(version@, update@, views(deps@)),
{
    if update.stale {
        return None;
    }
    let download_url = match &update.download_url {
        Some(url) => url.clone(),
        None => {
            return None;
        },
    };
    let supported = match &update.hash_algorithm {
        Some(algorithm) => same_text(algorithm.as_str(), "SHA-256"),
        None => false,
    };
    if !supported {
        return None;
    }
    let sha256 = match &update.hash {
        Some(bytes) => encode_standard(bytes.as_slice()),
        None => {
            return None;
        },
    };
    let channel = normalize_channel(version.channel.as_str());
    let (dependencies, optional_dependencies) = split_dependencies(deps);
    Some(
        VersionEntry {
            version: version.version.clone(),
            metadata: VersionMetadata {
                download_url,
                sha256,
                channel,
                dependencies,
                optional_dependencies,
            },
        },
    )
}

/// The latest version of a channel among entries that are taken in order:
/// the first entry of the channel stands until a later one replaces it.
pub open spec fn latest_in(entries: Seq<VersionEntryView>, channel: Seq<char>) -> Option<
    Seq<char>,
>
    decreases entries.len(),
{
    if entries.len() == 0 {
        None
    } else {
        let before = latest_in(entries.drop_last(), channel);
        let entry = entries.last();
        if entry.metadata.channel != channel {
            before
        } else {
            match before {
                None => Some(entry.version),
                Some(current) => if replaces(current, entry.version) {
                    Some(entry.version)
                } else {
                    Some(current)
                },
            }
        }
    }
}

/// The channels of the entries, each once, in the order in which they
/// first appear.
pub open spec fn channels_of(entries: Seq<VersionEntryView>) -> Seq<Seq<char>>
    decreases entries.len(),
{
    if entries.len() == 0 {
        Seq::empty()
    } else {
        let before = channels_of(entries.drop_last());
        let channel = entries.last().metadata.channel;
        if before.contains(channel) {
            before
        } else {
            before.push(channel)
        }
    }
}

/// The channels that a list names, in its order.
pub open spec fn channel_names(latest: Seq<ChannelLatest>) -> Seq<Seq<char>> {
    Seq::new(latest.len(), |j: int| latest[j].channel@)
}

/// Whether a list gives the channels of the entries, each once and in the
/// order in which they first appear, each with its latest version.
pub open spec fn is_latest_of(latest: Seq<ChannelLatest>, entries: Seq<VersionEntryView>) -> bool {
    &&& channel_names(latest) == channels_of(entries)
    &&& forall|j: int|
        0 <= j < latest.len() ==> latest_in(entries, #[trigger] latest[j].channel@) == Some(
            latest[j].version@,
        )
}

proof fn lemma_push_contains(list: Seq<Seq<char>>, added: Seq<char>, sought: Seq<char>)
    ensures
        list.push(added).contains(sought) <==> list.contains(sought) || added == sought,
{
    let longer = list.push(added);
    if list.contains(sought) {
        let i = choose|i: int| 0 <= i < list.len() && list[i] == sought;
        assert(longer[i] == sought);
    }
    if added == sought {
        assert(longer[list.len() as int] == sought);
    }
    if longer.contains(sought) {
        let i = choose|i: int| 0 <= i < longer.len() && longer[i] == sought;
        if i < list.len() {
            assert(list[i] == sought);
        }
    }
}

/// The channels of the entries are exactly those that have a latest
/// version.
pub proof fn lemma_channels_have_latest(entries: Seq<VersionEntryView>, channel: Seq<char>)
    ensures
        channels_of(entries).contains(channel) <==> latest_in(entries, channel).is_some(),
    decreases entries.len(),
{
    if entries.len() > 0 {
        lemma_channels_have_latest(entries.drop_last(), channel);
        lemma_push_contains(
            channels_of(entries.drop_last()),
            entries.last().metadata.channel,
            channel,
        );
    }
}

/// No channel of the entries is listed twice.
pub proof fn lemma_channels_once(entries: Seq<VersionEntryView>)
    ensures
        forall|j: int, k: int|
            0 <= j < k < channels_of(entries).len() ==> channels_of(entries)[j] != channels_of(
                entries,
            )[k],
    decreases entries.len(),
{
    if entries.len() > 0 {
        lemma_channels_once(entries.drop_last());
        let before = channels_of(entries.drop_last());
        let channel = entries.last().metadata.channel;
        let all = channels_of(entries);
        assert forall|j: int, k: int| 0 <= j < k < all.len() implies all[j] != all[k] by {
            if k < before.len() {
                assert(all[j] == before[j] && all[k] == before[k]);
            } else {
                assert(!before.contains(channel));
                assert(all[j] == before[j]);
                assert(all[k] == channel);
            }
        }
    }
}

proof fn lemma_latest_in_step(entries: Seq<VersionEntryView>, i: int, channel: Seq<char>)
    requires
        0 <= i < entries.len(),
    ensures
        latest_in(entries.take(i + 1), channel) == if entries[i].metadata.channel != channel {
            latest_in(entries.take(i), channel)
        } else {
            match latest_in(entries.take(i), channel) {
                None => Some(entries[i].version),
                Some(current) => if replaces(current, entries[i].version) {
                    Some(entries[i].version)
                } else {
                    Some(current)
                },
            }
        },
        channels_of(entries.take(i + 1)) == if channels_of(entries.take(i)).contains(
            entries[i].metadata.channel,
        ) {
            channels_of(entries.take(i))
        } else {
            channels_of(entries.take(i)).push(entries[i].metadata.channel)
        },
{
    assert(entries.take(i + 1).drop_last() =~= entries.take(i));
    assert(entries.take(i + 1).last() == entries[i]);
}

/// Finds the place of a channel in a list.
fn position_of(latest: &Vec<ChannelLatest>, channel: &String) -> (place: Option<usize>)
    ensures
        match place {
            Some(j) => j < latest.len() && latest[j as int].channel@ == channel@,
            None => !channel_names(latest@).contains(channel@),
        },
{
    let mut j: usize = 0;
    while j < latest.len()
        invariant
            j <= latest.len(),
            forall|k: int| 0 <= k < j ==> channel_names(latest@)[k] != channel@,
        decreases latest.len() - j,
    {
        if same_string(&latest[j].channel, channel) {
            return Some(j);
        }
        j += 1;
    }
    None
}

/// Picks the latest version of every channel. The entries are taken in the
/// order given: within a channel the first one stands until a later one
/// replaces it, and the channels come out in the order in which they first
/// appear.
pub fn latest_per_channel(entries: &Vec<VersionEntry>) -> (latest: Vec<ChannelLatest>)
    ensures
        is_latest_of(latest@, views(entries@)),
{
    let mut latest: Vec<ChannelLatest> = Vec::new();
    let mut i: usize = 0;
    assert(views(entries@).take(0) =~= Seq::empty());
    assert(channel_names(latest@) =~= Seq::empty());
    while i < entries.len()
        invariant
            i <= entries.len(),
            is_latest_of(latest@, views(entries@).take(i as int)),
        decreases entries.len() - i,
    {
        let ghost all = views(entries@);
        let ghost seen = all.take(i as int);
        let ghost next = all.take(i + 1);
        let ghost before = latest@;
        let entry = &entries[i];
        assert(all[i as int] == entry@);
        let place = position_of(&latest, &entry.metadata.channel);
        proof {
            lemma_channels_once(seen);
            lemma_channels_have_latest(seen, entry@.metadata.channel);
            lemma_latest_in_step(all, i as int, entry@.metadata.channel);
            assert forall|j: int| 0 <= j < before.len() implies channel_names(before)[j]
                == #[trigger] before[j].channel@ by {}
            assert forall|j: int|
                0 <= j < before.len() && before[j].channel@
                    != entry@.metadata.channel implies latest_in(
                next,
                #[trigger] before[j].channel@,
            ) == Some(before[j].version@) by {
                lemma_latest_in_step(all, i as int, before[j].channel@);
            }
        }
        match place {
            None => {
                latest.push(
                    ChannelLatest {
                        channel: entry.metadata.channel.clone(),
                        version: entry.version.clone(),
                    },
                );
                proof {
                    let added = before.len() as int;
                    assert(channel_names(latest@) =~= channel_names(before).push(
                        entry@.metadata.channel,
                    ));
                    assert forall|j: int| 0 <= j < latest@.len() implies latest_in(
                        next,
                        #[trigger] latest@[j].channel@,
                    ) == Some(latest@[j].version@) by {
                        if j < added {
                            assert(latest@[j] == before[j]);
                            assert(channel_names(before)[j] == before[j].channel@);
                        }
                    }
                }
            },
            Some(j) => {
                let replace = supersedes(latest[j].version.as_str(), entry.version.as_str());
                if replace {
                    latest.set(
                        j,
                        ChannelLatest {
                            channel: entry.metadata.channel.clone(),
                            version: entry.version.clone(),
                        },
                    );
                }
                proof {
                    assert(channel_names(before)[j as int] == entry@.metadata.channel);
                    assert(channel_names(latest@) =~= channel_names(before));
                    assert forall|k: int| 0 <= k < latest@.len() implies latest_in(
                        next,
                        #[trigger] latest@[k].channel@,
                    ) == Some(latest@[k].version@) by {
                        if k != j {
                            assert(latest@[k] == before[k]);
                            assert(channel_names(before)[k] == before[k].channel@);
                            if k < j {
                                assert(channel_names(before)[k] != channel_names(before)[j as int]);
                            } else {
                                assert(channel_names(before)[j as int] != channel_names(before)[k]);
                            }
                        }
                    }
                }
            },
        }
        i += 1;
    }
    assert(views(entries@).take(entries.len() as int) =~= views(entries@));
    latest
}

/// The catalogue's record of a plugin.
#[derive(Debug, Clone, PartialEq, Eq)]
pub struct PluginMetadata {
    pub xml_id: String,
    pub numeric_id: u64,
    pub versions: Vec<VersionEntry>,
    pub latest: Vec<ChannelLatest>,
}

/// Puts a plugin's record together from the entries of its versions: the
/// entries in the order of the catalogue, and the latest version of each
/// channel among them.
pub fn plugin_metadata(plugin: &CachedPlugin, versions: Vec<VersionEntry>) -> (metadata:
    PluginMetadata)
    ensures
        metadata.xml_id@ == plugin.xml_id@,
        metadata.numeric_id == plugin.numeric_id,
        views(metadata.versions@) == arranged(views(versions@)),
        in_order(views(metadata.versions@)),
        is_latest_of(metadata.latest@, views(metadata.versions@)),
{
    let versions = arrange(versions);
    let latest = latest_per_channel(&versions);
    PluginMetadata { xml_id: plugin.xml_id.clone(), numeric_id: plugin.numeric_id, versions, latest }
}

} // verus!
