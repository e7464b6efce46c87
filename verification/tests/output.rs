use jb_repo_indexer::db::models::{
    CachedPlugin, CachedPluginVersion, CachedUpdate, CachedUpdateDependency,
};
use jb_repo_indexer::meta::output::{
    byte_to_hex, hex_digest, latest_per_channel, normalize_channel, plugin_location,
    plugin_metadata, split_dependencies, version_entry, ChannelLatest, VersionEntry,
    VersionMetadata,
};
use jb_repo_indexer::meta::catalogue::{arrange, comes_before, place_entry};
use jb_repo_indexer::meta::precedence::supersedes;

fn entry(version: &str, channel: &str) -> VersionEntry {
    VersionEntry {
        version: version.to_string(),
        metadata: VersionMetadata {
            download_url: "https://example.com/a.zip".to_string(),
            sha256: String::new(),
            channel: channel.to_string(),
            dependencies: vec![],
            optional_dependencies: vec![],
        },
    }
}

fn latest_of(latest: &[ChannelLatest], channel: &str) -> Option<String> {
    latest
        .iter()
        .find(|l| l.channel == channel)
        .map(|l| l.version.clone())
}

fn resolved_update() -> CachedUpdate {
    CachedUpdate {
        id: 1000,
        stale: false,
        etag: Some("abc".to_string()),
        file_name: Some("foo-1.0.zip".to_string()),
        download_url: Some("https://example.com/foo-1.0.zip".to_string()),
        hash_algorithm: Some("SHA-256".to_string()),
        hash: Some(vec![0u8; 32]),
    }
}

fn version_row(channel: &str) -> CachedPluginVersion {
    CachedPluginVersion {
        version: "1.0".to_string(),
        update_id: 1000,
        channel: channel.to_string(),
        plugin_xml_id: "com.example.foo".to_string(),
    }
}

fn dependency(name: &str, optional: bool) -> CachedUpdateDependency {
    CachedUpdateDependency {
        update_id: 1000,
        dependency_xml_id: name.to_string(),
        optional,
    }
}

#[test]
fn byte_to_hex_gives_lower_case_digits() {
    assert_eq!(byte_to_hex(0x00), ('0', '0'));
    assert_eq!(byte_to_hex(0x0f), ('0', 'f'));
    assert_eq!(byte_to_hex(0xa5), ('a', '5'));
    assert_eq!(byte_to_hex(0xff), ('f', 'f'));
    assert_eq!(byte_to_hex(0x10), ('1', '0'));
    assert_eq!(byte_to_hex(0x9c), ('9', 'c'));
}

#[test]
fn byte_to_hex_agrees_with_formatting_for_every_byte() {
    for byte in 0..=255u8 {
        let (high, low) = byte_to_hex(byte);
        assert_eq!(format!("{}{}", high, low), format!("{:02x}", byte));
    }
}

#[test]
fn hex_digest_writes_two_digits_per_byte() {
    assert_eq!(hex_digest(&[]), "");
    assert_eq!(hex_digest(&[0x00, 0x01, 0xab, 0xff]), "0001abff");
}

#[test]
fn plugin_location_cuts_the_digest_of_the_identifier() {
    let location = plugin_location("com.example.foo");
    assert_eq!(
        location.digest,
        "7991cad30c13fad0b4271627fd5c8dedacaf438a0bd68d509f409dcbd454f159"
    );
    assert_eq!(location.top, "79");
    assert_eq!(location.middle, "91");
    assert_eq!(
        location.leaf,
        "cad30c13fad0b4271627fd5c8dedacaf438a0bd68d509f409dcbd454f159"
    );
    assert_eq!(location.leaf.len(), 60);
}

#[test]
fn plugin_location_of_the_empty_identifier() {
    let location = plugin_location("");
    assert_eq!(
        location.digest,
        "e3b0c44298fc1c149afbf4c8996fb92427ae41e4649b934ca495991b7852b855"
    );
    assert_eq!(location.top, "e3");
    assert_eq!(location.middle, "b0");
}

#[test]
fn normalize_channel_maps_empty_to_stable_and_lowers_the_rest() {
    assert_eq!(normalize_channel(""), "stable");
    assert_eq!(normalize_channel("EAP"), "eap");
    assert_eq!(normalize_channel("Nightly-Build"), "nightly-build");
    assert_eq!(normalize_channel("beta"), "beta");
    assert_eq!(normalize_channel("ÄÖ"), "äö");
}

#[test]
fn split_dependencies_keeps_the_order_of_each_kind() {
    let rows = vec![
        dependency("a", false),
        dependency("b", true),
        dependency("c", false),
        dependency("d", true),
    ];
    let (required, optional) = split_dependencies(&rows);
    assert_eq!(required, vec!["a".to_string(), "c".to_string()]);
    assert_eq!(optional, vec!["b".to_string(), "d".to_string()]);
    let (required, optional) = split_dependencies(&vec![]);
    assert!(required.is_empty());
    assert!(optional.is_empty());
}

#[test]
fn version_entry_of_a_resolved_update() {
    let rows = vec![
        dependency("com.intellij.modules.platform", false),
        dependency("org.example.extra", true),
    ];
    let entry = version_entry(&version_row(""), &resolved_update(), &rows).unwrap();
    assert_eq!(entry.version, "1.0");
    assert_eq!(entry.metadata.download_url, "https://example.com/foo-1.0.zip");
    assert_eq!(
        entry.metadata.sha256,
        "AAAAAAAAAAAAAAAAAAAAAAAAAAAAAAAAAAAAAAAAAAA="
    );
    assert_eq!(entry.metadata.channel, "stable");
    assert_eq!(
        entry.metadata.dependencies,
        vec!["com.intellij.modules.platform".to_string()]
    );
    assert_eq!(
        entry.metadata.optional_dependencies,
        vec!["org.example.extra".to_string()]
    );
}

#[test]
fn version_entry_encodes_the_hash_in_base64() {
    let mut update = resolved_update();
    update.hash = Some((0u8..32).collect());
    let entry = version_entry(&version_row("EAP"), &update, &vec![]).unwrap();
    assert_eq!(
        entry.metadata.sha256,
        "AAECAwQFBgcICQoLDA0ODxAREhMUFRYXGBkaGxwdHh8="
    );
    assert_eq!(entry.metadata.channel, "eap");
}

#[test]
fn version_entry_omits_a_stale_update() {
    let mut update = resolved_update();
    update.stale = true;
    assert_eq!(version_entry(&version_row(""), &update, &vec![]), None);
}

#[test]
fn version_entry_omits_an_update_without_download_url() {
    let mut update = resolved_update();
    update.download_url = None;
    assert_eq!(version_entry(&version_row(""), &update, &vec![]), None);
}

#[test]
fn version_entry_omits_an_update_with_another_algorithm() {
    let mut update = resolved_update();
    update.hash_algorithm = Some("SHA-512".to_string());
    assert_eq!(version_entry(&version_row(""), &update, &vec![]), None);
    update.hash_algorithm = None;
    update.hash = None;
    assert_eq!(version_entry(&version_row(""), &update, &vec![]), None);
}

#[test]
fn version_entry_omits_an_update_that_was_never_resolved() {
    let update = CachedUpdate::unresolved(7);
    assert_eq!(version_entry(&version_row(""), &update, &vec![]), None);
}

#[test]
fn supersedes_orders_semantic_versions() {
    assert!(supersedes("1.0.0", "1.0.1"));
    assert!(!supersedes("1.0.1", "1.0.0"));
    assert!(!supersedes("1.0.0", "1.0.0"));
    assert!(supersedes("1.9.0", "1.10.0"));
    assert!(supersedes("1.0.0-alpha", "1.0.0"));
    assert!(!supersedes("1.0.0", "1.0.0-alpha"));
    assert!(supersedes("1.0.0-alpha", "1.0.0-alpha.1"));
    assert!(supersedes("1.0.0-beta.2", "1.0.0-beta.11"));
}

#[test]
fn supersedes_prefers_a_version_that_parses() {
    assert!(supersedes("2024.1", "0.0.1"));
    assert!(!supersedes("0.0.1", "2024.1"));
    assert!(!supersedes("2024.1", "2024.2"));
    assert!(!supersedes("", "1.0"));
    assert!(supersedes("", "1.0.0"));
}

#[test]
fn latest_per_channel_picks_the_greatest_semantic_version() {
    let entries = vec![
        entry("1.0.0", "stable"),
        entry("1.10.0", "stable"),
        entry("1.2.0", "stable"),
        entry("2.0.0-rc.1", "eap"),
        entry("2.0.0-rc.2", "eap"),
    ];
    let latest = latest_per_channel(&entries);
    assert_eq!(latest.len(), 2);
    assert_eq!(latest_of(&latest, "stable"), Some("1.10.0".to_string()));
    assert_eq!(latest_of(&latest, "eap"), Some("2.0.0-rc.2".to_string()));
}

#[test]
fn latest_per_channel_keeps_the_first_where_nothing_parses() {
    let entries = vec![entry("2023.1", "stable"), entry("2024.1", "stable")];
    let latest = latest_per_channel(&entries);
    assert_eq!(
        latest,
        vec![ChannelLatest {
            channel: "stable".to_string(),
            version: "2023.1".to_string()
        }]
    );
}

#[test]
fn latest_per_channel_replaces_a_version_that_does_not_parse() {
    let entries = vec![
        entry("2023.1", "stable"),
        entry("0.1.0", "stable"),
        entry("2024.1", "stable"),
    ];
    let latest = latest_per_channel(&entries);
    assert_eq!(latest_of(&latest, "stable"), Some("0.1.0".to_string()));
}

#[test]
fn latest_per_channel_of_nothing_is_empty() {
    assert!(latest_per_channel(&vec![]).is_empty());
}

#[test]
fn latest_per_channel_names_each_channel_once() {
    let entries = vec![
        entry("1.0.0", "a"),
        entry("1.0.0", "b"),
        entry("0.9.0", "a"),
        entry("1.1.0", "b"),
        entry("3.0.0", "c"),
    ];
    let latest = latest_per_channel(&entries);
    let mut channels: Vec<String> = latest.iter().map(|l| l.channel.clone()).collect();
    channels.sort();
    assert_eq!(channels, vec!["a", "b", "c"]);
    assert_eq!(latest_of(&latest, "a"), Some("1.0.0".to_string()));
    assert_eq!(latest_of(&latest, "b"), Some("1.1.0".to_string()));
    assert_eq!(latest_of(&latest, "c"), Some("3.0.0".to_string()));
}

fn before(a: &str, b: &str) -> bool {
    comes_before(&a.to_string(), &b.to_string())
}

fn versions_of(entries: &[VersionEntry]) -> Vec<&str> {
    entries.iter().map(|e| e.version.as_str()).collect()
}

#[test]
fn comes_before_orders_as_strings_are_ordered() {
    assert!(before("", "a"));
    assert!(!before("a", ""));
    assert!(!before("", ""));
    assert!(before("1.0", "1.1"));
    assert!(before("1.10", "1.9"));
    assert!(before("1.0", "1.0.1"));
    assert!(!before("1.0.1", "1.0"));
    assert!(!before("1.0", "1.0"));
    assert!(before("A", "a"));
    assert!(before("z", "ä"));
    assert!(before("ä", "ö"));
    assert!(before("é", "日本"));
}

#[test]
fn comes_before_agrees_with_the_order_of_strings() {
    let texts = [
        "", "0", "1", "1.0", "1.0.0", "1.0.1", "1.10", "1.9", "2024.1", "A", "a", "ab", "b",
        "ä", "日本", "\u{10ffff}",
    ];
    for a in texts {
        for b in texts {
            assert_eq!(before(a, b), a < b);
        }
    }
}

#[test]
fn place_entry_keeps_the_list_in_order() {
    let mut list = Vec::new();
    for version in ["1.2", "1.0", "1.1", "0.9", "2.0", "1.10"] {
        place_entry(&mut list, entry(version, "stable"));
    }
    assert_eq!(
        versions_of(&list),
        vec!["0.9", "1.0", "1.1", "1.10", "1.2", "2.0"]
    );
}

#[test]
fn place_entry_replaces_an_entry_with_the_same_version() {
    let mut list = vec![entry("1.0", "stable"), entry("1.1", "stable")];
    place_entry(&mut list, entry("1.0", "eap"));
    assert_eq!(list, vec![entry("1.0", "eap"), entry("1.1", "stable")]);
    place_entry(&mut list, entry("1.1", "eap"));
    assert_eq!(list, vec![entry("1.0", "eap"), entry("1.1", "eap")]);
}

#[test]
fn arrange_orders_the_entries_and_keeps_the_last_of_each_version() {
    let sorted = arrange(vec![
        entry("b", "one"),
        entry("a", "one"),
        entry("c", "one"),
        entry("a", "two"),
        entry("b", "three"),
    ]);
    assert_eq!(
        sorted,
        vec![entry("a", "two"), entry("b", "three"), entry("c", "one")]
    );
    assert!(arrange(vec![]).is_empty());
}

#[test]
fn arrange_leaves_an_arranged_list_as_it_is() {
    let sorted = arrange(vec![entry("3", ""), entry("1", ""), entry("2", "")]);
    assert_eq!(arrange(sorted.clone()), sorted);
}

#[test]
fn plugin_metadata_puts_the_versions_in_order() {
    let plugin = CachedPlugin {
        xml_id: "com.example.foo".to_string(),
        numeric_id: 42,
    };
    let metadata = plugin_metadata(
        &plugin,
        vec![
            entry("2024.1", "stable"),
            entry("1.1.0", "stable"),
            entry("2023.1", "stable"),
            entry("1.0.0", "stable"),
            entry("zeta", "eap"),
            entry("alpha", "eap"),
        ],
    );
    assert_eq!(
        versions_of(&metadata.versions),
        vec!["1.0.0", "1.1.0", "2023.1", "2024.1", "alpha", "zeta"]
    );
    assert_eq!(latest_of(&metadata.latest, "stable"), Some("1.1.0".to_string()));
    assert_eq!(latest_of(&metadata.latest, "eap"), Some("alpha".to_string()));
}

#[test]
fn plugin_metadata_does_not_depend_on_the_order_of_arrival() {
    let plugin = CachedPlugin {
        xml_id: "com.example.foo".to_string(),
        numeric_id: 42,
    };
    let one = vec![entry("b", "x"), entry("a", "x"), entry("1.0.0", "y"), entry("c", "y")];
    let other = vec![entry("c", "y"), entry("1.0.0", "y"), entry("a", "x"), entry("b", "x")];
    assert_eq!(plugin_metadata(&plugin, one), plugin_metadata(&plugin, other));
}

#[test]
fn plugin_metadata_carries_the_plugin_and_its_versions() {
    let plugin = CachedPlugin {
        xml_id: "com.example.foo".to_string(),
        numeric_id: 42,
    };
    let entries = vec![entry("1.0.0", "stable"), entry("1.1.0", "stable")];
    let metadata = plugin_metadata(&plugin, entries.clone());
    assert_eq!(metadata.xml_id, "com.example.foo");
    assert_eq!(metadata.numeric_id, 42);
    assert_eq!(metadata.versions, entries);
    assert_eq!(
        metadata.latest,
        vec![ChannelLatest {
            channel: "stable".to_string(),
            version: "1.1.0".to_string()
        }]
    );
}
