use jb_repo_indexer::api::models::{
    RepoDownloadHash, RepoDownloadInfo, RepoPluginDetails, RepoUpdateMetadata, RepoUpdateVersion,
};
use jb_repo_indexer::api::resolution::{HashAction, HashPhase};
use jb_repo_indexer::db::models::{
    CachedPlugin, CachedPluginVersion, CachedUpdate, CachedUpdateDependency,
};
use jb_repo_indexer::error::{HttpFailure, IndexerError};
use jb_repo_indexer::meta::sync::{
    adopt_plugin, after_claim, apply_download_info, begin_update_meta, dependency_rows,
    is_up_to_date, plan_plugin_sync, SyncAction,
};
use jb_repo_indexer::meta::task::Task;

fn foo() -> CachedPlugin {
    CachedPlugin {
        xml_id: "com.example.foo".to_string(),
        numeric_id: 42,
    }
}

fn reported(id: u64, version: &str, channel: &str) -> RepoUpdateVersion {
    RepoUpdateVersion {
        id,
        version: version.to_string(),
        channel: channel.to_string(),
    }
}

fn row(plugin: &str, version: &str, update_id: u64, channel: &str) -> CachedPluginVersion {
    CachedPluginVersion {
        version: version.to_string(),
        update_id,
        channel: channel.to_string(),
        plugin_xml_id: plugin.to_string(),
    }
}

fn info(etag: Option<&str>) -> RepoDownloadInfo {
    RepoDownloadInfo {
        url: "https://example.com/foo-1.0.zip".to_string(),
        etag: etag.map(|e| e.to_string()),
        file_name: Some("foo-1.0.zip".to_string()),
    }
}

fn zero_hash() -> RepoDownloadHash {
    RepoDownloadHash {
        algorithm: "SHA-256".to_string(),
        value: vec![0u8; 32],
    }
}

fn binding(plugin: &CachedPlugin, version: &RepoUpdateVersion) -> Vec<SyncAction> {
    let bound = row(&plugin.xml_id, &version.version, version.id, &version.channel);
    vec![
        SyncAction::AddUpdate(version.id),
        SyncAction::UpsertVersion(bound.clone()),
        SyncAction::Dispatch(Task::SyncUpdateDependencyMeta(plugin.clone(), bound)),
        SyncAction::ClaimUpdate(version.id),
    ]
}

fn remaining_rows(before: &[CachedPluginVersion], plan: &[SyncAction]) -> Vec<CachedPluginVersion> {
    let mut rows = before.to_vec();
    for action in plan {
        match action {
            SyncAction::UpsertVersion(new) => {
                match rows
                    .iter_mut()
                    .find(|r| r.plugin_xml_id == new.plugin_xml_id && r.version == new.version)
                {
                    Some(old) => *old = new.clone(),
                    None => rows.push(new.clone()),
                }
            }
            SyncAction::RemoveVersion {
                plugin_xml_id,
                version,
            } => rows.retain(|r| !(&r.plugin_xml_id == plugin_xml_id && &r.version == version)),
            _ => {}
        }
    }
    rows
}

#[test]
fn adopt_plugin_takes_the_number_from_the_details() {
    let details = RepoPluginDetails {
        xml_id: "com.example.foo".to_string(),
        id: 42,
    };
    let (plugin, task) = adopt_plugin("com.example.foo".to_string(), &details);
    assert_eq!(plugin, foo());
    assert_eq!(task, Task::SyncPlugin(foo()));
}

#[test]
fn adopt_plugin_keeps_the_listed_identifier() {
    let details = RepoPluginDetails {
        xml_id: "Com.Example.Foo".to_string(),
        id: 7,
    };
    let (plugin, _) = adopt_plugin("com.example.foo".to_string(), &details);
    assert_eq!(plugin.xml_id, "com.example.foo");
    assert_eq!(plugin.numeric_id, 7);
}

#[test]
fn first_sync_of_a_plugin_with_one_version() {
    let version = reported(1000, "1.0", "");
    let plan = plan_plugin_sync(&foo(), &vec![version.clone()], &vec![]);
    assert_eq!(plan, binding(&foo(), &version));
    assert_eq!(
        remaining_rows(&[], &plan),
        vec![row("com.example.foo", "1.0", 1000, "")]
    );
}

#[test]
fn second_sync_against_the_same_report_changes_no_row() {
    let versions = vec![reported(1000, "1.0", ""), reported(1001, "1.1", "eap")];
    let first = plan_plugin_sync(&foo(), &versions, &vec![]);
    let rows = remaining_rows(&[], &first);
    let second = plan_plugin_sync(&foo(), &versions, &rows);
    assert_eq!(second, first);
    assert!(!second
        .iter()
        .any(|a| matches!(a, SyncAction::RemoveVersion { .. })));
    assert_eq!(remaining_rows(&rows, &second), rows);
}

#[test]
fn sync_removes_a_version_that_is_no_longer_reported() {
    let cached = vec![row("com.example.foo", "1.0", 1000, "")];
    let plan = plan_plugin_sync(&foo(), &vec![], &cached);
    assert_eq!(
        plan,
        vec![SyncAction::RemoveVersion {
            plugin_xml_id: "com.example.foo".to_string(),
            version: "1.0".to_string()
        }]
    );
    assert!(remaining_rows(&cached, &plan).is_empty());
}

#[test]
fn sync_keeps_cached_versions_whose_update_is_reported() {
    let cached = vec![
        row("com.example.foo", "1.0", 1000, ""),
        row("com.example.foo", "0.9", 999, ""),
        row("com.example.foo", "0.8", 998, ""),
    ];
    let versions = vec![reported(1000, "1.0", ""), reported(1001, "1.1", "")];
    let plan = plan_plugin_sync(&foo(), &versions, &cached);
    let mut expected = binding(&foo(), &versions[0]);
    expected.extend(binding(&foo(), &versions[1]));
    expected.push(SyncAction::RemoveVersion {
        plugin_xml_id: "com.example.foo".to_string(),
        version: "0.9".to_string(),
    });
    expected.push(SyncAction::RemoveVersion {
        plugin_xml_id: "com.example.foo".to_string(),
        version: "0.8".to_string(),
    });
    assert_eq!(plan, expected);
    assert_eq!(
        remaining_rows(&cached, &plan),
        vec![
            row("com.example.foo", "1.0", 1000, ""),
            row("com.example.foo", "1.1", 1001, "")
        ]
    );
}

#[test]
fn sync_of_nothing_against_nothing_does_nothing() {
    assert!(plan_plugin_sync(&foo(), &vec![], &vec![]).is_empty());
}

#[test]
fn sync_overwrites_update_and_channel_of_a_known_version() {
    let cached = vec![row("com.example.foo", "1.0", 1000, "")];
    let versions = vec![reported(1000, "1.0", "eap")];
    let plan = plan_plugin_sync(&foo(), &versions, &cached);
    assert_eq!(
        remaining_rows(&cached, &plan),
        vec![row("com.example.foo", "1.0", 1000, "eap")]
    );
}

#[test]
fn every_reported_version_ends_up_bound_to_its_update() {
    let cached = vec![
        row("com.example.foo", "0.1", 1, ""),
        row("com.example.foo", "1.0", 1000, "old"),
    ];
    let versions = vec![
        reported(1000, "1.0", ""),
        reported(1001, "1.1", "eap"),
        reported(1002, "1.2", ""),
    ];
    let plan = plan_plugin_sync(&foo(), &versions, &cached);
    let rows = remaining_rows(&cached, &plan);
    for version in &versions {
        let found: Vec<&CachedPluginVersion> = rows
            .iter()
            .filter(|r| r.plugin_xml_id == "com.example.foo" && r.version == version.version)
            .collect();
        assert_eq!(found.len(), 1);
        assert_eq!(found[0].update_id, version.id);
        assert_eq!(found[0].channel, version.channel);
    }
    assert_eq!(rows.len(), 3);
}

#[test]
fn a_version_bound_to_a_new_update_is_removed_by_the_same_sync() {
    let cached = vec![row("com.example.foo", "1.0", 5, "")];
    let versions = vec![reported(7, "1.0", "")];
    let plan = plan_plugin_sync(&foo(), &versions, &cached);
    let mut expected = binding(&foo(), &versions[0]);
    expected.push(SyncAction::RemoveVersion {
        plugin_xml_id: "com.example.foo".to_string(),
        version: "1.0".to_string(),
    });
    assert_eq!(plan, expected);
    assert!(remaining_rows(&cached, &plan).is_empty());
    let again = plan_plugin_sync(&foo(), &versions, &vec![]);
    assert_eq!(
        remaining_rows(&[], &again),
        vec![row("com.example.foo", "1.0", 7, "")]
    );
}

#[test]
fn a_version_reported_twice_is_bound_as_reported_last() {
    let versions = vec![reported(7, "1.0", "eap"), reported(8, "1.0", "")];
    let plan = plan_plugin_sync(&foo(), &versions, &vec![]);
    assert_eq!(
        remaining_rows(&[], &plan),
        vec![row("com.example.foo", "1.0", 8, "")]
    );
}

#[test]
fn two_plugins_that_share_an_update_both_bind_it() {
    let bar = CachedPlugin {
        xml_id: "com.example.bar".to_string(),
        numeric_id: 43,
    };
    let first = plan_plugin_sync(&foo(), &vec![reported(2000, "1.0", "")], &vec![]);
    let second = plan_plugin_sync(&bar, &vec![reported(2000, "7.5", "")], &vec![]);
    let mut rows = remaining_rows(&[], &first);
    rows = remaining_rows(&rows, &second);
    assert_eq!(
        rows,
        vec![
            row("com.example.foo", "1.0", 2000, ""),
            row("com.example.bar", "7.5", 2000, "")
        ]
    );
    let claims: Vec<u64> = first
        .iter()
        .chain(second.iter())
        .filter_map(|a| match a {
            SyncAction::ClaimUpdate(id) => Some(*id),
            _ => None,
        })
        .collect();
    assert_eq!(claims, vec![2000, 2000]);
    let mut stale = vec![2000u64];
    let mut resolutions = Vec::new();
    for id in claims {
        let granted = stale.contains(&id);
        stale.retain(|s| *s != id);
        if let Some(task) = after_claim(id, granted) {
            resolutions.push(task);
        }
    }
    assert_eq!(resolutions, vec![Task::SyncUpdateMeta(2000)]);
}

#[test]
fn after_claim_hands_out_the_resolution_only_to_the_claimant() {
    assert_eq!(after_claim(1000, true), Some(Task::SyncUpdateMeta(1000)));
    assert_eq!(after_claim(1000, false), None);
    assert_eq!(after_claim(0, true), Some(Task::SyncUpdateMeta(0)));
}

#[test]
fn dependency_rows_lists_required_before_optional() {
    let metadata = RepoUpdateMetadata {
        dependencies: vec!["com.intellij.modules.platform".to_string(), "b".to_string()],
        optional_dependencies: vec!["c".to_string()],
    };
    assert_eq!(
        dependency_rows(1000, &metadata),
        vec![
            CachedUpdateDependency {
                update_id: 1000,
                dependency_xml_id: "com.intellij.modules.platform".to_string(),
                optional: false
            },
            CachedUpdateDependency {
                update_id: 1000,
                dependency_xml_id: "b".to_string(),
                optional: false
            },
            CachedUpdateDependency {
                update_id: 1000,
                dependency_xml_id: "c".to_string(),
                optional: true
            },
        ]
    );
}

#[test]
fn dependency_rows_of_an_update_without_dependencies() {
    let metadata = RepoUpdateMetadata {
        dependencies: vec![],
        optional_dependencies: vec![],
    };
    assert!(dependency_rows(1, &metadata).is_empty());
}

#[test]
fn an_update_is_up_to_date_only_with_two_equal_tokens() {
    let mut cached = CachedUpdate::unresolved(1000);
    assert!(!is_up_to_date(&cached, &info(Some("abc"))));
    assert!(!is_up_to_date(&cached, &info(None)));
    cached.etag = Some("abc".to_string());
    assert!(is_up_to_date(&cached, &info(Some("abc"))));
    assert!(!is_up_to_date(&cached, &info(Some("abd"))));
    assert!(!is_up_to_date(&cached, &info(Some(""))));
    assert!(!is_up_to_date(&cached, &info(None)));
}

#[test]
fn an_unchanged_token_opens_no_hash_resolution() {
    let mut cached = CachedUpdate::unresolved(1000);
    cached.etag = Some("abc".to_string());
    assert!(matches!(
        begin_update_meta(&cached, &info(Some("abc"))),
        Ok(None)
    ));
}

#[test]
fn a_changed_token_opens_the_hash_resolution() {
    let mut cached = CachedUpdate::unresolved(1000);
    cached.etag = Some("old".to_string());
    let (state, action) = begin_update_meta(&cached, &info(Some("abc")))
        .unwrap()
        .unwrap();
    assert_eq!(action, HashAction::AcquireSmallPermit);
    assert_eq!(state.current_phase(), HashPhase::AwaitingSmallPermit);
}

#[test]
fn a_missing_token_opens_the_hash_resolution() {
    let cached = CachedUpdate::unresolved(1000);
    assert!(matches!(
        begin_update_meta(&cached, &info(None)),
        Ok(Some(_))
    ));
    assert!(matches!(
        begin_update_meta(&cached, &info(Some("abc"))),
        Ok(Some(_))
    ));
}

#[test]
fn a_resolved_url_that_is_none_fails_the_update() {
    let cached = CachedUpdate::unresolved(1000);
    let resolved = RepoDownloadInfo {
        url: "nowhere".to_string(),
        etag: None,
        file_name: None,
    };
    assert_eq!(
        begin_update_meta(&cached, &resolved).err(),
        Some(IndexerError::HttpClientError(HttpFailure::InvalidUrl(
            "nowhere".to_string()
        )))
    );
}

#[test]
fn apply_download_info_writes_all_download_fields() {
    let mut cached = CachedUpdate::unresolved(1000);
    cached.stale = false;
    let updated = apply_download_info(cached, info(Some("abc")), zero_hash());
    assert_eq!(
        updated,
        CachedUpdate {
            id: 1000,
            stale: false,
            etag: Some("abc".to_string()),
            file_name: Some("foo-1.0.zip".to_string()),
            download_url: Some("https://example.com/foo-1.0.zip".to_string()),
            hash_algorithm: Some("SHA-256".to_string()),
            hash: Some(vec![0u8; 32]),
        }
    );
    assert!(updated.is_well_formed());
}

#[test]
fn apply_download_info_keeps_identifier_and_stale_flag() {
    let cached = CachedUpdate {
        id: 5,
        stale: true,
        etag: Some("old".to_string()),
        file_name: Some("old.zip".to_string()),
        download_url: Some("https://example.com/old.zip".to_string()),
        hash_algorithm: Some("MD5".to_string()),
        hash: Some(vec![1, 2, 3]),
    };
    let resolved = RepoDownloadInfo {
        url: "https://example.com/new.zip".to_string(),
        etag: None,
        file_name: None,
    };
    let updated = apply_download_info(cached, resolved, zero_hash());
    assert_eq!(updated.id, 5);
    assert!(updated.stale);
    assert_eq!(updated.etag, None);
    assert_eq!(updated.file_name, None);
    assert_eq!(
        updated.download_url,
        Some("https://example.com/new.zip".to_string())
    );
    assert_eq!(updated.hash_algorithm, Some("SHA-256".to_string()));
    assert_eq!(updated.hash, Some(vec![0u8; 32]));
}

#[test]
fn a_freshly_written_update_is_up_to_date_on_the_next_pass() {
    let cached = CachedUpdate::unresolved(1000);
    let updated = apply_download_info(cached, info(Some("abc")), zero_hash());
    assert!(is_up_to_date(&updated, &info(Some("abc"))));
    assert!(matches!(
        begin_update_meta(&updated, &info(Some("abc"))),
        Ok(None)
    ));
}

#[test]
fn an_unresolved_update_is_stale_and_empty() {
    let update = CachedUpdate::unresolved(9);
    assert_eq!(
        update,
        CachedUpdate {
            id: 9,
            stale: true,
            etag: None,
            file_name: None,
            download_url: None,
            hash_algorithm: None,
            hash: None,
        }
    );
    assert!(update.is_well_formed());
}

#[test]
fn a_hash_without_algorithm_is_not_well_formed() {
    let mut update = CachedUpdate::unresolved(9);
    update.hash = Some(vec![1]);
    assert!(!update.is_well_formed());
    update.hash_algorithm = Some("SHA-256".to_string());
    assert!(update.is_well_formed());
    update.hash = None;
    assert!(update.is_well_formed());
}

#[test]
fn duplicates_equal_what_they_copy() {
    assert_eq!(foo().duplicate(), foo());
    let version = row("com.example.foo", "1.0", 1000, "eap");
    assert_eq!(version.duplicate(), version);
}
