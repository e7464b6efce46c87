//! What each task of a synchronization pass does to the store, and which
//! further tasks it hands out.

use crate::api::models::{
    texts, views, RepoDownloadHash, RepoDownloadHashView, RepoDownloadInfo, RepoDownloadInfoView,
    RepoPluginDetails, RepoUpdateMetadata, RepoUpdateMetadataView, RepoUpdateVersion,
    RepoUpdateVersionView,
};
use crate::db::models::{
    CachedPlugin, CachedPluginVersion, CachedPluginVersionView, CachedPluginView, CachedUpdate,
    CachedUpdateDependency, CachedUpdateDependencyView, CachedUpdateView,
};
use crate::api::hash::probe_url_of;
use crate::api::resolution::{HashAction, HashPhase, HashResolution};
use crate::error::{HttpFailure, IndexerError};
use crate::meta::task::{Task, TaskView};
use crate::text::same_string;
use vstd::prelude::*;

verus! {

/// One step of a task against the store or the dispatcher.
#[derive(Debug, Clone, PartialEq, Eq)]
pub enum SyncAction {
    /// Insert the update's row unless it exists.
    AddUpdate(u64),
    /// Insert the version's row, or overwrite the update and channel of the
    /// row with the same plugin and version string.
    UpsertVersion(CachedPluginVersion),
    /// Hand out a task.
    Dispatch(Task),
    /// Try to take the update out of the stale state; what follows depends
    /// on whether this caller was the one to do so.
    ClaimUpdate(u64),
    /// Delete the row of a version.
    RemoveVersion { plugin_xml_id: String, version: String },
}

pub ghost enum SyncActionView {
    AddUpdate(u64),
    UpsertVersion(CachedPluginVersionView),
    Dispatch(TaskView),
    ClaimUpdate(u64),
    RemoveVersion { plugin_xml_id: Seq<char>, version: Seq<char> },
}

impl View for SyncAction {
    type V = SyncActionView;

    open spec fn view(&self) -> SyncActionView {
        match self {
            SyncAction::AddUpdate(id) => SyncActionView::AddUpdate(*id),
            SyncAction::UpsertVersion(row) => SyncActionView::UpsertVersion(row@),
            SyncAction::Dispatch(task) => SyncActionView::Dispatch(task@),
            SyncAction::ClaimUpdate(id) => SyncActionView::ClaimUpdate(*id),
            SyncAction::RemoveVersion { plugin_xml_id, version } => SyncActionView::RemoveVersion {
                plugin_xml_id: plugin_xml_id@,
                version: version@,
            },
        }
    }
}

/// The row of a plugin that is seen for the first time: the identifier it
/// was listed under, with the number that the repository gives it.
pub fn adopt_plugin(xml_id: String, details: &RepoPluginDetails) -> (outcome: (CachedPlugin, Task))
    ensures
        outcome.0@ == (CachedPluginView { xml_id: xml_id@, numeric_id: details.id }),
        outcome.1@ == TaskView::SyncPlugin(outcome.0@),
{
    let row = CachedPlugin { xml_id, numeric_id: details.id };
    let task = Task::SyncPlugin(row.duplicate());
    (row, task)
}

/// The row that binds a reported version to a plugin.
pub open spec fn version_row(
    plugin: CachedPluginView,
    reported: RepoUpdateVersionView,
) -> CachedPluginVersionView {
    CachedPluginVersionView {
        version: reported.version,
        update_id: reported.id,
        channel: reported.channel,
        plugin_xml_id: plugin.xml_id,
    }
}

/// The four steps that one reported version causes, in order.
pub open spec fn binding_steps(plugin: CachedPluginView, reported: RepoUpdateVersionView) -> Seq<
    SyncActionView,
> {
    let row = version_row(plugin, reported);
    seq![
        SyncActionView::AddUpdate(reported.id),
        SyncActionView::UpsertVersion(row),
        SyncActionView::Dispatch(TaskView::SyncUpdateDependencyMeta(plugin, row)),
        SyncActionView::ClaimUpdate(reported.id),
    ]
}

/// The steps that the reported versions cause, version by version.
pub open spec fn all_binding_steps(
    plugin: CachedPluginView,
    reported: Seq<RepoUpdateVersionView>,
) -> Seq<SyncActionView>
    decreases reported.len(),
{
    if reported.len() == 0 {
        Seq::empty()
    } else {
        all_binding_steps(plugin, reported.drop_last()) + binding_steps(plugin, reported.last())
    }
}

/// Whether the repository still reports an update among a plugin's versions.
pub open spec fn still_offered(reported: Seq<RepoUpdateVersionView>, update_id: u64) -> bool {
    exists|i: int| 0 <= i < reported.len() && #[trigger] reported[i].id == update_id
}

/// The removals of the cached versions whose update is no longer reported,
/// in the order of the cached rows.
pub open spec fn removal_steps(
    reported: Seq<RepoUpdateVersionView>,
    cached: Seq<CachedPluginVersionView>,
) -> Seq<SyncActionView>
    decreases cached.len(),
{
    if cached.len() == 0 {
        Seq::empty()
    } else {
        let before = removal_steps(reported, cached.drop_last());
        let row = cached.last();
        if still_offered(reported, row.update_id) {
            before
        } else {
            before.push(
                SyncActionView::RemoveVersion {
                    plugin_xml_id: row.plugin_xml_id,
                    version: row.version,
                },
            )
        }
    }
}

/// All that the synchronization of one plugin does: the steps of every
/// reported version, then the removals.
pub open spec fn plugin_sync_plan(
    plugin: CachedPluginView,
    reported: Seq<RepoUpdateVersionView>,
    cached: Seq<CachedPluginVersionView>,
) -> Seq<SyncActionView> {
    all_binding_steps(plugin, reported) + removal_steps(reported, cached)
}

fn offers(reported: &Vec<RepoUpdateVersion>, update_id: u64) -> (found: bool)
    ensures
        found == still_offered(views(reported@), update_id),
{
    let mut i: usize = 0;
    while i < reported.len()
        invariant
            i <= reported.len(),
            forall|k: int| 0 <= k < i ==> views(reported@)[k].id != update_id,
        decreases reported.len() - i,
    {
        if reported[i].id == update_id {
            assert(views(reported@)[i as int].id == update_id);
            return true;
        }
        i += 1;
    }
    false
}

/// Plans the synchronization of one plugin from the versions that the
/// repository reports and the rows that the store holds for it.
pub fn plan_plugin_sync(
    plugin: &CachedPlugin,
    reported: &Vec<RepoUpdateVersion>,
    cached: &Vec<CachedPluginVersion>,
) -> (plan: Vec<SyncAction>)
    ensures
        views(plan@) == plugin_sync_plan(plugin@, views(reported@), views(cached@)),
{
    let mut plan: Vec<SyncAction> = Vec::new();
    let mut i: usize = 0;
    assert(views(reported@).take(0) =~= Seq::empty());
    assert(views(plan@) =~= Seq::empty());
    while i < reported.len()
        invariant
            i <= reported.len(),
            views(plan@) == all_binding_steps(plugin@, views(reported@).take(i as int)),
        decreases reported.len() - i,
    {
        let ghost before = plan@;
        let version = &reported[i];
        let row = CachedPluginVersion {
            update_id: version.id,
            version: version.version.clone(),
            channel: version.channel.clone(),
            plugin_xml_id: plugin.xml_id.clone(),
        };
        let task = Task::SyncUpdateDependencyMeta(plugin.duplicate(), row.duplicate());
        plan.push(SyncAction::AddUpdate(version.id));
        plan.push(SyncAction::UpsertVersion(row));
        plan.push(SyncAction::Dispatch(task));
        plan.push(SyncAction::ClaimUpdate(version.id));
        proof {
            let next = views(reported@).take(i + 1);
            assert(next.drop_last() =~= views(reported@).take(i as int));
            assert(next.last() == version@);
            assert(views(plan@) =~= views(before) + binding_steps(plugin@, version@));
        }
        i += 1;
    }
    assert(views(reported@).take(reported.len() as int) =~= views(reported@));
    let ghost bound = plan@;
    let mut j: usize = 0;
    assert(views(cached@).take(0) =~= Seq::empty());
    assert(views(plan@) =~= views(bound) + Seq::empty());
    while j < cached.len()
        invariant
            j <= cached.len(),
            views(bound) == all_binding_steps(plugin@, views(reported@)),
            views(plan@) == views(bound) + removal_steps(
                views(reported@),
                views(cached@).take(j as int),
            ),
        decreases cached.len() - j,
    {
        let ghost before = plan@;
        let row = &cached[j];
        let kept = offers(reported, row.update_id);
        if !kept {
            plan.push(
                SyncAction::RemoveVersion {
                    plugin_xml_id: row.plugin_xml_id.clone(),
                    version: row.version.clone(),
                },
            );
        }
        proof {
            let next = views(cached@).take(j + 1);
            assert(next.drop_last() =~= views(cached@).take(j as int));
            assert(next.last() == row@);
            let earlier = removal_steps(views(reported@), views(cached@).take(j as int));
            if kept {
                assert(views(plan@) =~= views(bound) + earlier);
            } else {
                let removal = SyncActionView::RemoveVersion {
                    plugin_xml_id: row@.plugin_xml_id,
                    version: row@.version,
                };
                assert(plan@.last()@ == removal);
                assert(views(plan@) =~= views(before).push(removal));
                assert(views(plan@) =~= views(bound) + earlier.push(
                    SyncActionView::RemoveVersion {
                        plugin_xml_id: row@.plugin_xml_id,
                        version: row@.version,
                    },
                ));
            }
        }
        j += 1;
    }
    assert(views(cached@).take(cached.len() as int) =~= views(cached@));
    plan
}

/// What follows an attempt to claim an update: the one caller that took it
/// out of the stale state resolves its download information.
pub fn after_claim(update_id: u64, claimed: bool) -> (next: Option<Task>)
    ensures
        match next {
            Some(task) => claimed && task@ == TaskView::SyncUpdateMeta(update_id),
            None => !claimed,
        },
{
    if claimed {
        Some(Task::SyncUpdateMeta(update_id))
    } else {
        None
    }
}

/// The rows that record a list of dependencies of an update, all of them
/// optional or all of them not.
pub open spec fn rows_for(update_id: u64, names: Seq<Seq<char>>, optional: bool) -> Seq<
    CachedUpdateDependencyView,
> {
    Seq::new(
        names.len(),
        |i: int| CachedUpdateDependencyView { update_id, dependency_xml_id: names[i], optional },
    )
}

/// The rows that record what an update depends on: the required
/// dependencies first, then the optional ones.
pub open spec fn dependency_rows_of(update_id: u64, metadata: RepoUpdateMetadataView) -> Seq<
    CachedUpdateDependencyView,
> {
    rows_for(update_id, metadata.dependencies, false) + rows_for(
        update_id,
        metadata.optional_dependencies,
        true,
    )
}

fn append_rows(
    rows: &mut Vec<CachedUpdateDependency>,
    update_id: u64,
    names: &Vec<String>,
    optional: bool,
)
    ensures
        views(final(rows)@) == views(old(rows)@) + rows_for(update_id, texts(names@), optional),
{
    let mut i: usize = 0;
    assert(views(rows@) =~= views(old(rows)@) + rows_for(update_id, texts(names@), optional).take(
        0,
    ));
    while i < names.len()
        invariant
            i <= names.len(),
            views(rows@) == views(old(rows)@) + rows_for(update_id, texts(names@), optional).take(
                i as int,
            ),
        decreases names.len() - i,
    {
        let ghost before = rows@;
        rows.push(
            CachedUpdateDependency {
                update_id,
                dependency_xml_id: names[i].clone(),
                optional,
            },
        );
        proof {
            let all = rows_for(update_id, texts(names@), optional);
            assert(rows@.last()@ == all[i as int]);
            assert(views(rows@) =~= views(before).push(all[i as int]));
            assert(all.take(i + 1) =~= all.take(i as int).push(all[i as int]));
            assert(views(rows@) =~= views(old(rows)@) + all.take(i + 1));
        }
        i += 1;
    }
    assert(rows_for(update_id, texts(names@), optional).take(names.len() as int) =~= rows_for(
        update_id,
        texts(names@),
        optional,
    ));
}

/// Turns the dependencies that the repository reports for an update into
/// the rows to upsert.
pub fn dependency_rows(update_id: u64, metadata: &RepoUpdateMetadata) -> (rows: Vec<
    CachedUpdateDependency,
>)
    ensures
        views(rows@) == dependency_rows_of(update_id, metadata@),
{
    let mut rows: Vec<CachedUpdateDependency> = Vec::new();
    assert(views(rows@) =~= Seq::empty());
    append_rows(&mut rows, update_id, &metadata.dependencies, false);
    append_rows(&mut rows, update_id, &metadata.optional_dependencies, true);
    assert(views(rows@) =~= dependency_rows_of(update_id, metadata@));
    rows
}

/// Whether the stored download information of an update is still good:
/// the repository and the store both have a caching token, and the two are
/// the same.
pub open spec fn up_to_date(cached: CachedUpdateView, resolved: RepoDownloadInfoView) -> bool {
    cached.etag.is_some() && resolved.etag.is_some() && cached.etag == resolved.etag
}

/// Decides whether an update can keep its stored download information, so
/// that its artifact need not be hashed again.
pub fn is_up_to_date(cached: &CachedUpdate, resolved: &RepoDownloadInfo) -> (fresh: bool)
    ensures
        fresh == up_to_date(cached@, resolved@),
{
    match (&cached.etag, &resolved.etag) {
        (Some(stored), Some(current)) => same_string(stored, current),
        _ => false,
    }
}

/// Opens the work on an update whose download information has just been
/// resolved. Where the stored information is still good nothing is left to
/// do, and no request for a hash is made; otherwise the resolution of the
/// hash begins, unless the resolved URL is one that no request can go to.
pub fn begin_update_meta(cached: &CachedUpdate, resolved: &RepoDownloadInfo) -> (opened: Result<
    Option<(HashResolution, HashAction)>,
    IndexerError,
>)
    ensures
        match opened {
            Ok(None) => up_to_date(cached@, resolved@),
            Ok(Some((state, action))) => {
                &&& !up_to_date(cached@, resolved@)
                &&& probe_url_of(resolved@.url).is_some()
                &&& state.well_formed()
                &&& state.url() == resolved@.url
                &&& state.phase() == HashPhase::AwaitingSmallPermit
                &&& action is AcquireSmallPermit
            },
            Err(error) => {
                &&& !up_to_date(cached@, resolved@)
                &&& probe_url_of(resolved@.url).is_none()
                &&& error matches IndexerError::HttpClientError(HttpFailure::InvalidUrl(text))
                &&& text@ == resolved@.url
            },
        },
{
    if is_up_to_date(cached, resolved) {
        return Ok(None);
    }
    match HashResolution::begin(resolved.url.clone()) {
        Ok(started) => Ok(Some(started)),
        Err(error) => Err(error),
    }
}

/// The row of an update after its download information has been resolved
/// anew: identifier and stale flag as they were, everything else from the
/// repository's answer and the hash.
pub open spec fn resolved_row(
    cached: CachedUpdateView,
    resolved: RepoDownloadInfoView,
    hash: RepoDownloadHashView,
) -> CachedUpdateView {
    CachedUpdateView {
        id: cached.id,
        stale: cached.stale,
        etag: resolved.etag,
        file_name: resolved.file_name,
        download_url: Some(resolved.url),
        hash_algorithm: Some(hash.algorithm),
        hash: Some(hash.value),
    }
}

/// An update whose download information has just been written is up to
/// date against the same answer of the repository, as long as that answer
/// carries a caching token: a second pass does not hash the artifact again.
pub proof fn lemma_resolved_row_is_up_to_date(
    cached: CachedUpdateView,
    resolved: RepoDownloadInfoView,
    hash: RepoDownloadHashView,
)
    requires
        resolved.etag.is_some(),
    ensures
        up_to_date(resolved_row(cached, resolved, hash), resolved),
{
}

/// Writes freshly resolved download information into the row of an update.
pub fn apply_download_info(cached: CachedUpdate, resolved: RepoDownloadInfo, hash: RepoDownloadHash) -> (row:
    CachedUpdate)
    ensures
        row@ == resolved_row(cached@, resolved@, hash@),
        row@.well_formed(),
{
    CachedUpdate {
        id: cached.id,
        stale: cached.stale,
        etag: resolved.etag,
        file_name: resolved.file_name,
        download_url: Some(resolved.url),
        hash_algorithm: Some(hash.algorithm),
        hash: Some(hash.value),
    }
}

} // verus!
