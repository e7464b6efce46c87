//! The version rows of the store as the steps of a plugin's synchronization
//! change them.

use crate::api::models::RepoUpdateVersionView;
use crate::db::models::{CachedPluginVersionView, CachedPluginView};
use crate::meta::sync::{
    all_binding_steps, binding_steps, plugin_sync_plan, removal_steps, still_offered,
    SyncActionView,
};
use vstd::prelude::*;

verus! {

/// What a version row is found by: the plugin's identifier and the version
/// string.
pub type VersionKey = (Seq<char>, Seq<char>);

/// What a version row binds its key to: the update, and the channel.
pub type VersionBinding = (u64, Seq<char>);

/// The table after one step: an upsert writes the binding of its key, a
/// removal deletes the row of its key, and every other step leaves the
/// version rows alone.
pub open spec fn table_after(
    table: Map<VersionKey, VersionBinding>,
    action: SyncActionView,
) -> Map<VersionKey, VersionBinding> {
    match action {
        SyncActionView::UpsertVersion(row) => table.insert(
            (row.plugin_xml_id, row.version),
            (row.update_id, row.channel),
        ),
        SyncActionView::RemoveVersion { plugin_xml_id, version } => table.remove(
            (plugin_xml_id, version),
        ),
        _ => table,
    }
}

/// The table after a run of steps, taken in order.
pub open spec fn table_after_all(
    table: Map<VersionKey, VersionBinding>,
    actions: Seq<SyncActionView>,
) -> Map<VersionKey, VersionBinding>
    decreases actions.len(),
{
    if actions.len() == 0 {
        table
    } else {
        table_after(table_after_all(table, actions.drop_last()), actions.last())
    }
}

/// What the repository binds a version string to: the update and channel of
/// the last report that carries the string.
pub open spec fn last_binding(
    reported: Seq<RepoUpdateVersionView>,
    version: Seq<char>,
) -> Option<VersionBinding>
    decreases reported.len(),
{
    if reported.len() == 0 {
        None
    } else if reported.last().version == version {
        Some((reported.last().id, reported.last().channel))
    } else {
        last_binding(reported.drop_last(), version)
    }
}

/// Whether the removals of a synchronization spare the row of a version
/// string: no cached row whose update is no longer reported is a row of the
/// plugin with that string.
pub open spec fn removals_spare(
    plugin: CachedPluginView,
    reported: Seq<RepoUpdateVersionView>,
    cached: Seq<CachedPluginVersionView>,
    version: Seq<char>,
) -> bool {
    forall|j: int|
        0 <= j < cached.len() && !still_offered(reported, (#[trigger] cached[j]).update_id) ==> !(
        cached[j].plugin_xml_id == plugin.xml_id && cached[j].version == version)
}

proof fn lemma_table_after_both(
    table: Map<VersionKey, VersionBinding>,
    first: Seq<SyncActionView>,
    second: Seq<SyncActionView>,
)
    ensures
        table_after_all(table, first + second) == table_after_all(
            table_after_all(table, first),
            second,
        ),
    decreases second.len(),
{
    if second.len() == 0 {
        assert(first + second =~= first);
    } else {
        lemma_table_after_both(table, first, second.drop_last());
        assert((first + second).drop_last() =~= first + second.drop_last());
        assert((first + second).last() == second.last());
    }
}

proof fn lemma_table_after_four(
    table: Map<VersionKey, VersionBinding>,
    plugin: CachedPluginView,
    version: RepoUpdateVersionView,
)
    ensures
        table_after_all(table, binding_steps(plugin, version)) == table.insert(
            (plugin.xml_id, version.version),
            (version.id, version.channel),
        ),
{
    let steps = binding_steps(plugin, version);
    let three = steps.drop_last();
    let two = three.drop_last();
    let one = two.drop_last();
    assert(one.drop_last() =~= Seq::<SyncActionView>::empty());
    assert(table_after_all(table, one.drop_last()) == table);
    assert(table_after_all(table, one) == table);
    assert(table_after_all(table, two) == table_after(table, steps[1]));
    assert(table_after_all(table, three) == table_after(table, steps[1]));
}

proof fn lemma_bound_table(
    table: Map<VersionKey, VersionBinding>,
    plugin: CachedPluginView,
    reported: Seq<RepoUpdateVersionView>,
    key: VersionKey,
)
    ensures
        ({
            let bound = table_after_all(table, all_binding_steps(plugin, reported));
            if key.0 == plugin.xml_id && last_binding(reported, key.1).is_some() {
                bound.contains_key(key) && bound[key] == last_binding(reported, key.1).unwrap()
            } else {
                bound.contains_key(key) == table.contains_key(key) && (table.contains_key(key)
                    ==> bound[key] == table[key])
            }
        }),
    decreases reported.len(),
{
    if reported.len() > 0 {
        let front = reported.drop_last();
        lemma_bound_table(table, plugin, front, key);
        lemma_table_after_both(
            table,
            all_binding_steps(plugin, front),
            binding_steps(plugin, reported.last()),
        );
        lemma_table_after_four(
            table_after_all(table, all_binding_steps(plugin, front)),
            plugin,
            reported.last(),
        );
    }
}

proof fn lemma_last_binding_of_reported(reported: Seq<RepoUpdateVersionView>, i: int)
    requires
        0 <= i < reported.len(),
    ensures
        last_binding(reported, reported[i].version).is_some(),
    decreases reported.len(),
{
    if reported.last().version != reported[i].version {
        lemma_last_binding_of_reported(reported.drop_last(), i);
    }
}

proof fn lemma_removals_leave(
    table: Map<VersionKey, VersionBinding>,
    reported: Seq<RepoUpdateVersionView>,
    cached: Seq<CachedPluginVersionView>,
    key: VersionKey,
)
    requires
        forall|j: int|
            0 <= j < cached.len() && !still_offered(reported, (#[trigger] cached[j]).update_id)
                ==> (cached[j].plugin_xml_id, cached[j].version) != key,
    ensures
        ({
            let swept = table_after_all(table, removal_steps(reported, cached));
            swept.contains_key(key) == table.contains_key(key) && (table.contains_key(key)
                ==> swept[key] == table[key])
        }),
    decreases cached.len(),
{
    if cached.len() > 0 {
        let front = cached.drop_last();
        assert forall|j: int|
            0 <= j < front.len() && !still_offered(
                reported,
                (#[trigger] front[j]).update_id,
            ) implies (front[j].plugin_xml_id, front[j].version) != key by {
            assert(front[j] == cached[j]);
        }
        lemma_removals_leave(table, reported, front, key);
        let row = cached[cached.len() - 1];
        if !still_offered(reported, row.update_id) {
            let before = removal_steps(reported, front);
            let removal = SyncActionView::RemoveVersion {
                plugin_xml_id: row.plugin_xml_id,
                version: row.version,
            };
            assert(before.push(removal).drop_last() =~= before);
        }
    }
}

proof fn lemma_removal_deletes(
    table: Map<VersionKey, VersionBinding>,
    reported: Seq<RepoUpdateVersionView>,
    cached: Seq<CachedPluginVersionView>,
    j: int,
)
    requires
        0 <= j < cached.len(),
        !still_offered(reported, cached[j].update_id),
    ensures
        !table_after_all(table, removal_steps(reported, cached)).contains_key(
            (cached[j].plugin_xml_id, cached[j].version),
        ),
    decreases cached.len(),
{
    let front = cached.drop_last();
    let row = cached[cached.len() - 1];
    let before = removal_steps(reported, front);
    if j < cached.len() - 1 {
        assert(front[j] == cached[j]);
        lemma_removal_deletes(table, reported, front, j);
    }
    if !still_offered(reported, row.update_id) {
        let removal = SyncActionView::RemoveVersion {
            plugin_xml_id: row.plugin_xml_id,
            version: row.version,
        };
        assert(before.push(removal).drop_last() =~= before);
    }
}

/// A version that the repository reports for a plugin has, once the
/// plugin's synchronization has been carried out, a row under the plugin
/// and the version string, bound to the update and channel of the last
/// report of that string. This holds where the removals spare that row;
/// where they do not, the row is gone.
pub proof fn lemma_reported_versions_bound(
    table: Map<VersionKey, VersionBinding>,
    plugin: CachedPluginView,
    reported: Seq<RepoUpdateVersionView>,
    cached: Seq<CachedPluginVersionView>,
    i: int,
)
    requires
        0 <= i < reported.len(),
        removals_spare(plugin, reported, cached, reported[i].version),
    ensures
        ({
            let after = table_after_all(table, plugin_sync_plan(plugin, reported, cached));
            let key = (plugin.xml_id, reported[i].version);
            &&& after.contains_key(key)
            &&& Some(after[key]) == last_binding(reported, reported[i].version)
        }),
{
    let key = (plugin.xml_id, reported[i].version);
    let binding = all_binding_steps(plugin, reported);
    lemma_table_after_both(table, binding, removal_steps(reported, cached));
    lemma_bound_table(table, plugin, reported, key);
    lemma_last_binding_of_reported(reported, i);
    lemma_removals_leave(table_after_all(table, binding), reported, cached, key);
}

/// Where the removals do not spare the row of a version string, the row is
/// gone once the plugin's synchronization has been carried out, whether the
/// repository reports the string or not.
pub proof fn lemma_removed_row_is_gone(
    table: Map<VersionKey, VersionBinding>,
    plugin: CachedPluginView,
    reported: Seq<RepoUpdateVersionView>,
    cached: Seq<CachedPluginVersionView>,
    version: Seq<char>,
)
    requires
        !removals_spare(plugin, reported, cached, version),
    ensures
        !table_after_all(table, plugin_sync_plan(plugin, reported, cached)).contains_key(
            (plugin.xml_id, version),
        ),
{
    let key = (plugin.xml_id, version);
    let bound = table_after_all(table, all_binding_steps(plugin, reported));
    lemma_table_after_both(
        table,
        all_binding_steps(plugin, reported),
        removal_steps(reported, cached),
    );
    let j = choose|j: int|
        0 <= j < cached.len() && !still_offered(reported, (#[trigger] cached[j]).update_id)
            && cached[j].plugin_xml_id == plugin.xml_id && cached[j].version == version;
    lemma_removal_deletes(bound, reported, cached, j);
}

/// Whether a table already holds what a plugin's synchronization would
/// write: each reported version is bound as the repository binds it.
pub open spec fn holds_reported(
    table: Map<VersionKey, VersionBinding>,
    plugin: CachedPluginView,
    reported: Seq<RepoUpdateVersionView>,
) -> bool {
    forall|i: int|
        0 <= i < reported.len() ==> {
            let key = (plugin.xml_id, (#[trigger] reported[i]).version);
            table.contains_key(key) && Some(table[key]) == last_binding(reported, key.1)
        }
}

proof fn lemma_last_binding_is_reported(reported: Seq<RepoUpdateVersionView>, version: Seq<char>)
    requires
        last_binding(reported, version).is_some(),
    ensures
        exists|i: int| 0 <= i < reported.len() && (#[trigger] reported[i]).version == version,
    decreases reported.len(),
{
    if reported.last().version == version {
        assert(reported[reported.len() - 1].version == version);
    } else {
        lemma_last_binding_is_reported(reported.drop_last(), version);
        let i = choose|i: int|
            0 <= i < reported.drop_last().len() && (#[trigger] reported.drop_last()[i]).version
                == version;
        assert(reported[i].version == version);
    }
}

/// A second synchronization of a plugin against an unchanged report leaves
/// the version rows as they are: where the table holds what the report
/// binds, and every cached row's update is still reported, carrying the
/// plan out changes nothing.
pub proof fn lemma_second_sync_changes_nothing(
    table: Map<VersionKey, VersionBinding>,
    plugin: CachedPluginView,
    reported: Seq<RepoUpdateVersionView>,
    cached: Seq<CachedPluginVersionView>,
)
    requires
        holds_reported(table, plugin, reported),
        forall|j: int|
            0 <= j < cached.len() ==> still_offered(reported, (#[trigger] cached[j]).update_id),
    ensures
        table_after_all(table, plugin_sync_plan(plugin, reported, cached)) == table,
{
    let binding = all_binding_steps(plugin, reported);
    let bound = table_after_all(table, binding);
    let after = table_after_all(table, plugin_sync_plan(plugin, reported, cached));
    lemma_table_after_both(table, binding, removal_steps(reported, cached));
    assert forall|key: VersionKey|
        #![trigger after.dom().contains(key)]
        #![trigger table.dom().contains(key)]
        after.dom().contains(key) == table.dom().contains(key) && (table.dom().contains(key)
            ==> after[key] == table[key]) by {
        lemma_bound_table(table, plugin, reported, key);
        lemma_removals_leave(bound, reported, cached, key);
        if key.0 == plugin.xml_id && last_binding(reported, key.1).is_some() {
            lemma_last_binding_is_reported(reported, key.1);
            let i = choose|i: int|
                0 <= i < reported.len() && (#[trigger] reported[i]).version == key.1;
            assert(key == (plugin.xml_id, reported[i].version));
        }
    }
    assert(after =~= table);
}

} // verus!
