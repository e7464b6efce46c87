//! Reconciliation of the local store against the remote catalogue, and the
//! emission of the static catalogue.

pub mod catalogue;
pub mod claims;
pub mod output;
pub mod precedence;
pub mod sync;
pub mod table;
pub mod task;

use crate::api::models::{texts, views};
use crate::db::models::CachedPlugin;
use crate::error::IndexerError;
use crate::meta::task::{Task, TaskView};
use crate::statistics::{
    TaskDataPointView, TaskError, TaskReport, TaskReportView,
};
use crate::text::same_string;
use vstd::prelude::*;

verus! {

/// The members of one list that a second list does not have, in the order
/// of the first.
pub open spec fn without(ids: Seq<Seq<char>>, others: Seq<Seq<char>>) -> Seq<Seq<char>>
    decreases ids.len(),
{
    if ids.len() == 0 {
        Seq::empty()
    } else {
        let before = without(ids.drop_last(), others);
        if others.contains(ids.last()) {
            before
        } else {
            before.push(ids.last())
        }
    }
}

/// A text is in the difference of two lists exactly if it is in the first
/// and not in the second.
pub proof fn lemma_without_members(ids: Seq<Seq<char>>, others: Seq<Seq<char>>, id: Seq<char>)
    ensures
        without(ids, others).contains(id) <==> ids.contains(id) && !others.contains(id),
    decreases ids.len(),
{
    if ids.len() > 0 {
        let front = ids.drop_last();
        lemma_without_members(front, others, id);
        let before = without(front, others);
        if ids.contains(id) {
            let i = choose|i: int| 0 <= i < ids.len() && ids[i] == id;
            if i < ids.len() - 1 {
                assert(front[i] == id);
            }
        }
        if front.contains(id) {
            let i = choose|i: int| 0 <= i < front.len() && front[i] == id;
            assert(ids[i] == id);
        }
        if others.contains(ids.last()) {
        } else {
            let after = before.push(ids.last());
            if before.contains(id) {
                let i = choose|i: int| 0 <= i < before.len() && before[i] == id;
                assert(after[i] == id);
            }
            if ids.last() == id {
                assert(after[before.len() as int] == id);
            }
            if after.contains(id) {
                let i = choose|i: int| 0 <= i < after.len() && after[i] == id;
                if i < before.len() {
                    assert(before[i] == id);
                }
            }
        }
    }
}

/// Where the second list has every member of the first, nothing is left of
/// the first.
pub proof fn lemma_without_nothing_left(ids: Seq<Seq<char>>, others: Seq<Seq<char>>)
    requires
        forall|i: int| 0 <= i < ids.len() ==> others.contains(#[trigger] ids[i]),
    ensures
        without(ids, others) == Seq::<Seq<char>>::empty(),
    decreases ids.len(),
{
    if ids.len() > 0 {
        let front = ids.drop_last();
        assert forall|i: int| 0 <= i < front.len() implies others.contains(
            #[trigger] front[i],
        ) by {
            assert(front[i] == ids[i]);
        }
        lemma_without_nothing_left(front, others);
        assert(others.contains(ids[ids.len() - 1]));
    }
}

fn holds(ids: &Vec<String>, id: &String) -> (found: bool)
    ensures
        found == texts(ids@).contains(id@),
{
    let mut i: usize = 0;
    while i < ids.len()
        invariant
            i <= ids.len(),
            forall|k: int| 0 <= k < i ==> texts(ids@)[k] != id@,
        decreases ids.len() - i,
    {
        if same_string(&ids[i], id) {
            assert(texts(ids@)[i as int] == id@);
            return true;
        }
        i += 1;
    }
    false
}

/// The identifiers of one list that a second list does not have.
pub fn difference(ids: &Vec<String>, others: &Vec<String>) -> (left: Vec<String>)
    ensures
        texts(left@) == without(texts(ids@), texts(others@)),
{
    let mut left: Vec<String> = Vec::new();
    let mut i: usize = 0;
    assert(texts(ids@).take(0) =~= Seq::empty());
    assert(texts(left@) =~= Seq::empty());
    while i < ids.len()
        invariant
            i <= ids.len(),
            texts(left@) == without(texts(ids@).take(i as int), texts(others@)),
        decreases ids.len() - i,
    {
        let ghost before = left@;
        let known = holds(others, &ids[i]);
        if !known {
            left.push(ids[i].clone());
            assert(texts(left@) =~= texts(before).push(ids@[i as int]@));
        }
        proof {
            let next = texts(ids@).take(i + 1);
            assert(next.drop_last() =~= texts(ids@).take(i as int));
            assert(next.last() == ids@[i as int]@);
        }
        i += 1;
    }
    assert(texts(ids@).take(ids.len() as int) =~= texts(ids@));
    left
}

/// The plugins to delete before anything is handed out: those that the
/// store knows and the repository no longer lists.
pub fn purge_unknown_plugins(local: &Vec<String>, remote: &Vec<String>) -> (gone: Vec<String>)
    ensures
        texts(gone@) == without(texts(local@), texts(remote@)),
{
    difference(local, remote)
}

/// One task for each of the given identifiers, to fetch the plugin's
/// details and take it into the store.
pub open spec fn new_plugin_tasks(ids: Seq<Seq<char>>) -> Seq<TaskView> {
    Seq::new(ids.len(), |i: int| TaskView::SyncNewPlugin(ids[i]))
}

/// The tasks that take in the plugins which the repository lists and the
/// store does not know.
pub fn sync_new_plugins(local: &Vec<String>, remote: &Vec<String>) -> (tasks: Vec<Task>)
    ensures
        views(tasks@) == new_plugin_tasks(
            without(texts(remote@), texts(local@)),
        ),
{
    let fresh = difference(remote, local);
    let ghost ids = texts(fresh@);
    let mut tasks: Vec<Task> = Vec::new();
    let mut i: usize = 0;
    while i < fresh.len()
        invariant
            i <= fresh.len(),
            ids == texts(fresh@),
            tasks@.len() == i,
            forall|k: int| 0 <= k < i ==> (#[trigger] tasks@[k])@ == TaskView::SyncNewPlugin(ids[k]),
        decreases fresh.len() - i,
    {
        tasks.push(Task::SyncNewPlugin(fresh[i].clone()));
        i += 1;
    }
    assert(views(tasks@) =~= new_plugin_tasks(ids));
    tasks
}

/// What a pass does once its three opening operations have succeeded.
#[derive(Debug, Clone, PartialEq, Eq)]
pub struct PassPlan {
    /// The plugins to delete, one after the other, before any task is
    /// handed out.
    pub purge: Vec<String>,
    /// The tasks that walk the known plugins and take in the new ones.
    pub seeds: Vec<Task>,
}

/// The two tasks that a pass starts with.
pub open spec fn seed_tasks(local: Seq<Seq<char>>, remote: Seq<Seq<char>>) -> Seq<TaskView> {
    seq![TaskView::DispatchPluginSync, TaskView::SyncAllNewPlugins { local, remote }]
}

/// Plans a pass from the identifiers that the store knows and those that
/// the repository lists.
pub fn plan_pass(local: Vec<String>, remote: Vec<String>) -> (plan: PassPlan)
    ensures
        texts(plan.purge@) == without(texts(local@), texts(remote@)),
        views(plan.seeds@) == seed_tasks(texts(local@), texts(remote@)),
{
    let purge = purge_unknown_plugins(&local, &remote);
    let mut seeds: Vec<Task> = Vec::new();
    seeds.push(Task::DispatchPluginSync);
    seeds.push(Task::SyncAllNewPlugins { local, remote });
    assert(views(seeds@) =~= seed_tasks(texts(local@), texts(remote@)));
    PassPlan { purge, seeds }
}

/// Opens a pass with the outcomes of its three opening operations: reading
/// the known identifiers, fetching the listed ones, and marking every
/// update stale. All three must have succeeded; the error of the first
/// that did not, in this order, ends the pass.
pub fn open_pass(
    local: Result<Vec<String>, IndexerError>,
    remote: Result<Vec<String>, IndexerError>,
    marked: Result<(), IndexerError>,
) -> (opened: Result<PassPlan, IndexerError>)
    ensures
        match (local, remote, marked) {
            (Ok(known), Ok(listed), Ok(_)) => {
                &&& opened matches Ok(plan)
                &&& texts(plan.purge@) == without(texts(known@), texts(listed@))
                &&& views(plan.seeds@) == seed_tasks(texts(known@), texts(listed@))
            },
            (Err(error), _, _) => opened == Err::<PassPlan, IndexerError>(error),
            (Ok(_), Err(error), _) => opened == Err::<PassPlan, IndexerError>(error),
            (Ok(_), Ok(_), Err(error)) => opened == Err::<PassPlan, IndexerError>(error),
        },
{
    let known = match local {
        Ok(known) => known,
        Err(error) => {
            return Err(error);
        },
    };
    let listed = match remote {
        Ok(listed) => listed,
        Err(error) => {
            return Err(error);
        },
    };
    match marked {
        Ok(_) => Ok(plan_pass(known, listed)),
        Err(error) => Err(error),
    }
}

/// What the walk over the known plugins does with one item of the store's
/// stream: a plugin gets its synchronization task, and an item that could
/// not be read is reported as a problem of the walk, which goes on.
pub fn on_streamed_plugin(item: Result<CachedPlugin, TaskError>) -> (next: Result<Task, TaskReport>)
    ensures
        match item {
            Ok(plugin) => next matches Ok(task) && task@ == TaskView::SyncPlugin(plugin@),
            Err(error) => next matches Err(report) && report@ == (TaskReportView {
                name: TaskView::DispatchPluginSync.name(),
                data: TaskDataPointView::EncounteredProblem(error@),
            }),
        },
{
    match item {
        Ok(plugin) => Ok(Task::SyncPlugin(plugin)),
        Err(error) => Err(TaskReport::problem(Task::DispatchPluginSync.name(), error)),
    }
}

} // verus!
