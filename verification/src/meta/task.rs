//! The units of work that a synchronization pass hands out.

use crate::db::models::{
    CachedPlugin, CachedPluginVersion, CachedPluginVersionView, CachedPluginView,
};
use crate::api::models::texts;
use crate::text::{decimal, decimal_text};
use vstd::prelude::*;
use vstd::string::*;

verus! {

/// One unit of work. A task may hand out further tasks while it runs.
#[derive(Debug, Clone, PartialEq, Eq)]
pub enum Task {
    /// Walks the plugins that the store knows and hands out one
    /// `SyncPlugin` for each.
    DispatchPluginSync,
    /// Hands out one `SyncNewPlugin` for each identifier that the
    /// repository lists and the store does not know.
    SyncAllNewPlugins { local: Vec<String>, remote: Vec<String> },
    /// Fetches the details of a plugin that the store does not know yet.
    SyncNewPlugin(String),
    /// Brings the versions of one plugin in line with the repository.
    SyncPlugin(CachedPlugin),
    /// Records the dependencies of one version's update.
    SyncUpdateDependencyMeta(CachedPlugin, CachedPluginVersion),
    /// Resolves the download information of one update.
    SyncUpdateMeta(u64),
}

pub ghost enum TaskView {
    DispatchPluginSync,
    SyncAllNewPlugins { local: Seq<Seq<char>>, remote: Seq<Seq<char>> },
    SyncNewPlugin(Seq<char>),
    SyncPlugin(CachedPluginView),
    SyncUpdateDependencyMeta(CachedPluginView, CachedPluginVersionView),
    SyncUpdateMeta(u64),
}

impl View for Task {
    type V = TaskView;

    open spec fn view(&self) -> TaskView {
        match self {
            Task::DispatchPluginSync => TaskView::DispatchPluginSync,
            Task::SyncAllNewPlugins { local, remote } => TaskView::SyncAllNewPlugins {
                local: texts(local@),
                remote: texts(remote@),
            },
            Task::SyncNewPlugin(id) => TaskView::SyncNewPlugin(id@),
            Task::SyncPlugin(plugin) => TaskView::SyncPlugin(plugin@),
            Task::SyncUpdateDependencyMeta(plugin, version) => TaskView::SyncUpdateDependencyMeta(
                plugin@,
                version@,
            ),
            Task::SyncUpdateMeta(id) => TaskView::SyncUpdateMeta(*id),
        }
    }
}

impl TaskView {
    /// The name under which the outcome of the task is reported.
    pub open spec fn name(self) -> Seq<char> {
        match self {
            TaskView::DispatchPluginSync => "dispatch plugin sync"@,
            TaskView::SyncAllNewPlugins { .. } => "sync all new plugins"@,
            TaskView::SyncNewPlugin(id) => "sync new plugin "@ + id,
            TaskView::SyncPlugin(plugin) => "sync plugin "@ + plugin.xml_id,
            TaskView::SyncUpdateDependencyMeta(plugin, version) => "sync update metadata for "@
                + plugin.xml_id + "@"@ + version.version,
            TaskView::SyncUpdateMeta(id) => "sync update metadata for "@ + decimal(id as nat),
        }
    }
}

impl Task {
    /// The name under which the outcome of the task is reported.
    pub fn name(&self) -> (name: String)
        ensures
            name@ == self@.name(),
    {
        match self {
            Task::DispatchPluginSync => String::from_str("dispatch plugin sync"),
            Task::SyncAllNewPlugins { .. } => String::from_str("sync all new plugins"),
            Task::SyncNewPlugin(id) => String::from_str("sync new plugin ").concat(id.as_str()),
            Task::SyncPlugin(plugin) => String::from_str("sync plugin ").concat(
                plugin.xml_id.as_str(),
            ),
            Task::SyncUpdateDependencyMeta(plugin, version) => String::from_str(
                "sync update metadata for ",
            ).concat(plugin.xml_id.as_str()).concat("@").concat(version.version.as_str()),
            Task::SyncUpdateMeta(id) => {
                let number = decimal_text(*id);
                String::from_str("sync update metadata for ").concat(number.as_str())
            },
        }
    }
}

} // verus!
