//! What the picker asks of the host, and what the host tells the picker.

use crate::handle::{BufferId, DiffId, PaneId, ProjectId, WorkspaceId};
use crate::model::{DiffRequestModel, DiffViewModel, EffectModel, HostModel};
use vstd::prelude::*;

verus! {

/// What the host observed at the moment the user confirmed.
#[derive(Debug)]
pub struct HostSnapshot {
    /// The workspace that the weak handle resolved to, `None` when it is
    /// gone.
    pub workspace: Option<WorkspaceId>,
    /// The file name of the active buffer, `None` when it has no file.
    pub active_file_name: Option<String>,
}

impl View for HostSnapshot {
    type V = HostModel;

    open spec fn view(&self) -> HostModel {
        HostModel {
            workspace: self.workspace,
            active_file_name: match self.active_file_name {
                Some(name) => Some(name@),
                None => None,
            },
        }
    }
}

/// A diff to build: the two buffers, where they live, and the titles the
/// resulting view will carry.
#[derive(Debug, PartialEq, Eq)]
pub struct DiffRequest {
    pub active_buffer: BufferId,
    pub compare_buffer: BufferId,
    pub workspace: WorkspaceId,
    pub project: ProjectId,
    pub active_title: String,
    pub compare_title: String,
}

impl View for DiffRequest {
    type V = DiffRequestModel;

    open spec fn view(&self) -> DiffRequestModel {
        DiffRequestModel {
            active_buffer: self.active_buffer,
            compare_buffer: self.compare_buffer,
            workspace: self.workspace,
            project: self.project,
            active_title: self.active_title@,
            compare_title: self.compare_title@,
        }
    }
}

/// A diff view to construct: the compared buffer first, the active one second.
#[derive(Debug, PartialEq, Eq)]
pub struct DiffView {
    pub compare_buffer: BufferId,
    pub active_buffer: BufferId,
    pub diff: DiffId,
    pub project: ProjectId,
    pub compare_title: String,
    pub active_title: String,
}

impl View for DiffView {
    type V = DiffViewModel;

    open spec fn view(&self) -> DiffViewModel {
        DiffViewModel {
            compare_buffer: self.compare_buffer,
            active_buffer: self.active_buffer,
            diff: self.diff,
            project: self.project,
            compare_title: self.compare_title@,
            active_title: self.active_title@,
        }
    }
}

/// One thing the host has to do. The picker returns effects in the order in
/// which they are to be performed.
#[derive(Debug, PartialEq, Eq)]
pub enum Effect {
    /// Redraw the list.
    Notify,
    /// Start building the diff on the UI scheduler, without waiting for it.
    SpawnDiff(DiffRequest),
    /// Close the picker.
    Dismiss,
    /// Record a failure in the log.
    LogError(String),
    /// Add the diff view to a pane as a new item.
    AddItem { pane: PaneId, item: DiffView, activate: bool, focus: bool },
}

impl View for Effect {
    type V = EffectModel;

    open spec fn view(&self) -> EffectModel {
        match self {
            Effect::Notify => EffectModel::Notify,
            Effect::SpawnDiff(request) => EffectModel::SpawnDiff(request@),
            Effect::Dismiss => EffectModel::Dismiss,
            Effect::LogError(message) => EffectModel::LogError(message@),
            Effect::AddItem { pane, item, activate, focus } => EffectModel::AddItem {
                pane: *pane,
                item: item@,
                activate: *activate,
                focus: *focus,
            },
        }
    }
}

/// The models of a list of effects, in order.
pub open spec fn effect_models(effects: Seq<Effect>) -> Seq<EffectModel> {
    effects.map_values(|e: Effect| e@)
}

} // verus!
