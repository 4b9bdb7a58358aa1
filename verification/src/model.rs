//! The mathematical model the contracts are stated over: what the picker
//! holds, what it asks of the host, and how both change.

use crate::handle::{BufferId, DiffId, PaneId, ProjectId, WorkspaceId};
use crate::subsequence::is_subsequence;
use crate::text::{is_substring, lowercased};
use vstd::prelude::*;

verus! {

/// One buffer offered for comparison, with the label it is listed under.
pub struct FileMatchModel {
    pub buffer: BufferId,
    pub display_text: Seq<char>,
}

/// What the host observed when the user confirmed.
pub struct HostModel {
    /// The workspace that the weak handle resolved to, if it is still there.
    pub workspace: Option<WorkspaceId>,
    /// The file name of the active buffer, if it has a file.
    pub active_file_name: Option<Seq<char>>,
}

/// A diff the host is asked to build.
pub struct DiffRequestModel {
    pub active_buffer: BufferId,
    pub compare_buffer: BufferId,
    pub workspace: WorkspaceId,
    pub project: ProjectId,
    pub active_title: Seq<char>,
    pub compare_title: Seq<char>,
}

/// A diff view ready to be shown.
pub struct DiffViewModel {
    pub compare_buffer: BufferId,
    pub active_buffer: BufferId,
    pub diff: DiffId,
    pub project: ProjectId,
    pub compare_title: Seq<char>,
    pub active_title: Seq<char>,
}

/// One thing the host has to do.
pub enum EffectModel {
    Notify,
    SpawnDiff(DiffRequestModel),
    Dismiss,
    LogError(Seq<char>),
    AddItem { pane: PaneId, item: DiffViewModel, activate: bool, focus: bool },
}

/// Where the background work of one confirmation stands.
pub enum DiffTaskModel {
    /// The diff is being built.
    Building(DiffRequestModel),
    /// The diff was built; the view waits to be shown from the UI thread.
    Ready(DiffViewModel),
    /// Nothing is left to do.
    Done,
}

/// What the host reports to a running task.
pub enum DiffEventModel {
    /// The diff build ended, with the diff or with a failure message.
    Built(Result<DiffId, Seq<char>>),
    /// The task is back on the UI thread. Carries the pane that is active
    /// now, or nothing when the workspace or its window is gone.
    Reentered(Option<PaneId>),
}

/// The view that shows `diff` for `request`.
pub open spec fn diff_view_for(request: DiffRequestModel, diff: DiffId) -> DiffViewModel {
    DiffViewModel {
        compare_buffer: request.compare_buffer,
        active_buffer: request.active_buffer,
        diff,
        project: request.project,
        compare_title: request.compare_title,
        active_title: request.active_title,
    }
}

impl DiffTaskModel {
    /// The task after `event`. An event that the task does not wait for
    /// leaves it as it is.
    pub open spec fn next(self, event: DiffEventModel) -> DiffTaskModel {
        match (self, event) {
            (DiffTaskModel::Building(request), DiffEventModel::Built(Ok(diff))) => {
                DiffTaskModel::Ready(diff_view_for(request, diff))
            },
            (DiffTaskModel::Building(_), DiffEventModel::Built(Err(_))) => DiffTaskModel::Done,
            (DiffTaskModel::Ready(_), DiffEventModel::Reentered(_)) => DiffTaskModel::Done,
            _ => self,
        }
    }

    /// What the host has to do on `event`: log a failed build, add a built
    /// view to the pane that is active on re-entry, and nothing otherwise.
    pub open spec fn effects(self, event: DiffEventModel) -> Seq<EffectModel> {
        match (self, event) {
            (DiffTaskModel::Building(_), DiffEventModel::Built(Err(message))) => {
                seq![EffectModel::LogError(message)]
            },
            (DiffTaskModel::Ready(item), DiffEventModel::Reentered(Some(pane))) => {
                seq![EffectModel::AddItem { pane, item, activate: true, focus: true }]
            },
            _ => Seq::empty(),
        }
    }

    /// The task after a run of events.
    pub open spec fn after(self, events: Seq<DiffEventModel>) -> DiffTaskModel
        decreases events.len(),
    {
        if events.len() == 0 {
            self
        } else {
            self.after(events.drop_last()).next(events.last())
        }
    }

    /// Everything the host has to do over a run of events, in order.
    pub open spec fn effects_over(self, events: Seq<DiffEventModel>) -> Seq<EffectModel>
        decreases events.len(),
    {
        if events.len() == 0 {
            Seq::empty()
        } else {
            self.effects_over(events.drop_last()) + self.after(events.drop_last()).effects(
                events.last(),
            )
        }
    }
}

/// One rendered row of the list.
pub struct MatchRowModel {
    pub id: nat,
    pub label: Seq<char>,
    pub selected: bool,
}

/// The picker: every candidate, the ones currently shown, and the selection.
pub struct PickerModel {
    pub active_buffer: BufferId,
    pub workspace: WorkspaceId,
    pub project: ProjectId,
    pub all_matches: Seq<FileMatchModel>,
    pub matches: Seq<FileMatchModel>,
    pub selected_index: nat,
}

/// Whether a label is shown for a query: every label for the empty query,
/// otherwise the labels that contain the query when both are lowercased.
pub open spec fn matches_query(display_text: Seq<char>, query: Seq<char>) -> bool {
    query.len() == 0 || is_substring(lowercased(query), lowercased(display_text))
}

/// The candidates shown for a query, in their given order.
pub open spec fn visible_for(all: Seq<FileMatchModel>, query: Seq<char>) -> Seq<FileMatchModel> {
    all.filter(|m: FileMatchModel| matches_query(m.display_text, query))
}

/// The title of the active buffer: its file name, or a fixed label when it
/// has no file.
pub open spec fn active_title(file_name: Option<Seq<char>>) -> Seq<char> {
    match file_name {
        Some(name) => name,
        None => "Untitled"@,
    }
}

impl PickerModel {
    /// The selection points at a shown candidate, or is zero when none is
    /// shown; the shown candidates are a subsequence of all candidates.
    pub open spec fn well_formed(self) -> bool {
        &&& self.matches.len() == 0 ==> self.selected_index == 0
        &&& self.matches.len() > 0 ==> self.selected_index < self.matches.len()
        &&& is_subsequence(self.matches, self.all_matches)
    }

    /// A fresh picker: every candidate shown, the first one selected.
    pub open spec fn initial(
        active_buffer: BufferId,
        workspace: WorkspaceId,
        project: ProjectId,
        candidates: Seq<FileMatchModel>,
    ) -> PickerModel {
        PickerModel {
            active_buffer,
            workspace,
            project,
            all_matches: candidates,
            matches: candidates,
            selected_index: 0,
        }
    }

    /// The picker after the query changed to `query`.
    pub open spec fn filtered(self, query: Seq<char>) -> PickerModel {
        PickerModel {
            matches: visible_for(self.all_matches, query),
            selected_index: 0,
            ..self
        }
    }

    /// The index that a request to select `ix` ends at: `ix` itself when it
    /// is in range, else the last shown candidate, and zero when none is shown.
    pub open spec fn clamped(self, ix: nat) -> nat {
        if self.matches.len() == 0 {
            0
        } else if ix < self.matches.len() {
            ix
        } else {
            (self.matches.len() - 1) as nat
        }
    }

    /// The picker after a request to select `ix`.
    pub open spec fn with_selection(self, ix: nat) -> PickerModel {
        PickerModel { selected_index: self.clamped(ix), ..self }
    }

    /// Whether a confirmation goes ahead: something is shown and the
    /// workspace is still there.
    pub open spec fn can_confirm(self, host: HostModel) -> bool {
        self.matches.len() > 0 && host.workspace is Some
    }

    /// The diff that a confirmation asks for.
    pub open spec fn diff_request(self, host: HostModel) -> DiffRequestModel {
        let selected = self.matches[self.selected_index as int];
        DiffRequestModel {
            active_buffer: self.active_buffer,
            compare_buffer: selected.buffer,
            workspace: host.workspace.unwrap(),
            project: self.project,
            active_title: active_title(host.active_file_name),
            compare_title: selected.display_text,
        }
    }

    /// What the host has to do on a confirmation: nothing when the guards
    /// fail, else start the diff and then dismiss the picker.
    pub open spec fn confirm_effects(self, host: HostModel) -> Seq<EffectModel> {
        if self.can_confirm(host) {
            seq![EffectModel::SpawnDiff(self.diff_request(host)), EffectModel::Dismiss]
        } else {
            Seq::empty()
        }
    }

    /// The row for position `ix`, flagged as the host says.
    pub open spec fn row(self, ix: nat, selected: bool) -> MatchRowModel {
        MatchRowModel { id: ix, label: self.matches[ix as int].display_text, selected }
    }

    /// The row shown at position `ix`: flagged when `ix` is the selection.
    pub open spec fn shown_row(self, ix: nat) -> MatchRowModel {
        self.row(ix, ix == self.selected_index)
    }
}

} // verus!
