//! The modal that hosts the list.

use crate::delegate::FileComparisonDelegate;
use crate::file_match::entry_models;
use crate::handle::{BufferId, ProjectId, WorkspaceId};
use crate::model::PickerModel;
use vstd::prelude::*;

verus! {

/// The modal shown when the user asks to compare the active buffer with
/// another open buffer. It owns the list state for as long as it is visible.
#[derive(Debug)]
pub struct FileComparisonPicker {
    pub picker: FileComparisonDelegate,
}

impl FileComparisonPicker {
    /// A modal for `active_buffer` that offers `open_buffers`, in the order
    /// given, with all of them shown and the first one selected.
    pub fn new(
        active_buffer: BufferId,
        workspace: WorkspaceId,
        project: ProjectId,
        open_buffers: Vec<(BufferId, String)>,
    ) -> (modal: Self)
        ensures
            modal.picker@ == PickerModel::initial(
                active_buffer,
                workspace,
                project,
                entry_models(open_buffers@),
            ),
            modal.picker@.well_formed(),
    {
        let delegate = FileComparisonDelegate::new(active_buffer, workspace, project, open_buffers);
        FileComparisonPicker { picker: delegate }
    }
}

} // verus!
