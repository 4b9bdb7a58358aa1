//! The candidates of the picker.

use crate::handle::BufferId;
use crate::model::FileMatchModel;
use vstd::prelude::*;

verus! {

/// One buffer offered for comparison, with the label it is listed under.
#[derive(Debug, PartialEq, Eq)]
pub struct FileMatch {
    pub buffer: BufferId,
    pub display_text: String,
}

impl View for FileMatch {
    type V = FileMatchModel;

    open spec fn view(&self) -> FileMatchModel {
        FileMatchModel { buffer: self.buffer, display_text: self.display_text@ }
    }
}

impl Clone for FileMatch {
    fn clone(&self) -> (copy: Self)
        ensures
            copy == *self,
    {
        FileMatch { buffer: self.buffer, display_text: self.display_text.clone() }
    }
}

/// The models of a list of candidates, in order.
pub open spec fn match_models(matches: Seq<FileMatch>) -> Seq<FileMatchModel> {
    matches.map_values(|m: FileMatch| m@)
}

/// The candidate that a pair of buffer and label stands for.
pub open spec fn entry_model(entry: (BufferId, String)) -> FileMatchModel {
    FileMatchModel { buffer: entry.0, display_text: entry.1@ }
}

/// The candidates that a list of open buffers stands for, in order.
pub open spec fn entry_models(entries: Seq<(BufferId, String)>) -> Seq<FileMatchModel> {
    entries.map_values(|e: (BufferId, String)| entry_model(e))
}

} // verus!
