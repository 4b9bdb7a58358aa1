//! The picker's list state and its confirm action.

use crate::effect::{effect_models, DiffRequest, Effect, HostSnapshot};
use crate::file_match::{entry_models, match_models, FileMatch};
use crate::filter::{label_views, lemma_kept_by_lowercased, lowercased_labels, retain_containing};
use crate::handle::{BufferId, ProjectId, WorkspaceId};
use crate::model::{visible_for, EffectModel, MatchRowModel, PickerModel};
use crate::picker_proofs::{lemma_empty_query_shows_all, lemma_filter_shows_matching};
use crate::subsequence::lemma_subsequence_refl;
use crate::text::{lowercased, to_lowercase};
use vstd::prelude::*;

verus! {

/// The title of the active buffer: its file name, or `"Untitled"` when it has
/// no file.
pub fn active_title(file_name: &Option<String>) -> (title: String)
    ensures
        title@ == crate::model::active_title(
            match *file_name {
                Some(name) => Some(name@),
                None => None,
            },
        ),
{
    match file_name {
        Some(name) => name.clone(),
        None => "Untitled".to_string(),
    }
}

/// One row of the list: the position it stands at, its label, and whether it
/// is the selected row.
#[derive(Debug, PartialEq, Eq)]
pub struct MatchRow {
    pub id: usize,
    pub label: String,
    pub selected: bool,
}

impl View for MatchRow {
    type V = MatchRowModel;

    open spec fn view(&self) -> MatchRowModel {
        MatchRowModel { id: self.id as nat, label: self.label@, selected: self.selected }
    }
}

/// The single request to redraw the list.
fn notify() -> (effects: Vec<Effect>)
    ensures
        effect_models(effects@) == seq![EffectModel::Notify],
{
    let mut effects: Vec<Effect> = Vec::new();
    effects.push(Effect::Notify);
    assert(effect_models(effects@) == seq![EffectModel::Notify]);
    effects
}

/// The list state of the picker together with the handles of the active
/// buffer, the workspace and the project.
#[derive(Debug)]
pub struct FileComparisonDelegate {
    active_buffer: BufferId,
    workspace: WorkspaceId,
    project: ProjectId,
    all_matches: Vec<FileMatch>,
    matches: Vec<FileMatch>,
    selected_index: usize,
}

impl View for FileComparisonDelegate {
    type V = PickerModel;

    closed spec fn view(&self) -> PickerModel {
        PickerModel {
            active_buffer: self.active_buffer,
            workspace: self.workspace,
            project: self.project,
            all_matches: match_models(self.all_matches@),
            matches: match_models(self.matches@),
            selected_index: self.selected_index as nat,
        }
    }
}

impl FileComparisonDelegate {
    #[verifier::type_invariant]
    spec fn inv(self) -> bool {
        self@.well_formed()
    }

    /// A picker over `open_buffers`, in the order given: all of them shown,
    /// the first one selected.
    pub fn new(
        active_buffer: BufferId,
        workspace: WorkspaceId,
        project: ProjectId,
        open_buffers: Vec<(BufferId, String)>,
    ) -> (delegate: Self)
        ensures
            delegate@ == PickerModel::initial(
                active_buffer,
                workspace,
                project,
                entry_models(open_buffers@),
            ),
            delegate@.well_formed(),
    {
        let mut all_matches: Vec<FileMatch> = Vec::new();
        let mut matches: Vec<FileMatch> = Vec::new();
        let mut i: usize = 0;
        while i < open_buffers.len()
            invariant
                i <= open_buffers.len(),
                match_models(all_matches@) == entry_models(open_buffers@.subrange(0, i as int)),
                match_models(matches@) == match_models(all_matches@),
            decreases open_buffers.len() - i,
        {
            let file_match = FileMatch {
                buffer: open_buffers[i].0,
                display_text: open_buffers[i].1.clone(),
            };
            proof {
                let before = open_buffers@.subrange(0, i as int);
                let after = open_buffers@.subrange(0, i as int + 1);
                assert(after == before.push(open_buffers@[i as int]));
                assert(entry_models(after) == entry_models(before).push(file_match@));
                assert(match_models(all_matches@.push(file_match)) == match_models(
                    all_matches@,
                ).push(file_match@));
                assert(match_models(matches@.push(file_match)) == match_models(matches@).push(
                    file_match@,
                ));
            }
            matches.push(file_match.clone());
            all_matches.push(file_match);
            i += 1;
        }
        proof {
            assert(open_buffers@.subrange(0, i as int) == open_buffers@);
            lemma_subsequence_refl(match_models(all_matches@));
        }
        FileComparisonDelegate {
            active_buffer,
            workspace,
            project,
            all_matches,
            matches,
            selected_index: 0,
        }
    }

    /// The prompt shown while the query is empty.
    pub fn placeholder_text(&self) -> (text: String)
        ensures
            text@ == "Select a file to compare with..."@,
    {
        "Select a file to compare with...".to_string()
    }

    /// The label shown when no candidate is shown.
    pub fn no_matches_text(&self) -> (text: Option<String>)
        ensures
            text matches Some(t) && t@ == "No other files open"@,
    {
        Some("No other files open".to_string())
    }

    /// The number of candidates shown.
    pub fn match_count(&self) -> (count: usize)
        ensures
            count == self@.matches.len(),
    {
        self.matches.len()
    }

    /// The position of the selected candidate among those shown.
    pub fn selected_index(&self) -> (ix: usize)
        ensures
            ix == self@.selected_index,
            self@.well_formed(),
    {
        proof {
            use_type_invariant(self);
        }
        self.selected_index
    }

    /// Selects the candidate at `ix`, or the last one shown when `ix` is past
    /// the end; with nothing shown the selection stays at zero. The host has
    /// to redraw.
    pub fn set_selected_index(&mut self, ix: usize) -> (effects: Vec<Effect>)
        ensures
            final(self)@ == old(self)@.with_selection(ix as nat),
            final(self)@.well_formed(),
            ix < old(self)@.matches.len() ==> final(self)@.selected_index == ix,
            old(self)@.matches.len() > 0 && ix >= old(self)@.matches.len()
                ==> final(self)@.selected_index == old(self)@.matches.len() - 1,
            old(self)@.matches.len() == 0 ==> final(self)@.selected_index == 0,
            effect_models(effects@) == seq![EffectModel::Notify],
    {
        proof {
            use_type_invariant(&*self);
        }
        let last = if self.matches.len() == 0 {
            0
        } else {
            self.matches.len() - 1
        };
        self.selected_index = if ix < last {
            ix
        } else {
            last
        };
        notify()
    }

    /// Shows the candidates that match `query` and selects the first of them.
    ///
    /// The empty query shows every candidate. Any other query shows, in their
    /// given order, the candidates whose lowercased label contains the
    /// lowercased query. The host has to redraw.
    pub fn update_matches(&mut self, query: String) -> (effects: Vec<Effect>)
        ensures
            final(self)@ == old(self)@.filtered(query@),
            final(self)@.well_formed(),
            final(self)@.selected_index == 0,
            effect_models(effects@) == seq![EffectModel::Notify],
    {
        proof {
            use_type_invariant(&*self);
        }
        let ghost all = match_models(self.all_matches@);
        let shown = if query.as_str().is_empty() {
            let shown = self.all_matches.clone();
            proof {
                assert(match_models(shown@) == all);
                lemma_empty_query_shows_all(all, query@);
            }
            shown
        } else {
            let query_lower = to_lowercase(query.as_str());
            let keys = lowercased_labels(&self.all_matches);
            proof {
                assert forall|i: int| 0 <= i < all.len() implies #[trigger] label_views(keys@)[i]
                    == lowercased(all[i].display_text) by {
                    assert(label_views(keys@)[i] == keys[i]@);
                }
                lemma_kept_by_lowercased(all, label_views(keys@), query@);
            }
            retain_containing(&self.all_matches, &keys, query_lower.as_str())
        };
        proof {
            assert(match_models(shown@) == visible_for(all, query@));
            lemma_filter_shows_matching(all, query@);
        }
        self.selected_index = 0;
        self.matches = shown;
        notify()
    }

    /// Called by the host after the picker was dismissed; nothing to do.
    pub fn dismissed(&mut self)
        ensures
            *final(self) == *old(self),
    {
    }

    /// The candidate that is selected.
    pub fn current_selection(&self) -> (selected: &FileMatch)
        requires
            self@.matches.len() > 0,
        ensures
            selected@ == self@.matches[self@.selected_index as int],
    {
        proof {
            use_type_invariant(self);
        }
        &self.matches[self.selected_index]
    }

    /// The row for the candidate shown at position `ix`. `selected` says
    /// whether that position is the selected one; the row carries the flag
    /// as given.
    pub fn render_match(&self, ix: usize, selected: bool) -> (row: Option<MatchRow>)
        requires
            ix < self@.matches.len(),
        ensures
            row matches Some(r) && r@ == self@.row(ix as nat, selected),
            selected == (ix == self@.selected_index) ==> (row matches Some(r) && r@
                == self@.shown_row(ix as nat)),
    {
        let file_match = &self.matches[ix];
        Some(MatchRow { id: ix, label: file_match.display_text.clone(), selected })
    }

    /// Commits the current selection.
    ///
    /// Does nothing when no candidate is shown or the workspace handle no
    /// longer resolves.
    /// Otherwise asks the host to start the diff of the active buffer against
    /// the selected one and then to dismiss the picker, in that order; the
    /// diff is not waited for. The picker itself is left as it was, and
    /// `secondary` makes no difference.
    #[allow(unused_variables)]
    pub fn confirm(&mut self, secondary: bool, host: &HostSnapshot) -> (effects: Vec<Effect>)
        ensures
            *final(self) == *old(self),
            effect_models(effects@) == old(self)@.confirm_effects(host@),
            old(self)@.matches.len() == 0 ==> effects@.len() == 0,
            host.workspace is None ==> effects@.len() == 0,
            old(self)@.can_confirm(host@) ==> effects@.len() == 2,
    {
        proof {
            use_type_invariant(&*self);
        }
        let mut effects: Vec<Effect> = Vec::new();
        if self.matches.len() == 0 {
            assert(effect_models(effects@) == Seq::<EffectModel>::empty());
            return effects;
        }
        let workspace = match host.workspace {
            Some(workspace) => workspace,
            None => {
                assert(effect_models(effects@) == Seq::<EffectModel>::empty());
                return effects;
            },
        };
        let selected_match = &self.matches[self.selected_index];
        let request = DiffRequest {
            active_buffer: self.active_buffer,
            compare_buffer: selected_match.buffer,
            workspace,
            project: self.project,
            active_title: active_title(&host.active_file_name),
            compare_title: selected_match.display_text.clone(),
        };
        assert(request@ == self@.diff_request(host@));
        effects.push(Effect::SpawnDiff(request));
        effects.push(Effect::Dismiss);
        assert(effect_models(effects@) == seq![
            EffectModel::SpawnDiff(self@.diff_request(host@)),
            EffectModel::Dismiss,
        ]);
        effects
    }
}

} // verus!
