//! What holds of the picker's list state, whatever the candidates and the
//! query are.

use crate::model::{active_title, matches_query, visible_for, EffectModel, FileMatchModel, HostModel, PickerModel};
use crate::subsequence::{embeds, is_subsequence, lemma_filter_keeps_all, lemma_filter_selects};
use vstd::prelude::*;

verus! {

/// `at` places the shown candidates in the full list, in order, and hits
/// exactly the positions whose label matches the query.
pub open spec fn shows_matching(
    shown: Seq<FileMatchModel>,
    all: Seq<FileMatchModel>,
    at: Seq<int>,
    query: Seq<char>,
) -> bool {
    &&& embeds(shown, all, at)
    &&& forall|i: int|
        0 <= i < all.len() ==> (#[trigger] at.contains(i) <==> matches_query(
            all[i].display_text,
            query,
        ))
}

/// Filtering shows a subsequence of the candidates, in their given order,
/// that holds each candidate whose label matches the query exactly once and
/// no other candidate.
pub proof fn lemma_filter_shows_matching(all: Seq<FileMatchModel>, query: Seq<char>)
    ensures
        is_subsequence(visible_for(all, query), all),
        exists|at: Seq<int>| shows_matching(visible_for(all, query), all, at, query),
{
    let pred = |m: FileMatchModel| matches_query(m.display_text, query);
    let at = lemma_filter_selects(all, pred);
    assert(shows_matching(visible_for(all, query), all, at, query));
}

/// The empty query shows every candidate, in the given order.
pub proof fn lemma_empty_query_shows_all(all: Seq<FileMatchModel>, query: Seq<char>)
    requires
        query.len() == 0,
    ensures
        visible_for(all, query) == all,
{
    lemma_filter_keeps_all(all, |m: FileMatchModel| matches_query(m.display_text, query));
}

/// After filtering the first shown candidate is selected, and the picker is
/// well formed whatever it was before.
pub proof fn lemma_filtered_selects_first(picker: PickerModel, query: Seq<char>)
    ensures
        picker.filtered(query).selected_index == 0,
        picker.filtered(query).well_formed(),
        picker.filtered(query).all_matches == picker.all_matches,
{
    lemma_filter_shows_matching(picker.all_matches, query);
}

/// Filtering twice by the same query is the same as filtering once.
pub proof fn lemma_filter_idempotent(picker: PickerModel, query: Seq<char>)
    ensures
        picker.filtered(query).filtered(query) == picker.filtered(query),
{
}

/// What is shown depends on the candidates and the latest query alone.
pub proof fn lemma_filter_forgets_earlier_queries(
    picker: PickerModel,
    earlier: Seq<char>,
    query: Seq<char>,
)
    ensures
        picker.filtered(earlier).filtered(query) == picker.filtered(query),
{
}

/// Selecting a position in range selects it; selecting one past the end
/// selects the last shown candidate; with nothing shown the selection is
/// zero. Nothing else changes, and a well-formed picker stays well formed.
pub proof fn lemma_selection_is_clamped(picker: PickerModel, ix: nat)
    ensures
        ix < picker.matches.len() ==> picker.with_selection(ix).selected_index == ix,
        picker.matches.len() > 0 && ix >= picker.matches.len() ==> picker.with_selection(
            ix,
        ).selected_index == picker.matches.len() - 1,
        picker.matches.len() == 0 ==> picker.with_selection(ix).selected_index == 0,
        picker.with_selection(ix).matches == picker.matches,
        picker.with_selection(ix).all_matches == picker.all_matches,
        picker.well_formed() ==> picker.with_selection(ix).well_formed(),
{
}

/// A confirmation with nothing shown asks nothing of the host.
pub proof fn lemma_confirm_with_nothing_shown(picker: PickerModel, host: HostModel)
    requires
        picker.matches.len() == 0,
    ensures
        picker.confirm_effects(host) == Seq::<EffectModel>::empty(),
{
}

/// A confirmation after the workspace is gone asks nothing of the host.
pub proof fn lemma_confirm_without_workspace(picker: PickerModel, host: HostModel)
    requires
        host.workspace is None,
    ensures
        picker.confirm_effects(host) == Seq::<EffectModel>::empty(),
{
}

/// A confirmation that goes ahead asks for exactly two things, in this
/// order: the diff of the active buffer against the selected candidate,
/// titled by the active buffer's title and the candidate's label, and then
/// the dismissal of the picker.
pub proof fn lemma_confirm_spawns_then_dismisses(picker: PickerModel, host: HostModel)
    requires
        picker.matches.len() > 0,
        host.workspace is Some,
    ensures
        picker.confirm_effects(host).len() == 2,
        picker.confirm_effects(host)[0] == EffectModel::SpawnDiff(picker.diff_request(host)),
        picker.confirm_effects(host)[1] == EffectModel::Dismiss,
        picker.diff_request(host).active_buffer == picker.active_buffer,
        picker.diff_request(host).project == picker.project,
        host.workspace == Some(picker.diff_request(host).workspace),
        picker.diff_request(host).compare_buffer == picker.matches[picker.selected_index
            as int].buffer,
        picker.diff_request(host).compare_title == picker.matches[picker.selected_index
            as int].display_text,
        picker.diff_request(host).active_title == active_title(host.active_file_name),
{
}

/// An active buffer without a file is titled "Untitled"; one with a file is
/// titled by its file name.
pub proof fn lemma_active_title(picker: PickerModel, host: HostModel)
    ensures
        host.active_file_name is None ==> picker.diff_request(host).active_title == "Untitled"@,
        host.active_file_name matches Some(name) ==> picker.diff_request(host).active_title
            == name,
{
}

} // verus!
