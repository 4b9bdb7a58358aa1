//! What holds of the background work of a confirmation, whatever the host
//! reports and in whatever order.

use crate::handle::{DiffId, PaneId};
use crate::model::{diff_view_for, DiffEventModel, DiffRequestModel, DiffTaskModel, EffectModel};
use vstd::prelude::*;

verus! {

/// A run of events can be cut in two: the second part starts where the first
/// one ended, and the effects follow one another.
pub proof fn lemma_run_splits(
    task: DiffTaskModel,
    first: Seq<DiffEventModel>,
    second: Seq<DiffEventModel>,
)
    ensures
        task.after(first + second) == task.after(first).after(second),
        task.effects_over(first + second) == task.effects_over(first) + task.after(
            first,
        ).effects_over(second),
    decreases second.len(),
{
    if second.len() == 0 {
        assert(first + second == first);
        assert(task.effects_over(first) + Seq::<EffectModel>::empty() == task.effects_over(first));
    } else {
        let whole = first + second;
        assert(whole.drop_last() == first + second.drop_last());
        assert(whole.last() == second.last());
        lemma_run_splits(task, first, second.drop_last());
        let mid = task.after(first);
        assert(task.effects_over(whole) == task.effects_over(first) + (mid.effects_over(
            second.drop_last(),
        ) + mid.after(second.drop_last()).effects(second.last())));
    }
}

/// A run of one event is one step.
pub proof fn lemma_run_of_one(task: DiffTaskModel, event: DiffEventModel)
    ensures
        task.after(seq![event]) == task.next(event),
        task.effects_over(seq![event]) == task.effects(event),
{
    let run = seq![event];
    assert(run.drop_last() == Seq::<DiffEventModel>::empty());
    assert(run.last() == event);
    reveal_with_fuel(DiffTaskModel::after, 2);
    reveal_with_fuel(DiffTaskModel::effects_over, 2);
    assert(Seq::<EffectModel>::empty() + task.effects(event) == task.effects(event));
}

/// A task that is done stays done and asks nothing more of the host.
pub proof fn lemma_done_is_final(events: Seq<DiffEventModel>)
    ensures
        DiffTaskModel::Done.after(events) == DiffTaskModel::Done,
        DiffTaskModel::Done.effects_over(events) == Seq::<EffectModel>::empty(),
    decreases events.len(),
{
    if events.len() > 0 {
        lemma_done_is_final(events.drop_last());
        assert(Seq::<EffectModel>::empty() + Seq::<EffectModel>::empty() == Seq::<
            EffectModel,
        >::empty());
    }
}

/// When the build fails, the failure is logged exactly once: that is all the
/// task ever asks of the host, so no view is added to any pane.
pub proof fn lemma_failed_build_logs_once(
    request: DiffRequestModel,
    message: Seq<char>,
    later: Seq<DiffEventModel>,
)
    ensures
        DiffTaskModel::Building(request).effects_over(
            seq![DiffEventModel::Built(Err(message))] + later,
        ) == seq![EffectModel::LogError(message)],
{
    let task = DiffTaskModel::Building(request);
    let failed = DiffEventModel::Built(Err(message));
    lemma_run_of_one(task, failed);
    lemma_run_splits(task, seq![failed], later);
    lemma_done_is_final(later);
    assert(seq![EffectModel::LogError(message)] + Seq::<EffectModel>::empty() == seq![
        EffectModel::LogError(message),
    ]);
}

/// When the build succeeds and the workspace is still there on re-entry,
/// exactly one view is added, to the pane that is active at that moment,
/// activated and focused: that is all the task ever asks of the host.
pub proof fn lemma_built_diff_is_added_once(
    request: DiffRequestModel,
    diff: DiffId,
    pane: PaneId,
    later: Seq<DiffEventModel>,
)
    ensures
        DiffTaskModel::Building(request).effects_over(
            seq![DiffEventModel::Built(Ok(diff)), DiffEventModel::Reentered(Some(pane))] + later,
        ) == seq![
            EffectModel::AddItem {
                pane,
                item: diff_view_for(request, diff),
                activate: true,
                focus: true,
            },
        ],
{
    let task = DiffTaskModel::Building(request);
    let built = DiffEventModel::Built(Ok(diff));
    let reentered = DiffEventModel::Reentered(Some(pane));
    let added = EffectModel::AddItem {
        pane,
        item: diff_view_for(request, diff),
        activate: true,
        focus: true,
    };
    lemma_run_of_one(task, built);
    lemma_run_of_one(task.next(built), reentered);
    lemma_run_splits(task, seq![built], seq![reentered]);
    assert(seq![built] + seq![reentered] == seq![built, reentered]);
    assert(Seq::<EffectModel>::empty() + seq![added] == seq![added]);
    lemma_run_splits(task, seq![built, reentered], later);
    lemma_done_is_final(later);
    assert(seq![added] + Seq::<EffectModel>::empty() == seq![added]);
}

/// When the build succeeds but the workspace is gone on re-entry, the task
/// ends without asking anything of the host.
pub proof fn lemma_stale_reentry_is_silent(
    request: DiffRequestModel,
    diff: DiffId,
    later: Seq<DiffEventModel>,
)
    ensures
        DiffTaskModel::Building(request).effects_over(
            seq![DiffEventModel::Built(Ok(diff)), DiffEventModel::Reentered(None)] + later,
        ) == Seq::<EffectModel>::empty(),
{
    let task = DiffTaskModel::Building(request);
    let built = DiffEventModel::Built(Ok(diff));
    let reentered = DiffEventModel::Reentered(None);
    lemma_run_of_one(task, built);
    lemma_run_of_one(task.next(built), reentered);
    lemma_run_splits(task, seq![built], seq![reentered]);
    assert(seq![built] + seq![reentered] == seq![built, reentered]);
    lemma_run_splits(task, seq![built, reentered], later);
    lemma_done_is_final(later);
    assert(Seq::<EffectModel>::empty() + Seq::<EffectModel>::empty() == Seq::<
        EffectModel,
    >::empty());
}

/// Over any run of events a task asks at most one thing of the host: it
/// either logs one failure or adds one view, never both and never twice.
pub proof fn lemma_at_most_one_effect(task: DiffTaskModel, events: Seq<DiffEventModel>)
    ensures
        task.effects_over(events).len() <= 1,
        task.effects_over(events).len() == 1 ==> task.after(events) is Done,
    decreases events.len(),
{
    if events.len() > 0 {
        let front = events.drop_last();
        lemma_at_most_one_effect(task, front);
    }
}

} // verus!
