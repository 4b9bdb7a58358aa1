//! The background work that a confirmation starts: build the diff, then show
//! it from the UI thread.

use crate::effect::{effect_models, DiffRequest, DiffView, Effect};
use crate::handle::{DiffId, PaneId};
use crate::model::{DiffEventModel, DiffTaskModel, EffectModel};
use vstd::prelude::*;

verus! {

/// What the host reports to a running task.
#[derive(Debug, PartialEq, Eq)]
pub enum DiffEvent {
    /// The diff build ended, with the diff or with a failure message.
    Built(Result<DiffId, String>),
    /// The task is back on the UI thread. Carries the pane that is active
    /// now, or `None` when the workspace or its window is gone.
    Reentered(Option<PaneId>),
}

impl View for DiffEvent {
    type V = DiffEventModel;

    open spec fn view(&self) -> DiffEventModel {
        match self {
            DiffEvent::Built(Ok(diff)) => DiffEventModel::Built(Ok(*diff)),
            DiffEvent::Built(Err(message)) => DiffEventModel::Built(Err(message@)),
            DiffEvent::Reentered(pane) => DiffEventModel::Reentered(*pane),
        }
    }
}

/// Where the background work of one confirmation stands.
#[derive(Debug, PartialEq, Eq)]
pub enum DiffTask {
    /// The diff is being built.
    Building(DiffRequest),
    /// The diff was built; the view waits to be shown from the UI thread.
    Ready(DiffView),
    /// Nothing is left to do.
    Done,
}

impl View for DiffTask {
    type V = DiffTaskModel;

    open spec fn view(&self) -> DiffTaskModel {
        match self {
            DiffTask::Building(request) => DiffTaskModel::Building(request@),
            DiffTask::Ready(item) => DiffTaskModel::Ready(item@),
            DiffTask::Done => DiffTaskModel::Done,
        }
    }
}

impl DiffTask {
    /// The task that builds the diff `request` asks for.
    pub fn new(request: DiffRequest) -> (task: Self)
        ensures
            task@ == DiffTaskModel::Building(request@),
    {
        DiffTask::Building(request)
    }

    /// Whether nothing is left to do.
    pub fn is_done(&self) -> (done: bool)
        ensures
            done == (self@ is Done),
    {
        match self {
            DiffTask::Done => true,
            _ => false,
        }
    }

    /// Advances the task by one event and says what the host has to do.
    ///
    /// A failed build is logged once and ends the task. A built diff becomes
    /// a view that waits for the UI thread; on re-entry it is added to the
    /// pane that is active then, activated and focused, or dropped silently
    /// when the workspace is gone. An event the task does not wait for
    /// changes nothing.
    pub fn step(self, event: DiffEvent) -> (next: (DiffTask, Vec<Effect>))
        ensures
            next.0@ == self@.next(event@),
            effect_models(next.1@) == self@.effects(event@),
    {
        let mut effects: Vec<Effect> = Vec::new();
        assert(effect_models(effects@) == Seq::<EffectModel>::empty());
        match (self, event) {
            (DiffTask::Building(request), DiffEvent::Built(Ok(diff))) => {
                let item = DiffView {
                    compare_buffer: request.compare_buffer,
                    active_buffer: request.active_buffer,
                    diff,
                    project: request.project,
                    compare_title: request.compare_title,
                    active_title: request.active_title,
                };
                (DiffTask::Ready(item), effects)
            },
            (DiffTask::Building(_), DiffEvent::Built(Err(message))) => {
                let ghost logged = message@;
                effects.push(Effect::LogError(message));
                assert(effect_models(effects@) == seq![EffectModel::LogError(logged)]);
                (DiffTask::Done, effects)
            },
            (DiffTask::Ready(item), DiffEvent::Reentered(Some(pane))) => {
                let ghost shown = item@;
                effects.push(Effect::AddItem { pane, item, activate: true, focus: true });
                assert(effect_models(effects@) == seq![
                    EffectModel::AddItem { pane, item: shown, activate: true, focus: true },
                ]);
                (DiffTask::Done, effects)
            },
            (DiffTask::Ready(_), DiffEvent::Reentered(None)) => (DiffTask::Done, effects),
            (task, _) => (task, effects),
        }
    }
}

} // verus!
