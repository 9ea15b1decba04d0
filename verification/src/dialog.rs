//! Dialog state: the dialog-target store, the input-freeze flag, the
//! dialogue-runner lifecycle guard, and the completion reaction.
//!
//! The store and the flag are process-wide singletons in spirit; here they
//! are explicit values handed by reference into each step, so each step's
//! effect on them can be stated and checked in isolation.

use vstd::prelude::*;

verus! {

/// Tags an entity with the name of the narrative node a conversation with
/// it starts from. Pure data: nothing here mutates it.
#[derive(Clone, Debug, PartialEq, Eq)]
pub struct YarnNode(pub String);

/// The entity currently being talked to, if any.
///
/// Any handle may be stored, including one that no longer resolves: the
/// store masks nothing, and readers resolve the handle against the current
/// `World` snapshot and handle the stale case themselves.
#[derive(Clone, Copy, Debug, PartialEq, Eq)]
pub struct CurrentDialogTarget(pub Option<u64>);

impl CurrentDialogTarget {
    /// The store starts empty.
    pub fn new() -> (r: CurrentDialogTarget)
        ensures
            r.0 is None,
    {
        CurrentDialogTarget(None)
    }

    /// Stores `entity` as the one being talked to. No validation: a stale
    /// handle is accepted.
    pub fn set(&mut self, entity: u64)
        ensures
            final(self).0 == Some(entity),
    {
        self.0 = Some(entity);
    }

    /// Empties the store.
    pub fn clear(&mut self)
        ensures
            final(self).0 is None,
    {
        self.0 = None;
    }

    /// The stored entity, if any.
    pub fn get(&self) -> (r: Option<u64>)
        ensures
            r == self.0,
    {
        self.0
    }
}

/// Whether player input is currently suppressed for a dialogue.
#[derive(Clone, Copy, Debug, PartialEq, Eq)]
pub struct ActionsFrozen {
    pub frozen: bool,
}

impl ActionsFrozen {
    /// Input starts unsuppressed.
    pub fn new() -> (r: ActionsFrozen)
        ensures
            !r.frozen,
    {
        ActionsFrozen { frozen: false }
    }

    /// Suppresses player input.
    pub fn freeze(&mut self)
        ensures
            final(self).frozen,
    {
        self.frozen = true;
    }

    /// Lifts the suppression.
    pub fn unfreeze(&mut self)
        ensures
            !final(self).frozen,
    {
        self.frozen = false;
    }

    /// Whether input is currently suppressed.
    pub fn is_frozen(&self) -> (r: bool)
        ensures
            r == self.frozen,
    {
        self.frozen
    }
}

/// Guards dialogue-runner creation so that a loaded narrative project gets
/// exactly one runner, however often the host reports the project as
/// loaded afterwards.
#[derive(Clone, Copy, Debug, PartialEq, Eq)]
pub struct RunnerLifecycle {
    pub spawned: bool,
}

impl RunnerLifecycle {
    /// No runner exists yet.
    pub fn new() -> (r: RunnerLifecycle)
        ensures
            !r.spawned,
    {
        RunnerLifecycle { spawned: false }
    }

    /// Decides whether the host must create a dialogue runner this cycle:
    /// exactly on the first cycle in which the narrative project is
    /// reported loaded, and never again.
    pub fn spawn_dialogue_runner(&mut self, project_loaded: bool) -> (spawn_runner: bool)
        ensures
            spawn_runner == (project_loaded && !old(self).spawned),
            final(self).spawned == (old(self).spawned || project_loaded),
    {
        let spawn_runner = project_loaded && !self.spawned;
        if project_loaded {
            self.spawned = true;
        }
        spawn_runner
    }
}

/// The dialog target after a batch of completion events has been drained:
/// any completion empties the store.
pub open spec fn target_after_completion(target: Option<u64>, completion_events: u64) -> Option<u64> {
    if completion_events > 0 {
        None
    } else {
        target
    }
}

/// The freeze flag after a batch of completion events has been drained:
/// any completion lifts the suppression.
pub open spec fn frozen_after_completion(frozen: bool, completion_events: u64) -> bool {
    frozen && completion_events == 0
}

/// Drains a batch of `completion_events` pending dialogue-completion
/// events. For each event the dialog-target store is emptied and the
/// input-freeze flag lifted, so any non-empty batch leaves the store empty
/// and input unsuppressed, and an empty batch changes nothing.
pub fn unfreeze_after_dialog(
    completion_events: u64,
    dialog_target: &mut CurrentDialogTarget,
    freeze: &mut ActionsFrozen,
)
    ensures
        final(dialog_target).0 == target_after_completion(old(dialog_target).0, completion_events),
        final(freeze).frozen == frozen_after_completion(old(freeze).frozen, completion_events),
{
    let mut drained: u64 = 0;
    while drained < completion_events
        invariant
            drained <= completion_events,
            drained == 0 ==> *dialog_target == *old(dialog_target) && *freeze == *old(freeze),
            drained > 0 ==> dialog_target.0 is None && !freeze.frozen,
        decreases completion_events - drained,
    {
        dialog_target.clear();
        freeze.unfreeze();
        drained = drained + 1;
    }
}

} // verus!
