//! The guarantees the coordination subsystem is built around, stated over
//! the spec-level cycle and frame folds and proved once and for all.

use vstd::prelude::*;
use crate::dialog::target_after_completion;
use crate::dialog::frozen_after_completion;
use crate::focus::CameraFocus;
use crate::focus::primary_focus;
use crate::geom::Pos;
use crate::schedule::DialogFocusState;
use crate::schedule::FrameInput;
use crate::schedule::cycle_camera;
use crate::schedule::cycle_spawn;
use crate::schedule::cycle_state;
use crate::schedule::frames_camera;
use crate::schedule::frames_spawn_count;
use crate::schedule::frames_state;
use crate::world::lookup;

verus! {

/// Idle frames leave the camera on the player alone: over any run in
/// which no dialog target is stored and no completion event arrives, the
/// secondary focus stays empty, the target store stays empty, and after
/// any frame the primary focus is the player's position raised by half
/// the player's height.
pub proof fn lemma_idle_frames_track_player(
    state: DialogFocusState,
    camera: CameraFocus,
    entries: Seq<(u64, Pos)>,
    inputs: Seq<FrameInput>,
    height: i64,
)
    requires
        state.dialog_target.0 is None,
        camera.secondary_target is None,
        forall|i: int| 0 <= i < inputs.len() ==> #[trigger] inputs[i].completion_events == 0,
        forall|i: int| 0 <= i < inputs.len() ==> #[trigger] inputs[i].dialog_initiation is None,
    ensures
        frames_state(state, inputs).dialog_target.0 is None,
        frames_camera(state, camera, entries, inputs, height).secondary_target is None,
        inputs.len() > 0 ==> frames_camera(state, camera, entries, inputs, height).target
            == primary_focus(inputs.last().player_pos, height),
    decreases inputs.len(),
{
    if inputs.len() > 0 {
        let state1 = cycle_state(state, inputs[0]);
        let camera1 = cycle_camera(state, camera, entries, inputs[0], height);
        assert(state1.dialog_target.0 is None);
        assert(camera1.secondary_target is None);
        lemma_idle_frames_track_player(state1, camera1, entries, inputs.drop_first(), height);
        if inputs.len() > 1 {
            assert(inputs.drop_first().last() == inputs.last());
        }
    }
}

/// Storing a dialog target that resolves, in a cycle with no completion
/// event, puts the target's position into the secondary focus and the
/// target into the store.
pub proof fn lemma_initiation_sets_secondary(
    state: DialogFocusState,
    camera: CameraFocus,
    entries: Seq<(u64, Pos)>,
    input: FrameInput,
    height: i64,
    entity: u64,
    pos: Pos,
)
    requires
        input.dialog_initiation == Some(entity),
        input.completion_events == 0,
        lookup(entries, entity) == Some(pos),
    ensures
        cycle_camera(state, camera, entries, input, height).secondary_target == Some(pos),
        cycle_state(state, input).dialog_target.0 == Some(entity),
{
}

/// A completion event always wins its cycle: however the dialog target
/// was set — earlier in the same cycle included — a cycle with a pending
/// completion event ends with no secondary focus, an empty target store,
/// and input unsuppressed.
pub proof fn lemma_completion_wins_cycle(
    state: DialogFocusState,
    camera: CameraFocus,
    entries: Seq<(u64, Pos)>,
    input: FrameInput,
    height: i64,
)
    requires
        input.completion_events > 0,
    ensures
        cycle_camera(state, camera, entries, input, height).secondary_target is None,
        cycle_state(state, input).dialog_target.0 is None,
        !cycle_state(state, input).freeze.frozen,
{
}

/// Draining a completion batch is idempotent: any two non-empty batch
/// sizes leave the target store and the freeze flag in the same state.
pub proof fn lemma_completion_idempotent(
    target: Option<u64>,
    frozen: bool,
    batch_a: u64,
    batch_b: u64,
)
    requires
        batch_a >= 1,
        batch_b >= 1,
    ensures
        target_after_completion(target, batch_a) == target_after_completion(target, batch_b),
        frozen_after_completion(frozen, batch_a) == frozen_after_completion(frozen, batch_b),
{
}

/// Cycle-level idempotence of completion processing: two frames that
/// differ only in how many completion events their non-empty batches
/// hold end in the same subsystem state, the same camera focus, and the
/// same spawn decision.
pub proof fn lemma_cycle_completion_idempotent(
    state: DialogFocusState,
    camera: CameraFocus,
    entries: Seq<(u64, Pos)>,
    input_a: FrameInput,
    input_b: FrameInput,
    height: i64,
)
    requires
        input_a.completion_events >= 1,
        input_b.completion_events >= 1,
        input_a.project_loaded == input_b.project_loaded,
        input_a.dialog_initiation == input_b.dialog_initiation,
        input_a.player_pos == input_b.player_pos,
    ensures
        cycle_state(state, input_a) == cycle_state(state, input_b),
        cycle_camera(state, camera, entries, input_a, height)
            == cycle_camera(state, camera, entries, input_b, height),
        cycle_spawn(state, input_a) == cycle_spawn(state, input_b),
{
}

/// The coupling the subsystem maintains between camera and store: the
/// camera holds a secondary focus only while an entity is stored as the
/// dialog target.
pub open spec fn secondary_implies_target(state: DialogFocusState, camera: CameraFocus) -> bool {
    camera.secondary_target is Some ==> state.dialog_target.0 is Some
}

/// One cycle preserves the coupling: a completion event clears the
/// secondary focus and the store together, and the secondary focus is
/// otherwise set only while the store holds an entity.
pub proof fn lemma_cycle_preserves_coupling(
    state: DialogFocusState,
    camera: CameraFocus,
    entries: Seq<(u64, Pos)>,
    input: FrameInput,
    height: i64,
)
    requires
        secondary_implies_target(state, camera),
    ensures
        secondary_implies_target(
            cycle_state(state, input),
            cycle_camera(state, camera, entries, input, height),
        ),
{
}

/// A whole run preserves the coupling; in particular it holds of every
/// run from the startup state, where both sides are empty.
pub proof fn lemma_frames_preserve_coupling(
    state: DialogFocusState,
    camera: CameraFocus,
    entries: Seq<(u64, Pos)>,
    inputs: Seq<FrameInput>,
    height: i64,
)
    requires
        secondary_implies_target(state, camera),
    ensures
        secondary_implies_target(
            frames_state(state, inputs),
            frames_camera(state, camera, entries, inputs, height),
        ),
    decreases inputs.len(),
{
    if inputs.len() > 0 {
        lemma_cycle_preserves_coupling(state, camera, entries, inputs[0], height);
        lemma_frames_preserve_coupling(
            cycle_state(state, inputs[0]),
            cycle_camera(state, camera, entries, inputs[0], height),
            entries,
            inputs.drop_first(),
            height,
        );
    }
}

/// Once a runner exists, no frame ever asks for another; and from any
/// starting state a whole run asks for at most one.
pub proof fn lemma_runner_spawned_at_most_once(
    state: DialogFocusState,
    inputs: Seq<FrameInput>,
)
    ensures
        state.runner.spawned ==> frames_spawn_count(state, inputs) == 0,
        frames_spawn_count(state, inputs) <= 1,
    decreases inputs.len(),
{
    if inputs.len() > 0 {
        lemma_runner_spawned_at_most_once(cycle_state(state, inputs[0]), inputs.drop_first());
    }
}

/// When no runner exists yet and the project is reported loaded in some
/// frame of the run, the run asks for exactly one runner.
pub proof fn lemma_runner_spawned_exactly_once(
    state: DialogFocusState,
    inputs: Seq<FrameInput>,
)
    requires
        !state.runner.spawned,
        exists|i: int| 0 <= i < inputs.len() && #[trigger] inputs[i].project_loaded,
    ensures
        frames_spawn_count(state, inputs) == 1,
    decreases inputs.len(),
{
    let state1 = cycle_state(state, inputs[0]);
    if inputs[0].project_loaded {
        lemma_runner_spawned_at_most_once(state1, inputs.drop_first());
    } else {
        let i = choose|i: int| 0 <= i < inputs.len() && #[trigger] inputs[i].project_loaded;
        assert(inputs.drop_first()[i - 1].project_loaded);
        lemma_runner_spawned_exactly_once(state1, inputs.drop_first());
    }
}

} // verus!
