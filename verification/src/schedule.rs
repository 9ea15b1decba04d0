//! The per-frame schedule.
//!
//! The host engine invokes the coordination steps once per simulated frame
//! in a fixed order: dialog initiation is applied, then the dialogue-runner
//! spawn decision, then the completion reaction, then camera-focus
//! retargeting. `run_cycle` is that order made explicit, and `run_frames`
//! replays it over a whole sequence of frames, so properties of entire
//! runs can be stated against one spec-level fold.

use vstd::prelude::*;
use crate::dialog::ActionsFrozen;
use crate::dialog::CurrentDialogTarget;
use crate::dialog::RunnerLifecycle;
use crate::dialog::frozen_after_completion;
use crate::dialog::target_after_completion;
use crate::dialog::unfreeze_after_dialog;
use crate::focus::CameraFocus;
use crate::focus::primary_fits;
use crate::focus::primary_focus;
use crate::focus::secondary_focus_after;
use crate::focus::set_camera_focus;
use crate::geom::Pos;
use crate::world::World;

verus! {

/// Everything the outside world feeds one frame of the coordination
/// subsystem.
#[derive(Clone, Copy, Debug, PartialEq, Eq)]
pub struct FrameInput {
    /// Whether the narrative project resource is loaded this frame.
    pub project_loaded: bool,
    /// An entity dialog-initiation logic stored as the dialog target this
    /// frame, if any.
    pub dialog_initiation: Option<u64>,
    /// The one player entity's position this frame.
    pub player_pos: Pos,
    /// How many dialogue-completion events are pending this frame.
    pub completion_events: u64,
}

/// The coordination subsystem's own state, carried from frame to frame.
#[derive(Clone, Copy, Debug, PartialEq, Eq)]
pub struct DialogFocusState {
    pub runner: RunnerLifecycle,
    pub dialog_target: CurrentDialogTarget,
    pub freeze: ActionsFrozen,
}

impl DialogFocusState {
    /// The startup state: no runner, empty target store, input free.
    pub fn new() -> (r: DialogFocusState)
        ensures
            !r.runner.spawned,
            r.dialog_target.0 is None,
            !r.freeze.frozen,
    {
        DialogFocusState {
            runner: RunnerLifecycle::new(),
            dialog_target: CurrentDialogTarget::new(),
            freeze: ActionsFrozen::new(),
        }
    }
}

/// The dialog target once this frame's initiation, if any, has been
/// stored.
pub open spec fn target_after_initiation(
    target: Option<u64>,
    dialog_initiation: Option<u64>,
) -> Option<u64> {
    match dialog_initiation {
        Some(entity) => Some(entity),
        None => target,
    }
}

/// Whether a cycle on state `state` with input `input` tells the host to
/// create a dialogue runner.
pub open spec fn cycle_spawn(state: DialogFocusState, input: FrameInput) -> bool {
    input.project_loaded && !state.runner.spawned
}

/// The subsystem state a cycle leaves behind.
pub open spec fn cycle_state(state: DialogFocusState, input: FrameInput) -> DialogFocusState {
    DialogFocusState {
        runner: RunnerLifecycle {
            spawned: state.runner.spawned || input.project_loaded,
        },
        dialog_target: CurrentDialogTarget(target_after_completion(
            target_after_initiation(state.dialog_target.0, input.dialog_initiation),
            input.completion_events,
        )),
        freeze: ActionsFrozen {
            frozen: frozen_after_completion(state.freeze.frozen, input.completion_events),
        },
    }
}

/// The camera focus a cycle leaves behind. The focus step runs after the
/// completion reaction, so it reads the already-drained target store.
pub open spec fn cycle_camera(
    state: DialogFocusState,
    camera: CameraFocus,
    entries: Seq<(u64, Pos)>,
    input: FrameInput,
    height: i64,
) -> CameraFocus {
    CameraFocus {
        target: primary_focus(input.player_pos, height),
        secondary_target: secondary_focus_after(
            camera.secondary_target,
            target_after_completion(
                target_after_initiation(state.dialog_target.0, input.dialog_initiation),
                input.completion_events,
            ),
            entries,
            input.completion_events,
        ),
    }
}

/// One simulated frame, in the engine's fixed order: store this frame's
/// dialog initiation, decide the runner spawn, drain completion events,
/// then retarget the camera. Returns whether the host must create a
/// dialogue runner this cycle.
pub fn run_cycle(
    state: &mut DialogFocusState,
    camera: &mut CameraFocus,
    world: &World,
    input: FrameInput,
    height: i64,
) -> (spawn_runner: bool)
    requires
        0 <= height,
        primary_fits(input.player_pos, height),
    ensures
        spawn_runner == cycle_spawn(*old(state), input),
        *final(state) == cycle_state(*old(state), input),
        *final(camera) == cycle_camera(*old(state), *old(camera), world@, input, height),
{
    if let Some(entity) = input.dialog_initiation {
        state.dialog_target.set(entity);
    }
    let spawn_runner = state.runner.spawn_dialogue_runner(input.project_loaded);
    unfreeze_after_dialog(input.completion_events, &mut state.dialog_target, &mut state.freeze);
    set_camera_focus(camera, input.player_pos, height, &state.dialog_target, world, input.completion_events);
    spawn_runner
}

/// The subsystem state left after replaying `inputs` frame by frame.
pub open spec fn frames_state(state: DialogFocusState, inputs: Seq<FrameInput>) -> DialogFocusState
    decreases inputs.len(),
{
    if inputs.len() == 0 {
        state
    } else {
        frames_state(cycle_state(state, inputs[0]), inputs.drop_first())
    }
}

/// The camera focus left after replaying `inputs` frame by frame against
/// one position snapshot.
pub open spec fn frames_camera(
    state: DialogFocusState,
    camera: CameraFocus,
    entries: Seq<(u64, Pos)>,
    inputs: Seq<FrameInput>,
    height: i64,
) -> CameraFocus
    decreases inputs.len(),
{
    if inputs.len() == 0 {
        camera
    } else {
        frames_camera(
            cycle_state(state, inputs[0]),
            cycle_camera(state, camera, entries, inputs[0], height),
            entries,
            inputs.drop_first(),
            height,
        )
    }
}

/// How many of the replayed frames tell the host to create a dialogue
/// runner.
pub open spec fn frames_spawn_count(state: DialogFocusState, inputs: Seq<FrameInput>) -> nat
    decreases inputs.len(),
{
    if inputs.len() == 0 {
        0
    } else {
        (if cycle_spawn(state, inputs[0]) { 1nat } else { 0nat })
            + frames_spawn_count(cycle_state(state, inputs[0]), inputs.drop_first())
    }
}

/// Replays a whole sequence of frames against one position snapshot and
/// returns how many of them told the host to create a dialogue runner.
pub fn run_frames(
    state: &mut DialogFocusState,
    camera: &mut CameraFocus,
    world: &World,
    inputs: &Vec<FrameInput>,
    height: i64,
) -> (spawn_count: u64)
    requires
        0 <= height,
        forall|i: int| 0 <= i < inputs@.len() ==> primary_fits(#[trigger] inputs@[i].player_pos, height),
    ensures
        *final(state) == frames_state(*old(state), inputs@),
        *final(camera) == frames_camera(*old(state), *old(camera), world@, inputs@, height),
        spawn_count == frames_spawn_count(*old(state), inputs@),
{
    let n: usize = inputs.len();
    let mut i: usize = 0;
    let mut spawn_count: u64 = 0;
    proof {
        assert(inputs@.skip(0) =~= inputs@);
    }
    while i < n
        invariant
            n == inputs@.len(),
            i <= n,
            0 <= height,
            forall|j: int| 0 <= j < inputs@.len()
                ==> primary_fits(#[trigger] inputs@[j].player_pos, height),
            spawn_count <= i,
            frames_state(*old(state), inputs@)
                == frames_state(*state, inputs@.skip(i as int)),
            frames_camera(*old(state), *old(camera), world@, inputs@, height)
                == frames_camera(*state, *camera, world@, inputs@.skip(i as int), height),
            frames_spawn_count(*old(state), inputs@)
                == spawn_count + frames_spawn_count(*state, inputs@.skip(i as int)),
        decreases n - i,
    {
        let input = inputs[i];
        proof {
            assert(inputs@.skip(i as int)[0] == inputs@[i as int]);
            assert(inputs@.skip(i as int).drop_first() =~= inputs@.skip(i as int + 1));
        }
        let spawned_now = run_cycle(state, camera, world, input, height);
        if spawned_now {
            spawn_count = spawn_count + 1;
        }
        i = i + 1;
    }
    proof {
        assert(inputs@.skip(n as int).len() == 0);
    }
    spawn_count
}

} // verus!
