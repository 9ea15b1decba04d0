use dialog_focus::focus::CameraFocus;
use dialog_focus::geom::Pos;
use dialog_focus::schedule::DialogFocusState;
use dialog_focus::schedule::FrameInput;
use dialog_focus::schedule::run_cycle;
use dialog_focus::schedule::run_frames;
use dialog_focus::world::World;

fn idle_frame(player_pos: Pos) -> FrameInput {
    FrameInput {
        project_loaded: false,
        dialog_initiation: None,
        player_pos,
        completion_events: 0,
    }
}

#[test]
fn idle_frames_track_player_only() {
    let mut state = DialogFocusState::new();
    let mut camera = CameraFocus::new(Pos::new(0, 0, 0));
    let world = World::new();
    let inputs = vec![
        idle_frame(Pos::new(0, 2, 0)),
        idle_frame(Pos::new(1, 2, 0)),
        idle_frame(Pos::new(2, 4, -1)),
    ];
    let spawn_count = run_frames(&mut state, &mut camera, &world, &inputs, 2);
    assert_eq!(spawn_count, 0);
    assert_eq!(camera.secondary_target, None);
    assert_eq!(state.dialog_target.get(), None);
    // Primary focus follows the last frame's player position, head high.
    assert_eq!(camera.target, Pos::new(2, 5, -1));
}

#[test]
fn initiation_cycle_sets_secondary_focus() {
    let mut state = DialogFocusState::new();
    let mut camera = CameraFocus::new(Pos::new(0, 0, 0));
    let mut world = World::new();
    world.set_position(7, Pos::new(5, 0, 0));
    let input = FrameInput {
        project_loaded: false,
        dialog_initiation: Some(7),
        player_pos: Pos::new(0, 2, 0),
        completion_events: 0,
    };
    let spawned = run_cycle(&mut state, &mut camera, &world, input, 2);
    assert!(!spawned);
    assert_eq!(state.dialog_target.get(), Some(7));
    assert_eq!(camera.secondary_target, Some(Pos::new(5, 0, 0)));
}

#[test]
fn secondary_focus_persists_until_completion() {
    let mut state = DialogFocusState::new();
    let mut camera = CameraFocus::new(Pos::new(0, 0, 0));
    let mut world = World::new();
    world.set_position(7, Pos::new(5, 0, 0));
    let initiation = FrameInput {
        project_loaded: false,
        dialog_initiation: Some(7),
        player_pos: Pos::new(0, 2, 0),
        completion_events: 0,
    };
    run_cycle(&mut state, &mut camera, &world, initiation, 2);
    run_cycle(&mut state, &mut camera, &world, idle_frame(Pos::new(1, 2, 0)), 2);
    assert_eq!(camera.secondary_target, Some(Pos::new(5, 0, 0)));
    let completing = FrameInput {
        project_loaded: false,
        dialog_initiation: None,
        player_pos: Pos::new(1, 2, 0),
        completion_events: 1,
    };
    run_cycle(&mut state, &mut camera, &world, completing, 2);
    assert_eq!(camera.secondary_target, None);
    assert_eq!(state.dialog_target.get(), None);
}

#[test]
fn completion_wins_over_same_cycle_initiation() {
    // Dialog target at (5, 0, 0) is stored, and a completion event fires in
    // the same cycle: the cycle ends with no secondary focus and an empty
    // target store.
    let mut state = DialogFocusState::new();
    let mut camera = CameraFocus::new(Pos::new(0, 0, 0));
    let mut world = World::new();
    world.set_position(7, Pos::new(5, 0, 0));
    let input = FrameInput {
        project_loaded: false,
        dialog_initiation: Some(7),
        player_pos: Pos::new(0, 2, 0),
        completion_events: 1,
    };
    run_cycle(&mut state, &mut camera, &world, input, 2);
    assert_eq!(camera.secondary_target, None);
    assert_eq!(state.dialog_target.get(), None);
    assert!(!state.freeze.is_frozen());
}

#[test]
fn completion_batches_of_any_size_agree() {
    let mut world = World::new();
    world.set_position(7, Pos::new(5, 0, 0));
    let mut end_states = Vec::new();
    for batch in [1u64, 2, 5] {
        let mut state = DialogFocusState::new();
        state.dialog_target.set(7);
        state.freeze.freeze();
        let mut camera = CameraFocus::new(Pos::new(0, 0, 0));
        let input = FrameInput {
            project_loaded: true,
            dialog_initiation: None,
            player_pos: Pos::new(0, 2, 0),
            completion_events: batch,
        };
        let spawned = run_cycle(&mut state, &mut camera, &world, input, 2);
        end_states.push((state, camera, spawned));
    }
    assert_eq!(end_states[0], end_states[1]);
    assert_eq!(end_states[0], end_states[2]);
}

#[test]
fn runner_spawns_once_per_loaded_project() {
    let mut state = DialogFocusState::new();
    let mut camera = CameraFocus::new(Pos::new(0, 0, 0));
    let world = World::new();
    // The project loads on the third frame and stays loaded: the host is
    // told to create a runner exactly once over the whole run.
    let mut inputs = vec![
        idle_frame(Pos::new(0, 2, 0)),
        idle_frame(Pos::new(0, 2, 0)),
    ];
    for _ in 0..5 {
        inputs.push(FrameInput {
            project_loaded: true,
            dialog_initiation: None,
            player_pos: Pos::new(0, 2, 0),
            completion_events: 0,
        });
    }
    let spawn_count = run_frames(&mut state, &mut camera, &world, &inputs, 2);
    assert_eq!(spawn_count, 1);
    assert!(state.runner.spawned);

    // A later run from the same state asks for none.
    let more = vec![FrameInput {
        project_loaded: true,
        dialog_initiation: None,
        player_pos: Pos::new(0, 2, 0),
        completion_events: 0,
    }];
    let again = run_frames(&mut state, &mut camera, &world, &more, 2);
    assert_eq!(again, 0);
}
