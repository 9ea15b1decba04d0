//! Camera-focus retargeting.
//!
//! Each cycle the camera's primary look-at point is recomputed from the
//! player's position, and the secondary look-at point follows the dialog
//! target while a conversation is running. A completion event always wins
//! within its cycle: the camera ends that cycle with no secondary focus,
//! whatever was set earlier in the same cycle.

use vstd::prelude::*;
use crate::dialog::CurrentDialogTarget;
use crate::geom::Pos;
use crate::world::World;
use crate::world::lookup;

verus! {

/// The camera's focus component: the point it orients toward, and an
/// optional second point it blends toward during a conversation.
#[derive(Clone, Copy, Debug, PartialEq, Eq)]
pub struct CameraFocus {
    pub target: Pos,
    pub secondary_target: Option<Pos>,
}

impl CameraFocus {
    /// A camera looking at `target`, with no secondary focus.
    pub fn new(target: Pos) -> (r: CameraFocus)
        ensures
            r.target == target,
            r.secondary_target is None,
    {
        CameraFocus { target, secondary_target: None }
    }
}

/// Whether the primary focus point can be computed without the camera's
/// vertical coordinate leaving the machine range.
pub open spec fn primary_fits(player_pos: Pos, height: i64) -> bool {
    player_pos.y + height / 2 <= i64::MAX
}

/// The primary focus point: the player's position raised by half the
/// player's height, so the camera looks at roughly head height rather
/// than the feet-anchored origin.
pub open spec fn primary_focus(player_pos: Pos, height: i64) -> Pos {
    Pos { x: player_pos.x, y: (player_pos.y + height / 2) as i64, z: player_pos.z }
}

/// The secondary focus point at the end of a cycle: a completion event
/// clears it; otherwise a dialog target that resolves in the snapshot
/// redirects it, and a missing or stale target leaves it as it was.
pub open spec fn secondary_focus_after(
    prev: Option<Pos>,
    target: Option<u64>,
    entries: Seq<(u64, Pos)>,
    completion_events: u64,
) -> Option<Pos> {
    if completion_events > 0 {
        None
    } else {
        match target {
            Some(entity) => match lookup(entries, entity) {
                Some(pos) => Some(pos),
                None => prev,
            },
            None => prev,
        }
    }
}

/// One cycle of camera-focus retargeting.
///
/// Exactly one camera and one player are expected in the scene; the host
/// establishes that before calling and hands in the one camera's focus
/// component and the one player's position. In order: a set dialog target
/// is resolved against the snapshot and, where it still resolves, becomes
/// the secondary focus (a stale handle is skipped); the primary focus is
/// recomputed from the player's position; and every pending completion
/// event clears the secondary focus again, so a completing dialogue never
/// leaves even one cycle of leftover secondary focus.
pub fn set_camera_focus(
    camera: &mut CameraFocus,
    player_pos: Pos,
    height: i64,
    dialog_target: &CurrentDialogTarget,
    world: &World,
    completion_events: u64,
)
    requires
        0 <= height,
        primary_fits(player_pos, height),
    ensures
        final(camera).target == primary_focus(player_pos, height),
        final(camera).secondary_target == secondary_focus_after(
            old(camera).secondary_target,
            dialog_target.0,
            world@,
            completion_events,
        ),
{
    if let Some(entity) = dialog_target.get() {
        match world.resolve(entity) {
            Some(pos) => {
                camera.secondary_target = Some(pos);
            },
            None => {},
        }
    }
    camera.target = Pos::new(player_pos.x, player_pos.y + height / 2, player_pos.z);
    let ghost secondary_set = camera.secondary_target;
    let ghost primary = camera.target;
    let mut drained: u64 = 0;
    while drained < completion_events
        invariant
            drained <= completion_events,
            camera.target == primary,
            drained == 0 ==> camera.secondary_target == secondary_set,
            drained > 0 ==> camera.secondary_target is None,
        decreases completion_events - drained,
    {
        camera.secondary_target = None;
        drained = drained + 1;
    }
}

} // verus!
