//! Player possession and actor spawning.
//!
//! The host engine owns the spawned entities, their meshes and their
//! physics bodies; what this module owns is the spawn listener's decision:
//! one cube actor per spawn request, each tinted a random palette color.

use vstd::prelude::*;
use crate::actions::SpawnCubeActor;
use crate::random_color::{get_random_color, in_palette, ActorColor};

verus! {

/// An entity with this marker is driven by the player's inputs.
#[derive(Clone, Copy, Debug, PartialEq, Eq, Structural)]
pub struct Possessed;

/// Marker for a spawned cube mesh actor.
#[derive(Clone, Copy, Debug, PartialEq, Eq, Structural)]
pub struct CubeActor;

/// Marker for a camera the movement listeners drive.
#[derive(Clone, Copy, Debug, PartialEq, Eq, Structural)]
pub struct MobileCamera;

/// Marker for the free-flying first-person spectator camera.
#[derive(Clone, Copy, Debug, PartialEq, Eq, Structural)]
pub struct SpectatorCamera;

/// Answer one frame's spawn requests: one cube actor per request, each
/// with a color drawn from the palette. The host applies the list by
/// spawning one tinted entity per entry.
pub fn spawn_cube_actor_listener(requests: &Vec<SpawnCubeActor>) -> (colors: Vec<ActorColor>)
    ensures
        colors@.len() == requests@.len(),
        forall|i: int| 0 <= i < colors@.len() ==> in_palette(#[trigger] colors@[i]),
{
    let n = requests.len();
    let mut colors: Vec<ActorColor> = Vec::new();
    let mut i: usize = 0;
    while i < n
        invariant
            i <= n,
            colors@.len() == i,
            forall|j: int| 0 <= j < colors@.len() ==> in_palette(#[trigger] colors@[j]),
        decreases n - i,
    {
        colors.push(get_random_color());
        i += 1;
    }
    colors
}

} // verus!
