//! Semantic game actions.
//!
//! Raw input is decoupled from gameplay by a binding table from physical
//! keys to named actions; each frame the input handlers turn the table and
//! the key transitions into a queue of action records, which downstream
//! movement, camera and debug listeners consume.

use vstd::prelude::*;
use crate::text::str_eq_check;

verus! {

// Mouse motion actions
/// Look up or down by a vertical axis amount.
#[derive(Clone, Copy, Debug, PartialEq, Eq, Structural)]
pub struct LookUp(pub i64);

/// Look right or left by a horizontal axis amount.
#[derive(Clone, Copy, Debug, PartialEq, Eq, Structural)]
pub struct LookRight(pub i64);

// Movement actions
/// Move along the forward axis; the unit scale is `1` forward, `-1` back.
#[derive(Clone, Copy, Debug, PartialEq, Eq, Structural)]
pub struct MoveForward(pub i64);

/// Strafe along the right axis; the unit scale is `1` right, `-1` left.
#[derive(Clone, Copy, Debug, PartialEq, Eq, Structural)]
pub struct StrafeRight(pub i64);

// Stance actions
/// Crouch is held (`true`) or released (`false`).
#[derive(Clone, Copy, Debug, PartialEq, Eq, Structural)]
pub struct Crouch(pub bool);

/// Jump is held (`true`) or released (`false`).
#[derive(Clone, Copy, Debug, PartialEq, Eq, Structural)]
pub struct Jump(pub bool);

// Debug actions
/// Spawn a physics-driven cube actor.
#[derive(Clone, Copy, Debug, PartialEq, Eq, Structural)]
pub struct SpawnCubeActor;

/// Spawn the free-flying spectator camera.
#[derive(Clone, Copy, Debug, PartialEq, Eq, Structural)]
pub struct SpawnSpectatorCamera;

/// Show or hide the debug console.
#[derive(Clone, Copy, Debug, PartialEq, Eq, Structural)]
pub struct ToggleConsole;

/// Quit the game.
#[derive(Clone, Copy, Debug, PartialEq, Eq, Structural)]
pub struct ExitGame;

/// The closed set of action names a binding table may map a key to.
#[derive(Clone, Copy, Debug, PartialEq, Eq, Structural, Hash)]
pub enum ActionKind {
    MoveForward,
    MoveBackward,
    StrafeLeft,
    StrafeRight,
    Crouch,
    Jump,
    SpawnCubeActor,
    SpawnSpectatorCamera,
    ToggleConsole,
}

/// One record in the per-frame action queue.
#[derive(Clone, Copy, Debug, PartialEq, Eq, Structural)]
pub enum GameAction {
    LookUp(i64),
    LookRight(i64),
    MoveForward(i64),
    StrafeRight(i64),
    Crouch(bool),
    Jump(bool),
    SpawnCubeActor,
    SpawnSpectatorCamera,
    ToggleConsole,
}

/// Marker for the plugin that registers the action events above, so that
/// other systems can react to them; the host wiring around it lives
/// outside this crate.
#[derive(Clone, Copy, Debug, PartialEq, Eq, Structural)]
pub struct ActionsPlugin;

/// The per-type event channels the actions plugin registers: one frame's
/// queue fans out into them, one channel per action type.
#[derive(Debug)]
pub struct ActionChannels {
    pub look_up: Vec<LookUp>,
    pub look_right: Vec<LookRight>,
    pub move_forward: Vec<MoveForward>,
    pub strafe_right: Vec<StrafeRight>,
    pub crouch: Vec<Crouch>,
    pub jump: Vec<Jump>,
    pub spawn_cube_actor: Vec<SpawnCubeActor>,
    pub spawn_spectator_camera: Vec<SpawnSpectatorCamera>,
    pub toggle_console: Vec<ToggleConsole>,
}

/// The look-up event a record carries, if it is one.
pub open spec fn look_up_of(a: GameAction) -> Option<LookUp> {
    match a {
        GameAction::LookUp(v) => Some(LookUp(v)),
        _ => None,
    }
}

/// The look-right event a record carries, if it is one.
pub open spec fn look_right_of(a: GameAction) -> Option<LookRight> {
    match a {
        GameAction::LookRight(v) => Some(LookRight(v)),
        _ => None,
    }
}

/// The move-forward event a record carries, if it is one.
pub open spec fn move_forward_of(a: GameAction) -> Option<MoveForward> {
    match a {
        GameAction::MoveForward(v) => Some(MoveForward(v)),
        _ => None,
    }
}

/// The strafe event a record carries, if it is one.
pub open spec fn strafe_right_of(a: GameAction) -> Option<StrafeRight> {
    match a {
        GameAction::StrafeRight(v) => Some(StrafeRight(v)),
        _ => None,
    }
}

/// The crouch event a record carries, if it is one.
pub open spec fn crouch_of(a: GameAction) -> Option<Crouch> {
    match a {
        GameAction::Crouch(b) => Some(Crouch(b)),
        _ => None,
    }
}

/// The jump event a record carries, if it is one.
pub open spec fn jump_of(a: GameAction) -> Option<Jump> {
    match a {
        GameAction::Jump(b) => Some(Jump(b)),
        _ => None,
    }
}

/// The cube-spawn event a record carries, if it is one.
pub open spec fn spawn_cube_of(a: GameAction) -> Option<SpawnCubeActor> {
    match a {
        GameAction::SpawnCubeActor => Some(SpawnCubeActor),
        _ => None,
    }
}

/// The spectator-spawn event a record carries, if it is one.
pub open spec fn spawn_spectator_of(a: GameAction) -> Option<SpawnSpectatorCamera> {
    match a {
        GameAction::SpawnSpectatorCamera => Some(SpawnSpectatorCamera),
        _ => None,
    }
}

/// The console-toggle event a record carries, if it is one.
pub open spec fn toggle_console_of(a: GameAction) -> Option<ToggleConsole> {
    match a {
        GameAction::ToggleConsole => Some(ToggleConsole),
        _ => None,
    }
}

/// One channel of a queue: the events `f` extracts, in queue order.
pub open spec fn channel_of<T>(queue: Seq<GameAction>, f: spec_fn(GameAction) -> Option<T>) -> Seq<
    T,
>
    decreases queue.len(),
{
    if queue.len() == 0 {
        Seq::empty()
    } else {
        let rest = channel_of(queue.drop_last(), f);
        match f(queue.last()) {
            Some(e) => rest.push(e),
            None => rest,
        }
    }
}

/// A channel of a concatenation is the concatenation of the channels.
pub proof fn lemma_channel_concat<T>(
    x: Seq<GameAction>,
    y: Seq<GameAction>,
    f: spec_fn(GameAction) -> Option<T>,
)
    ensures
        channel_of(x + y, f) == channel_of(x, f) + channel_of(y, f),
    decreases y.len(),
{
    if y.len() == 0 {
        assert(x + y =~= x);
        assert(channel_of(x, f) + channel_of(Seq::empty(), f) =~= channel_of(x, f));
    } else {
        lemma_channel_concat(x, y.drop_last(), f);
        assert((x + y).drop_last() =~= x + y.drop_last());
        assert((x + y).last() == y.last());
        match f(y.last()) {
            Some(e) => {
                assert(channel_of(x, f) + channel_of(y.drop_last(), f).push(e) =~= (channel_of(
                    x,
                    f,
                ) + channel_of(y.drop_last(), f)).push(e));
            },
            None => {},
        }
    }
}

/// Fan one frame's action queue out into the per-type event channels, in
/// queue order.
pub fn dispatch_actions(queue: &Vec<GameAction>) -> (r: ActionChannels)
    ensures
        r.look_up@ == channel_of(queue@, |a: GameAction| look_up_of(a)),
        r.look_right@ == channel_of(queue@, |a: GameAction| look_right_of(a)),
        r.move_forward@ == channel_of(queue@, |a: GameAction| move_forward_of(a)),
        r.strafe_right@ == channel_of(queue@, |a: GameAction| strafe_right_of(a)),
        r.crouch@ == channel_of(queue@, |a: GameAction| crouch_of(a)),
        r.jump@ == channel_of(queue@, |a: GameAction| jump_of(a)),
        r.spawn_cube_actor@ == channel_of(queue@, |a: GameAction| spawn_cube_of(a)),
        r.spawn_spectator_camera@ == channel_of(queue@, |a: GameAction| spawn_spectator_of(a)),
        r.toggle_console@ == channel_of(queue@, |a: GameAction| toggle_console_of(a)),
{
    let n = queue.len();
    let mut look_up: Vec<LookUp> = Vec::new();
    let mut look_right: Vec<LookRight> = Vec::new();
    let mut move_forward: Vec<MoveForward> = Vec::new();
    let mut strafe_right: Vec<StrafeRight> = Vec::new();
    let mut crouch: Vec<Crouch> = Vec::new();
    let mut jump: Vec<Jump> = Vec::new();
    let mut spawn_cube_actor: Vec<SpawnCubeActor> = Vec::new();
    let mut spawn_spectator_camera: Vec<SpawnSpectatorCamera> = Vec::new();
    let mut toggle_console: Vec<ToggleConsole> = Vec::new();
    let mut i: usize = 0;
    while i < n
        invariant
            i <= n,
            n == queue@.len(),
            look_up@ == channel_of(queue@.take(i as int), |a: GameAction| look_up_of(a)),
            look_right@ == channel_of(queue@.take(i as int), |a: GameAction| look_right_of(a)),
            move_forward@ == channel_of(queue@.take(i as int), |a: GameAction| move_forward_of(a)),
            strafe_right@ == channel_of(queue@.take(i as int), |a: GameAction| strafe_right_of(a)),
            crouch@ == channel_of(queue@.take(i as int), |a: GameAction| crouch_of(a)),
            jump@ == channel_of(queue@.take(i as int), |a: GameAction| jump_of(a)),
            spawn_cube_actor@ == channel_of(queue@.take(i as int), |a: GameAction| spawn_cube_of(a)),
            spawn_spectator_camera@ == channel_of(
                queue@.take(i as int),
                |a: GameAction| spawn_spectator_of(a),
            ),
            toggle_console@ == channel_of(
                queue@.take(i as int),
                |a: GameAction| toggle_console_of(a),
            ),
        decreases n - i,
    {
        proof {
            assert(queue@.take(i + 1).drop_last() =~= queue@.take(i as int));
            assert(queue@.take(i + 1).last() == queue@[i as int]);
        }
        match queue[i] {
            GameAction::LookUp(v) => look_up.push(LookUp(v)),
            GameAction::LookRight(v) => look_right.push(LookRight(v)),
            GameAction::MoveForward(v) => move_forward.push(MoveForward(v)),
            GameAction::StrafeRight(v) => strafe_right.push(StrafeRight(v)),
            GameAction::Crouch(b) => crouch.push(Crouch(b)),
            GameAction::Jump(b) => jump.push(Jump(b)),
            GameAction::SpawnCubeActor => spawn_cube_actor.push(SpawnCubeActor),
            GameAction::SpawnSpectatorCamera => spawn_spectator_camera.push(SpawnSpectatorCamera),
            GameAction::ToggleConsole => toggle_console.push(ToggleConsole),
        }
        i += 1;
    }
    proof {
        assert(queue@.take(n as int) =~= queue@);
    }
    ActionChannels {
        look_up,
        look_right,
        move_forward,
        strafe_right,
        crouch,
        jump,
        spawn_cube_actor,
        spawn_spectator_camera,
        toggle_console,
    }
}

/// The action named by a configuration entry, or `None` for a name outside
/// the closed set above.
pub open spec fn spec_parse_action(s: Seq<char>) -> Option<ActionKind> {
    if s == "MoveForward"@ {
        Some(ActionKind::MoveForward)
    } else if s == "MoveBackward"@ {
        Some(ActionKind::MoveBackward)
    } else if s == "StrafeLeft"@ {
        Some(ActionKind::StrafeLeft)
    } else if s == "StrafeRight"@ {
        Some(ActionKind::StrafeRight)
    } else if s == "Crouch"@ {
        Some(ActionKind::Crouch)
    } else if s == "Jump"@ {
        Some(ActionKind::Jump)
    } else if s == "SpawnCubeActor"@ {
        Some(ActionKind::SpawnCubeActor)
    } else if s == "SpawnSpectatorCamera"@ {
        Some(ActionKind::SpawnSpectatorCamera)
    } else if s == "ToggleConsole"@ {
        Some(ActionKind::ToggleConsole)
    } else {
        None
    }
}

impl ActionKind {
    /// Parse an action name as it appears in the configuration file.
    pub fn parse(s: &str) -> (r: Option<ActionKind>)
        ensures
            r == spec_parse_action(s@),
    {
        if str_eq_check(s, "MoveForward") {
            Some(ActionKind::MoveForward)
        } else if str_eq_check(s, "MoveBackward") {
            Some(ActionKind::MoveBackward)
        } else if str_eq_check(s, "StrafeLeft") {
            Some(ActionKind::StrafeLeft)
        } else if str_eq_check(s, "StrafeRight") {
            Some(ActionKind::StrafeRight)
        } else if str_eq_check(s, "Crouch") {
            Some(ActionKind::Crouch)
        } else if str_eq_check(s, "Jump") {
            Some(ActionKind::Jump)
        } else if str_eq_check(s, "SpawnCubeActor") {
            Some(ActionKind::SpawnCubeActor)
        } else if str_eq_check(s, "SpawnSpectatorCamera") {
            Some(ActionKind::SpawnSpectatorCamera)
        } else if str_eq_check(s, "ToggleConsole") {
            Some(ActionKind::ToggleConsole)
        } else {
            None
        }
    }
}

} // verus!
