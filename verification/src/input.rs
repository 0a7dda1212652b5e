//! The input handler for the playing state.
//!
//! Input -> binding table -> action record -> (listeners).
//! This flow decouples gameplay inputs from the actions themselves, so keys
//! can be re-bound by editing a configuration file. Each frame the handlers
//! compare the currently-pressed, newly-pressed and newly-released keys
//! against the table and append one action record per match to the
//! per-frame queue; mouse motion maps to look actions unconditionally.

use vstd::prelude::*;
use crate::actions::{channel_of, lemma_channel_concat, look_right_of, look_up_of, ActionKind, GameAction, LookRight, LookUp};
use crate::keys::Key;

verus! {

/// One entry of the binding table: a physical key and the action it names.
#[derive(Clone, Copy, Debug, PartialEq, Eq, Structural)]
pub struct InputBinding {
    pub key: Key,
    pub binding: ActionKind,
}

/// The game's binding table, loaded once at startup and read-only during
/// play. When a key occurs in several entries the latest entry wins, as a
/// map built from the same pairs would make it.
#[derive(Debug, Clone)]
pub struct InputBindings {
    entries: Vec<InputBinding>,
}

impl View for InputBindings {
    type V = Seq<InputBinding>;

    closed spec fn view(&self) -> Seq<InputBinding> {
        self.entries@
    }
}

/// The action bound to a key: the latest entry for that key decides.
pub open spec fn spec_lookup(entries: Seq<InputBinding>, key: Key) -> Option<ActionKind>
    decreases entries.len(),
{
    if entries.len() == 0 {
        None
    } else if entries.last().key == key {
        Some(entries.last().binding)
    } else {
        spec_lookup(entries.drop_last(), key)
    }
}

/// The key that toggles the console: the first entry bound to
/// `ToggleConsole`, or the hardcoded grave-key fallback when the table has
/// none.
pub open spec fn spec_console_key(entries: Seq<InputBinding>) -> Key
    decreases entries.len(),
{
    if entries.len() == 0 {
        Key::Grave
    } else if entries[0].binding == ActionKind::ToggleConsole {
        entries[0].key
    } else {
        spec_console_key(entries.subrange(1, entries.len() as int))
    }
}

proof fn lemma_console_key_skip(entries: Seq<InputBinding>, start: int)
    requires
        0 <= start <= entries.len(),
        forall|j: int| 0 <= j < start ==> entries[j].binding != ActionKind::ToggleConsole,
    ensures
        spec_console_key(entries) == spec_console_key(
            entries.subrange(start, entries.len() as int),
        ),
    decreases start,
{
    if start > 0 {
        let t = entries.subrange(1, entries.len() as int);
        lemma_console_key_skip(t, start - 1);
        assert(t.subrange(start - 1, t.len() as int) =~= entries.subrange(
            start,
            entries.len() as int,
        ));
    } else {
        assert(entries.subrange(0, entries.len() as int) =~= entries);
    }
}

impl InputBindings {
    /// Build the table from configuration pairs, kept in file order.
    pub fn from_pairs(pairs: Vec<InputBinding>) -> (r: InputBindings)
        ensures
            r@ == pairs@,
    {
        InputBindings { entries: pairs }
    }

    /// The action bound to a key, if any.
    pub fn lookup(&self, key: &Key) -> (r: Option<ActionKind>)
        ensures
            r == spec_lookup(self@, *key),
    {
        let n = self.entries.len();
        let mut i: usize = n;
        proof {
            assert(self@.take(n as int) =~= self@);
        }
        while i > 0
            invariant
                i <= n,
                n == self@.len(),
                spec_lookup(self@, *key) == spec_lookup(self@.take(i as int), *key),
            decreases i,
        {
            i -= 1;
            let entry = self.entries[i];
            proof {
                assert(self@.take(i + 1).last() == self@[i as int]);
                assert(self@.take(i + 1).drop_last() =~= self@.take(i as int));
            }
            if entry.key == *key {
                return Some(entry.binding);
            }
        }
        None
    }

    /// The key that toggles the console, with the grave-key fallback.
    pub fn console_key(&self) -> (r: Key)
        ensures
            r == spec_console_key(self@),
    {
        let n = self.entries.len();
        let mut i: usize = 0;
        while i < n
            invariant
                i <= n,
                n == self@.len(),
                forall|j: int| 0 <= j < i ==> self@[j].binding != ActionKind::ToggleConsole,
            decreases n - i,
        {
            let entry = self.entries[i];
            if matches!(entry.binding, ActionKind::ToggleConsole) {
                proof {
                    lemma_console_key_skip(self@, i as int);
                }
                return entry.key;
            }
            i += 1;
        }
        proof {
            lemma_console_key_skip(self@, n as int);
        }
        Key::Grave
    }
}

/// One frame's key-state transitions, as the host's input resource reports
/// them: keys currently held, keys that went down this frame, and keys that
/// went up this frame.
#[derive(Debug, Clone)]
pub struct FrameInput {
    pub pressed: Vec<Key>,
    pub just_pressed: Vec<Key>,
    pub just_released: Vec<Key>,
}

/// The record a held key's action contributes each frame, if any: movement
/// and stance actions are level-triggered.
pub open spec fn press_action(kind: ActionKind) -> Option<GameAction> {
    match kind {
        ActionKind::MoveForward => Some(GameAction::MoveForward(1i64)),
        ActionKind::MoveBackward => Some(GameAction::MoveForward(-1i64)),
        ActionKind::StrafeLeft => Some(GameAction::StrafeRight(-1i64)),
        ActionKind::StrafeRight => Some(GameAction::StrafeRight(1i64)),
        ActionKind::Crouch => Some(GameAction::Crouch(true)),
        ActionKind::Jump => Some(GameAction::Jump(true)),
        _ => None,
    }
}

/// The record a released key's action contributes, if any: the stance
/// toggles report themselves disabled.
pub open spec fn release_action(kind: ActionKind) -> Option<GameAction> {
    match kind {
        ActionKind::Crouch => Some(GameAction::Crouch(false)),
        ActionKind::Jump => Some(GameAction::Jump(false)),
        _ => None,
    }
}

/// The record a newly-pressed key's action contributes, if any: the debug
/// actions are edge-triggered.
pub open spec fn debug_action(kind: ActionKind) -> Option<GameAction> {
    match kind {
        ActionKind::SpawnCubeActor => Some(GameAction::SpawnCubeActor),
        ActionKind::SpawnSpectatorCamera => Some(GameAction::SpawnSpectatorCamera),
        ActionKind::ToggleConsole => Some(GameAction::ToggleConsole),
        _ => None,
    }
}

/// The records one list of keys contributes, in key order: each key is
/// looked up in the table and `f` says what its action contributes.
pub open spec fn actions_from(
    entries: Seq<InputBinding>,
    keys: Seq<Key>,
    f: spec_fn(ActionKind) -> Option<GameAction>,
) -> Seq<GameAction>
    decreases keys.len(),
{
    if keys.len() == 0 {
        Seq::empty()
    } else {
        let rest = actions_from(entries, keys.drop_last(), f);
        match spec_lookup(entries, keys.last()) {
            Some(kind) => match f(kind) {
                Some(a) => rest.push(a),
                None => rest,
            },
            None => rest,
        }
    }
}

/// The held-key part of the frame queue.
pub open spec fn press_actions(entries: Seq<InputBinding>, keys: Seq<Key>) -> Seq<GameAction> {
    actions_from(entries, keys, |kind: ActionKind| press_action(kind))
}

/// The released-key part of the frame queue.
pub open spec fn release_actions(entries: Seq<InputBinding>, keys: Seq<Key>) -> Seq<GameAction> {
    actions_from(entries, keys, |kind: ActionKind| release_action(kind))
}

/// The newly-pressed-key part of the frame queue.
pub open spec fn debug_actions(entries: Seq<InputBinding>, keys: Seq<Key>) -> Seq<GameAction> {
    actions_from(entries, keys, |kind: ActionKind| debug_action(kind))
}

fn press_action_check(kind: ActionKind) -> (r: Option<GameAction>)
    ensures
        r == press_action(kind),
{
    match kind {
        ActionKind::MoveForward => Some(GameAction::MoveForward(1i64)),
        ActionKind::MoveBackward => Some(GameAction::MoveForward(-1i64)),
        ActionKind::StrafeLeft => Some(GameAction::StrafeRight(-1i64)),
        ActionKind::StrafeRight => Some(GameAction::StrafeRight(1i64)),
        ActionKind::Crouch => Some(GameAction::Crouch(true)),
        ActionKind::Jump => Some(GameAction::Jump(true)),
        _ => None,
    }
}

fn release_action_check(kind: ActionKind) -> (r: Option<GameAction>)
    ensures
        r == release_action(kind),
{
    match kind {
        ActionKind::Crouch => Some(GameAction::Crouch(false)),
        ActionKind::Jump => Some(GameAction::Jump(false)),
        _ => None,
    }
}

fn debug_action_check(kind: ActionKind) -> (r: Option<GameAction>)
    ensures
        r == debug_action(kind),
{
    match kind {
        ActionKind::SpawnCubeActor => Some(GameAction::SpawnCubeActor),
        ActionKind::SpawnSpectatorCamera => Some(GameAction::SpawnSpectatorCamera),
        ActionKind::ToggleConsole => Some(GameAction::ToggleConsole),
        _ => None,
    }
}

fn extend_press_actions(bindings: &InputBindings, keys: &Vec<Key>, queue: &mut Vec<GameAction>)
    ensures
        final(queue)@ == old(queue)@ + press_actions(bindings@, keys@),
{
    let n = keys.len();
    let mut i: usize = 0;
    while i < n
        invariant
            i <= n,
            n == keys@.len(),
            queue@ == old(queue)@ + press_actions(bindings@, keys@.take(i as int)),
        decreases n - i,
    {
        proof {
            assert(keys@.take(i + 1).drop_last() =~= keys@.take(i as int));
            assert(keys@.take(i + 1).last() == keys@[i as int]);
        }
        if let Some(kind) = bindings.lookup(&keys[i]) {
            if let Some(a) = press_action_check(kind) {
                queue.push(a);
            }
        }
        i += 1;
    }
    proof {
        assert(keys@.take(n as int) =~= keys@);
    }
}

fn extend_release_actions(bindings: &InputBindings, keys: &Vec<Key>, queue: &mut Vec<GameAction>)
    ensures
        final(queue)@ == old(queue)@ + release_actions(bindings@, keys@),
{
    let n = keys.len();
    let mut i: usize = 0;
    while i < n
        invariant
            i <= n,
            n == keys@.len(),
            queue@ == old(queue)@ + release_actions(bindings@, keys@.take(i as int)),
        decreases n - i,
    {
        proof {
            assert(keys@.take(i + 1).drop_last() =~= keys@.take(i as int));
            assert(keys@.take(i + 1).last() == keys@[i as int]);
        }
        if let Some(kind) = bindings.lookup(&keys[i]) {
            if let Some(a) = release_action_check(kind) {
                queue.push(a);
            }
        }
        i += 1;
    }
    proof {
        assert(keys@.take(n as int) =~= keys@);
    }
}

fn extend_debug_actions(bindings: &InputBindings, keys: &Vec<Key>, queue: &mut Vec<GameAction>)
    ensures
        final(queue)@ == old(queue)@ + debug_actions(bindings@, keys@),
{
    let n = keys.len();
    let mut i: usize = 0;
    while i < n
        invariant
            i <= n,
            n == keys@.len(),
            queue@ == old(queue)@ + debug_actions(bindings@, keys@.take(i as int)),
        decreases n - i,
    {
        proof {
            assert(keys@.take(i + 1).drop_last() =~= keys@.take(i as int));
            assert(keys@.take(i + 1).last() == keys@[i as int]);
        }
        if let Some(kind) = bindings.lookup(&keys[i]) {
            if let Some(a) = debug_action_check(kind) {
                queue.push(a);
            }
        }
        i += 1;
    }
    proof {
        assert(keys@.take(n as int) =~= keys@);
    }
}

/// What the game-input handler enqueues in one frame: while a pawn is
/// possessed and not focused on the console, each held key contributes its
/// movement or stance action and each released key its disabled stance
/// action. With no active pawn the handler enqueues nothing.
pub open spec fn spec_game_input_actions(
    entries: Seq<InputBinding>,
    pressed: Seq<Key>,
    just_released: Seq<Key>,
    player_active: bool,
) -> Seq<GameAction> {
    if player_active {
        press_actions(entries, pressed) + release_actions(entries, just_released)
    } else {
        Seq::empty()
    }
}

/// Game input handler: movement and stance actions for the possessed pawn.
/// `player_active` says whether a pawn is possessed and free of console
/// focus, which the host's entity store decides.
pub fn handle_game_input(
    input_bindings: &InputBindings,
    input: &FrameInput,
    player_active: bool,
) -> (queue: Vec<GameAction>)
    ensures
        queue@ == spec_game_input_actions(
            input_bindings@,
            input.pressed@,
            input.just_released@,
            player_active,
        ),
{
    let mut queue: Vec<GameAction> = Vec::new();
    if player_active {
        extend_press_actions(input_bindings, &input.pressed, &mut queue);
        extend_release_actions(input_bindings, &input.just_released, &mut queue);
    }
    queue
}

/// Debug input handler: newly-pressed keys fire their debug actions
/// whatever the input mode.
pub fn handle_debug_input(input_bindings: &InputBindings, input: &FrameInput) -> (queue: Vec<GameAction>)
    ensures
        queue@ == debug_actions(input_bindings@, input.just_pressed@),
{
    let mut queue: Vec<GameAction> = Vec::new();
    extend_debug_actions(input_bindings, &input.just_pressed, &mut queue);
    queue
}

/// The whole per-frame action queue, in the order the handlers run.
pub open spec fn spec_frame_actions(
    entries: Seq<InputBinding>,
    pressed: Seq<Key>,
    just_pressed: Seq<Key>,
    just_released: Seq<Key>,
    player_active: bool,
) -> Seq<GameAction> {
    spec_game_input_actions(entries, pressed, just_released, player_active) + debug_actions(
        entries,
        just_pressed,
    )
}

/// Run both key-input handlers for one frame and collect the queue.
pub fn frame_actions(
    input_bindings: &InputBindings,
    input: &FrameInput,
    player_active: bool,
) -> (queue: Vec<GameAction>)
    ensures
        queue@ == spec_frame_actions(
            input_bindings@,
            input.pressed@,
            input.just_pressed@,
            input.just_released@,
            player_active,
        ),
{
    let mut queue = handle_game_input(input_bindings, input, player_active);
    let mut debug = handle_debug_input(input_bindings, input);
    queue.append(&mut debug);
    queue
}

/// One mouse-motion event, as the host reports it: a planar delta in
/// thousandths of the engine's screen units.
#[derive(Clone, Copy, Debug, PartialEq, Eq, Structural)]
pub struct MouseMotion {
    pub delta_x: i64,
    pub delta_y: i64,
}

/// The action records one frame of mouse motion produces: every motion
/// event yields one vertical and one horizontal look record, through no
/// binding table at all.
pub open spec fn mouse_actions(motions: Seq<MouseMotion>) -> Seq<GameAction>
    decreases motions.len(),
{
    if motions.len() == 0 {
        Seq::empty()
    } else {
        mouse_actions(motions.drop_last()) + seq![
            GameAction::LookUp(motions.last().delta_y),
            GameAction::LookRight(motions.last().delta_x),
        ]
    }
}

/// Map mouse movement to look actions. The handler accepts the binding
/// table like its sibling handlers, but the result never depends on it:
/// the contract speaks of the motions alone.
pub fn on_update_mouse_movement(
    input_bindings: &InputBindings,
    mouse_motion: &Vec<MouseMotion>,
) -> (queue: Vec<GameAction>)
    ensures
        queue@ == mouse_actions(mouse_motion@),
{
    let n = mouse_motion.len();
    let mut queue: Vec<GameAction> = Vec::new();
    let mut i: usize = 0;
    while i < n
        invariant
            i <= n,
            n == mouse_motion@.len(),
            queue@ == mouse_actions(mouse_motion@.take(i as int)),
        decreases n - i,
    {
        let m = mouse_motion[i];
        queue.push(GameAction::LookUp(m.delta_y));
        queue.push(GameAction::LookRight(m.delta_x));
        proof {
            assert(mouse_motion@.take(i + 1).drop_last() =~= mouse_motion@.take(i as int));
            assert(mouse_motion@.take(i + 1).last() == m);
            assert(queue@ =~= mouse_actions(mouse_motion@.take(i as int)) + seq![
                GameAction::LookUp(m.delta_y),
                GameAction::LookRight(m.delta_x),
            ]);
        }
        i += 1;
    }
    proof {
        assert(mouse_motion@.take(n as int) =~= mouse_motion@);
    }
    queue
}

/// Mouse motion always reaches the look channels, whatever the binding
/// table holds: fanning out a frame of mouse actions yields exactly one
/// vertical and one horizontal look event per motion, in motion order.
pub proof fn lemma_mouse_motion_always_looks(motions: Seq<MouseMotion>)
    ensures
        channel_of(mouse_actions(motions), |a: GameAction| look_up_of(a)) == motions.map_values(
            (|m: MouseMotion| LookUp(m.delta_y)),
        ),
        channel_of(mouse_actions(motions), |a: GameAction| look_right_of(a)) == motions.map_values(
            (|m: MouseMotion| LookRight(m.delta_x)),
        ),
    decreases motions.len(),
{
    let fu = |a: GameAction| look_up_of(a);
    let fr = |a: GameAction| look_right_of(a);
    if motions.len() == 0 {
        assert(channel_of(mouse_actions(motions), fu) =~= motions.map_values(
            (|m: MouseMotion| LookUp(m.delta_y)),
        ));
        assert(channel_of(mouse_actions(motions), fr) =~= motions.map_values(
            (|m: MouseMotion| LookRight(m.delta_x)),
        ));
    } else {
        let m = motions.last();
        let pair = seq![GameAction::LookUp(m.delta_y), GameAction::LookRight(m.delta_x)];
        lemma_mouse_motion_always_looks(motions.drop_last());
        lemma_channel_concat(mouse_actions(motions.drop_last()), pair, fu);
        lemma_channel_concat(mouse_actions(motions.drop_last()), pair, fr);
        let single = seq![GameAction::LookUp(m.delta_y)];
        assert(pair.drop_last() =~= single);
        assert(pair.last() == GameAction::LookRight(m.delta_x));
        assert(single.drop_last() =~= Seq::<GameAction>::empty());
        assert(single.last() == GameAction::LookUp(m.delta_y));
        assert(channel_of(Seq::<GameAction>::empty(), fu) =~= Seq::<LookUp>::empty());
        assert(channel_of(Seq::<GameAction>::empty(), fr) =~= Seq::<LookRight>::empty());
        assert(channel_of(single, fu) =~= seq![LookUp(m.delta_y)]);
        assert(channel_of(single, fr) =~= Seq::<LookRight>::empty());
        assert(channel_of(pair, fu) =~= seq![LookUp(m.delta_y)]);
        assert(channel_of(pair, fr) =~= seq![LookRight(m.delta_x)]);
        assert(channel_of(mouse_actions(motions), fu) =~= motions.map_values(
            (|m: MouseMotion| LookUp(m.delta_y)),
        ));
        assert(channel_of(mouse_actions(motions), fr) =~= motions.map_values(
            (|m: MouseMotion| LookRight(m.delta_x)),
        ));
    }
}

/// How many times a record occurs in a queue.
pub open spec fn count_of(queue: Seq<GameAction>, a: GameAction) -> nat
    decreases queue.len(),
{
    if queue.len() == 0 {
        0
    } else {
        count_of(queue.drop_last(), a) + (if queue.last() == a {
            1nat
        } else {
            0nat
        })
    }
}

/// How many times a key occurs in a key list.
pub open spec fn occurrences(keys: Seq<Key>, k: Key) -> nat
    decreases keys.len(),
{
    if keys.len() == 0 {
        0
    } else {
        occurrences(keys.drop_last(), k) + (if keys.last() == k {
            1nat
        } else {
            0nat
        })
    }
}

/// How many keys of the list are bound to an action whose `f`-record is `a`.
pub open spec fn matching_key_count(
    entries: Seq<InputBinding>,
    keys: Seq<Key>,
    f: spec_fn(ActionKind) -> Option<GameAction>,
    a: GameAction,
) -> nat
    decreases keys.len(),
{
    if keys.len() == 0 {
        0
    } else {
        matching_key_count(entries, keys.drop_last(), f, a) + (if (spec_lookup(
            entries,
            keys.last(),
        ) matches Some(kind) && f(kind) == Some(a)) {
            1nat
        } else {
            0nat
        })
    }
}

proof fn lemma_count_concat(x: Seq<GameAction>, y: Seq<GameAction>, a: GameAction)
    ensures
        count_of(x + y, a) == count_of(x, a) + count_of(y, a),
    decreases y.len(),
{
    if y.len() == 0 {
        assert(x + y =~= x);
    } else {
        lemma_count_concat(x, y.drop_last(), a);
        assert((x + y).drop_last() =~= x + y.drop_last());
        assert((x + y).last() == y.last());
    }
}

proof fn lemma_actions_from_count(
    entries: Seq<InputBinding>,
    keys: Seq<Key>,
    f: spec_fn(ActionKind) -> Option<GameAction>,
    a: GameAction,
)
    ensures
        count_of(actions_from(entries, keys, f), a) == matching_key_count(entries, keys, f, a),
    decreases keys.len(),
{
    if keys.len() > 0 {
        lemma_actions_from_count(entries, keys.drop_last(), f, a);
        let rest = actions_from(entries, keys.drop_last(), f);
        if let Some(kind) = spec_lookup(entries, keys.last()) {
            if let Some(r) = f(kind) {
                assert(rest.push(r).drop_last() =~= rest);
            }
        }
    }
}

proof fn lemma_matching_count_zero(
    entries: Seq<InputBinding>,
    keys: Seq<Key>,
    f: spec_fn(ActionKind) -> Option<GameAction>,
    a: GameAction,
)
    requires
        forall|kind: ActionKind| #[trigger] f(kind) != Some(a),
    ensures
        matching_key_count(entries, keys, f, a) == 0,
    decreases keys.len(),
{
    if keys.len() > 0 {
        lemma_matching_count_zero(entries, keys.drop_last(), f, a);
    }
}

proof fn lemma_matching_count_unique(
    entries: Seq<InputBinding>,
    keys: Seq<Key>,
    f: spec_fn(ActionKind) -> Option<GameAction>,
    a: GameAction,
    k: Key,
)
    requires
        spec_lookup(entries, k) matches Some(kind) && f(kind) == Some(a),
        forall|j: int|
            0 <= j < keys.len() && keys[j] != k ==> !(spec_lookup(entries, keys[j]) matches Some(
                kind2,
            ) && f(kind2) == Some(a)),
    ensures
        matching_key_count(entries, keys, f, a) == occurrences(keys, k),
    decreases keys.len(),
{
    if keys.len() > 0 {
        assert forall|j: int|
            0 <= j < keys.drop_last().len() && keys.drop_last()[j] != k implies !(spec_lookup(
            entries,
            keys.drop_last()[j],
        ) matches Some(kind2) && f(kind2) == Some(a)) by {
            assert(keys.drop_last()[j] == keys[j]);
        }
        lemma_matching_count_unique(entries, keys.drop_last(), f, a, k);
        if keys.last() != k {
            assert(keys[keys.len() - 1] == keys.last());
        }
    }
}

/// Pressing a key the binding table maps to a held action, during an
/// active frame, puts exactly one matching record in the frame queue:
/// provided that key is down once and no other key bound to the same
/// record is down.
pub proof fn lemma_held_key_enqueues_exactly_one(
    entries: Seq<InputBinding>,
    pressed: Seq<Key>,
    just_pressed: Seq<Key>,
    just_released: Seq<Key>,
    k: Key,
    kind: ActionKind,
    a: GameAction,
)
    requires
        spec_lookup(entries, k) == Some(kind),
        press_action(kind) == Some(a),
        occurrences(pressed, k) == 1,
        forall|j: int|
            0 <= j < pressed.len() && pressed[j] != k ==> !(spec_lookup(
                entries,
                pressed[j],
            ) matches Some(kind2) && press_action(kind2) == Some(a)),
    ensures
        count_of(spec_frame_actions(entries, pressed, just_pressed, just_released, true), a) == 1,
{
    let fp = |kind: ActionKind| press_action(kind);
    let fr = |kind: ActionKind| release_action(kind);
    let fd = |kind: ActionKind| debug_action(kind);
    let game = press_actions(entries, pressed) + release_actions(entries, just_released);
    lemma_count_concat(game, debug_actions(entries, just_pressed), a);
    lemma_count_concat(
        press_actions(entries, pressed),
        release_actions(entries, just_released),
        a,
    );
    lemma_actions_from_count(entries, pressed, fp, a);
    lemma_matching_count_unique(entries, pressed, fp, a, k);
    lemma_actions_from_count(entries, just_released, fr, a);
    assert forall|kind2: ActionKind| #[trigger] fr(kind2) != Some(a) by {
        lemma_press_release_disjoint(kind, kind2, a);
    }
    lemma_matching_count_zero(entries, just_released, fr, a);
    lemma_actions_from_count(entries, just_pressed, fd, a);
    assert forall|kind2: ActionKind| #[trigger] fd(kind2) != Some(a) by {
        lemma_press_debug_disjoint(kind, kind2, a);
    }
    lemma_matching_count_zero(entries, just_pressed, fd, a);
}

proof fn lemma_press_release_disjoint(kind: ActionKind, kind2: ActionKind, a: GameAction)
    requires
        press_action(kind) == Some(a),
    ensures
        release_action(kind2) != Some(a),
{
}

proof fn lemma_press_debug_disjoint(kind: ActionKind, kind2: ActionKind, a: GameAction)
    requires
        press_action(kind) == Some(a),
    ensures
        debug_action(kind2) != Some(a),
{
}

proof fn lemma_debug_press_disjoint(kind: ActionKind, kind2: ActionKind, a: GameAction)
    requires
        debug_action(kind) == Some(a),
    ensures
        press_action(kind2) != Some(a),
        release_action(kind2) != Some(a),
{
}

/// Newly pressing a key the binding table maps to a debug action puts
/// exactly one matching record in the frame queue, whatever the input
/// mode: provided that key went down once and no other newly-pressed key
/// is bound to the same record.
pub proof fn lemma_debug_key_enqueues_exactly_one(
    entries: Seq<InputBinding>,
    pressed: Seq<Key>,
    just_pressed: Seq<Key>,
    just_released: Seq<Key>,
    player_active: bool,
    k: Key,
    kind: ActionKind,
    a: GameAction,
)
    requires
        spec_lookup(entries, k) == Some(kind),
        debug_action(kind) == Some(a),
        occurrences(just_pressed, k) == 1,
        forall|j: int|
            0 <= j < just_pressed.len() && just_pressed[j] != k ==> !(spec_lookup(
                entries,
                just_pressed[j],
            ) matches Some(kind2) && debug_action(kind2) == Some(a)),
    ensures
        count_of(
            spec_frame_actions(entries, pressed, just_pressed, just_released, player_active),
            a,
        ) == 1,
{
    let fp = |kind: ActionKind| press_action(kind);
    let fr = |kind: ActionKind| release_action(kind);
    let fd = |kind: ActionKind| debug_action(kind);
    let game = spec_game_input_actions(entries, pressed, just_released, player_active);
    lemma_count_concat(game, debug_actions(entries, just_pressed), a);
    lemma_actions_from_count(entries, just_pressed, fd, a);
    lemma_matching_count_unique(entries, just_pressed, fd, a, k);
    if player_active {
        lemma_count_concat(
            press_actions(entries, pressed),
            release_actions(entries, just_released),
            a,
        );
        lemma_actions_from_count(entries, pressed, fp, a);
        assert forall|kind2: ActionKind| #[trigger] fp(kind2) != Some(a) by {
            lemma_debug_press_disjoint(kind, kind2, a);
        }
        lemma_matching_count_zero(entries, pressed, fp, a);
        lemma_actions_from_count(entries, just_released, fr, a);
        assert forall|kind2: ActionKind| #[trigger] fr(kind2) != Some(a) by {
            lemma_debug_press_disjoint(kind, kind2, a);
        }
        lemma_matching_count_zero(entries, just_released, fr, a);
    }
}

proof fn lemma_actions_from_contains(
    entries: Seq<InputBinding>,
    keys: Seq<Key>,
    f: spec_fn(ActionKind) -> Option<GameAction>,
    k: Key,
)
    requires
        keys.contains(k),
        spec_lookup(entries, k) matches Some(kind) && f(kind) is Some,
    ensures
        actions_from(entries, keys, f).contains(f(spec_lookup(entries, k)->0)->0),
    decreases keys.len(),
{
    let a = f(spec_lookup(entries, k)->0)->0;
    let rest = actions_from(entries, keys.drop_last(), f);
    if keys.last() == k {
        assert(actions_from(entries, keys, f) == rest.push(a));
        assert(rest.push(a)[rest.len() as int] == a);
    } else {
        let j = choose|j: int| 0 <= j < keys.len() && keys[j] == k;
        assert(keys.drop_last()[j] == k);
        assert(keys.drop_last().contains(k));
        lemma_actions_from_contains(entries, keys.drop_last(), f, k);
        let i = choose|i: int| 0 <= i < rest.len() && rest[i] == a;
        match f(spec_lookup(entries, keys.last())->0) {
            Some(b) => {
                if spec_lookup(entries, keys.last()) is Some {
                    assert(rest.push(b)[i] == a);
                }
            },
            None => {},
        }
    }
}

/// Releasing a key bound to a stance toggle puts that toggle's disabled
/// record in the frame queue of an active frame.
pub proof fn lemma_release_enqueues_disabled(
    entries: Seq<InputBinding>,
    pressed: Seq<Key>,
    just_pressed: Seq<Key>,
    just_released: Seq<Key>,
    k: Key,
    kind: ActionKind,
)
    requires
        spec_lookup(entries, k) == Some(kind),
        release_action(kind) is Some,
        just_released.contains(k),
    ensures
        spec_frame_actions(entries, pressed, just_pressed, just_released, true).contains(
            release_action(kind)->0,
        ),
{
    let fr = |kind: ActionKind| release_action(kind);
    let a = release_action(kind)->0;
    lemma_actions_from_contains(entries, just_released, fr, k);
    let rel = release_actions(entries, just_released);
    let i = choose|i: int| 0 <= i < rel.len() && rel[i] == a;
    let press = press_actions(entries, pressed);
    let full = spec_frame_actions(entries, pressed, just_pressed, just_released, true);
    assert(full[press.len() + i] == a);
}

} // verus!
