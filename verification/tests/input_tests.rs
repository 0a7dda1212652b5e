use game_plugin::actions::{dispatch_actions, ActionKind, GameAction};
use game_plugin::input::{
    frame_actions, handle_debug_input, handle_game_input, on_update_mouse_movement, FrameInput,
    InputBinding, InputBindings, MouseMotion,
};
use game_plugin::keys::Key;

fn binding(key: Key, binding: ActionKind) -> InputBinding {
    InputBinding { key, binding }
}

fn sample_bindings() -> InputBindings {
    InputBindings::from_pairs(vec![
        binding(Key::W, ActionKind::MoveForward),
        binding(Key::S, ActionKind::MoveBackward),
        binding(Key::A, ActionKind::StrafeLeft),
        binding(Key::D, ActionKind::StrafeRight),
        binding(Key::C, ActionKind::Crouch),
        binding(Key::Space, ActionKind::Jump),
        binding(Key::F, ActionKind::SpawnCubeActor),
        binding(Key::G, ActionKind::SpawnSpectatorCamera),
        binding(Key::Grave, ActionKind::ToggleConsole),
    ])
}

fn frame(pressed: Vec<Key>, just_pressed: Vec<Key>, just_released: Vec<Key>) -> FrameInput {
    FrameInput { pressed, just_pressed, just_released }
}

#[test]
fn lookup_finds_bound_keys_and_nothing_else() {
    let bindings = sample_bindings();
    assert_eq!(bindings.lookup(&Key::W), Some(ActionKind::MoveForward));
    assert_eq!(bindings.lookup(&Key::Space), Some(ActionKind::Jump));
    assert_eq!(bindings.lookup(&Key::Z), None);
}

#[test]
fn a_rebound_key_takes_its_latest_binding() {
    let bindings = InputBindings::from_pairs(vec![
        binding(Key::W, ActionKind::MoveForward),
        binding(Key::W, ActionKind::Jump),
    ]);
    assert_eq!(bindings.lookup(&Key::W), Some(ActionKind::Jump));
}

#[test]
fn console_key_comes_from_the_table() {
    let bindings = InputBindings::from_pairs(vec![
        binding(Key::W, ActionKind::MoveForward),
        binding(Key::Tab, ActionKind::ToggleConsole),
    ]);
    assert_eq!(bindings.console_key(), Key::Tab);
}

#[test]
fn console_key_falls_back_to_grave() {
    let bindings = InputBindings::from_pairs(vec![binding(Key::W, ActionKind::MoveForward)]);
    assert_eq!(bindings.console_key(), Key::Grave);
}

#[test]
fn a_pressed_bound_key_enqueues_exactly_one_record() {
    let bindings = sample_bindings();
    let input = frame(vec![Key::W], Vec::new(), Vec::new());
    let queue = frame_actions(&bindings, &input, true);
    assert_eq!(queue, vec![GameAction::MoveForward(1)]);
}

#[test]
fn each_held_action_maps_to_its_record() {
    let bindings = sample_bindings();
    let input = frame(vec![Key::W, Key::S, Key::A, Key::D, Key::C, Key::Space], Vec::new(), Vec::new());
    let queue = handle_game_input(&bindings, &input, true);
    assert_eq!(
        queue,
        vec![
            GameAction::MoveForward(1),
            GameAction::MoveForward(-1),
            GameAction::StrafeRight(-1),
            GameAction::StrafeRight(1),
            GameAction::Crouch(true),
            GameAction::Jump(true),
        ]
    );
}

#[test]
fn an_unbound_key_enqueues_nothing() {
    let bindings = sample_bindings();
    let input = frame(vec![Key::Z], vec![Key::Z], vec![Key::Z]);
    let queue = frame_actions(&bindings, &input, true);
    assert!(queue.is_empty());
}

#[test]
fn without_an_active_pawn_game_input_is_ignored() {
    let bindings = sample_bindings();
    let input = frame(vec![Key::W], Vec::new(), Vec::new());
    let queue = handle_game_input(&bindings, &input, false);
    assert!(queue.is_empty());
}

#[test]
fn releasing_a_stance_key_enqueues_its_disabled_record() {
    let bindings = sample_bindings();
    let input = frame(Vec::new(), Vec::new(), vec![Key::C, Key::Space]);
    let queue = frame_actions(&bindings, &input, true);
    assert_eq!(queue, vec![GameAction::Crouch(false), GameAction::Jump(false)]);
}

#[test]
fn releasing_a_movement_key_enqueues_nothing() {
    let bindings = sample_bindings();
    let input = frame(Vec::new(), Vec::new(), vec![Key::W]);
    let queue = frame_actions(&bindings, &input, true);
    assert!(queue.is_empty());
}

#[test]
fn debug_actions_fire_on_the_press_edge_whatever_the_mode() {
    let bindings = sample_bindings();
    let input = frame(Vec::new(), vec![Key::F, Key::G, Key::Grave], Vec::new());
    let queue = handle_debug_input(&bindings, &input);
    assert_eq!(
        queue,
        vec![
            GameAction::SpawnCubeActor,
            GameAction::SpawnSpectatorCamera,
            GameAction::ToggleConsole,
        ]
    );
    let whole = frame_actions(&bindings, &input, false);
    assert_eq!(whole, queue);
}

#[test]
fn holding_a_debug_key_does_not_repeat_it() {
    let bindings = sample_bindings();
    let input = frame(vec![Key::F], Vec::new(), Vec::new());
    let queue = frame_actions(&bindings, &input, true);
    assert!(queue.is_empty());
}

#[test]
fn mouse_motion_always_produces_look_actions() {
    let empty = InputBindings::from_pairs(Vec::new());
    let full = sample_bindings();
    let motions = vec![
        MouseMotion { delta_x: 250, delta_y: -125 },
        MouseMotion { delta_x: 0, delta_y: 40 },
    ];
    let expected = vec![
        GameAction::LookUp(-125),
        GameAction::LookRight(250),
        GameAction::LookUp(40),
        GameAction::LookRight(0),
    ];
    assert_eq!(on_update_mouse_movement(&empty, &motions), expected);
    assert_eq!(on_update_mouse_movement(&full, &motions), expected);
}

#[test]
fn dispatch_fans_the_queue_out_by_type() {
    let queue = vec![
        GameAction::LookUp(-125),
        GameAction::LookRight(250),
        GameAction::MoveForward(1),
        GameAction::MoveForward(-1),
        GameAction::StrafeRight(1),
        GameAction::Crouch(true),
        GameAction::Jump(false),
        GameAction::SpawnCubeActor,
        GameAction::SpawnSpectatorCamera,
        GameAction::ToggleConsole,
    ];
    let channels = dispatch_actions(&queue);
    assert_eq!(channels.look_up.len(), 1);
    assert_eq!(channels.look_up[0].0, -125);
    assert_eq!(channels.look_right.len(), 1);
    assert_eq!(channels.look_right[0].0, 250);
    assert_eq!(channels.move_forward.len(), 2);
    assert_eq!(channels.move_forward[0].0, 1);
    assert_eq!(channels.move_forward[1].0, -1);
    assert_eq!(channels.strafe_right.len(), 1);
    assert_eq!(channels.crouch.len(), 1);
    assert!(channels.crouch[0].0);
    assert_eq!(channels.jump.len(), 1);
    assert!(!channels.jump[0].0);
    assert_eq!(channels.spawn_cube_actor.len(), 1);
    assert_eq!(channels.spawn_spectator_camera.len(), 1);
    assert_eq!(channels.toggle_console.len(), 1);
}

#[test]
fn key_names_parse_as_the_configuration_writes_them() {
    assert_eq!(Key::parse("W"), Some(Key::W));
    assert_eq!(Key::parse("Grave"), Some(Key::Grave));
    assert_eq!(Key::parse("Key2"), Some(Key::Key2));
    assert_eq!(Key::parse("NotAKey"), None);
    assert_eq!(Key::parse("w"), None);
}

#[test]
fn action_names_parse_exactly() {
    assert_eq!(ActionKind::parse("MoveForward"), Some(ActionKind::MoveForward));
    assert_eq!(ActionKind::parse("ToggleConsole"), Some(ActionKind::ToggleConsole));
    assert_eq!(ActionKind::parse("moveforward"), None);
    assert_eq!(ActionKind::parse(""), None);
}
