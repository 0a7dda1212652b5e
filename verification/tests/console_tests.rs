use game_plugin::actions::{ActionKind, ToggleConsole};
use game_plugin::console::{
    apply_console_key, handle_console_command, handle_key_inputs, handle_toggle_console,
    ConsoleUiState, HandleConsoleCommand,
};
use game_plugin::input::{InputBinding, InputBindings};
use game_plugin::keys::{get_adjusted_user_input, Key};

fn bindings_with_toggle() -> InputBindings {
    InputBindings::from_pairs(vec![InputBinding { key: Key::Grave, binding: ActionKind::ToggleConsole }])
}

#[test]
fn letter_keys_append_their_label() {
    let buffer = String::new();
    let buffer = get_adjusted_user_input(buffer, &Key::A);
    let buffer = get_adjusted_user_input(buffer, &Key::B);
    assert_eq!(buffer, "AB");
}

#[test]
fn backspace_undoes_an_append() {
    let buffer = String::from("AB");
    let buffer = get_adjusted_user_input(buffer, &Key::C);
    let buffer = get_adjusted_user_input(buffer, &Key::Back);
    assert_eq!(buffer, "AB");
}

#[test]
fn backspace_on_empty_buffer_is_a_no_op() {
    let buffer = get_adjusted_user_input(String::new(), &Key::Back);
    assert_eq!(buffer, "");
}

#[test]
fn unprintable_keys_leave_the_buffer_alone() {
    let buffer = get_adjusted_user_input(String::from("AB"), &Key::Space);
    assert_eq!(buffer, "AB");
    let buffer = get_adjusted_user_input(buffer, &Key::Escape);
    assert_eq!(buffer, "AB");
}

#[test]
fn enter_submits_nonempty_buffer_verbatim_and_clears_it() {
    let (buffer, submitted) = apply_console_key(String::from("AB"), &Key::Return, &Key::Grave);
    assert_eq!(buffer, "");
    let cmd = submitted.expect("a non-empty buffer must submit on Enter");
    assert_eq!(cmd.0, "AB");
}

#[test]
fn enter_on_empty_buffer_submits_nothing() {
    let (buffer, submitted) = apply_console_key(String::new(), &Key::Return, &Key::Grave);
    assert_eq!(buffer, "");
    assert!(submitted.is_none());
}

#[test]
fn the_toggle_key_never_edits_the_buffer() {
    let (buffer, submitted) = apply_console_key(String::from("AB"), &Key::Grave, &Key::Grave);
    assert_eq!(buffer, "AB");
    assert!(submitted.is_none());
}

#[test]
fn a_frame_of_typing_accumulates_and_submits() {
    let bindings = bindings_with_toggle();
    let keys = vec![Key::A, Key::B, Key::Grave, Key::Return, Key::C];
    let (buffer, commands) = handle_key_inputs(&bindings, String::new(), &keys, true);
    assert_eq!(buffer, "C");
    assert_eq!(commands.len(), 1);
    assert_eq!(commands[0].0, "AB");
}

#[test]
fn the_fallback_toggle_key_is_skipped_without_a_binding() {
    let bindings = InputBindings::from_pairs(Vec::new());
    let keys = vec![Key::Grave, Key::A];
    let (buffer, commands) = handle_key_inputs(&bindings, String::new(), &keys, true);
    assert_eq!(buffer, "A");
    assert!(commands.is_empty());
}

#[test]
fn without_console_focus_keys_do_not_reach_the_buffer() {
    let bindings = bindings_with_toggle();
    let keys = vec![Key::A, Key::Return];
    let (buffer, commands) = handle_key_inputs(&bindings, String::from("AB"), &keys, false);
    assert_eq!(buffer, "AB");
    assert!(commands.is_empty());
}

#[test]
fn exit_command_is_case_insensitive_and_trimmed() {
    for text in [" Exit ", "exit", "EXIT", "quit", " QUIT "] {
        let outcome = handle_console_command(&HandleConsoleCommand(String::from(text)));
        assert!(outcome.exit.is_some(), "{text:?} must exit");
        assert!(outcome.spawn.is_none());
        assert_eq!(outcome.log.0, "Exiting game...");
    }
}

#[test]
fn spawn_command_spawns_a_cube_actor() {
    for text in ["spawncubeactor", "SpawnCubeActor", "  SPAWNCUBEACTOR  "] {
        let outcome = handle_console_command(&HandleConsoleCommand(String::from(text)));
        assert!(outcome.spawn.is_some(), "{text:?} must spawn");
        assert!(outcome.exit.is_none());
        assert_eq!(outcome.log.0, "Spawning Cube Actor...");
    }
}

#[test]
fn unknown_commands_only_log() {
    let outcome = handle_console_command(&HandleConsoleCommand(String::from("  Fly Mode  ")));
    assert!(outcome.exit.is_none());
    assert!(outcome.spawn.is_none());
    assert_eq!(outcome.log.0, "Unknown command: 'fly mode'");
}

#[test]
fn empty_command_is_unknown() {
    let outcome = handle_console_command(&HandleConsoleCommand(String::from("   ")));
    assert!(outcome.exit.is_none());
    assert!(outcome.spawn.is_none());
    assert_eq!(outcome.log.0, "Unknown command: ''");
}

#[test]
fn toggling_the_console_flips_visibility_and_focus() {
    let mut state = ConsoleUiState { visible: false, focused: false };
    handle_toggle_console(&mut state, &vec![ToggleConsole]);
    assert!(state.visible);
    assert!(state.focused);
    handle_toggle_console(&mut state, &vec![ToggleConsole]);
    assert!(!state.visible);
    assert!(!state.focused);
}

#[test]
fn no_toggle_event_changes_nothing() {
    let mut state = ConsoleUiState { visible: true, focused: true };
    handle_toggle_console(&mut state, &Vec::new());
    assert!(state.visible);
    assert!(state.focused);
}

#[test]
fn two_toggles_in_one_frame_cancel_but_refocus() {
    let mut state = ConsoleUiState { visible: false, focused: true };
    handle_toggle_console(&mut state, &vec![ToggleConsole, ToggleConsole]);
    assert!(!state.visible);
    assert!(!state.focused);
}
