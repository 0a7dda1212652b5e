use game_plugin::actions::SpawnCubeActor;
use game_plugin::experimental::{get_game_events, handle_inputs, MyEventType};
use game_plugin::keys::Key;
use game_plugin::player::spawn_cube_actor_listener;
use game_plugin::logging::{get_timestamp, log, log_line, LogLevel};
use game_plugin::random_color::{get_random_color, palette_color, ActorColor};

#[test]
fn log_lines_are_composed_exactly() {
    let line = log_line(LogLevel::Info, "TS", "MyType", "hello");
    assert_eq!(line, "*** [TS] INFO\t- MyType - hello");
    let line = log_line(LogLevel::Error, "2021-01-01T00:00:00.000+00:00", "a::b::C", "boom");
    assert_eq!(line, "*** [2021-01-01T00:00:00.000+00:00] ERROR\t- a::b::C - boom");
}

#[test]
fn every_severity_prints_its_label() {
    assert_eq!(LogLevel::Debug.label(), "DEBUG");
    assert_eq!(LogLevel::Info.label(), "INFO");
    assert_eq!(LogLevel::Warn.label(), "WARN");
    assert_eq!(LogLevel::Error.label(), "ERROR");
}

#[test]
fn timestamps_are_rfc3339_with_numeric_offset() {
    let ts = get_timestamp();
    assert!(ts.len() >= 20, "timestamp too short: {ts:?}");
    assert_eq!(&ts[4..5], "-");
    assert_eq!(&ts[10..11], "T");
    assert!(ts.ends_with("+00:00"), "no numeric UTC offset: {ts:?}");
    assert!(!ts.contains('Z'));
}

#[test]
fn stamped_log_lines_carry_the_message() {
    let line = log(LogLevel::Warn, "Mover", "too fast");
    assert!(line.starts_with("*** ["));
    assert!(line.ends_with("] WARN\t- Mover - too fast"));
}

#[test]
fn the_palette_is_indexed_in_order() {
    assert_eq!(palette_color(0), ActorColor::Blue);
    assert_eq!(palette_color(5), ActorColor::Yellow);
    assert_eq!(palette_color(12), ActorColor::OrangeRed);
}

#[test]
fn random_colors_come_from_the_palette() {
    for _ in 0..64 {
        // every variant is a palette entry; the call must simply succeed
        let _ = get_random_color();
    }
}

#[test]
fn one_cube_actor_spawns_per_request() {
    let colors = spawn_cube_actor_listener(&vec![SpawnCubeActor, SpawnCubeActor, SpawnCubeActor]);
    assert_eq!(colors.len(), 3);
    assert!(spawn_cube_actor_listener(&Vec::new()).is_empty());
}

#[test]
fn the_experimental_table_binds_the_number_keys() {
    let table = get_game_events();
    assert_eq!(
        table,
        vec![
            (Key::Key1, MyEventType::SPAWN_CUBE),
            (Key::Key2, MyEventType::SPAWN_SPHERE),
            (Key::Key3, MyEventType::SPAWN_CAPSULE),
        ]
    );
}

#[test]
fn experimental_events_fire_for_bound_keys_only() {
    let table = get_game_events();
    let events = handle_inputs(&table, &vec![Key::Key3, Key::W, Key::Key1]);
    assert_eq!(events.len(), 2);
    assert_eq!(events[0].0, MyEventType::SPAWN_CAPSULE);
    assert_eq!(events[1].0, MyEventType::SPAWN_CUBE);
}
