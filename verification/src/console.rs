//! The debug console: a visibility toggle, a single text buffer fed by key
//! presses, and a small case-insensitive command interpreter.

use vstd::prelude::*;
use crate::actions::{ExitGame, SpawnCubeActor, ToggleConsole};
use crate::input::{spec_console_key, InputBindings};
use crate::keys::{adjusted_input, get_adjusted_user_input, Key};
use crate::text::{normalize_command, normalized, str_eq_check};

verus! {

/// A line to append to the console's scrolling log.
#[derive(Debug, Clone)]
pub struct LogToConsole(pub String);

/// A submitted command, carrying the buffer contents verbatim.
#[derive(Debug, Clone)]
pub struct HandleConsoleCommand(pub String);

/// A command echoed back for the UI to render.
#[derive(Debug, Clone)]
pub struct RenderConsoleCommand(pub String);

/// Marker for when the player is focused on the console, so gameplay
/// should not consume their inputs.
#[derive(Clone, Copy, Debug, PartialEq, Eq, Structural)]
pub struct IsFocusedOnUI;

impl View for LogToConsole {
    type V = Seq<char>;

    open spec fn view(&self) -> Seq<char> {
        self.0@
    }
}

impl View for HandleConsoleCommand {
    type V = Seq<char>;

    open spec fn view(&self) -> Seq<char> {
        self.0@
    }
}

impl View for RenderConsoleCommand {
    type V = Seq<char>;

    open spec fn view(&self) -> Seq<char> {
        self.0@
    }
}

/// What the console window shows, and whether the player's inputs go to
/// it rather than to the pawn.
#[derive(Clone, Copy, Debug, PartialEq, Eq, Structural)]
pub struct ConsoleUiState {
    pub visible: bool,
    pub focused: bool,
}

/// Toggle console visibility once per queued toggle event: the window
/// flips and input focus follows it. Without an event, nothing changes.
pub fn handle_toggle_console(state: &mut ConsoleUiState, toggles: &Vec<ToggleConsole>)
    ensures
        toggles@.len() == 0 ==> *final(state) == *old(state),
        toggles@.len() > 0 ==> final(state).visible == (old(state).visible == (toggles@.len() % 2
            == 0)) && final(state).focused == final(state).visible,
{
    let n = toggles.len();
    let mut i: usize = 0;
    while i < n
        invariant
            i <= n,
            i == 0 ==> *state == *old(state),
            i > 0 ==> state.visible == (old(state).visible == (i % 2 == 0)) && state.focused
                == state.visible,
        decreases n - i,
    {
        let is_visible = !state.visible;
        state.visible = is_visible;
        state.focused = is_visible;
        i += 1;
    }
}

/// What one key press does to the focused console: the toggle key is
/// ignored here, Enter submits a non-empty buffer and clears it, and any
/// other key edits the buffer.
pub open spec fn console_step(buffer: Seq<char>, key: Key, console_key: Key) -> (
    Seq<char>,
    Option<Seq<char>>,
) {
    if key == console_key {
        (buffer, None)
    } else if key == Key::Return && buffer.len() > 0 {
        (Seq::<char>::empty(), Some(buffer))
    } else {
        (adjusted_input(buffer, key), None)
    }
}

/// Apply one key press to the console buffer, emitting the submitted
/// command when there is one.
pub fn apply_console_key(
    buffer: String,
    key: &Key,
    console_key: &Key,
) -> (r: (String, Option<HandleConsoleCommand>))
    ensures
        r.0@ == console_step(buffer@, *key, *console_key).0,
        (match console_step(buffer@, *key, *console_key).1 {
            Some(cmd) => r.1 matches Some(c) && c@ == cmd,
            None => r.1 is None,
        }),
{
    if *key == *console_key {
        (buffer, None)
    } else if matches!(key, Key::Return) && !buffer.as_str().is_empty() {
        (String::new(), Some(HandleConsoleCommand(buffer)))
    } else {
        (get_adjusted_user_input(buffer, key), None)
    }
}

/// The buffer and the submitted commands after a frame's key presses, in
/// order.
pub open spec fn console_steps(buffer: Seq<char>, keys: Seq<Key>, console_key: Key) -> (
    Seq<char>,
    Seq<Seq<char>>,
)
    decreases keys.len(),
{
    if keys.len() == 0 {
        (buffer, Seq::<Seq<char>>::empty())
    } else {
        let prev = console_steps(buffer, keys.drop_last(), console_key);
        let step = console_step(prev.0, keys.last(), console_key);
        (
            step.0,
            match step.1 {
                Some(cmd) => prev.1.push(cmd),
                None => prev.1,
            },
        )
    }
}

/// Feed one frame's newly-pressed keys into the console buffer. While no
/// pawn is focused on the console the keys belong to gameplay and the
/// buffer stays as it is. The configured toggle key never edits the
/// buffer; each Enter on a non-empty buffer submits one command.
pub fn handle_key_inputs(
    input_bindings: &InputBindings,
    buffer: String,
    just_pressed: &Vec<Key>,
    focused: bool,
) -> (r: (String, Vec<HandleConsoleCommand>))
    ensures
        focused ==> r.0@ == console_steps(buffer@, just_pressed@, spec_console_key(input_bindings@)).0,
        focused ==> r.1@.map_values(|c: HandleConsoleCommand| c@) == console_steps(
            buffer@,
            just_pressed@,
            spec_console_key(input_bindings@),
        ).1,
        !focused ==> r.0@ == buffer@ && r.1@.len() == 0,
{
    if !focused {
        return (buffer, Vec::new());
    }
    let console_key = input_bindings.console_key();
    let ghost ck = spec_console_key(input_bindings@);
    let n = just_pressed.len();
    let mut buf = buffer;
    let mut commands: Vec<HandleConsoleCommand> = Vec::new();
    let ghost buffer0 = buf@;
    let mut i: usize = 0;
    proof {
        assert(commands@.map_values(|c: HandleConsoleCommand| c@) =~= Seq::<Seq<char>>::empty());
    }
    while i < n
        invariant
            i <= n,
            n == just_pressed@.len(),
            ck == spec_console_key(input_bindings@),
            console_key == ck,
            buf@ == console_steps(buffer0, just_pressed@.take(i as int), ck).0,
            commands@.map_values(|c: HandleConsoleCommand| c@) == console_steps(
                buffer0,
                just_pressed@.take(i as int),
                ck,
            ).1,
        decreases n - i,
    {
        proof {
            assert(just_pressed@.take(i + 1).drop_last() =~= just_pressed@.take(i as int));
            assert(just_pressed@.take(i + 1).last() == just_pressed@[i as int]);
        }
        let (next, submitted) = apply_console_key(buf, &just_pressed[i], &console_key);
        buf = next;
        if let Some(cmd) = submitted {
            let ghost prev = commands@;
            let ghost cmd_view = cmd@;
            commands.push(cmd);
            proof {
                assert(commands@.map_values(|c: HandleConsoleCommand| c@) =~= prev.map_values(
                    |c: HandleConsoleCommand| c@,
                ).push(cmd_view));
            }
        }
        i += 1;
    }
    proof {
        assert(just_pressed@.take(n as int) =~= just_pressed@);
    }
    (buf, commands)
}

/// The commands that quit the game, after normalization.
pub open spec fn spec_is_exit(cmd: Seq<char>) -> bool {
    normalized(cmd) == "exit"@ || normalized(cmd) == "quit"@
}

/// The command that spawns a cube actor, after normalization.
pub open spec fn spec_is_spawn_cube(cmd: Seq<char>) -> bool {
    normalized(cmd) == "spawncubeactor"@
}

/// The log line a command produces: an acknowledgement for a known verb,
/// otherwise the unknown-command fallback naming the normalized input.
pub open spec fn spec_command_log(cmd: Seq<char>) -> Seq<char> {
    if spec_is_exit(cmd) {
        "Exiting game..."@
    } else if spec_is_spawn_cube(cmd) {
        "Spawning Cube Actor..."@
    } else {
        "Unknown command: '"@ + normalized(cmd) + "'"@
    }
}

/// Everything one console command causes: one log line, and the exit or
/// spawn event it fires, if any.
#[derive(Debug, Clone)]
pub struct CommandOutcome {
    pub log: LogToConsole,
    pub exit: Option<ExitGame>,
    pub spawn: Option<SpawnCubeActor>,
}

/// Interpret one submitted command: dispatch is case-insensitive and
/// whitespace-trimmed, an unknown command only logs, and exactly the
/// matching verb's event fires.
pub fn handle_console_command(command: &HandleConsoleCommand) -> (r: CommandOutcome)
    ensures
        r.log@ == spec_command_log(command@),
        r.exit is Some <==> spec_is_exit(command@),
        r.spawn is Some <==> spec_is_spawn_cube(command@),
{
    proof {
        reveal_strlit("exit");
        reveal_strlit("quit");
        reveal_strlit("spawncubeactor");
        assert("exit"@.len() != "spawncubeactor"@.len());
        assert("quit"@.len() != "spawncubeactor"@.len());
    }
    let as_lower = normalize_command(command.0.as_str());
    if str_eq_check(as_lower.as_str(), "exit") || str_eq_check(as_lower.as_str(), "quit") {
        CommandOutcome {
            log: LogToConsole(String::from_str("Exiting game...")),
            exit: Some(ExitGame),
            spawn: None,
        }
    } else if str_eq_check(as_lower.as_str(), "spawncubeactor") {
        CommandOutcome {
            log: LogToConsole(String::from_str("Spawning Cube Actor...")),
            exit: None,
            spawn: Some(SpawnCubeActor),
        }
    } else {
        let mut message = String::from_str("Unknown command: '");
        message.append(as_lower.as_str());
        message.append("'");
        CommandOutcome { log: LogToConsole(message), exit: None, spawn: None }
    }
}

/// Submitting a non-empty buffer on Enter clears the buffer and emits
/// exactly one command holding the prior contents verbatim.
pub proof fn lemma_enter_submits(buffer: Seq<char>, console_key: Key)
    requires
        buffer.len() > 0,
        console_key != Key::Return,
    ensures
        console_step(buffer, Key::Return, console_key).0 == Seq::<char>::empty(),
        console_step(buffer, Key::Return, console_key).1 == Some(buffer),
{
}

/// Command dispatch sees only the normal form: two commands with the same
/// trimmed, lowercased text share one outcome.
pub proof fn lemma_dispatch_same_normal_form(c1: Seq<char>, c2: Seq<char>)
    requires
        normalized(c1) == normalized(c2),
    ensures
        spec_is_exit(c1) == spec_is_exit(c2),
        spec_is_spawn_cube(c1) == spec_is_spawn_cube(c2),
        spec_command_log(c1) == spec_command_log(c2),
{
}

/// Dispatching the normal form itself changes nothing: normalization is
/// idempotent.
pub proof fn lemma_dispatch_normal_form(cmd: Seq<char>)
    ensures
        spec_is_exit(normalized(cmd)) == spec_is_exit(cmd),
        spec_is_spawn_cube(normalized(cmd)) == spec_is_spawn_cube(cmd),
        spec_command_log(normalized(cmd)) == spec_command_log(cmd),
{
    crate::text::lemma_normalized_idempotent(cmd);
}

} // verus!
