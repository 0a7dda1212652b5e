//! First-person sandbox game plugin: input-to-action mapping, a debug console
//! with a small command interpreter, and helpers for log formatting and actor
//! colors. The engine-facing glue (scheduling, rendering, physics) lives
//! outside this crate; here stand the rules it follows, stated and proved.

pub mod actions;
pub mod console;
pub mod experimental;
pub mod input;
pub mod keys;
pub mod logging;
pub mod player;
pub mod random_color;
pub mod text;
