//! An experimental spawn-event table: number keys broadcast spawn events
//! for listeners to react to.

use vstd::prelude::*;
use crate::keys::Key;

verus! {

/// The event types the experimental table can broadcast.
#[derive(Clone, Copy, Debug, PartialEq, Eq, Structural)]
#[allow(non_camel_case_types)]
pub enum MyEventType {
    SPAWN_CUBE,
    SPAWN_SPHERE,
    SPAWN_CAPSULE,
}

/// One broadcast experimental event.
#[derive(Clone, Copy, Debug, PartialEq, Eq, Structural)]
pub struct MyGameEvent(pub MyEventType);

/// The fixed table from number keys to spawn events.
pub open spec fn spec_game_events() -> Seq<(Key, MyEventType)> {
    seq![
        (Key::Key1, MyEventType::SPAWN_CUBE),
        (Key::Key2, MyEventType::SPAWN_SPHERE),
        (Key::Key3, MyEventType::SPAWN_CAPSULE),
    ]
}

/// Build the experimental binding table.
pub fn get_game_events() -> (r: Vec<(Key, MyEventType)>)
    ensures
        r@ == spec_game_events(),
{
    let mut v: Vec<(Key, MyEventType)> = Vec::new();
    v.push((Key::Key1, MyEventType::SPAWN_CUBE));
    v.push((Key::Key2, MyEventType::SPAWN_SPHERE));
    v.push((Key::Key3, MyEventType::SPAWN_CAPSULE));
    proof {
        assert(v@ =~= spec_game_events());
    }
    v
}

/// The event bound to a key: as in the binding table, the latest entry
/// for a key decides.
pub open spec fn spec_event_lookup(table: Seq<(Key, MyEventType)>, key: Key) -> Option<MyEventType>
    decreases table.len(),
{
    if table.len() == 0 {
        None
    } else if table.last().0 == key {
        Some(table.last().1)
    } else {
        spec_event_lookup(table.drop_last(), key)
    }
}

/// The experimental events one frame broadcasts: each newly-pressed key
/// in the table fires its event, in key order.
pub open spec fn spec_events_for(table: Seq<(Key, MyEventType)>, just_pressed: Seq<Key>) -> Seq<
    MyGameEvent,
>
    decreases just_pressed.len(),
{
    if just_pressed.len() == 0 {
        Seq::empty()
    } else {
        let rest = spec_events_for(table, just_pressed.drop_last());
        match spec_event_lookup(table, just_pressed.last()) {
            Some(t) => rest.push(MyGameEvent(t)),
            None => rest,
        }
    }
}

fn event_lookup(table: &Vec<(Key, MyEventType)>, key: &Key) -> (r: Option<MyEventType>)
    ensures
        r == spec_event_lookup(table@, *key),
{
    let n = table.len();
    let mut i: usize = n;
    proof {
        assert(table@.take(n as int) =~= table@);
    }
    while i > 0
        invariant
            i <= n,
            n == table@.len(),
            spec_event_lookup(table@, *key) == spec_event_lookup(table@.take(i as int), *key),
        decreases i,
    {
        i -= 1;
        let entry = table[i];
        proof {
            assert(table@.take(i + 1).last() == table@[i as int]);
            assert(table@.take(i + 1).drop_last() =~= table@.take(i as int));
        }
        if entry.0 == *key {
            return Some(entry.1);
        }
    }
    None
}

/// Publish the experimental events for one frame's newly-pressed keys.
pub fn handle_inputs(table: &Vec<(Key, MyEventType)>, just_pressed: &Vec<Key>) -> (r: Vec<
    MyGameEvent,
>)
    ensures
        r@ == spec_events_for(table@, just_pressed@),
{
    let n = just_pressed.len();
    let mut events: Vec<MyGameEvent> = Vec::new();
    let mut i: usize = 0;
    while i < n
        invariant
            i <= n,
            n == just_pressed@.len(),
            events@ == spec_events_for(table@, just_pressed@.take(i as int)),
        decreases n - i,
    {
        proof {
            assert(just_pressed@.take(i + 1).drop_last() =~= just_pressed@.take(i as int));
            assert(just_pressed@.take(i + 1).last() == just_pressed@[i as int]);
        }
        if let Some(t) = event_lookup(table, &just_pressed[i]) {
            events.push(MyGameEvent(t));
        }
        i += 1;
    }
    proof {
        assert(just_pressed@.take(n as int) =~= just_pressed@);
    }
    events
}

} // verus!
