//! A random pick from the fixed palette that spawned actors are tinted
//! with. The host's renderer owns the numeric color values; this module
//! owns which named color is drawn.

use vstd::prelude::*;

verus! {

/// The fixed palette a spawned actor's color is drawn from.
#[derive(Clone, Copy, Debug, PartialEq, Eq, Structural)]
pub enum ActorColor {
    Blue,
    Green,
    Red,
    Pink,
    Purple,
    Yellow,
    YellowGreen,
    Beige,
    Indigo,
    Maroon,
    SeaGreen,
    Orange,
    OrangeRed,
}

/// The palette in its fixed order.
pub open spec fn spec_palette() -> Seq<ActorColor> {
    seq![
        ActorColor::Blue,
        ActorColor::Green,
        ActorColor::Red,
        ActorColor::Pink,
        ActorColor::Purple,
        ActorColor::Yellow,
        ActorColor::YellowGreen,
        ActorColor::Beige,
        ActorColor::Indigo,
        ActorColor::Maroon,
        ActorColor::SeaGreen,
        ActorColor::Orange,
        ActorColor::OrangeRed,
    ]
}

/// Whether a color is an entry of the palette.
pub open spec fn in_palette(c: ActorColor) -> bool {
    exists|i: int| 0 <= i < spec_palette().len() && c == spec_palette()[i]
}

/// Relies on `rand::random`: a value drawn from the thread-local
/// generator. Nothing holds of which one comes back.
pub assume_specification<T>[ rand::random::<T> ]() -> (r: T)
    where
        rand::distributions::Standard: rand::distributions::Distribution<T>,
;

/// The palette color at an index.
pub fn palette_color(index: usize) -> (c: ActorColor)
    requires
        index < 13,
    ensures
        c == spec_palette()[index as int],
{
    if index == 0 {
        ActorColor::Blue
    } else if index == 1 {
        ActorColor::Green
    } else if index == 2 {
        ActorColor::Red
    } else if index == 3 {
        ActorColor::Pink
    } else if index == 4 {
        ActorColor::Purple
    } else if index == 5 {
        ActorColor::Yellow
    } else if index == 6 {
        ActorColor::YellowGreen
    } else if index == 7 {
        ActorColor::Beige
    } else if index == 8 {
        ActorColor::Indigo
    } else if index == 9 {
        ActorColor::Maroon
    } else if index == 10 {
        ActorColor::SeaGreen
    } else if index == 11 {
        ActorColor::Orange
    } else {
        ActorColor::OrangeRed
    }
}

/// Draw a random color: whatever the generator returned, the result is an
/// entry of the palette.
pub fn get_random_color() -> (c: ActorColor)
    ensures
        in_palette(c),
{
    let r: u32 = rand::random();
    let index = (r % 13) as usize;
    let c = palette_color(index);
    proof {
        assert(in_palette(c)) by {
            assert(c == spec_palette()[index as int]);
        }
    }
    c
}

} // verus!
