//! Physical key identifiers and the console text edit they cause.
//!
//! The console buffer grows by the printable label of each letter key,
//! shrinks by one character on backspace, and ignores every other key.

use vstd::prelude::*;
use crate::text::str_eq_check;

verus! {

/// A physical key, as the host's input events report it.
#[derive(Clone, Copy, Debug, PartialEq, Eq, Structural, Hash)]
pub enum Key {
    A,
    B,
    C,
    D,
    E,
    F,
    G,
    H,
    I,
    J,
    K,
    L,
    M,
    N,
    O,
    P,
    Q,
    R,
    S,
    T,
    U,
    V,
    W,
    X,
    Y,
    Z,
    Key1,
    Key2,
    Key3,
    Space,
    Tab,
    Escape,
    Back,
    Return,
    Grave,
}

/// The key named by a configuration entry, or `None` for a name this
/// plugin does not handle.
pub open spec fn spec_parse_key(s: Seq<char>) -> Option<Key> {
    if s == "A"@ {
        Some(Key::A)
    } else if s == "B"@ {
        Some(Key::B)
    } else if s == "C"@ {
        Some(Key::C)
    } else if s == "D"@ {
        Some(Key::D)
    } else if s == "E"@ {
        Some(Key::E)
    } else if s == "F"@ {
        Some(Key::F)
    } else if s == "G"@ {
        Some(Key::G)
    } else if s == "H"@ {
        Some(Key::H)
    } else if s == "I"@ {
        Some(Key::I)
    } else if s == "J"@ {
        Some(Key::J)
    } else if s == "K"@ {
        Some(Key::K)
    } else if s == "L"@ {
        Some(Key::L)
    } else if s == "M"@ {
        Some(Key::M)
    } else if s == "N"@ {
        Some(Key::N)
    } else if s == "O"@ {
        Some(Key::O)
    } else if s == "P"@ {
        Some(Key::P)
    } else if s == "Q"@ {
        Some(Key::Q)
    } else if s == "R"@ {
        Some(Key::R)
    } else if s == "S"@ {
        Some(Key::S)
    } else if s == "T"@ {
        Some(Key::T)
    } else if s == "U"@ {
        Some(Key::U)
    } else if s == "V"@ {
        Some(Key::V)
    } else if s == "W"@ {
        Some(Key::W)
    } else if s == "X"@ {
        Some(Key::X)
    } else if s == "Y"@ {
        Some(Key::Y)
    } else if s == "Z"@ {
        Some(Key::Z)
    } else if s == "Key1"@ {
        Some(Key::Key1)
    } else if s == "Key2"@ {
        Some(Key::Key2)
    } else if s == "Key3"@ {
        Some(Key::Key3)
    } else if s == "Space"@ {
        Some(Key::Space)
    } else if s == "Tab"@ {
        Some(Key::Tab)
    } else if s == "Escape"@ {
        Some(Key::Escape)
    } else if s == "Back"@ {
        Some(Key::Back)
    } else if s == "Return"@ {
        Some(Key::Return)
    } else if s == "Grave"@ {
        Some(Key::Grave)
    } else {
        None
    }
}

impl Key {
    /// Parse a key name as it appears in the configuration file.
    pub fn parse(s: &str) -> (r: Option<Key>)
        ensures
            r == spec_parse_key(s@),
    {
        if str_eq_check(s, "A") {
            Some(Key::A)
        } else if str_eq_check(s, "B") {
            Some(Key::B)
        } else if str_eq_check(s, "C") {
            Some(Key::C)
        } else if str_eq_check(s, "D") {
            Some(Key::D)
        } else if str_eq_check(s, "E") {
            Some(Key::E)
        } else if str_eq_check(s, "F") {
            Some(Key::F)
        } else if str_eq_check(s, "G") {
            Some(Key::G)
        } else if str_eq_check(s, "H") {
            Some(Key::H)
        } else if str_eq_check(s, "I") {
            Some(Key::I)
        } else if str_eq_check(s, "J") {
            Some(Key::J)
        } else if str_eq_check(s, "K") {
            Some(Key::K)
        } else if str_eq_check(s, "L") {
            Some(Key::L)
        } else if str_eq_check(s, "M") {
            Some(Key::M)
        } else if str_eq_check(s, "N") {
            Some(Key::N)
        } else if str_eq_check(s, "O") {
            Some(Key::O)
        } else if str_eq_check(s, "P") {
            Some(Key::P)
        } else if str_eq_check(s, "Q") {
            Some(Key::Q)
        } else if str_eq_check(s, "R") {
            Some(Key::R)
        } else if str_eq_check(s, "S") {
            Some(Key::S)
        } else if str_eq_check(s, "T") {
            Some(Key::T)
        } else if str_eq_check(s, "U") {
            Some(Key::U)
        } else if str_eq_check(s, "V") {
            Some(Key::V)
        } else if str_eq_check(s, "W") {
            Some(Key::W)
        } else if str_eq_check(s, "X") {
            Some(Key::X)
        } else if str_eq_check(s, "Y") {
            Some(Key::Y)
        } else if str_eq_check(s, "Z") {
            Some(Key::Z)
        } else if str_eq_check(s, "Key1") {
            Some(Key::Key1)
        } else if str_eq_check(s, "Key2") {
            Some(Key::Key2)
        } else if str_eq_check(s, "Key3") {
            Some(Key::Key3)
        } else if str_eq_check(s, "Space") {
            Some(Key::Space)
        } else if str_eq_check(s, "Tab") {
            Some(Key::Tab)
        } else if str_eq_check(s, "Escape") {
            Some(Key::Escape)
        } else if str_eq_check(s, "Back") {
            Some(Key::Back)
        } else if str_eq_check(s, "Return") {
            Some(Key::Return)
        } else if str_eq_check(s, "Grave") {
            Some(Key::Grave)
        } else {
            None
        }
    }
}

/// The printable character a key appends to the console buffer, if any.
pub open spec fn key_char(key: Key) -> Option<char> {
    match key {
        Key::A => Some('A'),
        Key::B => Some('B'),
        Key::C => Some('C'),
        Key::D => Some('D'),
        Key::E => Some('E'),
        Key::F => Some('F'),
        Key::G => Some('G'),
        Key::H => Some('H'),
        Key::I => Some('I'),
        Key::J => Some('J'),
        Key::K => Some('K'),
        Key::L => Some('L'),
        Key::M => Some('M'),
        Key::N => Some('N'),
        Key::O => Some('O'),
        Key::P => Some('P'),
        Key::Q => Some('Q'),
        Key::R => Some('R'),
        Key::S => Some('S'),
        Key::T => Some('T'),
        Key::U => Some('U'),
        Key::V => Some('V'),
        Key::W => Some('W'),
        Key::X => Some('X'),
        Key::Y => Some('Y'),
        Key::Z => Some('Z'),
        _ => None,
    }
}

/// What one key does to the console buffer: backspace drops the last
/// character (a no-op on an empty buffer), a letter key appends its label,
/// and any other key leaves the buffer unchanged.
pub open spec fn adjusted_input(s: Seq<char>, key: Key) -> Seq<char> {
    if key == Key::Back {
        if s.len() == 0 {
            s
        } else {
            s.drop_last()
        }
    } else {
        match key_char(key) {
            Some(c) => s.push(c),
            None => s,
        }
    }
}

/// The one-character label of a letter key, or `None` for any other key.
pub fn key_label(key: &Key) -> (r: Option<&'static str>)
    ensures
        match key_char(*key) {
            Some(c) => r matches Some(s) && s@.len() == 1 && s@[0] == c,
            None => r is None,
        },
{
    proof {
        reveal_strlit("A");
        reveal_strlit("B");
        reveal_strlit("C");
        reveal_strlit("D");
        reveal_strlit("E");
        reveal_strlit("F");
        reveal_strlit("G");
        reveal_strlit("H");
        reveal_strlit("I");
        reveal_strlit("J");
        reveal_strlit("K");
        reveal_strlit("L");
        reveal_strlit("M");
        reveal_strlit("N");
        reveal_strlit("O");
        reveal_strlit("P");
        reveal_strlit("Q");
        reveal_strlit("R");
        reveal_strlit("S");
        reveal_strlit("T");
        reveal_strlit("U");
        reveal_strlit("V");
        reveal_strlit("W");
        reveal_strlit("X");
        reveal_strlit("Y");
        reveal_strlit("Z");
    }
    match key {
        Key::A => Some("A"),
        Key::B => Some("B"),
        Key::C => Some("C"),
        Key::D => Some("D"),
        Key::E => Some("E"),
        Key::F => Some("F"),
        Key::G => Some("G"),
        Key::H => Some("H"),
        Key::I => Some("I"),
        Key::J => Some("J"),
        Key::K => Some("K"),
        Key::L => Some("L"),
        Key::M => Some("M"),
        Key::N => Some("N"),
        Key::O => Some("O"),
        Key::P => Some("P"),
        Key::Q => Some("Q"),
        Key::R => Some("R"),
        Key::S => Some("S"),
        Key::T => Some("T"),
        Key::U => Some("U"),
        Key::V => Some("V"),
        Key::W => Some("W"),
        Key::X => Some("X"),
        Key::Y => Some("Y"),
        Key::Z => Some("Z"),
        _ => None,
    }
}

/// Apply one key press to the console buffer.
pub fn get_adjusted_user_input(old_value: String, key: &Key) -> (r: String)
    ensures
        r@ == adjusted_input(old_value@, *key),
{
    match key {
        Key::Back => {
            let n = old_value.as_str().unicode_len();
            if n == 0 {
                old_value
            } else {
                let r = old_value.as_str().substring_char(0, n - 1).to_owned();
                proof {
                    assert(r@ =~= old_value@.drop_last());
                }
                r
            }
        },
        _ => {
            match key_label(key) {
                Some(label) => {
                    let ghost c = key_char(*key)->0;
                    let r = old_value.concat(label);
                    proof {
                        assert(r@ =~= old_value@.push(c));
                    }
                    r
                },
                None => old_value,
            }
        },
    }
}

/// Appending a letter and then pressing backspace restores the buffer.
pub proof fn lemma_backspace_inverse(s: Seq<char>, key: Key)
    requires
        key_char(key) is Some,
    ensures
        adjusted_input(adjusted_input(s, key), Key::Back) == s,
{
    let c = key_char(key)->0;
    assert(adjusted_input(s, key) == s.push(c));
    assert(s.push(c).drop_last() =~= s);
}

/// Backspace on an empty buffer is a no-op: nothing underflows.
pub proof fn lemma_backspace_on_empty(s: Seq<char>)
    requires
        s.len() == 0,
    ensures
        adjusted_input(s, Key::Back) == s,
{
}

} // verus!
