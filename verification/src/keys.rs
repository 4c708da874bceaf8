//! Physical key identities and the fixed key-to-lattice-point table.
//!
//! Rows of a standard keyboard are staggered by half a column, so the lattice
//! embeds hexagon-style neighbourhoods in the rectangular key grid: from any
//! mapped key, the key above and to the left is one `(0, 1)` step and the key
//! above and to the right is one `(1, 1)` step.  The table is anchored at the
//! home-row key `H = (0, 0)`.  Keys with no musical meaning (the sustain key,
//! modifiers, function keys and the like) have no lattice point.

use vstd::prelude::*;
use crate::points::Point;

verus! {

/// The identity of a physical key on a standard keyboard.
#[derive(Debug, Clone, Copy, PartialEq, Eq, Structural)]
pub enum Key {
    A,
    B,
    C,
    D,
    E,
    F,
    G,
    H,
    I,
    J,
    K,
    L,
    M,
    N,
    O,
    P,
    Q,
    R,
    S,
    T,
    U,
    V,
    W,
    X,
    Y,
    Z,
    Num0,
    Num1,
    Num2,
    Num3,
    Num4,
    Num5,
    Num6,
    Num7,
    Num8,
    Num9,
    Minus,
    Equal,
    LeftBracket,
    RightBracket,
    Semicolon,
    Apostrophe,
    Comma,
    Period,
    Slash,
    Space,
    Escape,
    Enter,
    Tab,
    Backspace,
    LeftShift,
    F1,
    Up,
}

/// The lattice point of a key, or `None` for keys with no musical meaning.
pub open spec fn spec_key_to_point(k: Key) -> Option<Point> {
    match k {
        // Bottom letter row.
        Key::Z => Some(Point(-5i8, -1i8)),
        Key::X => Some(Point(-4i8, -1i8)),
        Key::C => Some(Point(-3i8, -1i8)),
        Key::V => Some(Point(-2i8, -1i8)),
        Key::B => Some(Point(-1i8, -1i8)),
        Key::N => Some(Point(0i8, -1i8)),
        Key::M => Some(Point(1i8, -1i8)),
        Key::Comma => Some(Point(2i8, -1i8)),
        Key::Period => Some(Point(3i8, -1i8)),
        Key::Slash => Some(Point(4i8, -1i8)),
        // Home row.
        Key::A => Some(Point(-5i8, 0i8)),
        Key::S => Some(Point(-4i8, 0i8)),
        Key::D => Some(Point(-3i8, 0i8)),
        Key::F => Some(Point(-2i8, 0i8)),
        Key::G => Some(Point(-1i8, 0i8)),
        Key::H => Some(Point(0i8, 0i8)),
        Key::J => Some(Point(1i8, 0i8)),
        Key::K => Some(Point(2i8, 0i8)),
        Key::L => Some(Point(3i8, 0i8)),
        Key::Semicolon => Some(Point(4i8, 0i8)),
        Key::Apostrophe => Some(Point(5i8, 0i8)),
        // Top letter row.
        Key::Q => Some(Point(-5i8, 1i8)),
        Key::W => Some(Point(-4i8, 1i8)),
        Key::E => Some(Point(-3i8, 1i8)),
        Key::R => Some(Point(-2i8, 1i8)),
        Key::T => Some(Point(-1i8, 1i8)),
        Key::Y => Some(Point(0i8, 1i8)),
        Key::U => Some(Point(1i8, 1i8)),
        Key::I => Some(Point(2i8, 1i8)),
        Key::O => Some(Point(3i8, 1i8)),
        Key::P => Some(Point(4i8, 1i8)),
        Key::LeftBracket => Some(Point(5i8, 1i8)),
        Key::RightBracket => Some(Point(6i8, 1i8)),
        // Number row.
        Key::Num1 => Some(Point(-5i8, 2i8)),
        Key::Num2 => Some(Point(-4i8, 2i8)),
        Key::Num3 => Some(Point(-3i8, 2i8)),
        Key::Num4 => Some(Point(-2i8, 2i8)),
        Key::Num5 => Some(Point(-1i8, 2i8)),
        Key::Num6 => Some(Point(0i8, 2i8)),
        Key::Num7 => Some(Point(1i8, 2i8)),
        Key::Num8 => Some(Point(2i8, 2i8)),
        Key::Num9 => Some(Point(3i8, 2i8)),
        Key::Num0 => Some(Point(4i8, 2i8)),
        Key::Minus => Some(Point(5i8, 2i8)),
        Key::Equal => Some(Point(6i8, 2i8)),
        // Keys with no musical meaning, the sustain key (Space) included.
        Key::Space => None,
        Key::Escape => None,
        Key::Enter => None,
        Key::Tab => None,
        Key::Backspace => None,
        Key::LeftShift => None,
        Key::F1 => None,
        Key::Up => None,
    }
}

/// Looks up the lattice point of a key in the fixed table.
pub fn key_to_point(k: Key) -> (r: Option<Point>)
    ensures
        r == spec_key_to_point(k),
{
    match k {
        Key::Z => Some(Point(-5i8, -1i8)),
        Key::X => Some(Point(-4i8, -1i8)),
        Key::C => Some(Point(-3i8, -1i8)),
        Key::V => Some(Point(-2i8, -1i8)),
        Key::B => Some(Point(-1i8, -1i8)),
        Key::N => Some(Point(0i8, -1i8)),
        Key::M => Some(Point(1i8, -1i8)),
        Key::Comma => Some(Point(2i8, -1i8)),
        Key::Period => Some(Point(3i8, -1i8)),
        Key::Slash => Some(Point(4i8, -1i8)),
        Key::A => Some(Point(-5i8, 0i8)),
        Key::S => Some(Point(-4i8, 0i8)),
        Key::D => Some(Point(-3i8, 0i8)),
        Key::F => Some(Point(-2i8, 0i8)),
        Key::G => Some(Point(-1i8, 0i8)),
        Key::H => Some(Point(0i8, 0i8)),
        Key::J => Some(Point(1i8, 0i8)),
        Key::K => Some(Point(2i8, 0i8)),
        Key::L => Some(Point(3i8, 0i8)),
        Key::Semicolon => Some(Point(4i8, 0i8)),
        Key::Apostrophe => Some(Point(5i8, 0i8)),
        Key::Q => Some(Point(-5i8, 1i8)),
        Key::W => Some(Point(-4i8, 1i8)),
        Key::E => Some(Point(-3i8, 1i8)),
        Key::R => Some(Point(-2i8, 1i8)),
        Key::T => Some(Point(-1i8, 1i8)),
        Key::Y => Some(Point(0i8, 1i8)),
        Key::U => Some(Point(1i8, 1i8)),
        Key::I => Some(Point(2i8, 1i8)),
        Key::O => Some(Point(3i8, 1i8)),
        Key::P => Some(Point(4i8, 1i8)),
        Key::LeftBracket => Some(Point(5i8, 1i8)),
        Key::RightBracket => Some(Point(6i8, 1i8)),
        Key::Num1 => Some(Point(-5i8, 2i8)),
        Key::Num2 => Some(Point(-4i8, 2i8)),
        Key::Num3 => Some(Point(-3i8, 2i8)),
        Key::Num4 => Some(Point(-2i8, 2i8)),
        Key::Num5 => Some(Point(-1i8, 2i8)),
        Key::Num6 => Some(Point(0i8, 2i8)),
        Key::Num7 => Some(Point(1i8, 2i8)),
        Key::Num8 => Some(Point(2i8, 2i8)),
        Key::Num9 => Some(Point(3i8, 2i8)),
        Key::Num0 => Some(Point(4i8, 2i8)),
        Key::Minus => Some(Point(5i8, 2i8)),
        Key::Equal => Some(Point(6i8, 2i8)),
        Key::Space => None,
        Key::Escape => None,
        Key::Enter => None,
        Key::Tab => None,
        Key::Backspace => None,
        Key::LeftShift => None,
        Key::F1 => None,
        Key::Up => None,
    }
}

} // verus!
