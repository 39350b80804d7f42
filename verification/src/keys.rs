//! Domain key identifiers and the fixed translation table between them and
//! the kernel's numeric key codes.
//!
//! The capture path normalizes raw key records through [`Key::from_code`];
//! the emission path turns a [`Key`] back into its code with [`Key::value`].
//! The two directions are proved inverse to each other.

use vstd::prelude::*;

verus! {

/// A key on the physical keyboard, identified independently of the raw code.
#[derive(Clone, Copy, PartialEq, Eq, Structural, Debug)]
pub enum Key {
    Esc,
    Num1,
    Num2,
    Num3,
    Num4,
    Num5,
    Num6,
    Num7,
    Num8,
    Num9,
    Num0,
    Backspace,
    Tab,
    Q,
    W,
    E,
    R,
    T,
    Y,
    U,
    I,
    O,
    P,
    Enter,
    LeftCtrl,
    A,
    S,
    D,
    F,
    G,
    H,
    J,
    K,
    L,
    LeftShift,
    Z,
    X,
    C,
    V,
    B,
    N,
    M,
    RightShift,
    LeftAlt,
    Space,
    CapsLock,
    Up,
    Left,
    Right,
    Down,
}

/// The kernel key code that stands for `k`.
pub open spec fn spec_key_code(k: Key) -> u16 {
    match k {
        Key::Esc => 1,
        Key::Num1 => 2,
        Key::Num2 => 3,
        Key::Num3 => 4,
        Key::Num4 => 5,
        Key::Num5 => 6,
        Key::Num6 => 7,
        Key::Num7 => 8,
        Key::Num8 => 9,
        Key::Num9 => 10,
        Key::Num0 => 11,
        Key::Backspace => 14,
        Key::Tab => 15,
        Key::Q => 16,
        Key::W => 17,
        Key::E => 18,
        Key::R => 19,
        Key::T => 20,
        Key::Y => 21,
        Key::U => 22,
        Key::I => 23,
        Key::O => 24,
        Key::P => 25,
        Key::Enter => 28,
        Key::LeftCtrl => 29,
        Key::A => 30,
        Key::S => 31,
        Key::D => 32,
        Key::F => 33,
        Key::G => 34,
        Key::H => 35,
        Key::J => 36,
        Key::K => 37,
        Key::L => 38,
        Key::LeftShift => 42,
        Key::Z => 44,
        Key::X => 45,
        Key::C => 46,
        Key::V => 47,
        Key::B => 48,
        Key::N => 49,
        Key::M => 50,
        Key::RightShift => 54,
        Key::LeftAlt => 56,
        Key::Space => 57,
        Key::CapsLock => 58,
        Key::Up => 103,
        Key::Left => 105,
        Key::Right => 106,
        Key::Down => 108,
    }
}

/// The key that the code `c` stands for, if the table knows it.
pub open spec fn spec_key_from_code(c: u16) -> Option<Key> {
    if c == 1 { Some(Key::Esc) }
    else if c == 2 { Some(Key::Num1) }
    else if c == 3 { Some(Key::Num2) }
    else if c == 4 { Some(Key::Num3) }
    else if c == 5 { Some(Key::Num4) }
    else if c == 6 { Some(Key::Num5) }
    else if c == 7 { Some(Key::Num6) }
    else if c == 8 { Some(Key::Num7) }
    else if c == 9 { Some(Key::Num8) }
    else if c == 10 { Some(Key::Num9) }
    else if c == 11 { Some(Key::Num0) }
    else if c == 14 { Some(Key::Backspace) }
    else if c == 15 { Some(Key::Tab) }
    else if c == 16 { Some(Key::Q) }
    else if c == 17 { Some(Key::W) }
    else if c == 18 { Some(Key::E) }
    else if c == 19 { Some(Key::R) }
    else if c == 20 { Some(Key::T) }
    else if c == 21 { Some(Key::Y) }
    else if c == 22 { Some(Key::U) }
    else if c == 23 { Some(Key::I) }
    else if c == 24 { Some(Key::O) }
    else if c == 25 { Some(Key::P) }
    else if c == 28 { Some(Key::Enter) }
    else if c == 29 { Some(Key::LeftCtrl) }
    else if c == 30 { Some(Key::A) }
    else if c == 31 { Some(Key::S) }
    else if c == 32 { Some(Key::D) }
    else if c == 33 { Some(Key::F) }
    else if c == 34 { Some(Key::G) }
    else if c == 35 { Some(Key::H) }
    else if c == 36 { Some(Key::J) }
    else if c == 37 { Some(Key::K) }
    else if c == 38 { Some(Key::L) }
    else if c == 42 { Some(Key::LeftShift) }
    else if c == 44 { Some(Key::Z) }
    else if c == 45 { Some(Key::X) }
    else if c == 46 { Some(Key::C) }
    else if c == 47 { Some(Key::V) }
    else if c == 48 { Some(Key::B) }
    else if c == 49 { Some(Key::N) }
    else if c == 50 { Some(Key::M) }
    else if c == 54 { Some(Key::RightShift) }
    else if c == 56 { Some(Key::LeftAlt) }
    else if c == 57 { Some(Key::Space) }
    else if c == 58 { Some(Key::CapsLock) }
    else if c == 103 { Some(Key::Up) }
    else if c == 105 { Some(Key::Left) }
    else if c == 106 { Some(Key::Right) }
    else if c == 108 { Some(Key::Down) }
    else { None }
}

impl Key {
    /// The kernel key code that this key is emitted and captured as.
    pub fn value(self) -> (c: u16)
        ensures
            c == spec_key_code(self),
    {
        match self {
            Key::Esc => 1,
            Key::Num1 => 2,
            Key::Num2 => 3,
            Key::Num3 => 4,
            Key::Num4 => 5,
            Key::Num5 => 6,
            Key::Num6 => 7,
            Key::Num7 => 8,
            Key::Num8 => 9,
            Key::Num9 => 10,
            Key::Num0 => 11,
            Key::Backspace => 14,
            Key::Tab => 15,
            Key::Q => 16,
            Key::W => 17,
            Key::E => 18,
            Key::R => 19,
            Key::T => 20,
            Key::Y => 21,
            Key::U => 22,
            Key::I => 23,
            Key::O => 24,
            Key::P => 25,
            Key::Enter => 28,
            Key::LeftCtrl => 29,
            Key::A => 30,
            Key::S => 31,
            Key::D => 32,
            Key::F => 33,
            Key::G => 34,
            Key::H => 35,
            Key::J => 36,
            Key::K => 37,
            Key::L => 38,
            Key::LeftShift => 42,
            Key::Z => 44,
            Key::X => 45,
            Key::C => 46,
            Key::V => 47,
            Key::B => 48,
            Key::N => 49,
            Key::M => 50,
            Key::RightShift => 54,
            Key::LeftAlt => 56,
            Key::Space => 57,
            Key::CapsLock => 58,
            Key::Up => 103,
            Key::Left => 105,
            Key::Right => 106,
            Key::Down => 108,
        }
    }

    /// Looks a raw key code up in the translation table.
    pub fn from_code(code: u16) -> (r: Option<Key>)
        ensures
            r == spec_key_from_code(code),
    {
        match code {
            1 => Some(Key::Esc),
            2 => Some(Key::Num1),
            3 => Some(Key::Num2),
            4 => Some(Key::Num3),
            5 => Some(Key::Num4),
            6 => Some(Key::Num5),
            7 => Some(Key::Num6),
            8 => Some(Key::Num7),
            9 => Some(Key::Num8),
            10 => Some(Key::Num9),
            11 => Some(Key::Num0),
            14 => Some(Key::Backspace),
            15 => Some(Key::Tab),
            16 => Some(Key::Q),
            17 => Some(Key::W),
            18 => Some(Key::E),
            19 => Some(Key::R),
            20 => Some(Key::T),
            21 => Some(Key::Y),
            22 => Some(Key::U),
            23 => Some(Key::I),
            24 => Some(Key::O),
            25 => Some(Key::P),
            28 => Some(Key::Enter),
            29 => Some(Key::LeftCtrl),
            30 => Some(Key::A),
            31 => Some(Key::S),
            32 => Some(Key::D),
            33 => Some(Key::F),
            34 => Some(Key::G),
            35 => Some(Key::H),
            36 => Some(Key::J),
            37 => Some(Key::K),
            38 => Some(Key::L),
            42 => Some(Key::LeftShift),
            44 => Some(Key::Z),
            45 => Some(Key::X),
            46 => Some(Key::C),
            47 => Some(Key::V),
            48 => Some(Key::B),
            49 => Some(Key::N),
            50 => Some(Key::M),
            54 => Some(Key::RightShift),
            56 => Some(Key::LeftAlt),
            57 => Some(Key::Space),
            58 => Some(Key::CapsLock),
            103 => Some(Key::Up),
            105 => Some(Key::Left),
            106 => Some(Key::Right),
            108 => Some(Key::Down),
            _ => None,
        }
    }
}

/// The translation table is left inverse to the code assignment: decoding
/// the code of any key yields that key back.
pub proof fn lemma_key_code_round_trip(k: Key)
    ensures
        spec_key_from_code(spec_key_code(k)) == Some(k),
{
}

/// The code assignment is injective: the table never maps one code to a key
/// carrying a different code.
pub proof fn lemma_key_code_injective(c: u16, k: Key)
    requires
        spec_key_from_code(c) == Some(k),
    ensures
        spec_key_code(k) == c,
{
}

} // verus!
