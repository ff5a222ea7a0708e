//! Symbolic key identities and the keycode table.
//!
//! A scan produces bit indices; the keycode table maps each index to the
//! key wired at that matrix position. The table is total: indices that do
//! not correspond to a wired switch decode to `Key::Unknown` carrying the
//! raw index, never an error.

use vstd::prelude::*;

verus! {

/// A decoded key: a named control key, a printable character, or an
/// unmapped raw keycode.
#[derive(Clone, Copy, Debug, PartialEq, Eq, Structural)]
pub enum Key {
    Code,
    Back,
    Del,
    Tab,
    Return,
    T,
    Down,
    CapsLock,
    ShiftRight,
    ShiftLeft,
    Mod,
    WeirdE,
    Char(char),
    Unknown(u8),
}

/// The keycode table: the key wired at each bit index of the scan bitmask.
pub open spec fn spec_from_keycode(code: u8) -> Key {
    match code {
        9u8 => Key::Code,
        56u8 => Key::Char('1'),
        59u8 => Key::Char('2'),
        60u8 => Key::Char('3'),
        61u8 => Key::Char('4'),
        57u8 => Key::Char('5'),
        58u8 => Key::Char('6'),
        63u8 => Key::Char('7'),
        62u8 => Key::Char('8'),
        26u8 => Key::Char('9'),
        25u8 => Key::Char('0'),
        18u8 => Key::Char('ß'),
        17u8 => Key::Char('´'),
        14u8 => Key::Back,
        15u8 => Key::Del,
        10u8 => Key::Tab,
        48u8 => Key::Char('q'),
        51u8 => Key::Char('w'),
        52u8 => Key::Char('e'),
        53u8 => Key::Char('r'),
        49u8 => Key::Char('t'),
        50u8 => Key::Char('z'),
        55u8 => Key::Char('u'),
        54u8 => Key::Char('i'),
        31u8 => Key::Char('o'),
        29u8 => Key::Char('p'),
        22u8 => Key::Char('ü'),
        23u8 => Key::Char('+'),
        12u8 => Key::Return,
        21u8 => Key::T,
        13u8 => Key::CapsLock,
        40u8 => Key::Char('a'),
        43u8 => Key::Char('s'),
        44u8 => Key::Char('d'),
        45u8 => Key::Char('f'),
        41u8 => Key::Char('g'),
        42u8 => Key::Char('h'),
        47u8 => Key::Char('j'),
        46u8 => Key::Char('k'),
        30u8 => Key::Char('l'),
        28u8 => Key::Char('ö'),
        20u8 => Key::Char('ä'),
        19u8 => Key::Down,
        0u8 => Key::ShiftLeft,
        32u8 => Key::Char('y'),
        35u8 => Key::Char('x'),
        36u8 => Key::Char('c'),
        37u8 => Key::Char('v'),
        33u8 => Key::Char('b'),
        34u8 => Key::Char('n'),
        39u8 => Key::Char('m'),
        38u8 => Key::Char(','),
        27u8 => Key::Char('.'),
        24u8 => Key::Char('-'),
        3u8 => Key::ShiftRight,
        8u8 => Key::Mod,
        11u8 => Key::Char(' '),
        16u8 => Key::WeirdE,
        x => Key::Unknown(x),
    }
}

impl Key {
    /// Decodes a raw bit index to its key. Total: every index yields a key,
    /// unmapped ones yield `Unknown` carrying the index itself.
    pub fn from_keycode(code: u8) -> (k: Key)
        ensures
            k == spec_from_keycode(code),
    {
        match code {
            9 => Key::Code,
            56 => Key::Char('1'),
            59 => Key::Char('2'),
            60 => Key::Char('3'),
            61 => Key::Char('4'),
            57 => Key::Char('5'),
            58 => Key::Char('6'),
            63 => Key::Char('7'),
            62 => Key::Char('8'),
            26 => Key::Char('9'),
            25 => Key::Char('0'),
            18 => Key::Char('ß'),
            17 => Key::Char('´'),
            14 => Key::Back,
            15 => Key::Del,
            10 => Key::Tab,
            48 => Key::Char('q'),
            51 => Key::Char('w'),
            52 => Key::Char('e'),
            53 => Key::Char('r'),
            49 => Key::Char('t'),
            50 => Key::Char('z'),
            55 => Key::Char('u'),
            54 => Key::Char('i'),
            31 => Key::Char('o'),
            29 => Key::Char('p'),
            22 => Key::Char('ü'),
            23 => Key::Char('+'),
            12 => Key::Return,
            21 => Key::T,
            13 => Key::CapsLock,
            40 => Key::Char('a'),
            43 => Key::Char('s'),
            44 => Key::Char('d'),
            45 => Key::Char('f'),
            41 => Key::Char('g'),
            42 => Key::Char('h'),
            47 => Key::Char('j'),
            46 => Key::Char('k'),
            30 => Key::Char('l'),
            28 => Key::Char('ö'),
            20 => Key::Char('ä'),
            19 => Key::Down,
            0 => Key::ShiftLeft,
            32 => Key::Char('y'),
            35 => Key::Char('x'),
            36 => Key::Char('c'),
            37 => Key::Char('v'),
            33 => Key::Char('b'),
            34 => Key::Char('n'),
            39 => Key::Char('m'),
            38 => Key::Char(','),
            27 => Key::Char('.'),
            24 => Key::Char('-'),
            3 => Key::ShiftRight,
            8 => Key::Mod,
            11 => Key::Char(' '),
            16 => Key::WeirdE,
            x => Key::Unknown(x),
        }
    }
}

/// The keycode table never fails and degrades gracefully: whenever it
/// yields `Unknown`, the carried code is the queried index itself, and
/// every index outside the 64-bit scan width yields exactly `Unknown` of
/// that index.
pub proof fn lemma_decode_unknown_round_trip(code: u8)
    ensures
        spec_from_keycode(code) is Unknown ==> spec_from_keycode(code)->Unknown_0 == code,
        code >= 64 ==> spec_from_keycode(code) == Key::Unknown(code),
{
}

} // verus!
