//! The modifier state machine and the per-cycle pipeline step.
//!
//! Four boolean facts are tracked: whether the mod key, the left shift and
//! the right shift are currently held, and whether caps-lock is active
//! (toggled on press, not held). A printable key pressed while modifiers
//! are active is transformed in a fixed precedence order: the mod layer
//! wins over the shift layer when both are held, and caps-lock uppercases
//! the result of either.

use vstd::prelude::*;

use crate::events::diff;
use crate::events::diff_events;
use crate::key::Key;
use crate::key::spec_from_keycode;

verus! {

/// The modifier flags alone, as contracts speak of them: the keyboard
/// state without the previous-scan bitmask.
#[derive(Clone, Copy, Debug, PartialEq, Eq, Structural)]
pub struct ModFlags {
    pub mod_down: bool,
    pub shift_l_down: bool,
    pub shift_r_down: bool,
    pub caps_lock_active: bool,
}

/// The mod-layer substitution table: symbols reached while the mod key is
/// held. Characters without a mod-layer mapping pass through unchanged.
pub open spec fn spec_translate_mod(c: char) -> char {
    match c {
        '1' => 'µ',
        '2' => '²',
        '3' => '³',
        '4' => '£',
        '5' => '°',
        '6' => '\'',
        '7' => '#',
        '8' => '<',
        '9' => '<',
        '´' => '^',
        x => x,
    }
}

/// Uppercasing over the keyboard's fixed symbol set: the latin letters,
/// the umlauts, 'ß' (whose uppercase form starts with 'S') and 'µ' (whose
/// uppercase form is the Greek capital mu). Every other symbol the
/// keyboard can produce is its own uppercase and passes through unchanged.
pub open spec fn spec_to_upper(c: char) -> char {
    match c {
        'a' => 'A',
        'b' => 'B',
        'c' => 'C',
        'd' => 'D',
        'e' => 'E',
        'f' => 'F',
        'g' => 'G',
        'h' => 'H',
        'i' => 'I',
        'j' => 'J',
        'k' => 'K',
        'l' => 'L',
        'm' => 'M',
        'n' => 'N',
        'o' => 'O',
        'p' => 'P',
        'q' => 'Q',
        'r' => 'R',
        's' => 'S',
        't' => 'T',
        'u' => 'U',
        'v' => 'V',
        'w' => 'W',
        'x' => 'X',
        'y' => 'Y',
        'z' => 'Z',
        'ä' => 'Ä',
        'ö' => 'Ö',
        'ü' => 'Ü',
        'ß' => 'S',
        'µ' => 'Μ',
        x => x,
    }
}

/// The shift-layer substitution table: digits and punctuation map to their
/// shifted symbols, anything else is uppercased.
pub open spec fn spec_translate_shift(c: char) -> char {
    match c {
        '1' => '!',
        '2' => '"',
        '3' => '§',
        '4' => '$',
        '5' => '%',
        '6' => '&',
        '7' => '/',
        '8' => '(',
        '9' => ')',
        '0' => '=',
        'ß' => '?',
        '´' => '`',
        '+' => '*',
        ',' => ';',
        '.' => ':',
        '-' => '_',
        x => spec_to_upper(x),
    }
}

/// The character emitted when base character `c` is pressed under flags
/// `s`: the mod layer if mod is held, else the shift layer if either shift
/// is held, and caps-lock uppercasing composed on top of either.
pub open spec fn spec_emitted_char(s: ModFlags, c: char) -> char {
    let layered = if s.mod_down {
        spec_translate_mod(c)
    } else if s.shift_l_down || s.shift_r_down {
        spec_translate_shift(c)
    } else {
        c
    };
    if s.caps_lock_active {
        spec_to_upper(layered)
    } else {
        layered
    }
}

/// One transition of the modifier state machine: the flags after key `k`
/// is pressed (`pressed == true`) or released, and the character emitted,
/// if any. Only presses emit; releases only clear held-modifier flags.
pub open spec fn step_key(s: ModFlags, k: Key, pressed: bool) -> (ModFlags, Option<char>) {
    if pressed {
        match k {
            Key::Mod => (ModFlags { mod_down: true, ..s }, None),
            Key::ShiftLeft => (ModFlags { shift_l_down: true, ..s }, None),
            Key::ShiftRight => (ModFlags { shift_r_down: true, ..s }, None),
            Key::CapsLock => (ModFlags { caps_lock_active: !s.caps_lock_active, ..s }, None),
            Key::Char(c) => (s, Some(spec_emitted_char(s, c))),
            Key::Return => (s, Some('\n')),
            Key::Tab => (s, Some('\t')),
            _ => (s, None),
        }
    } else {
        match k {
            Key::Mod => (ModFlags { mod_down: false, ..s }, None),
            Key::ShiftLeft => (ModFlags { shift_l_down: false, ..s }, None),
            Key::ShiftRight => (ModFlags { shift_r_down: false, ..s }, None),
            _ => (s, None),
        }
    }
}

/// One transition on a raw edge event: decode the bit index, then step.
pub open spec fn step_event(s: ModFlags, ev: (u8, bool)) -> (ModFlags, Option<char>) {
    step_key(s, spec_from_keycode(ev.0), ev.1)
}

/// The flags and the emitted characters after the first `n` events of
/// `evs` have been applied in order, starting from `s`.
pub open spec fn run_upto(s: ModFlags, evs: Seq<(u8, bool)>, n: nat) -> (ModFlags, Seq<char>)
    decreases n,
{
    if n == 0 {
        (s, Seq::empty())
    } else {
        let prior = run_upto(s, evs, (n - 1) as nat);
        let stepped = step_event(prior.0, evs[n - 1]);
        match stepped.1 {
            Some(c) => (stepped.0, prior.1.push(c)),
            None => (stepped.0, prior.1),
        }
    }
}

/// The flags and the emitted characters after all events of `evs` have
/// been applied in order, starting from `s`.
pub open spec fn run_events(s: ModFlags, evs: Seq<(u8, bool)>) -> (ModFlags, Seq<char>) {
    run_upto(s, evs, evs.len())
}

/// The decoding pipeline's mutable state: the bitmask seen by the previous
/// scan, for edge detection, and the modifier flags.
pub struct KeyboardState {
    pub key_state: u64,
    pub mod_down: bool,
    pub shift_l_down: bool,
    pub shift_r_down: bool,
    pub caps_lock_active: bool,
}

impl KeyboardState {
    /// The modifier flags of this state.
    pub open spec fn flags(self) -> ModFlags {
        ModFlags {
            mod_down: self.mod_down,
            shift_l_down: self.shift_l_down,
            shift_r_down: self.shift_r_down,
            caps_lock_active: self.caps_lock_active,
        }
    }

    /// A fresh pipeline state: no modifier held, caps-lock off, and the
    /// given bitmask as the baseline for the first diff.
    pub fn new(initial_keys: u64) -> (s: KeyboardState)
        ensures
            s.key_state == initial_keys,
            s.flags() == (ModFlags {
                mod_down: false,
                shift_l_down: false,
                shift_r_down: false,
                caps_lock_active: false,
            }),
    {
        KeyboardState {
            key_state: initial_keys,
            mod_down: false,
            shift_l_down: false,
            shift_r_down: false,
            caps_lock_active: false,
        }
    }

    /// Applies one key-down event: updates the modifier flags and returns
    /// the emitted character, if any, exactly as `step_key` states.
    pub fn handle_key_down(&mut self, k: Key) -> (emitted: Option<char>)
        ensures
            final(self).key_state == old(self).key_state,
            (final(self).flags(), emitted) == step_key(old(self).flags(), k, true),
    {
        match k {
            Key::Mod => {
                self.mod_down = true;
                None
            }
            Key::ShiftLeft => {
                self.shift_l_down = true;
                None
            }
            Key::ShiftRight => {
                self.shift_r_down = true;
                None
            }
            Key::CapsLock => {
                self.caps_lock_active = !self.caps_lock_active;
                None
            }
            Key::Char(x) => {
                let mut c = x;
                if self.mod_down {
                    c = translate_mod(c);
                } else if self.shift_l_down || self.shift_r_down {
                    c = translate_shift(c);
                }
                if self.caps_lock_active {
                    c = to_upper(c);
                }
                Some(c)
            }
            Key::Return => Some('\n'),
            Key::Tab => Some('\t'),
            Key::Code
            | Key::Back
            | Key::Del
            | Key::Down
            | Key::WeirdE
            | Key::T
            | Key::Unknown(_) => None,
        }
    }

    /// Applies one key-up event: clears the matching held-modifier flag,
    /// leaves everything else untouched, and never emits.
    pub fn handle_key_up(&mut self, k: Key)
        ensures
            final(self).key_state == old(self).key_state,
            final(self).flags() == step_key(old(self).flags(), k, false).0,
    {
        match k {
            Key::Mod => self.mod_down = false,
            Key::ShiftLeft => self.shift_l_down = false,
            Key::ShiftRight => self.shift_r_down = false,
            _ => {}
        }
    }

    /// One pipeline cycle on a fresh scan: diffs `new_mask` against the
    /// previous snapshot, applies every edge event in bit-index order to
    /// the modifier state machine, stores `new_mask` as the new snapshot,
    /// and returns the characters emitted, in order.
    pub fn update(&mut self, new_mask: u64) -> (emitted: Vec<char>)
        ensures
            final(self).key_state == new_mask,
            final(self).flags() == run_events(
                old(self).flags(),
                diff_events(old(self).key_state, new_mask),
            ).0,
            emitted@ == run_events(
                old(self).flags(),
                diff_events(old(self).key_state, new_mask),
            ).1,
    {
        let events = diff(self.key_state, new_mask);
        self.key_state = new_mask;
        let ghost s0 = self.flags();
        let mut emitted: Vec<char> = Vec::new();
        let mut i: usize = 0;
        while i < events.len()
            invariant
                i <= events@.len(),
                self.key_state == new_mask,
                (self.flags(), emitted@) == run_upto(s0, events@, i as nat),
            decreases events@.len() - i,
        {
            let (index, pressed) = events[i];
            let k = Key::from_keycode(index);
            if pressed {
                if let Some(c) = self.handle_key_down(k) {
                    emitted.push(c);
                }
            } else {
                self.handle_key_up(k);
            }
            i = i + 1;
        }
        emitted
    }
}

/// Applies the mod-layer substitution table.
pub fn translate_mod(c: char) -> (r: char)
    ensures
        r == spec_translate_mod(c),
{
    match c {
        '1' => 'µ',
        '2' => '²',
        '3' => '³',
        '4' => '£',
        '5' => '°',
        '6' => '\'',
        '7' => '#',
        '8' => '<',
        '9' => '<',
        '´' => '^',
        x => x,
    }
}

/// Applies the shift-layer substitution table.
pub fn translate_shift(c: char) -> (r: char)
    ensures
        r == spec_translate_shift(c),
{
    match c {
        '1' => '!',
        '2' => '"',
        '3' => '§',
        '4' => '$',
        '5' => '%',
        '6' => '&',
        '7' => '/',
        '8' => '(',
        '9' => ')',
        '0' => '=',
        'ß' => '?',
        '´' => '`',
        '+' => '*',
        ',' => ';',
        '.' => ':',
        '-' => '_',
        x => to_upper(x),
    }
}

/// Uppercases a character of the keyboard's fixed symbol set.
pub fn to_upper(c: char) -> (r: char)
    ensures
        r == spec_to_upper(c),
{
    match c {
        'a' => 'A',
        'b' => 'B',
        'c' => 'C',
        'd' => 'D',
        'e' => 'E',
        'f' => 'F',
        'g' => 'G',
        'h' => 'H',
        'i' => 'I',
        'j' => 'J',
        'k' => 'K',
        'l' => 'L',
        'm' => 'M',
        'n' => 'N',
        'o' => 'O',
        'p' => 'P',
        'q' => 'Q',
        'r' => 'R',
        's' => 'S',
        't' => 'T',
        'u' => 'U',
        'v' => 'V',
        'w' => 'W',
        'x' => 'X',
        'y' => 'Y',
        'z' => 'Z',
        'ä' => 'Ä',
        'ö' => 'Ö',
        'ü' => 'Ü',
        'ß' => 'S',
        'µ' => 'Μ',
        x => x,
    }
}

/// Pressing and then releasing a held modifier key (mod or either shift)
/// that was not already held returns the modifier flags to their
/// pre-press values.
pub proof fn lemma_modifier_press_release_symmetric(s: ModFlags, k: Key)
    requires
        (k == Key::Mod && !s.mod_down)
            || (k == Key::ShiftLeft && !s.shift_l_down)
            || (k == Key::ShiftRight && !s.shift_r_down),
    ensures
        step_key(step_key(s, k, true).0, k, false).0 == s,
{
}

/// Pressing caps-lock twice in succession, with no other events between,
/// restores the modifier flags exactly.
pub proof fn lemma_caps_lock_double_toggle(s: ModFlags)
    ensures
        step_key(step_key(s, Key::CapsLock, true).0, Key::CapsLock, true).0 == s,
{
}

/// The mod layer wins over the shift layer: while mod is held, the
/// character emitted for a printable key does not depend on the shift
/// flags at all.
pub proof fn lemma_mod_layer_wins(s: ModFlags, c: char)
    requires
        s.mod_down,
    ensures
        step_key(s, Key::Char(c), true).1 == step_key(
            ModFlags { shift_l_down: false, shift_r_down: false, ..s },
            Key::Char(c),
            true,
        ).1,
{
}

} // verus!
