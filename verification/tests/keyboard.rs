use texter::events::diff;
use texter::key::Key;
use texter::scan::{assemble_bitmask, pack_sense_levels, strobe_pattern};
use texter::state::{translate_mod, translate_shift, to_upper, KeyboardState};

// Bit indices of some keys, per the keycode table.
const BIT_SHIFT_LEFT: u64 = 0;
const BIT_MOD: u64 = 8;
const BIT_CAPS_LOCK: u64 = 13;
const BIT_A: u64 = 40;
const BIT_ONE: u64 = 56;
const BIT_SEVEN: u64 = 63;

#[test]
fn diff_of_equal_masks_is_empty() {
    assert_eq!(diff(0, 0), vec![]);
    assert_eq!(diff(u64::MAX, u64::MAX), vec![]);
    assert_eq!(diff(0xdead_beef_dead_beef, 0xdead_beef_dead_beef), vec![]);
}

#[test]
fn diff_reports_presses_and_releases_in_order() {
    // Bit 3 released, bit 40 pressed: events come in increasing bit order.
    let prev: u64 = (1 << 3) | (1 << 5);
    let cur: u64 = (1 << 5) | (1 << 40);
    assert_eq!(diff(prev, cur), vec![(3, false), (40, true)]);
}

#[test]
fn diff_sees_the_highest_bit() {
    assert_eq!(diff(0, 1u64 << 63), vec![(63, true)]);
    assert_eq!(diff(1u64 << 63, 0), vec![(63, false)]);
}

#[test]
fn decode_covers_every_index() {
    // Every index in and beyond the scan width yields a key; unmapped
    // indices round-trip inside Unknown.
    for i in 0..=255u8 {
        match Key::from_keycode(i) {
            Key::Unknown(raw) => assert_eq!(raw, i),
            _ => assert!(i < 64),
        }
    }
    assert_eq!(Key::from_keycode(1), Key::Unknown(1));
    assert_eq!(Key::from_keycode(64), Key::Unknown(64));
    assert_eq!(Key::from_keycode(255), Key::Unknown(255));
    assert_eq!(Key::from_keycode(40), Key::Char('a'));
    assert_eq!(Key::from_keycode(63), Key::Char('7'));
    assert_eq!(Key::from_keycode(0), Key::ShiftLeft);
}

#[test]
fn modifier_press_release_restores_flags() {
    for k in [Key::Mod, Key::ShiftLeft, Key::ShiftRight] {
        let mut s = KeyboardState::new(0);
        assert_eq!(s.handle_key_down(k), None);
        s.handle_key_up(k);
        assert!(!s.mod_down && !s.shift_l_down && !s.shift_r_down && !s.caps_lock_active);
    }
}

#[test]
fn caps_lock_double_toggle_restores_state() {
    let mut s = KeyboardState::new(0);
    assert_eq!(s.handle_key_down(Key::CapsLock), None);
    assert!(s.caps_lock_active);
    assert_eq!(s.handle_key_down(Key::CapsLock), None);
    assert!(!s.caps_lock_active);
}

#[test]
fn mod_layer_wins_over_shift_layer() {
    let mut s = KeyboardState::new(0);
    s.handle_key_down(Key::Mod);
    s.handle_key_down(Key::ShiftLeft);
    assert_eq!(s.handle_key_down(Key::Char('1')), Some('µ'));
    s.handle_key_down(Key::ShiftRight);
    assert_eq!(s.handle_key_down(Key::Char('1')), Some('µ'));
}

#[test]
fn scenario_no_switches_closed() {
    // All sense lines read open at every strobe combination: the assembled
    // bitmask is zero, and the first diff against a prior state of zero
    // yields no events.
    let mut readings: Vec<u8> = Vec::new();
    for _ in 0..8 {
        readings.push(pack_sense_levels(&vec![false; 8]));
    }
    let mask: u64 = assemble_bitmask(&readings);
    assert_eq!(mask, 0);
    let mut s = KeyboardState::new(0);
    assert_eq!(s.update(mask), vec![]);
}

#[test]
fn scenario_plain_letter_press() {
    let mut s = KeyboardState::new(0);
    assert_eq!(s.update(1u64 << BIT_A), vec!['a']);
    // Holding the key produces no further events.
    assert_eq!(s.update(1u64 << BIT_A), vec![]);
}

#[test]
fn scenario_shift_then_letter() {
    let mut s = KeyboardState::new(0);
    assert_eq!(s.update(1u64 << BIT_SHIFT_LEFT), vec![]);
    assert_eq!(s.update((1u64 << BIT_SHIFT_LEFT) | (1u64 << BIT_A)), vec!['A']);
    // Release everything, press the letter alone: lowercase again.
    assert_eq!(s.update(0), vec![]);
    assert_eq!(s.update(1u64 << BIT_A), vec!['a']);
}

#[test]
fn scenario_caps_lock_toggle() {
    let mut s = KeyboardState::new(0);
    assert_eq!(s.update(1u64 << BIT_CAPS_LOCK), vec![]);
    assert_eq!(s.update(0), vec![]);
    assert_eq!(s.update(1u64 << BIT_A), vec!['A']);
    assert_eq!(s.update(0), vec![]);
    assert_eq!(s.update(1u64 << BIT_CAPS_LOCK), vec![]);
    assert_eq!(s.update(0), vec![]);
    assert_eq!(s.update(1u64 << BIT_A), vec!['a']);
}

#[test]
fn scenario_mod_layer_digit() {
    let mut s = KeyboardState::new(0);
    assert_eq!(s.update(1u64 << BIT_MOD), vec![]);
    assert_eq!(s.update((1u64 << BIT_MOD) | (1u64 << BIT_ONE)), vec!['µ']);
}

#[test]
fn shift_layer_digit_row() {
    let mut s = KeyboardState::new(0);
    s.handle_key_down(Key::ShiftLeft);
    assert_eq!(s.handle_key_down(Key::Char('1')), Some('!'));
    assert_eq!(s.handle_key_down(Key::Char('7')), Some('/'));
    assert_eq!(s.handle_key_down(Key::Char(',')), Some(';'));
    assert_eq!(s.handle_key_down(Key::Char('.')), Some(':'));
    assert_eq!(s.handle_key_down(Key::Char('-')), Some('_'));
    assert_eq!(s.handle_key_down(Key::Char('ß')), Some('?'));
}

#[test]
fn caps_lock_composes_on_top_of_layers() {
    let mut s = KeyboardState::new(0);
    s.handle_key_down(Key::CapsLock);
    assert_eq!(s.handle_key_down(Key::Char('a')), Some('A'));
    // Caps over the shift layer: the shifted symbol is already uppercase.
    s.handle_key_down(Key::ShiftLeft);
    assert_eq!(s.handle_key_down(Key::Char('1')), Some('!'));
    s.handle_key_up(Key::ShiftLeft);
    // Caps over the mod layer.
    s.handle_key_down(Key::Mod);
    assert_eq!(s.handle_key_down(Key::Char('1')), Some('Μ'));
}

#[test]
fn control_keys_emit_nothing_but_return_and_tab() {
    let mut s = KeyboardState::new(0);
    assert_eq!(s.handle_key_down(Key::Return), Some('\n'));
    assert_eq!(s.handle_key_down(Key::Tab), Some('\t'));
    for k in [
        Key::Code,
        Key::Back,
        Key::Del,
        Key::Down,
        Key::WeirdE,
        Key::T,
        Key::Unknown(7),
    ] {
        assert_eq!(s.handle_key_down(k), None);
    }
    assert!(!s.mod_down && !s.shift_l_down && !s.shift_r_down && !s.caps_lock_active);
}

#[test]
fn release_of_non_modifier_changes_nothing() {
    let mut s = KeyboardState::new(0);
    s.handle_key_down(Key::CapsLock);
    s.handle_key_up(Key::Char('a'));
    s.handle_key_up(Key::CapsLock);
    s.handle_key_up(Key::Return);
    assert!(s.caps_lock_active);
    assert!(!s.mod_down && !s.shift_l_down && !s.shift_r_down);
}

#[test]
fn translate_tables_exact_values() {
    assert_eq!(translate_mod('1'), 'µ');
    assert_eq!(translate_mod('2'), '²');
    assert_eq!(translate_mod('9'), '<');
    assert_eq!(translate_mod('´'), '^');
    assert_eq!(translate_mod('a'), 'a');
    assert_eq!(translate_shift('1'), '!');
    assert_eq!(translate_shift('0'), '=');
    assert_eq!(translate_shift('+'), '*');
    assert_eq!(translate_shift('a'), 'A');
    assert_eq!(translate_shift('ö'), 'Ö');
    assert_eq!(to_upper('z'), 'Z');
    assert_eq!(to_upper('ü'), 'Ü');
    assert_eq!(to_upper('ß'), 'S');
    assert_eq!(to_upper('!'), '!');
    // Agreement with the platform's uppercasing on the symbol set.
    for c in "abcdefghijklmnopqrstuvwxyzäöüß µ²³£°'#<^!\"§$%&/()=?`*;:_1234567890+,.-´".chars() {
        assert_eq!(to_upper(c), c.to_uppercase().next().unwrap());
    }
}

#[test]
fn pack_sense_levels_exact_values() {
    // Line 0 lands in the most significant bit.
    let mut levels = vec![false; 8];
    levels[0] = true;
    assert_eq!(pack_sense_levels(&levels), 0b1000_0000);
    let mut levels = vec![false; 8];
    levels[7] = true;
    assert_eq!(pack_sense_levels(&levels), 0b0000_0001);
    assert_eq!(pack_sense_levels(&vec![true; 8]), 0xff);
    assert_eq!(pack_sense_levels(&vec![false; 8]), 0);
}

#[test]
fn assemble_bitmask_exact_values() {
    // The reading of combination 0 lands in the most significant byte.
    let readings = vec![0xab, 0, 0, 0, 0, 0, 0, 0x01];
    assert_eq!(assemble_bitmask(&readings), 0xab00_0000_0000_0001);
    assert_eq!(assemble_bitmask(&vec![0xff; 8]), u64::MAX);
    assert_eq!(assemble_bitmask(&vec![0; 8]), 0);
}

#[test]
fn strobe_pattern_exact_values() {
    assert_eq!(strobe_pattern(0), vec![false, false, false]);
    assert_eq!(strobe_pattern(1), vec![true, false, false]);
    assert_eq!(strobe_pattern(5), vec![true, false, true]);
    assert_eq!(strobe_pattern(7), vec![true, true, true]);
}

#[test]
fn update_handles_simultaneous_edges_in_bit_order() {
    // Shift (bit 0) and 'a' (bit 40) appear in the same scan: the shift
    // press is applied first, so the letter comes out uppercase.
    let mut s = KeyboardState::new(0);
    assert_eq!(
        s.update((1u64 << BIT_SHIFT_LEFT) | (1u64 << BIT_A)),
        vec!['A']
    );
    // Both released and '7' (bit 63) pressed in one scan.
    assert_eq!(s.update(1u64 << BIT_SEVEN), vec!['7']);
}
