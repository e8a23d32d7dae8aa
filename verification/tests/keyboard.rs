use fantasy_vm::codec::{char_to_id, UNKNOWN_CODE};
use fantasy_vm::keyboard::{get_key, Key, KEY_DOWN, KEY_LEFT, KEY_RIGHT, KEY_UP};

#[test]
fn no_key_gives_unknown_code() {
    assert_eq!(get_key(None, false, false), UNKNOWN_CODE);
    assert_eq!(get_key(None, true, false), UNKNOWN_CODE);
    assert_eq!(get_key(None, false, true), UNKNOWN_CODE);
    assert_eq!(get_key(None, true, true), UNKNOWN_CODE);
}

#[test]
fn plain_letters_are_lower_case() {
    assert_eq!(get_key(Some(Key::A), false, false), char_to_id("a"));
    assert_eq!(get_key(Some(Key::A), false, false), 0x20);
    assert_eq!(get_key(Some(Key::T), false, false), 0x33);
    assert_eq!(get_key(Some(Key::U), false, false), 0x35);
    assert_eq!(get_key(Some(Key::Z), false, false), 0x3A);
}

#[test]
fn shift_letters_are_upper_case() {
    assert_eq!(get_key(Some(Key::A), true, false), char_to_id("A"));
    assert_eq!(get_key(Some(Key::A), true, false), 0x00);
    assert_eq!(get_key(Some(Key::Z), true, false), 0x19);
}

#[test]
fn shift_wins_over_alt_graphic() {
    assert_eq!(get_key(Some(Key::B), true, true), char_to_id("B"));
    assert_eq!(get_key(Some(Key::B), false, true), char_to_id("{"));
    assert_eq!(get_key(Some(Key::B), false, false), char_to_id("b"));
}

#[test]
fn digits_and_keypad() {
    assert_eq!(get_key(Some(Key::Key0), false, false), 0x40);
    assert_eq!(get_key(Some(Key::Key9), false, false), 0x49);
    assert_eq!(get_key(Some(Key::Kp5), false, false), 0x45);
    assert_eq!(get_key(Some(Key::Kp5), true, false), 0x45);
    assert_eq!(get_key(Some(Key::Kp5), false, true), 0x45);
    assert_eq!(get_key(Some(Key::KpAdd), false, false), char_to_id("+"));
    assert_eq!(get_key(Some(Key::KpDivide), false, true), char_to_id("/"));
    assert_eq!(get_key(Some(Key::KpDecimal), true, false), char_to_id("."));
}

#[test]
fn punctuation_per_layer() {
    assert_eq!(get_key(Some(Key::Slash), false, false), char_to_id("-"));
    assert_eq!(get_key(Some(Key::Slash), true, false), char_to_id("_"));
    assert_eq!(get_key(Some(Key::Slash), false, true), char_to_id("*"));
    assert_eq!(get_key(Some(Key::Period), false, false), char_to_id("."));
    assert_eq!(get_key(Some(Key::Period), true, false), char_to_id(":"));
    assert_eq!(get_key(Some(Key::Period), false, true), char_to_id(">"));
    assert_eq!(get_key(Some(Key::Comma), false, false), char_to_id(","));
    assert_eq!(get_key(Some(Key::Comma), true, false), char_to_id("?"));
    assert_eq!(get_key(Some(Key::Comma), false, true), char_to_id("<"));
    assert_eq!(get_key(Some(Key::Semicolon), false, false), char_to_id("\""));
    assert_eq!(get_key(Some(Key::GraveAccent), false, false), char_to_id(";"));
    assert_eq!(get_key(Some(Key::Minus), false, false), char_to_id("="));
    assert_eq!(get_key(Some(Key::Minus), true, false), char_to_id("%"));
    assert_eq!(get_key(Some(Key::Apostrophe), false, false), char_to_id("!"));
    assert_eq!(get_key(Some(Key::RightBracket), false, false), char_to_id("("));
    assert_eq!(get_key(Some(Key::Backslash), true, false), char_to_id(")"));
}

#[test]
fn alt_graphic_symbols() {
    assert_eq!(get_key(Some(Key::C), false, true), char_to_id("&"));
    assert_eq!(get_key(Some(Key::F), false, true), char_to_id("["));
    assert_eq!(get_key(Some(Key::G), false, true), char_to_id("]"));
    assert_eq!(get_key(Some(Key::N), false, true), char_to_id("}"));
    assert_eq!(get_key(Some(Key::P), false, true), char_to_id("'"));
    assert_eq!(get_key(Some(Key::Q), false, true), char_to_id("\\"));
    assert_eq!(get_key(Some(Key::W), false, true), char_to_id("|"));
    assert_eq!(get_key(Some(Key::X), false, true), char_to_id("#"));
    assert_eq!(get_key(Some(Key::Key1), false, true), char_to_id("~"));
    assert_eq!(get_key(Some(Key::H), false, true), char_to_id("h"));
}

#[test]
fn characters_without_glyph_give_unknown_code() {
    // the shift layer types a degree sign here, the alternate layer a euro sign
    assert_eq!(get_key(Some(Key::GraveAccent), true, false), UNKNOWN_CODE);
    assert_eq!(get_key(Some(Key::E), false, true), UNKNOWN_CODE);
    assert_eq!(get_key(Some(Key::V), false, true), UNKNOWN_CODE);
    assert_eq!(get_key(Some(Key::Semicolon), false, true), UNKNOWN_CODE);
    assert_eq!(get_key(Some(Key::Key3), false, true), UNKNOWN_CODE);
}

#[test]
fn arrows_have_dedicated_codes_on_the_plain_layer() {
    assert_eq!(get_key(Some(Key::Up), false, false), 0b1000_0000);
    assert_eq!(get_key(Some(Key::Down), false, false), 0b1000_0001);
    assert_eq!(get_key(Some(Key::Left), false, false), 0b1000_0010);
    assert_eq!(get_key(Some(Key::Right), false, false), 0b1000_0011);
    assert_eq!(KEY_UP, 0x80);
    assert_eq!(KEY_DOWN, 0x81);
    assert_eq!(KEY_LEFT, 0x82);
    assert_eq!(KEY_RIGHT, 0x83);
}

#[test]
fn arrows_with_a_modifier_give_unknown_code() {
    assert_eq!(get_key(Some(Key::Up), true, false), UNKNOWN_CODE);
    assert_eq!(get_key(Some(Key::Left), false, true), UNKNOWN_CODE);
}

#[test]
fn other_keys_give_unknown_code() {
    assert_eq!(get_key(Some(Key::Other), false, false), UNKNOWN_CODE);
    assert_eq!(get_key(Some(Key::Other), true, false), UNKNOWN_CODE);
    assert_eq!(get_key(Some(Key::Other), false, true), UNKNOWN_CODE);
}
