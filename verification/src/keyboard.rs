//! Keyboard decoding: from the key that was last pressed and the state of the
//! two modifiers to the glyph code that the program reads.
//!
//! Each modifier selects a layer of its own. Shift takes precedence over the
//! alternate-graphic modifier. A layer names the character that a key types;
//! the code is that character's glyph id, so a character without a glyph
//! yields the unknown code. The four arrow keys have dedicated codes, on the
//! plain layer only.

use vstd::prelude::*;
use crate::codec::{char_code, code_of, glyph, UNKNOWN_CODE};

verus! {

/// The code of the up arrow.
pub const KEY_UP: u8 = 0x80;

/// The code of the down arrow.
pub const KEY_DOWN: u8 = 0x81;

/// The code of the left arrow.
pub const KEY_LEFT: u8 = 0x82;

/// The code of the right arrow.
pub const KEY_RIGHT: u8 = 0x83;

/// A key of the host keyboard, as far as decoding tells keys apart.
#[derive(Clone, Copy, PartialEq, Eq, Debug, Structural)]
pub enum Key {
    A,
    B,
    C,
    D,
    E,
    F,
    G,
    H,
    I,
    J,
    K,
    L,
    M,
    N,
    O,
    P,
    Q,
    R,
    S,
    T,
    U,
    V,
    W,
    X,
    Y,
    Z,
    RightBracket,
    Backslash,
    Kp0,
    Kp1,
    Kp2,
    Kp3,
    Kp4,
    Kp5,
    Kp6,
    Kp7,
    Kp8,
    Kp9,
    Key0,
    Key1,
    Key2,
    Key3,
    Key4,
    Key5,
    Key6,
    Key7,
    Key8,
    Key9,
    Slash,
    KpAdd,
    KpSubtract,
    KpMultiply,
    KpDivide,
    KpDecimal,
    Period,
    Comma,
    Semicolon,
    GraveAccent,
    Minus,
    Apostrophe,
    Up,
    Down,
    Left,
    Right,
    /// Any key that types nothing.
    Other,
}

/// The layer of the keyboard that the modifiers select.
#[derive(Clone, Copy, PartialEq, Eq, Debug, Structural)]
pub enum Layer {
    Plain,
    Shift,
    AltGraphic,
}

/// The layer selected by the state of the two modifiers.
pub open spec fn layer_of(shift: bool, right_alt: bool) -> Layer {
    if shift {
        Layer::Shift
    } else if right_alt {
        Layer::AltGraphic
    } else {
        Layer::Plain
    }
}

/// The character that a key types with no modifier held.
pub open spec fn plain_char(key: Key) -> Option<char> {
    match key {
        Key::A => Some('a'),
        Key::B => Some('b'),
        Key::C => Some('c'),
        Key::D => Some('d'),
        Key::E => Some('e'),
        Key::F => Some('f'),
        Key::G => Some('g'),
        Key::H => Some('h'),
        Key::I => Some('i'),
        Key::J => Some('j'),
        Key::K => Some('k'),
        Key::L => Some('l'),
        Key::M => Some('m'),
        Key::N => Some('n'),
        Key::O => Some('o'),
        Key::P => Some('p'),
        Key::Q => Some('q'),
        Key::R => Some('r'),
        Key::S => Some('s'),
        Key::T => Some('t'),
        Key::U => Some('u'),
        Key::V => Some('v'),
        Key::W => Some('w'),
        Key::X => Some('x'),
        Key::Y => Some('y'),
        Key::Z => Some('z'),
        Key::RightBracket => Some('('),
        Key::Backslash => Some(')'),
        Key::Kp0 => Some('0'),
        Key::Kp1 => Some('1'),
        Key::Kp2 => Some('2'),
        Key::Kp3 => Some('3'),
        Key::Kp4 => Some('4'),
        Key::Kp5 => Some('5'),
        Key::Kp6 => Some('6'),
        Key::Kp7 => Some('7'),
        Key::Kp8 => Some('8'),
        Key::Kp9 => Some('9'),
        Key::Key0 => Some('0'),
        Key::Key1 => Some('1'),
        Key::Key2 => Some('2'),
        Key::Key3 => Some('3'),
        Key::Key4 => Some('4'),
        Key::Key5 => Some('5'),
        Key::Key6 => Some('6'),
        Key::Key7 => Some('7'),
        Key::Key8 => Some('8'),
        Key::Key9 => Some('9'),
        Key::Slash => Some('-'),
        Key::KpAdd => Some('+'),
        Key::KpSubtract => Some('-'),
        Key::KpMultiply => Some('*'),
        Key::KpDivide => Some('/'),
        Key::KpDecimal => Some('.'),
        Key::Period => Some('.'),
        Key::Comma => Some(','),
        Key::Semicolon => Some('"'),
        Key::GraveAccent => Some(';'),
        Key::Minus => Some('='),
        Key::Apostrophe => Some('!'),
        _ => None,
    }
}

/// The character that a key types while shift is held.
pub open spec fn shift_char(key: Key) -> Option<char> {
    match key {
        Key::A => Some('A'),
        Key::B => Some('B'),
        Key::C => Some('C'),
        Key::D => Some('D'),
        Key::E => Some('E'),
        Key::F => Some('F'),
        Key::G => Some('G'),
        Key::H => Some('H'),
        Key::I => Some('I'),
        Key::J => Some('J'),
        Key::K => Some('K'),
        Key::L => Some('L'),
        Key::M => Some('M'),
        Key::N => Some('N'),
        Key::O => Some('O'),
        Key::P => Some('P'),
        Key::Q => Some('Q'),
        Key::R => Some('R'),
        Key::S => Some('S'),
        Key::T => Some('T'),
        Key::U => Some('U'),
        Key::V => Some('V'),
        Key::W => Some('W'),
        Key::X => Some('X'),
        Key::Y => Some('Y'),
        Key::Z => Some('Z'),
        Key::RightBracket => Some('('),
        Key::Backslash => Some(')'),
        Key::Kp0 => Some('0'),
        Key::Kp1 => Some('1'),
        Key::Kp2 => Some('2'),
        Key::Kp3 => Some('3'),
        Key::Kp4 => Some('4'),
        Key::Kp5 => Some('5'),
        Key::Kp6 => Some('6'),
        Key::Kp7 => Some('7'),
        Key::Kp8 => Some('8'),
        Key::Kp9 => Some('9'),
        Key::Key0 => Some('0'),
        Key::Key1 => Some('1'),
        Key::Key2 => Some('2'),
        Key::Key3 => Some('3'),
        Key::Key4 => Some('4'),
        Key::Key5 => Some('5'),
        Key::Key6 => Some('6'),
        Key::Key7 => Some('7'),
        Key::Key8 => Some('8'),
        Key::Key9 => Some('9'),
        Key::Slash => Some('_'),
        Key::KpAdd => Some('+'),
        Key::KpSubtract => Some('-'),
        Key::KpMultiply => Some('*'),
        Key::KpDivide => Some('/'),
        Key::KpDecimal => Some('.'),
        Key::Period => Some(':'),
        Key::Comma => Some('?'),
        Key::Semicolon => Some('"'),
        Key::GraveAccent => Some('\u{B0}'),
        Key::Minus => Some('%'),
        Key::Apostrophe => Some('!'),
        _ => None,
    }
}

/// The character that a key types while the alternate-graphic modifier is held.
pub open spec fn alt_graphic_char(key: Key) -> Option<char> {
    match key {
        Key::A => Some('a'),
        Key::B => Some('{'),
        Key::C => Some('&'),
        Key::D => Some('\u{110}'),
        Key::E => Some('\u{20AC}'),
        Key::F => Some('['),
        Key::G => Some(']'),
        Key::H => Some('h'),
        Key::I => Some('i'),
        Key::J => Some('j'),
        Key::K => Some('\u{142}'),
        Key::L => Some('\u{141}'),
        Key::M => Some('m'),
        Key::N => Some('}'),
        Key::O => Some('o'),
        Key::P => Some('\''),
        Key::Q => Some('\\'),
        Key::R => Some('r'),
        Key::S => Some('\u{111}'),
        Key::T => Some('t'),
        Key::U => Some('u'),
        Key::V => Some('@'),
        Key::W => Some('|'),
        Key::X => Some('#'),
        Key::Y => Some('>'),
        Key::Z => Some('z'),
        Key::RightBracket => Some('('),
        Key::Backslash => Some(')'),
        Key::Kp0 => Some('0'),
        Key::Kp1 => Some('1'),
        Key::Kp2 => Some('2'),
        Key::Kp3 => Some('3'),
        Key::Kp4 => Some('4'),
        Key::Kp5 => Some('5'),
        Key::Kp6 => Some('6'),
        Key::Kp7 => Some('7'),
        Key::Kp8 => Some('8'),
        Key::Kp9 => Some('9'),
        Key::Key0 => Some('\u{2DD}'),
        Key::Key1 => Some('~'),
        Key::Key2 => Some('\u{2C7}'),
        Key::Key3 => Some('^'),
        Key::Key4 => Some('\u{2D8}'),
        Key::Key5 => Some('\u{B0}'),
        Key::Key6 => Some('\u{2DB}'),
        Key::Key7 => Some('`'),
        Key::Key8 => Some('\u{2D9}'),
        Key::Key9 => Some('\u{B4}'),
        Key::Slash => Some('*'),
        Key::KpAdd => Some('+'),
        Key::KpSubtract => Some('-'),
        Key::KpMultiply => Some('*'),
        Key::KpDivide => Some('/'),
        Key::KpDecimal => Some('.'),
        Key::Period => Some('>'),
        Key::Comma => Some('<'),
        Key::Semicolon => Some('$'),
        Key::GraveAccent => Some(';'),
        Key::Minus => Some('\u{A8}'),
        Key::Apostrophe => Some('\u{DF}'),
        _ => None,
    }
}

/// The character that a key types on a layer, if it types one.
pub open spec fn typed_char(key: Key, layer: Layer) -> Option<char> {
    match layer {
        Layer::Plain => plain_char(key),
        Layer::Shift => shift_char(key),
        Layer::AltGraphic => alt_graphic_char(key),
    }
}

/// The dedicated code of an arrow key.
pub open spec fn arrow_code(key: Key) -> Option<u8> {
    match key {
        Key::Up => Some(KEY_UP),
        Key::Down => Some(KEY_DOWN),
        Key::Left => Some(KEY_LEFT),
        Key::Right => Some(KEY_RIGHT),
        _ => None,
    }
}

/// The code of a key on a layer: the glyph id of the character it types,
/// the dedicated code of an arrow on the plain layer, else the unknown code.
pub open spec fn key_code(key: Key, layer: Layer) -> u8 {
    match typed_char(key, layer) {
        Some(c) => code_of(c),
        None => match arrow_code(key) {
            Some(code) if layer == Layer::Plain => code,
            _ => UNKNOWN_CODE,
        },
    }
}

/// The code that the program reads for one input sample.
pub open spec fn sampled_code(key: Option<Key>, shift: bool, right_alt: bool) -> u8 {
    match key {
        Some(k) => key_code(k, layer_of(shift, right_alt)),
        None => UNKNOWN_CODE,
    }
}

/// Decodes a key pressed with no modifier held.
fn plain_code(key: Key) -> (code: u8)
    ensures
        code == key_code(key, Layer::Plain),
{
    match key {
        Key::A => char_code('a'),
        Key::B => char_code('b'),
        Key::C => char_code('c'),
        Key::D => char_code('d'),
        Key::E => char_code('e'),
        Key::F => char_code('f'),
        Key::G => char_code('g'),
        Key::H => char_code('h'),
        Key::I => char_code('i'),
        Key::J => char_code('j'),
        Key::K => char_code('k'),
        Key::L => char_code('l'),
        Key::M => char_code('m'),
        Key::N => char_code('n'),
        Key::O => char_code('o'),
        Key::P => char_code('p'),
        Key::Q => char_code('q'),
        Key::R => char_code('r'),
        Key::S => char_code('s'),
        Key::T => char_code('t'),
        Key::U => char_code('u'),
        Key::V => char_code('v'),
        Key::W => char_code('w'),
        Key::X => char_code('x'),
        Key::Y => char_code('y'),
        Key::Z => char_code('z'),
        Key::RightBracket => char_code('('),
        Key::Backslash => char_code(')'),
        Key::Kp0 => char_code('0'),
        Key::Kp1 => char_code('1'),
        Key::Kp2 => char_code('2'),
        Key::Kp3 => char_code('3'),
        Key::Kp4 => char_code('4'),
        Key::Kp5 => char_code('5'),
        Key::Kp6 => char_code('6'),
        Key::Kp7 => char_code('7'),
        Key::Kp8 => char_code('8'),
        Key::Kp9 => char_code('9'),
        Key::Key0 => char_code('0'),
        Key::Key1 => char_code('1'),
        Key::Key2 => char_code('2'),
        Key::Key3 => char_code('3'),
        Key::Key4 => char_code('4'),
        Key::Key5 => char_code('5'),
        Key::Key6 => char_code('6'),
        Key::Key7 => char_code('7'),
        Key::Key8 => char_code('8'),
        Key::Key9 => char_code('9'),
        Key::Slash => char_code('-'),
        Key::KpAdd => char_code('+'),
        Key::KpSubtract => char_code('-'),
        Key::KpMultiply => char_code('*'),
        Key::KpDivide => char_code('/'),
        Key::KpDecimal => char_code('.'),
        Key::Period => char_code('.'),
        Key::Comma => char_code(','),
        Key::Semicolon => char_code('"'),
        Key::GraveAccent => char_code(';'),
        Key::Minus => char_code('='),
        Key::Apostrophe => char_code('!'),
        Key::Up => KEY_UP,
        Key::Down => KEY_DOWN,
        Key::Left => KEY_LEFT,
        Key::Right => KEY_RIGHT,
        _ => UNKNOWN_CODE,
    }
}

/// Decodes a key pressed while shift is held.
fn shift_code(key: Key) -> (code: u8)
    ensures
        code == key_code(key, Layer::Shift),
{
    match key {
        Key::A => char_code('A'),
        Key::B => char_code('B'),
        Key::C => char_code('C'),
        Key::D => char_code('D'),
        Key::E => char_code('E'),
        Key::F => char_code('F'),
        Key::G => char_code('G'),
        Key::H => char_code('H'),
        Key::I => char_code('I'),
        Key::J => char_code('J'),
        Key::K => char_code('K'),
        Key::L => char_code('L'),
        Key::M => char_code('M'),
        Key::N => char_code('N'),
        Key::O => char_code('O'),
        Key::P => char_code('P'),
        Key::Q => char_code('Q'),
        Key::R => char_code('R'),
        Key::S => char_code('S'),
        Key::T => char_code('T'),
        Key::U => char_code('U'),
        Key::V => char_code('V'),
        Key::W => char_code('W'),
        Key::X => char_code('X'),
        Key::Y => char_code('Y'),
        Key::Z => char_code('Z'),
        Key::RightBracket => char_code('('),
        Key::Backslash => char_code(')'),
        Key::Kp0 => char_code('0'),
        Key::Kp1 => char_code('1'),
        Key::Kp2 => char_code('2'),
        Key::Kp3 => char_code('3'),
        Key::Kp4 => char_code('4'),
        Key::Kp5 => char_code('5'),
        Key::Kp6 => char_code('6'),
        Key::Kp7 => char_code('7'),
        Key::Kp8 => char_code('8'),
        Key::Kp9 => char_code('9'),
        Key::Key0 => char_code('0'),
        Key::Key1 => char_code('1'),
        Key::Key2 => char_code('2'),
        Key::Key3 => char_code('3'),
        Key::Key4 => char_code('4'),
        Key::Key5 => char_code('5'),
        Key::Key6 => char_code('6'),
        Key::Key7 => char_code('7'),
        Key::Key8 => char_code('8'),
        Key::Key9 => char_code('9'),
        Key::Slash => char_code('_'),
        Key::KpAdd => char_code('+'),
        Key::KpSubtract => char_code('-'),
        Key::KpMultiply => char_code('*'),
        Key::KpDivide => char_code('/'),
        Key::KpDecimal => char_code('.'),
        Key::Period => char_code(':'),
        Key::Comma => char_code('?'),
        Key::Semicolon => char_code('"'),
        Key::GraveAccent => char_code('\u{B0}'),
        Key::Minus => char_code('%'),
        Key::Apostrophe => char_code('!'),
        _ => UNKNOWN_CODE,
    }
}

/// Decodes a key pressed while the alternate-graphic modifier is held.
fn alt_graphic_code(key: Key) -> (code: u8)
    ensures
        code == key_code(key, Layer::AltGraphic),
{
    match key {
        Key::A => char_code('a'),
        Key::B => char_code('{'),
        Key::C => char_code('&'),
        Key::D => char_code('\u{110}'),
        Key::E => char_code('\u{20AC}'),
        Key::F => char_code('['),
        Key::G => char_code(']'),
        Key::H => char_code('h'),
        Key::I => char_code('i'),
        Key::J => char_code('j'),
        Key::K => char_code('\u{142}'),
        Key::L => char_code('\u{141}'),
        Key::M => char_code('m'),
        Key::N => char_code('}'),
        Key::O => char_code('o'),
        Key::P => char_code('\''),
        Key::Q => char_code('\\'),
        Key::R => char_code('r'),
        Key::S => char_code('\u{111}'),
        Key::T => char_code('t'),
        Key::U => char_code('u'),
        Key::V => char_code('@'),
        Key::W => char_code('|'),
        Key::X => char_code('#'),
        Key::Y => char_code('>'),
        Key::Z => char_code('z'),
        Key::RightBracket => char_code('('),
        Key::Backslash => char_code(')'),
        Key::Kp0 => char_code('0'),
        Key::Kp1 => char_code('1'),
        Key::Kp2 => char_code('2'),
        Key::Kp3 => char_code('3'),
        Key::Kp4 => char_code('4'),
        Key::Kp5 => char_code('5'),
        Key::Kp6 => char_code('6'),
        Key::Kp7 => char_code('7'),
        Key::Kp8 => char_code('8'),
        Key::Kp9 => char_code('9'),
        Key::Key0 => char_code('\u{2DD}'),
        Key::Key1 => char_code('~'),
        Key::Key2 => char_code('\u{2C7}'),
        Key::Key3 => char_code('^'),
        Key::Key4 => char_code('\u{2D8}'),
        Key::Key5 => char_code('\u{B0}'),
        Key::Key6 => char_code('\u{2DB}'),
        Key::Key7 => char_code('`'),
        Key::Key8 => char_code('\u{2D9}'),
        Key::Key9 => char_code('\u{B4}'),
        Key::Slash => char_code('*'),
        Key::KpAdd => char_code('+'),
        Key::KpSubtract => char_code('-'),
        Key::KpMultiply => char_code('*'),
        Key::KpDivide => char_code('/'),
        Key::KpDecimal => char_code('.'),
        Key::Period => char_code('>'),
        Key::Comma => char_code('<'),
        Key::Semicolon => char_code('$'),
        Key::GraveAccent => char_code(';'),
        Key::Minus => char_code('\u{A8}'),
        Key::Apostrophe => char_code('\u{DF}'),
        _ => UNKNOWN_CODE,
    }
}

/// Decodes one input sample: the key that was last pressed, if any, and the
/// state of shift and of the alternate-graphic modifier.
pub fn get_key(key: Option<Key>, shift: bool, right_alt: bool) -> (code: u8)
    ensures
        code == sampled_code(key, shift, right_alt),
        key is None ==> code == UNKNOWN_CODE,
{
    match key {
        Some(k) => {
            if shift {
                shift_code(k)
            } else if right_alt {
                alt_graphic_code(k)
            } else {
                plain_code(k)
            }
        },
        None => UNKNOWN_CODE,
    }
}

/// What is typed is what is drawn: where a key types a character that has a
/// glyph of its own, the code read for the key decodes to that character.
pub proof fn lemma_typed_character_is_drawn(key: Key, shift: bool, right_alt: bool, c: char)
    requires
        typed_char(key, layer_of(shift, right_alt)) == Some(c),
        code_of(c) != UNKNOWN_CODE,
    ensures
        glyph(sampled_code(Some(key), shift, right_alt)) == seq![c],
{
}

/// The codes of the arrow keys are no glyph ids, so no character is mistaken
/// for an arrow.
pub proof fn lemma_arrows_are_no_glyphs(c: char)
    ensures
        code_of(c) != KEY_UP,
        code_of(c) != KEY_DOWN,
        code_of(c) != KEY_LEFT,
        code_of(c) != KEY_RIGHT,
{
}

} // verus!
