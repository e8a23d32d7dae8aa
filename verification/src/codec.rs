//! The character codec: the fixed table between glyph ids (one byte each)
//! and the characters that are drawn or typed.
//!
//! Ids `0x00..=0x5B` are assigned, with a hole at `0x34`; ids `0x5C..=0x5F`
//! are assigned to blank glyphs that draw nothing. Every other id draws the
//! unknown glyph. In the other direction, a text that is not a single known
//! character encodes to the unknown code.

use vstd::prelude::*;
use vstd::string::StrSliceExecFns;
use vstd::string::StringExecFns;

verus! {

/// The code returned when a text has no glyph.
pub const UNKNOWN_CODE: u8 = 0xF0;

/// The character drawn for an id that has no glyph (a hollow box).
pub const UNKNOWN_GLYPH: char = '\u{25AF}';

/// The text drawn for a glyph id: one character, or nothing for a blank glyph.
pub open spec fn glyph(id: u8) -> Seq<char> {
    match id {
        0x00 => seq!['A'],
        0x01 => seq!['B'],
        0x02 => seq!['C'],
        0x03 => seq!['D'],
        0x04 => seq!['E'],
        0x05 => seq!['F'],
        0x06 => seq!['G'],
        0x07 => seq!['H'],
        0x08 => seq!['I'],
        0x09 => seq!['J'],
        0x0A => seq!['K'],
        0x0B => seq!['L'],
        0x0C => seq!['M'],
        0x0D => seq!['N'],
        0x0E => seq!['O'],
        0x0F => seq!['P'],
        0x10 => seq!['Q'],
        0x11 => seq!['R'],
        0x12 => seq!['S'],
        0x13 => seq!['T'],
        0x14 => seq!['U'],
        0x15 => seq!['V'],
        0x16 => seq!['W'],
        0x17 => seq!['X'],
        0x18 => seq!['Y'],
        0x19 => seq!['Z'],
        0x1A => seq!['<'],
        0x1B => seq!['>'],
        0x1C => seq!['('],
        0x1D => seq![')'],
        0x1E => seq!['['],
        0x1F => seq![']'],
        0x20 => seq!['a'],
        0x21 => seq!['b'],
        0x22 => seq!['c'],
        0x23 => seq!['d'],
        0x24 => seq!['e'],
        0x25 => seq!['f'],
        0x26 => seq!['g'],
        0x27 => seq!['h'],
        0x28 => seq!['i'],
        0x29 => seq!['j'],
        0x2A => seq!['k'],
        0x2B => seq!['l'],
        0x2C => seq!['m'],
        0x2D => seq!['n'],
        0x2E => seq!['o'],
        0x2F => seq!['p'],
        0x30 => seq!['q'],
        0x31 => seq!['r'],
        0x32 => seq!['s'],
        0x33 => seq!['t'],
        0x35 => seq!['u'],
        0x36 => seq!['v'],
        0x37 => seq!['w'],
        0x38 => seq!['x'],
        0x39 => seq!['y'],
        0x3A => seq!['z'],
        0x3B => seq!['!'],
        0x3C => seq!['?'],
        0x3D => seq!['|'],
        0x3E => seq!['&'],
        0x3F => seq!['#'],
        0x40 => seq!['0'],
        0x41 => seq!['1'],
        0x42 => seq!['2'],
        0x43 => seq!['3'],
        0x44 => seq!['4'],
        0x45 => seq!['5'],
        0x46 => seq!['6'],
        0x47 => seq!['7'],
        0x48 => seq!['8'],
        0x49 => seq!['9'],
        0x4A => seq!['/'],
        0x4B => seq!['\\'],
        0x4C => seq!['~'],
        0x4D => seq!['_'],
        0x4E => seq!['-'],
        0x4F => seq!['+'],
        0x50 => seq!['*'],
        0x51 => seq!['.'],
        0x52 => seq![','],
        0x53 => seq![';'],
        0x54 => seq!['='],
        0x55 => seq!['%'],
        0x56 => seq!['{'],
        0x57 => seq!['}'],
        0x58 => seq![':'],
        0x59 => seq!['"'],
        0x5A => seq!['\''],
        0x5B => seq![' '],
        0x5C => Seq::<char>::empty(),
        0x5D => Seq::<char>::empty(),
        0x5E => Seq::<char>::empty(),
        0x5F => Seq::<char>::empty(),
        _ => seq![UNKNOWN_GLYPH],
    }
}

/// Whether an id has a glyph of its own (a character or a blank).
pub open spec fn is_assigned(id: u8) -> bool {
    id <= 0x5F && id != 0x34
}

/// The glyph id that stands for a character, or `UNKNOWN_CODE`.
pub open spec fn code_of(c: char) -> u8 {
    match c {
        '\u{3B1}' => 0x5Bu8,
        'A' => 0x00u8,
        'B' => 0x01u8,
        'C' => 0x02u8,
        'D' => 0x03u8,
        'E' => 0x04u8,
        'F' => 0x05u8,
        'G' => 0x06u8,
        'H' => 0x07u8,
        'I' => 0x08u8,
        'J' => 0x09u8,
        'K' => 0x0Au8,
        'L' => 0x0Bu8,
        'M' => 0x0Cu8,
        'N' => 0x0Du8,
        'O' => 0x0Eu8,
        'P' => 0x0Fu8,
        'Q' => 0x10u8,
        'R' => 0x11u8,
        'S' => 0x12u8,
        'T' => 0x13u8,
        'U' => 0x14u8,
        'V' => 0x15u8,
        'W' => 0x16u8,
        'X' => 0x17u8,
        'Y' => 0x18u8,
        'Z' => 0x19u8,
        '<' => 0x1Au8,
        '>' => 0x1Bu8,
        '(' => 0x1Cu8,
        ')' => 0x1Du8,
        '[' => 0x1Eu8,
        ']' => 0x1Fu8,
        'a' => 0x20u8,
        'b' => 0x21u8,
        'c' => 0x22u8,
        'd' => 0x23u8,
        'e' => 0x24u8,
        'f' => 0x25u8,
        'g' => 0x26u8,
        'h' => 0x27u8,
        'i' => 0x28u8,
        'j' => 0x29u8,
        'k' => 0x2Au8,
        'l' => 0x2Bu8,
        'm' => 0x2Cu8,
        'n' => 0x2Du8,
        'o' => 0x2Eu8,
        'p' => 0x2Fu8,
        'q' => 0x30u8,
        'r' => 0x31u8,
        's' => 0x32u8,
        't' => 0x33u8,
        'u' => 0x35u8,
        'v' => 0x36u8,
        'w' => 0x37u8,
        'x' => 0x38u8,
        'y' => 0x39u8,
        'z' => 0x3Au8,
        '!' => 0x3Bu8,
        '?' => 0x3Cu8,
        '|' => 0x3Du8,
        '&' => 0x3Eu8,
        '#' => 0x3Fu8,
        '0' => 0x40u8,
        '1' => 0x41u8,
        '2' => 0x42u8,
        '3' => 0x43u8,
        '4' => 0x44u8,
        '5' => 0x45u8,
        '6' => 0x46u8,
        '7' => 0x47u8,
        '8' => 0x48u8,
        '9' => 0x49u8,
        '/' => 0x4Au8,
        '\\' => 0x4Bu8,
        '~' => 0x4Cu8,
        '_' => 0x4Du8,
        '-' => 0x4Eu8,
        '+' => 0x4Fu8,
        '*' => 0x50u8,
        '.' => 0x51u8,
        ',' => 0x52u8,
        ';' => 0x53u8,
        '=' => 0x54u8,
        '%' => 0x55u8,
        '{' => 0x56u8,
        '}' => 0x57u8,
        ':' => 0x58u8,
        '"' => 0x59u8,
        '\'' => 0x5Au8,
        '\u{25A0}' => 0x5Cu8,
        _ => UNKNOWN_CODE,
    }
}

/// The glyph id that stands for a text: that of its single character,
/// or `UNKNOWN_CODE` when the text is empty or longer than one character.
pub open spec fn code_of_text(text: Seq<char>) -> u8 {
    if text.len() == 1 {
        code_of(text[0])
    } else {
        UNKNOWN_CODE
    }
}

/// The text drawn for a sequence of glyph ids, in order.
pub open spec fn glyphs_text(ids: Seq<u8>) -> Seq<char>
    decreases ids.len(),
{
    if ids.len() == 0 {
        Seq::<char>::empty()
    } else {
        glyphs_text(ids.drop_last()) + glyph(ids.last())
    }
}

/// The glyph of an id as a string slice.
pub fn glyph_str(id: u8) -> (s: &'static str)
    ensures
        s@ == glyph(id),
{
    match id {
        0x00 => { proof { reveal_strlit("A"); } "A" }
        0x01 => { proof { reveal_strlit("B"); } "B" }
        0x02 => { proof { reveal_strlit("C"); } "C" }
        0x03 => { proof { reveal_strlit("D"); } "D" }
        0x04 => { proof { reveal_strlit("E"); } "E" }
        0x05 => { proof { reveal_strlit("F"); } "F" }
        0x06 => { proof { reveal_strlit("G"); } "G" }
        0x07 => { proof { reveal_strlit("H"); } "H" }
        0x08 => { proof { reveal_strlit("I"); } "I" }
        0x09 => { proof { reveal_strlit("J"); } "J" }
        0x0A => { proof { reveal_strlit("K"); } "K" }
        0x0B => { proof { reveal_strlit("L"); } "L" }
        0x0C => { proof { reveal_strlit("M"); } "M" }
        0x0D => { proof { reveal_strlit("N"); } "N" }
        0x0E => { proof { reveal_strlit("O"); } "O" }
        0x0F => { proof { reveal_strlit("P"); } "P" }
        0x10 => { proof { reveal_strlit("Q"); } "Q" }
        0x11 => { proof { reveal_strlit("R"); } "R" }
        0x12 => { proof { reveal_strlit("S"); } "S" }
        0x13 => { proof { reveal_strlit("T"); } "T" }
        0x14 => { proof { reveal_strlit("U"); } "U" }
        0x15 => { proof { reveal_strlit("V"); } "V" }
        0x16 => { proof { reveal_strlit("W"); } "W" }
        0x17 => { proof { reveal_strlit("X"); } "X" }
        0x18 => { proof { reveal_strlit("Y"); } "Y" }
        0x19 => { proof { reveal_strlit("Z"); } "Z" }
        0x1A => { proof { reveal_strlit("<"); } "<" }
        0x1B => { proof { reveal_strlit(">"); } ">" }
        0x1C => { proof { reveal_strlit("("); } "(" }
        0x1D => { proof { reveal_strlit(")"); } ")" }
        0x1E => { proof { reveal_strlit("["); } "[" }
        0x1F => { proof { reveal_strlit("]"); } "]" }
        0x20 => { proof { reveal_strlit("a"); } "a" }
        0x21 => { proof { reveal_strlit("b"); } "b" }
        0x22 => { proof { reveal_strlit("c"); } "c" }
        0x23 => { proof { reveal_strlit("d"); } "d" }
        0x24 => { proof { reveal_strlit("e"); } "e" }
        0x25 => { proof { reveal_strlit("f"); } "f" }
        0x26 => { proof { reveal_strlit("g"); } "g" }
        0x27 => { proof { reveal_strlit("h"); } "h" }
        0x28 => { proof { reveal_strlit("i"); } "i" }
        0x29 => { proof { reveal_strlit("j"); } "j" }
        0x2A => { proof { reveal_strlit("k"); } "k" }
        0x2B => { proof { reveal_strlit("l"); } "l" }
        0x2C => { proof { reveal_strlit("m"); } "m" }
        0x2D => { proof { reveal_strlit("n"); } "n" }
        0x2E => { proof { reveal_strlit("o"); } "o" }
        0x2F => { proof { reveal_strlit("p"); } "p" }
        0x30 => { proof { reveal_strlit("q"); } "q" }
        0x31 => { proof { reveal_strlit("r"); } "r" }
        0x32 => { proof { reveal_strlit("s"); } "s" }
        0x33 => { proof { reveal_strlit("t"); } "t" }
        0x35 => { proof { reveal_strlit("u"); } "u" }
        0x36 => { proof { reveal_strlit("v"); } "v" }
        0x37 => { proof { reveal_strlit("w"); } "w" }
        0x38 => { proof { reveal_strlit("x"); } "x" }
        0x39 => { proof { reveal_strlit("y"); } "y" }
        0x3A => { proof { reveal_strlit("z"); } "z" }
        0x3B => { proof { reveal_strlit("!"); } "!" }
        0x3C => { proof { reveal_strlit("?"); } "?" }
        0x3D => { proof { reveal_strlit("|"); } "|" }
        0x3E => { proof { reveal_strlit("&"); } "&" }
        0x3F => { proof { reveal_strlit("#"); } "#" }
        0x40 => { proof { reveal_strlit("0"); } "0" }
        0x41 => { proof { reveal_strlit("1"); } "1" }
        0x42 => { proof { reveal_strlit("2"); } "2" }
        0x43 => { proof { reveal_strlit("3"); } "3" }
        0x44 => { proof { reveal_strlit("4"); } "4" }
        0x45 => { proof { reveal_strlit("5"); } "5" }
        0x46 => { proof { reveal_strlit("6"); } "6" }
        0x47 => { proof { reveal_strlit("7"); } "7" }
        0x48 => { proof { reveal_strlit("8"); } "8" }
        0x49 => { proof { reveal_strlit("9"); } "9" }
        0x4A => { proof { reveal_strlit("/"); } "/" }
        0x4B => { proof { reveal_strlit("\\"); } "\\" }
        0x4C => { proof { reveal_strlit("~"); } "~" }
        0x4D => { proof { reveal_strlit("_"); } "_" }
        0x4E => { proof { reveal_strlit("-"); } "-" }
        0x4F => { proof { reveal_strlit("+"); } "+" }
        0x50 => { proof { reveal_strlit("*"); } "*" }
        0x51 => { proof { reveal_strlit("."); } "." }
        0x52 => { proof { reveal_strlit(","); } "," }
        0x53 => { proof { reveal_strlit(";"); } ";" }
        0x54 => { proof { reveal_strlit("="); } "=" }
        0x55 => { proof { reveal_strlit("%"); } "%" }
        0x56 => { proof { reveal_strlit("{"); } "{" }
        0x57 => { proof { reveal_strlit("}"); } "}" }
        0x58 => { proof { reveal_strlit(":"); } ":" }
        0x59 => { proof { reveal_strlit("\""); } "\"" }
        0x5A => { proof { reveal_strlit("'"); } "'" }
        0x5B => { proof { reveal_strlit(" "); } " " }
        0x5C => { proof { reveal_strlit(""); } "" }
        0x5D => { proof { reveal_strlit(""); } "" }
        0x5E => { proof { reveal_strlit(""); } "" }
        0x5F => { proof { reveal_strlit(""); } "" }
        _ => { proof { reveal_strlit("\u{25AF}"); } "\u{25AF}" }
    }
}

/// Decodes a glyph id into the text it draws. An id without a glyph decodes
/// to the unknown glyph.
pub fn id_to_str(id: u8) -> (s: String)
    ensures
        s@ == glyph(id),
        !is_assigned(id) ==> s@ == seq![UNKNOWN_GLYPH],
{
    String::from_str(glyph_str(id))
}

/// Encodes one character as its glyph id, or `UNKNOWN_CODE`.
pub fn char_code(c: char) -> (id: u8)
    ensures
        id == code_of(c),
{
    match c {
        '\u{3B1}' => 0x5B,
        'A' => 0x00,
        'B' => 0x01,
        'C' => 0x02,
        'D' => 0x03,
        'E' => 0x04,
        'F' => 0x05,
        'G' => 0x06,
        'H' => 0x07,
        'I' => 0x08,
        'J' => 0x09,
        'K' => 0x0A,
        'L' => 0x0B,
        'M' => 0x0C,
        'N' => 0x0D,
        'O' => 0x0E,
        'P' => 0x0F,
        'Q' => 0x10,
        'R' => 0x11,
        'S' => 0x12,
        'T' => 0x13,
        'U' => 0x14,
        'V' => 0x15,
        'W' => 0x16,
        'X' => 0x17,
        'Y' => 0x18,
        'Z' => 0x19,
        '<' => 0x1A,
        '>' => 0x1B,
        '(' => 0x1C,
        ')' => 0x1D,
        '[' => 0x1E,
        ']' => 0x1F,
        'a' => 0x20,
        'b' => 0x21,
        'c' => 0x22,
        'd' => 0x23,
        'e' => 0x24,
        'f' => 0x25,
        'g' => 0x26,
        'h' => 0x27,
        'i' => 0x28,
        'j' => 0x29,
        'k' => 0x2A,
        'l' => 0x2B,
        'm' => 0x2C,
        'n' => 0x2D,
        'o' => 0x2E,
        'p' => 0x2F,
        'q' => 0x30,
        'r' => 0x31,
        's' => 0x32,
        't' => 0x33,
        'u' => 0x35,
        'v' => 0x36,
        'w' => 0x37,
        'x' => 0x38,
        'y' => 0x39,
        'z' => 0x3A,
        '!' => 0x3B,
        '?' => 0x3C,
        '|' => 0x3D,
        '&' => 0x3E,
        '#' => 0x3F,
        '0' => 0x40,
        '1' => 0x41,
        '2' => 0x42,
        '3' => 0x43,
        '4' => 0x44,
        '5' => 0x45,
        '6' => 0x46,
        '7' => 0x47,
        '8' => 0x48,
        '9' => 0x49,
        '/' => 0x4A,
        '\\' => 0x4B,
        '~' => 0x4C,
        '_' => 0x4D,
        '-' => 0x4E,
        '+' => 0x4F,
        '*' => 0x50,
        '.' => 0x51,
        ',' => 0x52,
        ';' => 0x53,
        '=' => 0x54,
        '%' => 0x55,
        '{' => 0x56,
        '}' => 0x57,
        ':' => 0x58,
        '"' => 0x59,
        '\'' => 0x5A,
        '\u{25A0}' => 0x5C,
        _ => UNKNOWN_CODE,
    }
}

/// Encodes a text as a glyph id. Only a text of exactly one known character
/// has one; everything else encodes to `UNKNOWN_CODE`.
pub fn char_to_id(text: &str) -> (id: u8)
    ensures
        id == code_of_text(text@),
{
    if text.unicode_len() == 1 {
        char_code(text.get_char(0))
    } else {
        UNKNOWN_CODE
    }
}

/// Decoding never fails: an id without a glyph of its own draws the unknown glyph.
pub proof fn lemma_unassigned_draws_unknown(id: u8)
    requires
        !is_assigned(id),
    ensures
        glyph(id) == seq![UNKNOWN_GLYPH],
{
}

/// Every id that draws a character other than the space is recovered by
/// encoding the text it draws.
pub proof fn lemma_encode_inverts_decode(id: u8)
    requires
        is_assigned(id),
        id < 0x5B,
    ensures
        glyph(id).len() == 1,
        code_of_text(glyph(id)) == id,
{
}

/// Every character that has a code, other than the two that stand in for a
/// space and for the blank glyphs, is recovered by decoding its code.
pub proof fn lemma_decode_inverts_encode(c: char)
    requires
        code_of(c) != UNKNOWN_CODE,
        c != '\u{3B1}',
        c != '\u{25A0}',
    ensures
        glyph(code_of(c)) == seq![c],
{
}

/// The text of a sequence of ids extended by one id is the text of the
/// sequence followed by the glyph of that id.
pub proof fn lemma_glyphs_text_push(ids: Seq<u8>, id: u8)
    ensures
        glyphs_text(ids.push(id)) == glyphs_text(ids) + glyph(id),
{
    assert(ids.push(id).drop_last() =~= ids);
}

} // verus!
