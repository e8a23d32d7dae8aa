use fantasy_vm::codec::{char_code, char_to_id, glyph_str, id_to_str, UNKNOWN_CODE, UNKNOWN_GLYPH};

#[test]
fn encode_a_then_decode_gives_a() {
    let id = char_to_id("A");
    assert_eq!(id, 0);
    assert_eq!(id_to_str(id), "A");
}

#[test]
fn decode_unassigned_id_gives_unknown_glyph() {
    assert_eq!(id_to_str(0x60), "\u{25AF}");
    assert_eq!(id_to_str(0xF0), "\u{25AF}");
    assert_eq!(id_to_str(0xFF), "\u{25AF}");
    assert_eq!(id_to_str(0x34), "\u{25AF}");
    assert_eq!(id_to_str(0x80), UNKNOWN_GLYPH.to_string());
}

#[test]
fn decode_letters_digits_and_punctuation() {
    assert_eq!(id_to_str(0x19), "Z");
    assert_eq!(id_to_str(0x1A), "<");
    assert_eq!(id_to_str(0x1F), "]");
    assert_eq!(id_to_str(0x20), "a");
    assert_eq!(id_to_str(0x33), "t");
    assert_eq!(id_to_str(0x35), "u");
    assert_eq!(id_to_str(0x3A), "z");
    assert_eq!(id_to_str(0x3F), "#");
    assert_eq!(id_to_str(0x40), "0");
    assert_eq!(id_to_str(0x49), "9");
    assert_eq!(id_to_str(0x4B), "\\");
    assert_eq!(id_to_str(0x59), "\"");
    assert_eq!(id_to_str(0x5A), "'");
    assert_eq!(id_to_str(0x5B), " ");
}

#[test]
fn blank_glyphs_draw_nothing() {
    for id in 0x5Cu8..=0x5F {
        assert_eq!(id_to_str(id), "");
    }
}

#[test]
fn encode_unknown_text_gives_unknown_code() {
    assert_eq!(UNKNOWN_CODE, 0b1111_0000);
    assert_eq!(char_to_id("@"), UNKNOWN_CODE);
    assert_eq!(char_to_id(""), UNKNOWN_CODE);
    assert_eq!(char_to_id("AB"), UNKNOWN_CODE);
    assert_eq!(char_to_id(" "), UNKNOWN_CODE);
    assert_eq!(char_to_id("\u{25AF}"), UNKNOWN_CODE);
    assert_eq!(char_to_id("\u{B0}"), UNKNOWN_CODE);
}

#[test]
fn encode_stand_ins() {
    assert_eq!(char_to_id("\u{3B1}"), 0x5B);
    assert_eq!(char_to_id("\u{25A0}"), 0x5C);
}

#[test]
fn every_character_glyph_round_trips() {
    for id in 0u8..0x5B {
        if id == 0x34 {
            continue;
        }
        let text = id_to_str(id);
        assert_eq!(text.chars().count(), 1);
        assert_eq!(char_to_id(&text), id);
        assert_eq!(char_code(text.chars().next().unwrap()), id);
    }
}

#[test]
fn glyph_str_agrees_with_id_to_str() {
    for id in 0u8..=255 {
        assert_eq!(glyph_str(id), id_to_str(id));
    }
}
