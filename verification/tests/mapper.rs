use keycast::layout::{
    char_to_fo_strokes, char_to_ua_strokes, compose_acute, compose_diaeresis, compose_fo_accent,
    is_fo_accent_key, stroke_to_fo, stroke_to_ua,
};
use keycast::mapper::{Direction, LayoutMapper};
use keycast::stroke::{KeyStroke, StrokeSeq};

fn ks(code: u16, shift: bool) -> KeyStroke {
    KeyStroke::new(code, shift)
}

#[test]
fn key_stroke_new_keeps_fields() {
    let k = KeyStroke::new(30, true);
    assert_eq!(k.code, 30);
    assert!(k.shift);
}

#[test]
fn stroke_seq_single_pads_second_slot() {
    let s = StrokeSeq::single(ks(16, false));
    assert_eq!(s.len, 1);
    assert_eq!(s.strokes[0], ks(16, false));
    assert_eq!(s.strokes[1], ks(0, false));
}

#[test]
fn stroke_seq_double_holds_both() {
    let s = StrokeSeq::double(ks(13, false), ks(30, true));
    assert_eq!(s.len, 2);
    assert_eq!(s.strokes, [ks(13, false), ks(30, true)]);
}

#[test]
fn readme_latin_gibberish_becomes_ukrainian() {
    assert_eq!(LayoutMapper::detect_direction("ghbdsn"), Direction::FaroeseToUkrainian);
    assert_eq!(LayoutMapper::translate("ghbdsn", Direction::FaroeseToUkrainian), "привіт");
}

#[test]
fn readme_cyrillic_gibberish_becomes_latin() {
    assert_eq!(LayoutMapper::detect_direction("руддщ"), Direction::UkrainianToFaroese);
    assert_eq!(LayoutMapper::translate("руддщ", Direction::UkrainianToFaroese), "hello");
}

#[test]
fn detect_direction_majority_vote() {
    // five Faroese letters against three Ukrainian ones
    assert_eq!(LayoutMapper::detect_direction("hello мир"), Direction::FaroeseToUkrainian);
    // six Ukrainian letters against two Faroese ones
    assert_eq!(LayoutMapper::detect_direction("ok привіт"), Direction::UkrainianToFaroese);
}

#[test]
fn detect_direction_tie_and_empty_go_faroese_to_ukrainian() {
    assert_eq!(LayoutMapper::detect_direction("ab вг"), Direction::FaroeseToUkrainian);
    assert_eq!(LayoutMapper::detect_direction(""), Direction::FaroeseToUkrainian);
    assert_eq!(LayoutMapper::detect_direction("123 ?!"), Direction::FaroeseToUkrainian);
}

#[test]
fn detect_direction_counts_accented_faroese_letters() {
    assert_eq!(LayoutMapper::detect_direction("áé ж"), Direction::FaroeseToUkrainian);
}

#[test]
fn translate_keeps_characters_outside_the_source_layout() {
    assert_eq!(LayoutMapper::translate("1 2, 3!", Direction::FaroeseToUkrainian), "1 2, 3!");
    assert_eq!(LayoutMapper::translate("1 2, 3!", Direction::UkrainianToFaroese), "1 2, 3!");
    assert_eq!(LayoutMapper::translate("привіт", Direction::FaroeseToUkrainian), "привіт");
    assert_eq!(LayoutMapper::translate("hello", Direction::UkrainianToFaroese), "hello");
    assert_eq!(LayoutMapper::translate("", Direction::UkrainianToFaroese), "");
}

#[test]
fn translate_shift_gives_capitals() {
    assert_eq!(LayoutMapper::translate("Ghbdsn", Direction::FaroeseToUkrainian), "Привіт");
    assert_eq!(LayoutMapper::translate("Руддщ", Direction::UkrainianToFaroese), "Hello");
}

#[test]
fn translate_accented_letters_type_dead_key_and_base() {
    // acute dead key has no Ukrainian character, the base key types 'ф'
    assert_eq!(LayoutMapper::translate("á", Direction::FaroeseToUkrainian), "ф");
    // diaeresis dead key types 'ї', shifted base types 'Ф'
    assert_eq!(LayoutMapper::translate("Ä", Direction::FaroeseToUkrainian), "їФ");
    assert_eq!(LayoutMapper::translate("ö", Direction::FaroeseToUkrainian), "їщ");
}

#[test]
fn translate_dead_key_alone_types_itself() {
    assert_eq!(LayoutMapper::translate("ї", Direction::UkrainianToFaroese), "¨");
    assert_eq!(LayoutMapper::translate("Ї", Direction::UkrainianToFaroese), "^");
    assert_eq!(LayoutMapper::translate("¨", Direction::FaroeseToUkrainian), "ї");
}

#[test]
fn translate_drops_keys_without_faroese_character() {
    assert_eq!(LayoutMapper::translate("бю", Direction::UkrainianToFaroese), "");
    assert_eq!(LayoutMapper::translate("aбb", Direction::UkrainianToFaroese), "ab");
}

#[test]
fn translate_lone_acute_is_not_faroese() {
    assert_eq!(LayoutMapper::translate("´", Direction::FaroeseToUkrainian), "´");
    assert!(char_to_fo_strokes('´').is_none());
    assert_eq!(stroke_to_fo(ks(13, false)), Some('´'));
}

#[test]
fn round_trip_faroese_text() {
    let text = "Hello, World! 'quiz' *";
    let ua = LayoutMapper::translate(text, Direction::FaroeseToUkrainian);
    assert_eq!(ua, "Руддщ, Цщкдв! ґйгшяґ Ґ");
    assert_eq!(LayoutMapper::translate(&ua, Direction::UkrainianToFaroese), text);
}

#[test]
fn round_trip_ukrainian_text() {
    let text = "Привіт, світ";
    let fo = LayoutMapper::translate(text, Direction::UkrainianToFaroese);
    assert_eq!(fo, "Ghbdsn, cdsn");
    assert_eq!(LayoutMapper::translate(&fo, Direction::FaroeseToUkrainian), text);
}

#[test]
fn decompose_uses_source_layout() {
    let s = LayoutMapper::decompose('й', Direction::UkrainianToFaroese).unwrap();
    assert_eq!(s.len, 1);
    assert_eq!(s.strokes[0], ks(16, false));
    let s = LayoutMapper::decompose('Q', Direction::FaroeseToUkrainian).unwrap();
    assert_eq!(s.len, 1);
    assert_eq!(s.strokes[0], ks(16, true));
    let s = LayoutMapper::decompose('Ý', Direction::FaroeseToUkrainian).unwrap();
    assert_eq!(s.len, 2);
    assert_eq!(s.strokes, [ks(13, false), ks(21, true)]);
    assert!(LayoutMapper::decompose('й', Direction::FaroeseToUkrainian).is_none());
    assert!(LayoutMapper::decompose('q', Direction::UkrainianToFaroese).is_none());
}

#[test]
fn synthesize_uses_target_layout() {
    assert_eq!(LayoutMapper::synthesize(ks(16, false), Direction::FaroeseToUkrainian), Some('й'));
    assert_eq!(LayoutMapper::synthesize(ks(16, false), Direction::UkrainianToFaroese), Some('q'));
    assert_eq!(LayoutMapper::synthesize(ks(52, true), Direction::FaroeseToUkrainian), Some('Ю'));
    assert_eq!(LayoutMapper::synthesize(ks(52, true), Direction::UkrainianToFaroese), None);
    assert_eq!(LayoutMapper::synthesize(ks(0, false), Direction::FaroeseToUkrainian), None);
}

#[test]
fn key_tables() {
    assert_eq!(stroke_to_ua(ks(31, false)), Some('і'));
    assert_eq!(stroke_to_ua(ks(43, true)), Some('Ґ'));
    assert_eq!(stroke_to_ua(ks(13, false)), None);
    assert_eq!(stroke_to_fo(ks(43, false)), Some('\''));
    assert_eq!(stroke_to_fo(ks(43, true)), Some('*'));
    assert_eq!(stroke_to_fo(ks(13, true)), None);
    assert_eq!(stroke_to_fo(ks(51, false)), None);
}

#[test]
fn char_tables() {
    let s = char_to_ua_strokes('Ґ').unwrap();
    assert_eq!((s.len, s.strokes[0]), (1, ks(43, true)));
    assert!(char_to_ua_strokes('g').is_none());
    let s = char_to_fo_strokes('ÿ').unwrap();
    assert_eq!(s.strokes, [ks(27, false), ks(21, false)]);
    let s = char_to_fo_strokes('^').unwrap();
    assert_eq!((s.len, s.strokes[0]), (1, ks(27, true)));
    assert!(char_to_fo_strokes('ж').is_none());
}

#[test]
fn dead_keys_and_composition() {
    assert!(is_fo_accent_key(ks(13, false)));
    assert!(is_fo_accent_key(ks(27, false)));
    assert!(!is_fo_accent_key(ks(27, true)));
    assert!(!is_fo_accent_key(ks(30, false)));
    assert_eq!(compose_fo_accent(ks(13, false), ks(24, false)), Some('ó'));
    assert_eq!(compose_fo_accent(ks(27, false), ks(22, true)), Some('Ü'));
    assert_eq!(compose_fo_accent(ks(27, true), ks(22, true)), None);
    assert_eq!(compose_fo_accent(ks(30, false), ks(22, true)), None);
    assert_eq!(compose_fo_accent(ks(13, false), ks(16, false)), None);
    assert_eq!(compose_acute(ks(23, true)), Some('Í'));
    assert_eq!(compose_diaeresis(ks(18, false)), Some('ë'));
    assert_eq!(compose_diaeresis(ks(19, false)), None);
}

#[test]
fn translate_dead_key_recomposes_across_characters() {
    assert_eq!(LayoutMapper::translate("їф", Direction::UkrainianToFaroese), "ä");
    assert_eq!(LayoutMapper::translate("ЇФ", Direction::UkrainianToFaroese), "^A");
    assert_eq!(LayoutMapper::translate("Їф", Direction::UkrainianToFaroese), "^a");
    assert_eq!(LayoutMapper::translate("їЩ", Direction::UkrainianToFaroese), "Ö");
    assert_eq!(LayoutMapper::translate("їк", Direction::UkrainianToFaroese), "¨r");
    assert_eq!(LayoutMapper::translate("її", Direction::UkrainianToFaroese), "¨¨");
    assert_eq!(LayoutMapper::translate("їїф", Direction::UkrainianToFaroese), "¨ä");
}

#[test]
fn translate_dead_key_types_itself_before_foreign_characters_and_at_the_end() {
    assert_eq!(LayoutMapper::translate("ї1ф", Direction::UkrainianToFaroese), "¨1a");
    assert_eq!(LayoutMapper::translate("ї ф", Direction::UkrainianToFaroese), "¨ a");
    assert_eq!(LayoutMapper::translate("фї", Direction::UkrainianToFaroese), "a¨");
    assert_eq!(LayoutMapper::translate("їб", Direction::UkrainianToFaroese), "¨");
}

#[test]
fn round_trip_ukrainian_text_with_dead_key() {
    let text = "їфа їк";
    let fo = LayoutMapper::translate(text, Direction::UkrainianToFaroese);
    assert_eq!(fo, "äf ¨r");
    assert_eq!(LayoutMapper::translate(&fo, Direction::FaroeseToUkrainian), text);
}

#[test]
fn converting_twice_is_converting_once() {
    for (text, dir) in [
        ("ghbdsn, руддщ!", Direction::FaroeseToUkrainian),
        ("ghbdsn, руддщ!", Direction::UkrainianToFaroese),
        ("áö їф", Direction::FaroeseToUkrainian),
        ("áö їф", Direction::UkrainianToFaroese),
    ] {
        let once = LayoutMapper::translate(text, dir);
        assert_eq!(LayoutMapper::translate(&once, dir), once);
    }
}

#[test]
fn converted_text_is_detected_the_other_way() {
    let ua = LayoutMapper::translate("hello мир", Direction::FaroeseToUkrainian);
    assert_eq!(LayoutMapper::detect_direction(&ua), Direction::UkrainianToFaroese);
    let fo = LayoutMapper::translate("hello мир", Direction::UkrainianToFaroese);
    assert_eq!(LayoutMapper::detect_direction(&fo), Direction::FaroeseToUkrainian);
}

#[test]
fn reordering_keeps_direction() {
    assert_eq!(
        LayoutMapper::detect_direction("abc жд"),
        LayoutMapper::detect_direction("жaдbc ")
    );
    assert_eq!(
        LayoutMapper::detect_direction("жд ab"),
        LayoutMapper::detect_direction("a жbд ")
    );
}
