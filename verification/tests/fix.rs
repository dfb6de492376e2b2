use keycast::fix::{decide_fix, is_fix_request, FixAction, FIX_REQUEST};
use keycast::mapper::Direction;

#[test]
fn fix_request_byte() {
    assert!(is_fix_request(FIX_REQUEST));
    assert!(is_fix_request(0x01));
    assert!(!is_fix_request(0x00));
    assert!(!is_fix_request(0x02));
}

#[test]
fn empty_clipboard_is_not_fixed() {
    assert!(matches!(decide_fix(""), FixAction::EmptyClipboard));
}

#[test]
fn gibberish_is_replaced() {
    match decide_fix("ghbdsn") {
        FixAction::Replace(dir, fixed) => {
            assert_eq!(dir, Direction::FaroeseToUkrainian);
            assert_eq!(fixed, "привіт");
        }
        _ => panic!("expected a replacement"),
    }
    match decide_fix("руддщ") {
        FixAction::Replace(dir, fixed) => {
            assert_eq!(dir, Direction::UkrainianToFaroese);
            assert_eq!(fixed, "hello");
        }
        _ => panic!("expected a replacement"),
    }
}

#[test]
fn text_without_layout_characters_is_left_alone() {
    match decide_fix("1234 ?") {
        FixAction::Unchanged(dir) => assert_eq!(dir, Direction::FaroeseToUkrainian),
        _ => panic!("expected no change"),
    }
}
