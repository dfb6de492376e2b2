use keycast::keyboard::{ctrl_chord, supported_keys, KeyEvent, EV_KEY, KEY_C, KEY_LEFTCTRL, KEY_V};

#[test]
fn supported_keys_list() {
    let keys = supported_keys();
    assert_eq!(keys.len(), 37);
    assert_eq!(&keys[..4], &[29, 46, 47, 13]);
    for code in [16u16, 27, 30, 40, 43, 44, 52] {
        assert!(keys.contains(&code));
    }
    assert!(!keys.contains(&28));
    assert!(!keys.contains(&53));
}

#[test]
fn ctrl_c_chord() {
    let (press, release) = ctrl_chord(KEY_C);
    assert_eq!(
        press,
        [
            KeyEvent { kind: EV_KEY, code: KEY_LEFTCTRL, value: 1 },
            KeyEvent { kind: EV_KEY, code: 46, value: 1 },
        ]
    );
    assert_eq!(
        release,
        [
            KeyEvent { kind: EV_KEY, code: 46, value: 0 },
            KeyEvent { kind: EV_KEY, code: 29, value: 0 },
        ]
    );
}

#[test]
fn ctrl_v_chord() {
    let (press, release) = ctrl_chord(KEY_V);
    assert_eq!(press[1], KeyEvent { kind: 1, code: 47, value: 1 });
    assert_eq!(release[0], KeyEvent { kind: 1, code: 47, value: 0 });
    assert_eq!(release[1].code, KEY_LEFTCTRL);
}
