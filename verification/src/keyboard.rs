use vstd::prelude::*;

use crate::layout::{key_char, Layout};
use crate::stroke::KeyStroke;

verus! {

/// evdev event type of key events.
pub const EV_KEY: u16 = 0x01;

pub const KEY_LEFTCTRL: u16 = 29;

pub const KEY_C: u16 = 46;

pub const KEY_V: u16 = 47;

/// A key event for the virtual keyboard: event type, key code and value
/// (1 for press, 0 for release).
#[derive(Clone, Copy, Debug, PartialEq, Eq, Structural)]
pub struct KeyEvent {
    pub kind: u16,
    pub code: u16,
    pub value: i32,
}

/// The key codes the virtual keyboard declares.
pub open spec fn supported_key_codes() -> Seq<u16> {
    seq![
        KEY_LEFTCTRL, KEY_C, KEY_V,
        13,
        16, 17, 18, 19, 20, 21, 22, 23, 24, 25, 26, 27,
        30, 31, 32, 33, 34, 35, 36, 37, 38, 39, 40, 43,
        44, 45, 46, 47, 48, 49, 50, 51, 52,
    ]
}

/// The key codes the virtual keyboard declares: Ctrl, C and V, and every key
/// of the two layouts.
pub fn supported_keys() -> (r: Vec<u16>)
    ensures
        r@ == supported_key_codes(),
{
    let r: Vec<u16> = vec![
        KEY_LEFTCTRL, KEY_C, KEY_V,
        13,
        16, 17, 18, 19, 20, 21, 22, 23, 24, 25, 26, 27,
        30, 31, 32, 33, 34, 35, 36, 37, 38, 39, 40, 43,
        44, 45, 46, 47, 48, 49, 50, 51, 52,
    ];
    assert(r@ =~= supported_key_codes());
    r
}

/// Every key that types something on either layout is declared by the
/// virtual keyboard.
pub proof fn layout_keys_are_supported(layout: Layout, k: KeyStroke)
    requires
        key_char(layout, k) is Some,
    ensures
        supported_key_codes().contains(k.code),
{
    let codes = supported_key_codes();
    let i: int = if k.code == 13 {
        3
    } else if 16 <= k.code <= 27 {
        k.code - 12
    } else if 30 <= k.code <= 40 {
        k.code - 14
    } else if k.code == 43 {
        27
    } else {
        k.code - 16
    };
    assert(codes[i] == k.code);
}

/// The events that press Ctrl together with `key`, and the events that
/// release them again (`key` first, then Ctrl).
pub fn ctrl_chord(key: u16) -> (r: ([KeyEvent; 2], [KeyEvent; 2]))
    ensures
        r.0@ == seq![
            KeyEvent { kind: EV_KEY, code: KEY_LEFTCTRL, value: 1 },
            KeyEvent { kind: EV_KEY, code: key, value: 1 },
        ],
        r.1@ == seq![
            KeyEvent { kind: EV_KEY, code: key, value: 0 },
            KeyEvent { kind: EV_KEY, code: KEY_LEFTCTRL, value: 0 },
        ],
{
    let press = [
        KeyEvent { kind: EV_KEY, code: KEY_LEFTCTRL, value: 1 },
        KeyEvent { kind: EV_KEY, code: key, value: 1 },
    ];
    let release = [
        KeyEvent { kind: EV_KEY, code: key, value: 0 },
        KeyEvent { kind: EV_KEY, code: KEY_LEFTCTRL, value: 0 },
    ];
    assert(press@ =~= seq![
        KeyEvent { kind: EV_KEY, code: KEY_LEFTCTRL, value: 1 },
        KeyEvent { kind: EV_KEY, code: key, value: 1 },
    ]);
    assert(release@ =~= seq![
        KeyEvent { kind: EV_KEY, code: key, value: 0 },
        KeyEvent { kind: EV_KEY, code: KEY_LEFTCTRL, value: 0 },
    ]);
    (press, release)
}

} // verus!
