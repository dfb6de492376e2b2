use vstd::prelude::*;

use crate::layout::{
    acute_dead_key, fo_char, fo_compose, fo_typing, is_dead_key, keys_for, spells, typeable,
    typing, ua_char, ua_typing, Layout,
};
use crate::stroke::KeyStroke;

verus! {

proof fn lemma_ua_key_unique(k1: KeyStroke, k2: KeyStroke, c: char)
    requires
        ua_char(k1) == Some(c),
        ua_char(k2) == Some(c),
    ensures
        k1 == k2,
{
}

proof fn lemma_fo_key_unique(k1: KeyStroke, k2: KeyStroke, c: char)
    requires
        fo_char(k1) == Some(c),
        fo_char(k2) == Some(c),
    ensures
        k1 == k2,
{
}

proof fn lemma_fo_compose_unique(d1: KeyStroke, b1: KeyStroke, d2: KeyStroke, b2: KeyStroke, c: char)
    requires
        fo_compose(d1, b1) == Some(c),
        fo_compose(d2, b2) == Some(c),
    ensures
        d1 == d2,
        b1 == b2,
{
}

proof fn lemma_fo_key_not_composed(k: KeyStroke, dead: KeyStroke, base: KeyStroke, c: char)
    requires
        fo_char(k) == Some(c),
    ensures
        fo_compose(dead, base) != Some(c),
{
}

/// Every character has at most one spelling on a layout: the keys that type
/// it are determined by the character.
pub proof fn spelling_is_unique(layout: Layout, a: Seq<KeyStroke>, b: Seq<KeyStroke>, c: char)
    requires
        spells(layout, a, c),
        spells(layout, b, c),
    ensures
        a == b,
{
    match layout {
        Layout::Ukrainian => {
            lemma_ua_key_unique(a[0], b[0], c);
            assert(a =~= b);
        },
        Layout::Faroese => {
            if a.len() == 1 && b.len() == 1 {
                lemma_fo_key_unique(a[0], b[0], c);
                assert(a =~= b);
            } else if a.len() == 2 && b.len() == 2 {
                lemma_fo_compose_unique(a[0], a[1], b[0], b[1], c);
                assert(a =~= b);
            } else if a.len() == 1 {
                lemma_fo_key_not_composed(a[0], b[0], b[1], c);
            } else {
                lemma_fo_key_not_composed(b[0], a[0], a[1], c);
            }
        },
    }
}

/// The keys that spell a character are the ones `keys_for` names.
pub proof fn spelled_keys_are_keys_for(layout: Layout, keys: Seq<KeyStroke>, c: char)
    requires
        spells(layout, keys, c),
    ensures
        typeable(layout, c),
        keys_for(layout, c) == keys,
{
    assert(typeable(layout, c));
    spelling_is_unique(layout, keys_for(layout, c), keys, c);
}

/// No character belongs to both layouts.
pub proof fn layouts_are_disjoint(c: char)
    ensures
        !(typeable(Layout::Ukrainian, c) && typeable(Layout::Faroese, c)),
{
    if typeable(Layout::Ukrainian, c) && typeable(Layout::Faroese, c) {
        let u = choose|keys: Seq<KeyStroke>| spells(Layout::Ukrainian, keys, c);
        let f = choose|keys: Seq<KeyStroke>| spells(Layout::Faroese, keys, c);
        assert(ua_char(u[0]) == Some(c));
        if f.len() == 1 {
            assert(fo_char(f[0]) == Some(c));
        } else {
            assert(fo_compose(f[0], f[1]) == Some(c));
        }
    }
}

/// Typing a character's keys on its own layout gives back exactly that
/// character (dead keys included).
pub proof fn typing_spelled_keys_gives_char(layout: Layout, keys: Seq<KeyStroke>, c: char)
    requires
        spells(layout, keys, c),
    ensures
        typing(layout, keys) == seq![c],
{
    match layout {
        Layout::Ukrainian => {
            reveal_with_fuel(ua_typing, 2);
            assert(keys.drop_first() =~= Seq::<KeyStroke>::empty());
            assert(ua_typing(keys) =~= seq![c]);
        },
        Layout::Faroese => {
            reveal_with_fuel(fo_typing, 3);
            if keys.len() == 1 {
                assert(keys.drop_first() =~= Seq::<KeyStroke>::empty());
                assert(fo_typing(None, keys) =~= seq![c]);
            } else {
                let rest = keys.drop_first();
                assert(rest =~= seq![keys[1]]);
                assert(rest.drop_first() =~= Seq::<KeyStroke>::empty());
                assert(is_dead_key(keys[0]));
                assert(fo_typing(Some(keys[0]), rest) =~= seq![c]);
                assert(fo_typing(None, keys) =~= seq![c]);
            }
        },
    }
}


// ---- the layouts as rows of keys

/// The character at position `i` of a keyboard row, if the row is that long.
pub open spec fn row_char(row: Seq<char>, i: int) -> Option<char> {
    if 0 <= i < row.len() {
        Some(row[i])
    } else {
        None
    }
}

/// The character that the key with `code` types, on a keyboard whose rows are
/// given as (code of the row's first key, characters of the row left to right);
/// the keys of a row have consecutive codes.
pub open spec fn rows_char(rows: Seq<(int, Seq<char>)>, code: int) -> Option<char>
    decreases rows.len(),
{
    if rows.len() == 0 {
        None
    } else if rows[0].0 <= code < rows[0].0 + rows[0].1.len() {
        row_char(rows[0].1, code - rows[0].0)
    } else {
        rows_char(rows.drop_first(), code)
    }
}

/// The Faroese layout as printed on the keyboard, without and with Shift:
/// the acute dead key (13), the top row q w e r t y u i o p å ¨ (from 16), the
/// home row a s d f g h j k l æ ø (from 30), the extra key ' (43) and the
/// bottom row z x c v b n m (from 44).
pub open spec fn faroese_rows(shift: bool) -> Seq<(int, Seq<char>)> {
    if shift {
        seq![
            (16, seq!['Q', 'W', 'E', 'R', 'T', 'Y', 'U', 'I', 'O', 'P', 'Å', '^']),
            (30, seq!['A', 'S', 'D', 'F', 'G', 'H', 'J', 'K', 'L', 'Æ', 'Ø']),
            (43, seq!['*']),
            (44, seq!['Z', 'X', 'C', 'V', 'B', 'N', 'M']),
        ]
    } else {
        seq![
            (13, seq!['´']),
            (16, seq!['q', 'w', 'e', 'r', 't', 'y', 'u', 'i', 'o', 'p', 'å', '¨']),
            (30, seq!['a', 's', 'd', 'f', 'g', 'h', 'j', 'k', 'l', 'æ', 'ø']),
            (43, seq!['\'']),
            (44, seq!['z', 'x', 'c', 'v', 'b', 'n', 'm']),
        ]
    }
}

/// The Ukrainian layout as printed on the keyboard, without and with Shift:
/// the top row й ц у к е н г ш щ з х ї (from 16), the home row
/// ф і в а п р о л д ж є (from 30), the extra key ґ (43) and the bottom row
/// я ч с м и т ь б ю (from 44).
pub open spec fn ukrainian_rows(shift: bool) -> Seq<(int, Seq<char>)> {
    if shift {
        seq![
            (16, seq!['Й', 'Ц', 'У', 'К', 'Е', 'Н', 'Г', 'Ш', 'Щ', 'З', 'Х', 'Ї']),
            (30, seq!['Ф', 'І', 'В', 'А', 'П', 'Р', 'О', 'Л', 'Д', 'Ж', 'Є']),
            (43, seq!['Ґ']),
            (44, seq!['Я', 'Ч', 'С', 'М', 'И', 'Т', 'Ь', 'Б', 'Ю']),
        ]
    } else {
        seq![
            (16, seq!['й', 'ц', 'у', 'к', 'е', 'н', 'г', 'ш', 'щ', 'з', 'х', 'ї']),
            (30, seq!['ф', 'і', 'в', 'а', 'п', 'р', 'о', 'л', 'д', 'ж', 'є']),
            (43, seq!['ґ']),
            (44, seq!['я', 'ч', 'с', 'м', 'и', 'т', 'ь', 'б', 'ю']),
        ]
    }
}

/// The Faroese key table is the Faroese layout read row by row: every key
/// types the character at its place in its row, and keys off the rows type
/// nothing.
pub proof fn faroese_keys_follow_the_rows(k: KeyStroke)
    ensures
        fo_char(k) == rows_char(faroese_rows(k.shift), k.code as int),
{
    reveal_with_fuel(rows_char, 6);
}

/// The Ukrainian key table is the Ukrainian layout read row by row: every key
/// types the character at its place in its row, and keys off the rows type
/// nothing.
pub proof fn ukrainian_keys_follow_the_rows(k: KeyStroke)
    ensures
        ua_char(k) == rows_char(ukrainian_rows(k.shift), k.code as int),
{
    reveal_with_fuel(rows_char, 5);
}

// ---- dead keys

/// The diaeresis dead key.
pub open spec fn diaeresis_dead_key() -> KeyStroke {
    KeyStroke { code: 27, shift: false }
}

/// A vowel with an acute accent.
pub open spec fn acute_form(v: char) -> Option<char> {
    match v {
        'a' => Some('á'), 'e' => Some('é'), 'i' => Some('í'), 'o' => Some('ó'),
        'u' => Some('ú'), 'y' => Some('ý'),
        'A' => Some('Á'), 'E' => Some('É'), 'I' => Some('Í'), 'O' => Some('Ó'),
        'U' => Some('Ú'), 'Y' => Some('Ý'),
        _ => None,
    }
}

/// A vowel with a diaeresis.
pub open spec fn diaeresis_form(v: char) -> Option<char> {
    match v {
        'a' => Some('ä'), 'e' => Some('ë'), 'i' => Some('ï'), 'o' => Some('ö'),
        'u' => Some('ü'), 'y' => Some('ÿ'),
        'A' => Some('Ä'), 'E' => Some('Ë'), 'I' => Some('Ï'), 'O' => Some('Ö'),
        'U' => Some('Ü'), 'Y' => Some('Ÿ'),
        _ => None,
    }
}

/// A dead key composes with a key exactly when that key types one of the
/// vowels a e i o u y (either case), and the result is that vowel with the
/// dead key's accent: acute for the acute dead key, diaeresis for the
/// diaeresis dead key.  No other key is a dead key.
pub proof fn dead_keys_accent_the_base_letter(dead: KeyStroke, base: KeyStroke)
    ensures
        fo_compose(dead, base) == match fo_char(base) {
            Some(v) => if dead == acute_dead_key() {
                acute_form(v)
            } else if dead == diaeresis_dead_key() {
                diaeresis_form(v)
            } else {
                None
            },
            None => None,
        },
{
}

} // verus!
