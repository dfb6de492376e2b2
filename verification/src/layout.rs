use vstd::prelude::*;

use crate::layout_laws::spelled_keys_are_keys_for;
use crate::stroke::{KeyStroke, StrokeSeq};

verus! {

/// The two keyboard layouts between which text is converted.
#[derive(Clone, Copy, Debug, PartialEq, Eq, Structural)]
pub enum Layout {
    Faroese,
    Ukrainian,
}

// The key tables, as recorded from real key events.

/// What key `k` types on the Ukrainian layout.
pub open spec fn ua_char(k: KeyStroke) -> Option<char> {
    if k.shift {
        match k.code {
            16 => Some('Й'), 17 => Some('Ц'), 18 => Some('У'), 19 => Some('К'),
            20 => Some('Е'), 21 => Some('Н'), 22 => Some('Г'), 23 => Some('Ш'),
            24 => Some('Щ'), 25 => Some('З'), 26 => Some('Х'), 27 => Some('Ї'),
            30 => Some('Ф'), 31 => Some('І'), 32 => Some('В'), 33 => Some('А'),
            34 => Some('П'), 35 => Some('Р'), 36 => Some('О'), 37 => Some('Л'),
            38 => Some('Д'), 39 => Some('Ж'), 40 => Some('Є'), 43 => Some('Ґ'),
            44 => Some('Я'), 45 => Some('Ч'), 46 => Some('С'), 47 => Some('М'),
            48 => Some('И'), 49 => Some('Т'), 50 => Some('Ь'), 51 => Some('Б'),
            52 => Some('Ю'),
            _ => None,
        }
    } else {
        match k.code {
            16 => Some('й'), 17 => Some('ц'), 18 => Some('у'), 19 => Some('к'),
            20 => Some('е'), 21 => Some('н'), 22 => Some('г'), 23 => Some('ш'),
            24 => Some('щ'), 25 => Some('з'), 26 => Some('х'), 27 => Some('ї'),
            30 => Some('ф'), 31 => Some('і'), 32 => Some('в'), 33 => Some('а'),
            34 => Some('п'), 35 => Some('р'), 36 => Some('о'), 37 => Some('л'),
            38 => Some('д'), 39 => Some('ж'), 40 => Some('є'), 43 => Some('ґ'),
            44 => Some('я'), 45 => Some('ч'), 46 => Some('с'), 47 => Some('м'),
            48 => Some('и'), 49 => Some('т'), 50 => Some('ь'), 51 => Some('б'),
            52 => Some('ю'),
            _ => None,
        }
    }
}

/// What key `k` types on the Faroese layout (code 13 is the acute dead key,
/// which types itself only when nothing composes with it).
pub open spec fn fo_char(k: KeyStroke) -> Option<char> {
    if k.shift {
        match k.code {
            16 => Some('Q'), 17 => Some('W'), 18 => Some('E'), 19 => Some('R'),
            20 => Some('T'), 21 => Some('Y'), 22 => Some('U'), 23 => Some('I'),
            24 => Some('O'), 25 => Some('P'), 26 => Some('Å'), 27 => Some('^'),
            30 => Some('A'), 31 => Some('S'), 32 => Some('D'), 33 => Some('F'),
            34 => Some('G'), 35 => Some('H'), 36 => Some('J'), 37 => Some('K'),
            38 => Some('L'), 39 => Some('Æ'), 40 => Some('Ø'), 43 => Some('*'),
            44 => Some('Z'), 45 => Some('X'), 46 => Some('C'), 47 => Some('V'),
            48 => Some('B'), 49 => Some('N'), 50 => Some('M'),
            _ => None,
        }
    } else {
        match k.code {
            13 => Some('´'), 16 => Some('q'), 17 => Some('w'), 18 => Some('e'),
            19 => Some('r'), 20 => Some('t'), 21 => Some('y'), 22 => Some('u'),
            23 => Some('i'), 24 => Some('o'), 25 => Some('p'), 26 => Some('å'),
            27 => Some('¨'), 30 => Some('a'), 31 => Some('s'), 32 => Some('d'),
            33 => Some('f'), 34 => Some('g'), 35 => Some('h'), 36 => Some('j'),
            37 => Some('k'), 38 => Some('l'), 39 => Some('æ'), 40 => Some('ø'),
            43 => Some('\''), 44 => Some('z'), 45 => Some('x'), 46 => Some('c'),
            47 => Some('v'), 48 => Some('b'), 49 => Some('n'), 50 => Some('m'),
            _ => None,
        }
    }
}

/// The Faroese letter that the acute dead key composes with `base`.
pub open spec fn acute_char(base: KeyStroke) -> Option<char> {
    if !base.shift {
        match base.code {
            30 => Some('á'), 18 => Some('é'), 23 => Some('í'), 24 => Some('ó'),
            22 => Some('ú'), 21 => Some('ý'),
            _ => None,
        }
    } else {
        match base.code {
            30 => Some('Á'), 18 => Some('É'), 23 => Some('Í'), 24 => Some('Ó'),
            22 => Some('Ú'), 21 => Some('Ý'),
            _ => None,
        }
    }
}

/// The Faroese letter that the diaeresis dead key composes with `base`.
pub open spec fn diaeresis_char(base: KeyStroke) -> Option<char> {
    if !base.shift {
        match base.code {
            30 => Some('ä'), 18 => Some('ë'), 23 => Some('ï'), 24 => Some('ö'),
            22 => Some('ü'), 21 => Some('ÿ'),
            _ => None,
        }
    } else {
        match base.code {
            30 => Some('Ä'), 18 => Some('Ë'), 23 => Some('Ï'), 24 => Some('Ö'),
            22 => Some('Ü'), 21 => Some('Ÿ'),
            _ => None,
        }
    }
}

/// The Faroese dead keys: acute (code 13) and diaeresis (code 27), unshifted.
pub open spec fn is_dead_key(k: KeyStroke) -> bool {
    !k.shift && (k.code == 13 || k.code == 27)
}

/// The acute dead key, which on its own spells no character.
pub open spec fn acute_dead_key() -> KeyStroke {
    KeyStroke { code: 13, shift: false }
}

/// The letter typed by pressing `dead` and then `base` on the Faroese layout.
pub open spec fn fo_compose(dead: KeyStroke, base: KeyStroke) -> Option<char> {
    if dead.shift {
        None
    } else if dead.code == 13 {
        acute_char(base)
    } else if dead.code == 27 {
        diaeresis_char(base)
    } else {
        None
    }
}

/// What key `k` types on `layout`.
pub open spec fn key_char(layout: Layout, k: KeyStroke) -> Option<char> {
    match layout {
        Layout::Ukrainian => ua_char(k),
        Layout::Faroese => fo_char(k),
    }
}

/// The characters that an optional output contributes.
pub open spec fn typed(out: Option<char>) -> Seq<char> {
    match out {
        Some(c) => seq![c],
        None => Seq::empty(),
    }
}

/// The text produced by typing `keys` on the Ukrainian layout.
pub open spec fn ua_typing(keys: Seq<KeyStroke>) -> Seq<char>
    decreases keys.len(),
{
    if keys.len() == 0 {
        Seq::empty()
    } else {
        typed(ua_char(keys[0])) + ua_typing(keys.drop_first())
    }
}

/// What a dead key left waiting types once no key composes with it: its own
/// character.
pub open spec fn fo_flush(pending: Option<KeyStroke>) -> Seq<char> {
    match pending {
        Some(dead) => typed(fo_char(dead)),
        None => Seq::empty(),
    }
}

/// Pressing key `k` on the Faroese layout while the dead key `pending` (if any)
/// waits: the characters typed, and the dead key that waits afterwards.  A
/// dead key followed by a key it composes with types the composed letter;
/// otherwise the waiting dead key types its own character first, and a new dead
/// key starts waiting.
pub open spec fn fo_press(pending: Option<KeyStroke>, k: KeyStroke) -> (Seq<char>, Option<KeyStroke>) {
    let composed = match pending {
        Some(dead) => fo_compose(dead, k),
        None => None,
    };
    match composed {
        Some(c) => (seq![c], None),
        None => if is_dead_key(k) {
            (fo_flush(pending), Some(k))
        } else {
            (fo_flush(pending) + typed(fo_char(k)), None)
        },
    }
}

/// The text produced by typing `keys` on the Faroese layout while the dead key
/// `pending` (if any) waits; a dead key still waiting at the end types itself.
pub open spec fn fo_typing(pending: Option<KeyStroke>, keys: Seq<KeyStroke>) -> Seq<char>
    decreases keys.len(),
{
    if keys.len() == 0 {
        fo_flush(pending)
    } else {
        let (out, next) = fo_press(pending, keys[0]);
        out + fo_typing(next, keys.drop_first())
    }
}

/// Typing `keys` on the Faroese layout while the dead key `pending` (if any)
/// waits, without finishing: the characters typed so far, and the dead key
/// still waiting afterwards.
pub open spec fn fo_run(pending: Option<KeyStroke>, keys: Seq<KeyStroke>) -> (
    Seq<char>,
    Option<KeyStroke>,
)
    decreases keys.len(),
{
    if keys.len() == 0 {
        (Seq::empty(), pending)
    } else {
        let (out, next) = fo_press(pending, keys[0]);
        let (rest_out, last) = fo_run(next, keys.drop_first());
        (out + rest_out, last)
    }
}

/// The text produced by typing `keys` on `layout`.
pub open spec fn typing(layout: Layout, keys: Seq<KeyStroke>) -> Seq<char> {
    match layout {
        Layout::Ukrainian => ua_typing(keys),
        Layout::Faroese => fo_typing(None, keys),
    }
}

/// `keys` is how `c` is typed on the Ukrainian layout: a single key.
pub open spec fn ua_spells(keys: Seq<KeyStroke>, c: char) -> bool {
    keys.len() == 1 && ua_char(keys[0]) == Some(c)
}

/// `keys` is how `c` is typed on the Faroese layout: a single key other than
/// the acute dead key, or a dead key followed by the base key it composes with.
pub open spec fn fo_spells(keys: Seq<KeyStroke>, c: char) -> bool {
    ||| keys.len() == 1 && keys[0] != acute_dead_key() && fo_char(keys[0]) == Some(c)
    ||| keys.len() == 2 && fo_compose(keys[0], keys[1]) == Some(c)
}

/// `keys` is how `c` is typed on `layout`.
pub open spec fn spells(layout: Layout, keys: Seq<KeyStroke>, c: char) -> bool {
    match layout {
        Layout::Ukrainian => ua_spells(keys, c),
        Layout::Faroese => fo_spells(keys, c),
    }
}

/// `c` can be typed on `layout`.
pub open spec fn typeable(layout: Layout, c: char) -> bool {
    exists|keys: Seq<KeyStroke>| #[trigger] spells(layout, keys, c)
}

/// The keys that type `c` on `layout` (unique where `c` is typeable).
pub open spec fn keys_for(layout: Layout, c: char) -> Seq<KeyStroke> {
    choose|keys: Seq<KeyStroke>| #[trigger] spells(layout, keys, c)
}

/// Whether `stroke` is one of the Faroese dead keys.
pub fn is_fo_accent_key(stroke: KeyStroke) -> (r: bool)
    ensures
        r == is_dead_key(stroke),
{
    !stroke.shift && (stroke.code == 13 || stroke.code == 27)
}

/// The letter that dead key `dead` composes with `base`, if any.
pub fn compose_fo_accent(dead: KeyStroke, base: KeyStroke) -> (r: Option<char>)
    ensures
        r == fo_compose(dead, base),
{
    if dead.shift {
        return None;
    }
    match dead.code {
        13 => compose_acute(base),
        27 => compose_diaeresis(base),
        _ => None,
    }
}

pub fn compose_acute(base: KeyStroke) -> (r: Option<char>)
    ensures
        r == acute_char(base),
{
    if !base.shift {
        match base.code {
            30 => Some('á'), 18 => Some('é'), 23 => Some('í'), 24 => Some('ó'),
            22 => Some('ú'), 21 => Some('ý'),
            _ => None,
        }
    } else {
        match base.code {
            30 => Some('Á'), 18 => Some('É'), 23 => Some('Í'), 24 => Some('Ó'),
            22 => Some('Ú'), 21 => Some('Ý'),
            _ => None,
        }
    }
}

pub fn compose_diaeresis(base: KeyStroke) -> (r: Option<char>)
    ensures
        r == diaeresis_char(base),
{
    if !base.shift {
        match base.code {
            30 => Some('ä'), 18 => Some('ë'), 23 => Some('ï'), 24 => Some('ö'),
            22 => Some('ü'), 21 => Some('ÿ'),
            _ => None,
        }
    } else {
        match base.code {
            30 => Some('Ä'), 18 => Some('Ë'), 23 => Some('Ï'), 24 => Some('Ö'),
            22 => Some('Ü'), 21 => Some('Ÿ'),
            _ => None,
        }
    }
}

/// The character `stroke` types on the Ukrainian layout.
pub fn stroke_to_ua(stroke: KeyStroke) -> (r: Option<char>)
    ensures
        r == ua_char(stroke),
{
    if stroke.shift {
        match stroke.code {
            16 => Some('Й'), 17 => Some('Ц'), 18 => Some('У'), 19 => Some('К'),
            20 => Some('Е'), 21 => Some('Н'), 22 => Some('Г'), 23 => Some('Ш'),
            24 => Some('Щ'), 25 => Some('З'), 26 => Some('Х'), 27 => Some('Ї'),
            30 => Some('Ф'), 31 => Some('І'), 32 => Some('В'), 33 => Some('А'),
            34 => Some('П'), 35 => Some('Р'), 36 => Some('О'), 37 => Some('Л'),
            38 => Some('Д'), 39 => Some('Ж'), 40 => Some('Є'), 43 => Some('Ґ'),
            44 => Some('Я'), 45 => Some('Ч'), 46 => Some('С'), 47 => Some('М'),
            48 => Some('И'), 49 => Some('Т'), 50 => Some('Ь'), 51 => Some('Б'),
            52 => Some('Ю'),
            _ => None,
        }
    } else {
        match stroke.code {
            16 => Some('й'), 17 => Some('ц'), 18 => Some('у'), 19 => Some('к'),
            20 => Some('е'), 21 => Some('н'), 22 => Some('г'), 23 => Some('ш'),
            24 => Some('щ'), 25 => Some('з'), 26 => Some('х'), 27 => Some('ї'),
            30 => Some('ф'), 31 => Some('і'), 32 => Some('в'), 33 => Some('а'),
            34 => Some('п'), 35 => Some('р'), 36 => Some('о'), 37 => Some('л'),
            38 => Some('д'), 39 => Some('ж'), 40 => Some('є'), 43 => Some('ґ'),
            44 => Some('я'), 45 => Some('ч'), 46 => Some('с'), 47 => Some('м'),
            48 => Some('и'), 49 => Some('т'), 50 => Some('ь'), 51 => Some('б'),
            52 => Some('ю'),
            _ => None,
        }
    }
}

/// The character `stroke` types on the Faroese layout.
pub fn stroke_to_fo(stroke: KeyStroke) -> (r: Option<char>)
    ensures
        r == fo_char(stroke),
{
    if stroke.shift {
        match stroke.code {
            16 => Some('Q'), 17 => Some('W'), 18 => Some('E'), 19 => Some('R'),
            20 => Some('T'), 21 => Some('Y'), 22 => Some('U'), 23 => Some('I'),
            24 => Some('O'), 25 => Some('P'), 26 => Some('Å'), 27 => Some('^'),
            30 => Some('A'), 31 => Some('S'), 32 => Some('D'), 33 => Some('F'),
            34 => Some('G'), 35 => Some('H'), 36 => Some('J'), 37 => Some('K'),
            38 => Some('L'), 39 => Some('Æ'), 40 => Some('Ø'), 43 => Some('*'),
            44 => Some('Z'), 45 => Some('X'), 46 => Some('C'), 47 => Some('V'),
            48 => Some('B'), 49 => Some('N'), 50 => Some('M'),
            _ => None,
        }
    } else {
        match stroke.code {
            13 => Some('´'), 16 => Some('q'), 17 => Some('w'), 18 => Some('e'),
            19 => Some('r'), 20 => Some('t'), 21 => Some('y'), 22 => Some('u'),
            23 => Some('i'), 24 => Some('o'), 25 => Some('p'), 26 => Some('å'),
            27 => Some('¨'), 30 => Some('a'), 31 => Some('s'), 32 => Some('d'),
            33 => Some('f'), 34 => Some('g'), 35 => Some('h'), 36 => Some('j'),
            37 => Some('k'), 38 => Some('l'), 39 => Some('æ'), 40 => Some('ø'),
            43 => Some('\''), 44 => Some('z'), 45 => Some('x'), 46 => Some('c'),
            47 => Some('v'), 48 => Some('b'), 49 => Some('n'), 50 => Some('m'),
            _ => None,
        }
    }
}

/// The key that types `c` on the Ukrainian layout, if there is one.
pub fn char_to_ua_strokes(c: char) -> (r: Option<StrokeSeq>)
    ensures
        r is Some <==> typeable(Layout::Ukrainian, c),
        r matches Some(s) ==> s.wf() && spells(Layout::Ukrainian, s@, c),
        r matches Some(s) ==> s@ == keys_for(Layout::Ukrainian, c),
{
    let r = match c {
        'й' => Some(StrokeSeq::single(KeyStroke::new(16, false))),
        'ц' => Some(StrokeSeq::single(KeyStroke::new(17, false))),
        'у' => Some(StrokeSeq::single(KeyStroke::new(18, false))),
        'к' => Some(StrokeSeq::single(KeyStroke::new(19, false))),
        'е' => Some(StrokeSeq::single(KeyStroke::new(20, false))),
        'н' => Some(StrokeSeq::single(KeyStroke::new(21, false))),
        'г' => Some(StrokeSeq::single(KeyStroke::new(22, false))),
        'ш' => Some(StrokeSeq::single(KeyStroke::new(23, false))),
        'щ' => Some(StrokeSeq::single(KeyStroke::new(24, false))),
        'з' => Some(StrokeSeq::single(KeyStroke::new(25, false))),
        'х' => Some(StrokeSeq::single(KeyStroke::new(26, false))),
        'ї' => Some(StrokeSeq::single(KeyStroke::new(27, false))),
        'ф' => Some(StrokeSeq::single(KeyStroke::new(30, false))),
        'і' => Some(StrokeSeq::single(KeyStroke::new(31, false))),
        'в' => Some(StrokeSeq::single(KeyStroke::new(32, false))),
        'а' => Some(StrokeSeq::single(KeyStroke::new(33, false))),
        'п' => Some(StrokeSeq::single(KeyStroke::new(34, false))),
        'р' => Some(StrokeSeq::single(KeyStroke::new(35, false))),
        'о' => Some(StrokeSeq::single(KeyStroke::new(36, false))),
        'л' => Some(StrokeSeq::single(KeyStroke::new(37, false))),
        'д' => Some(StrokeSeq::single(KeyStroke::new(38, false))),
        'ж' => Some(StrokeSeq::single(KeyStroke::new(39, false))),
        'є' => Some(StrokeSeq::single(KeyStroke::new(40, false))),
        'ґ' => Some(StrokeSeq::single(KeyStroke::new(43, false))),
        'я' => Some(StrokeSeq::single(KeyStroke::new(44, false))),
        'ч' => Some(StrokeSeq::single(KeyStroke::new(45, false))),
        'с' => Some(StrokeSeq::single(KeyStroke::new(46, false))),
        'м' => Some(StrokeSeq::single(KeyStroke::new(47, false))),
        'и' => Some(StrokeSeq::single(KeyStroke::new(48, false))),
        'т' => Some(StrokeSeq::single(KeyStroke::new(49, false))),
        'ь' => Some(StrokeSeq::single(KeyStroke::new(50, false))),
        'б' => Some(StrokeSeq::single(KeyStroke::new(51, false))),
        'ю' => Some(StrokeSeq::single(KeyStroke::new(52, false))),
        'Й' => Some(StrokeSeq::single(KeyStroke::new(16, true))),
        'Ц' => Some(StrokeSeq::single(KeyStroke::new(17, true))),
        'У' => Some(StrokeSeq::single(KeyStroke::new(18, true))),
        'К' => Some(StrokeSeq::single(KeyStroke::new(19, true))),
        'Е' => Some(StrokeSeq::single(KeyStroke::new(20, true))),
        'Н' => Some(StrokeSeq::single(KeyStroke::new(21, true))),
        'Г' => Some(StrokeSeq::single(KeyStroke::new(22, true))),
        'Ш' => Some(StrokeSeq::single(KeyStroke::new(23, true))),
        'Щ' => Some(StrokeSeq::single(KeyStroke::new(24, true))),
        'З' => Some(StrokeSeq::single(KeyStroke::new(25, true))),
        'Х' => Some(StrokeSeq::single(KeyStroke::new(26, true))),
        'Ї' => Some(StrokeSeq::single(KeyStroke::new(27, true))),
        'Ф' => Some(StrokeSeq::single(KeyStroke::new(30, true))),
        'І' => Some(StrokeSeq::single(KeyStroke::new(31, true))),
        'В' => Some(StrokeSeq::single(KeyStroke::new(32, true))),
        'А' => Some(StrokeSeq::single(KeyStroke::new(33, true))),
        'П' => Some(StrokeSeq::single(KeyStroke::new(34, true))),
        'Р' => Some(StrokeSeq::single(KeyStroke::new(35, true))),
        'О' => Some(StrokeSeq::single(KeyStroke::new(36, true))),
        'Л' => Some(StrokeSeq::single(KeyStroke::new(37, true))),
        'Д' => Some(StrokeSeq::single(KeyStroke::new(38, true))),
        'Ж' => Some(StrokeSeq::single(KeyStroke::new(39, true))),
        'Є' => Some(StrokeSeq::single(KeyStroke::new(40, true))),
        'Ґ' => Some(StrokeSeq::single(KeyStroke::new(43, true))),
        'Я' => Some(StrokeSeq::single(KeyStroke::new(44, true))),
        'Ч' => Some(StrokeSeq::single(KeyStroke::new(45, true))),
        'С' => Some(StrokeSeq::single(KeyStroke::new(46, true))),
        'М' => Some(StrokeSeq::single(KeyStroke::new(47, true))),
        'И' => Some(StrokeSeq::single(KeyStroke::new(48, true))),
        'Т' => Some(StrokeSeq::single(KeyStroke::new(49, true))),
        'Ь' => Some(StrokeSeq::single(KeyStroke::new(50, true))),
        'Б' => Some(StrokeSeq::single(KeyStroke::new(51, true))),
        'Ю' => Some(StrokeSeq::single(KeyStroke::new(52, true))),
        _ => None,
    };
    proof {
        if let Some(s) = r {
            assert(spells(Layout::Ukrainian, s@, c));
            spelled_keys_are_keys_for(Layout::Ukrainian, s@, c);
        }
    }
    r
}

/// The keys that type `c` on the Faroese layout, if there are any.
pub fn char_to_fo_strokes(c: char) -> (r: Option<StrokeSeq>)
    ensures
        r is Some <==> typeable(Layout::Faroese, c),
        r matches Some(s) ==> s.wf() && spells(Layout::Faroese, s@, c),
        r matches Some(s) ==> s@ == keys_for(Layout::Faroese, c),
{
    let r = match c {
        'q' => Some(StrokeSeq::single(KeyStroke::new(16, false))),
        'w' => Some(StrokeSeq::single(KeyStroke::new(17, false))),
        'e' => Some(StrokeSeq::single(KeyStroke::new(18, false))),
        'r' => Some(StrokeSeq::single(KeyStroke::new(19, false))),
        't' => Some(StrokeSeq::single(KeyStroke::new(20, false))),
        'y' => Some(StrokeSeq::single(KeyStroke::new(21, false))),
        'u' => Some(StrokeSeq::single(KeyStroke::new(22, false))),
        'i' => Some(StrokeSeq::single(KeyStroke::new(23, false))),
        'o' => Some(StrokeSeq::single(KeyStroke::new(24, false))),
        'p' => Some(StrokeSeq::single(KeyStroke::new(25, false))),
        'å' => Some(StrokeSeq::single(KeyStroke::new(26, false))),
        '¨' => Some(StrokeSeq::single(KeyStroke::new(27, false))),
        'a' => Some(StrokeSeq::single(KeyStroke::new(30, false))),
        's' => Some(StrokeSeq::single(KeyStroke::new(31, false))),
        'd' => Some(StrokeSeq::single(KeyStroke::new(32, false))),
        'f' => Some(StrokeSeq::single(KeyStroke::new(33, false))),
        'g' => Some(StrokeSeq::single(KeyStroke::new(34, false))),
        'h' => Some(StrokeSeq::single(KeyStroke::new(35, false))),
        'j' => Some(StrokeSeq::single(KeyStroke::new(36, false))),
        'k' => Some(StrokeSeq::single(KeyStroke::new(37, false))),
        'l' => Some(StrokeSeq::single(KeyStroke::new(38, false))),
        'æ' => Some(StrokeSeq::single(KeyStroke::new(39, false))),
        'ø' => Some(StrokeSeq::single(KeyStroke::new(40, false))),
        '\'' => Some(StrokeSeq::single(KeyStroke::new(43, false))),
        'z' => Some(StrokeSeq::single(KeyStroke::new(44, false))),
        'x' => Some(StrokeSeq::single(KeyStroke::new(45, false))),
        'c' => Some(StrokeSeq::single(KeyStroke::new(46, false))),
        'v' => Some(StrokeSeq::single(KeyStroke::new(47, false))),
        'b' => Some(StrokeSeq::single(KeyStroke::new(48, false))),
        'n' => Some(StrokeSeq::single(KeyStroke::new(49, false))),
        'm' => Some(StrokeSeq::single(KeyStroke::new(50, false))),
        'Q' => Some(StrokeSeq::single(KeyStroke::new(16, true))),
        'W' => Some(StrokeSeq::single(KeyStroke::new(17, true))),
        'E' => Some(StrokeSeq::single(KeyStroke::new(18, true))),
        'R' => Some(StrokeSeq::single(KeyStroke::new(19, true))),
        'T' => Some(StrokeSeq::single(KeyStroke::new(20, true))),
        'Y' => Some(StrokeSeq::single(KeyStroke::new(21, true))),
        'U' => Some(StrokeSeq::single(KeyStroke::new(22, true))),
        'I' => Some(StrokeSeq::single(KeyStroke::new(23, true))),
        'O' => Some(StrokeSeq::single(KeyStroke::new(24, true))),
        'P' => Some(StrokeSeq::single(KeyStroke::new(25, true))),
        'Å' => Some(StrokeSeq::single(KeyStroke::new(26, true))),
        '^' => Some(StrokeSeq::single(KeyStroke::new(27, true))),
        'A' => Some(StrokeSeq::single(KeyStroke::new(30, true))),
        'S' => Some(StrokeSeq::single(KeyStroke::new(31, true))),
        'D' => Some(StrokeSeq::single(KeyStroke::new(32, true))),
        'F' => Some(StrokeSeq::single(KeyStroke::new(33, true))),
        'G' => Some(StrokeSeq::single(KeyStroke::new(34, true))),
        'H' => Some(StrokeSeq::single(KeyStroke::new(35, true))),
        'J' => Some(StrokeSeq::single(KeyStroke::new(36, true))),
        'K' => Some(StrokeSeq::single(KeyStroke::new(37, true))),
        'L' => Some(StrokeSeq::single(KeyStroke::new(38, true))),
        'Æ' => Some(StrokeSeq::single(KeyStroke::new(39, true))),
        'Ø' => Some(StrokeSeq::single(KeyStroke::new(40, true))),
        '*' => Some(StrokeSeq::single(KeyStroke::new(43, true))),
        'Z' => Some(StrokeSeq::single(KeyStroke::new(44, true))),
        'X' => Some(StrokeSeq::single(KeyStroke::new(45, true))),
        'C' => Some(StrokeSeq::single(KeyStroke::new(46, true))),
        'V' => Some(StrokeSeq::single(KeyStroke::new(47, true))),
        'B' => Some(StrokeSeq::single(KeyStroke::new(48, true))),
        'N' => Some(StrokeSeq::single(KeyStroke::new(49, true))),
        'M' => Some(StrokeSeq::single(KeyStroke::new(50, true))),
        'á' => Some(StrokeSeq::double(KeyStroke::new(13, false), KeyStroke::new(30, false))),
        'é' => Some(StrokeSeq::double(KeyStroke::new(13, false), KeyStroke::new(18, false))),
        'í' => Some(StrokeSeq::double(KeyStroke::new(13, false), KeyStroke::new(23, false))),
        'ó' => Some(StrokeSeq::double(KeyStroke::new(13, false), KeyStroke::new(24, false))),
        'ú' => Some(StrokeSeq::double(KeyStroke::new(13, false), KeyStroke::new(22, false))),
        'ý' => Some(StrokeSeq::double(KeyStroke::new(13, false), KeyStroke::new(21, false))),
        'Á' => Some(StrokeSeq::double(KeyStroke::new(13, false), KeyStroke::new(30, true))),
        'É' => Some(StrokeSeq::double(KeyStroke::new(13, false), KeyStroke::new(18, true))),
        'Í' => Some(StrokeSeq::double(KeyStroke::new(13, false), KeyStroke::new(23, true))),
        'Ó' => Some(StrokeSeq::double(KeyStroke::new(13, false), KeyStroke::new(24, true))),
        'Ú' => Some(StrokeSeq::double(KeyStroke::new(13, false), KeyStroke::new(22, true))),
        'Ý' => Some(StrokeSeq::double(KeyStroke::new(13, false), KeyStroke::new(21, true))),
        'ä' => Some(StrokeSeq::double(KeyStroke::new(27, false), KeyStroke::new(30, false))),
        'ë' => Some(StrokeSeq::double(KeyStroke::new(27, false), KeyStroke::new(18, false))),
        'ï' => Some(StrokeSeq::double(KeyStroke::new(27, false), KeyStroke::new(23, false))),
        'ö' => Some(StrokeSeq::double(KeyStroke::new(27, false), KeyStroke::new(24, false))),
        'ü' => Some(StrokeSeq::double(KeyStroke::new(27, false), KeyStroke::new(22, false))),
        'ÿ' => Some(StrokeSeq::double(KeyStroke::new(27, false), KeyStroke::new(21, false))),
        'Ä' => Some(StrokeSeq::double(KeyStroke::new(27, false), KeyStroke::new(30, true))),
        'Ë' => Some(StrokeSeq::double(KeyStroke::new(27, false), KeyStroke::new(18, true))),
        'Ï' => Some(StrokeSeq::double(KeyStroke::new(27, false), KeyStroke::new(23, true))),
        'Ö' => Some(StrokeSeq::double(KeyStroke::new(27, false), KeyStroke::new(24, true))),
        'Ü' => Some(StrokeSeq::double(KeyStroke::new(27, false), KeyStroke::new(22, true))),
        'Ÿ' => Some(StrokeSeq::double(KeyStroke::new(27, false), KeyStroke::new(21, true))),
        _ => None,
    };
    proof {
        if let Some(s) = r {
            assert(spells(Layout::Faroese, s@, c));
            spelled_keys_are_keys_for(Layout::Faroese, s@, c);
        }
    }
    r
}

} // verus!
