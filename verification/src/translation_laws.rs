use vstd::prelude::*;

use crate::layout::{
    acute_dead_key, fo_char, fo_compose, fo_flush, fo_press, fo_run, is_dead_key, keys_for,
    spells, typeable, typed, ua_char, ua_typing, Layout,
};
use crate::layout_laws::spelled_keys_are_keys_for;
use crate::mapper::{
    count_where, detected_direction, fo_vote, fo_votes, to_faroese, to_ukrainian, translated,
    ua_vote, ua_votes, ukrainian_char, Direction,
};
use crate::stroke::KeyStroke;

verus! {

// ---- characters and keys of the two layouts

/// `c` is a letter typed with a dead key on the Faroese layout.
pub open spec fn fo_accented(c: char) -> bool {
    exists|dead: KeyStroke, base: KeyStroke| #[trigger] fo_compose(dead, base) == Some(c)
}

/// `c` is not Ukrainian and, if Faroese, is typed with a single key.
pub open spec fn plain_faroese(c: char) -> bool {
    !typeable(Layout::Ukrainian, c) && !fo_accented(c)
}

/// `c` is not Faroese and, if Ukrainian, its key also types a Faroese character.
pub open spec fn plain_ukrainian(c: char) -> bool {
    &&& !typeable(Layout::Faroese, c)
    &&& forall|k: KeyStroke| #[trigger] ua_char(k) == Some(c) ==> fo_char(k) is Some
}

/// No Faroese character of `text` is typed with a dead key that composes with
/// the key of the Faroese character right after it.
pub open spec fn no_dead_key_composes(text: Seq<char>) -> bool {
    forall|i: int, j: int|
        #![trigger text[i], text[j]]
        0 <= i && j == i + 1 && j < text.len() && typeable(Layout::Faroese, text[i]) && typeable(
            Layout::Faroese,
            text[j],
        ) ==> fo_compose(keys_for(Layout::Faroese, text[i])[0], keys_for(Layout::Faroese, text[j])[0])
            is None
}

/// No character of `text` can be typed on `layout`.
pub open spec fn free_of(layout: Layout, text: Seq<char>) -> bool {
    forall|i: int| 0 <= i < text.len() ==> !typeable(layout, #[trigger] text[i])
}

proof fn lemma_ua_not_fo(k: KeyStroke, other: KeyStroke, c: char)
    requires
        ua_char(k) == Some(c),
    ensures
        fo_char(other) != Some(c),
{
}

proof fn lemma_ua_not_composed(k: KeyStroke, dead: KeyStroke, base: KeyStroke, c: char)
    requires
        ua_char(k) == Some(c),
    ensures
        fo_compose(dead, base) != Some(c),
{
}

/// A character typed by a Faroese key, alone or composed, is not Ukrainian.
proof fn lemma_fo_output_not_ukrainian(c: char)
    requires
        (exists|k: KeyStroke| fo_char(k) == Some(c)) || fo_accented(c),
    ensures
        !typeable(Layout::Ukrainian, c),
{
    if typeable(Layout::Ukrainian, c) {
        let keys = choose|keys: Seq<KeyStroke>| spells(Layout::Ukrainian, keys, c);
        if exists|k: KeyStroke| fo_char(k) == Some(c) {
            let k = choose|k: KeyStroke| fo_char(k) == Some(c);
            lemma_ua_not_fo(keys[0], k, c);
        } else {
            let (d, b) = choose|d: KeyStroke, b: KeyStroke| fo_compose(d, b) == Some(c);
            lemma_ua_not_composed(keys[0], d, b, c);
        }
    }
}

/// A character typed by a Ukrainian key is not Faroese.
proof fn lemma_ua_output_not_faroese(k: KeyStroke, c: char)
    requires
        ua_char(k) == Some(c),
    ensures
        !typeable(Layout::Faroese, c),
{
    if typeable(Layout::Faroese, c) {
        let keys = choose|keys: Seq<KeyStroke>| spells(Layout::Faroese, keys, c);
        if keys.len() == 1 {
            lemma_ua_not_fo(k, keys[0], c);
        } else {
            lemma_ua_not_composed(k, keys[0], keys[1], c);
        }
    }
}

proof fn lemma_faroese_key_is_ukrainian_key(k: KeyStroke)
    requires
        fo_char(k) is Some,
        k != acute_dead_key(),
    ensures
        ua_char(k) is Some,
{
}

proof fn lemma_ukrainian_key_is_not_acute(k: KeyStroke)
    requires
        ua_char(k) is Some,
    ensures
        k != acute_dead_key(),
{
}

proof fn lemma_composed_base_is_ukrainian_key(dead: KeyStroke, base: KeyStroke)
    requires
        fo_compose(dead, base) is Some,
    ensures
        ua_char(base) is Some,
{
}

proof fn lemma_free_of_concat(layout: Layout, a: Seq<char>, b: Seq<char>)
    requires
        free_of(layout, a),
        free_of(layout, b),
    ensures
        free_of(layout, a + b),
{
    assert forall|i: int| 0 <= i < (a + b).len() implies !typeable(layout, #[trigger] (a + b)[i]) by {
        if i < a.len() {
            assert((a + b)[i] == a[i]);
        } else {
            assert((a + b)[i] == b[i - a.len()]);
        }
    }
}

proof fn lemma_fo_flush_not_ukrainian(pending: Option<KeyStroke>)
    ensures
        free_of(Layout::Ukrainian, fo_flush(pending)),
{
    if let Some(d) = pending {
        if let Some(c) = fo_char(d) {
            lemma_fo_output_not_ukrainian(c);
        }
    }
}

proof fn lemma_fo_press_not_ukrainian(pending: Option<KeyStroke>, k: KeyStroke)
    ensures
        free_of(Layout::Ukrainian, fo_press(pending, k).0),
{
    lemma_fo_flush_not_ukrainian(pending);
    if let Some(c) = fo_char(k) {
        lemma_fo_output_not_ukrainian(c);
    }
    if let Some(d) = pending {
        if let Some(c) = fo_compose(d, k) {
            lemma_fo_output_not_ukrainian(c);
        }
    }
    lemma_free_of_concat(Layout::Ukrainian, fo_flush(pending), typed(fo_char(k)));
}

proof fn lemma_fo_run_not_ukrainian(pending: Option<KeyStroke>, keys: Seq<KeyStroke>)
    ensures
        free_of(Layout::Ukrainian, fo_run(pending, keys).0),
    decreases keys.len(),
{
    if keys.len() > 0 {
        let (out, next) = fo_press(pending, keys[0]);
        lemma_fo_press_not_ukrainian(pending, keys[0]);
        lemma_fo_run_not_ukrainian(next, keys.drop_first());
        lemma_free_of_concat(Layout::Ukrainian, out, fo_run(next, keys.drop_first()).0);
    }
}

/// Everything the conversion to Faroese produces is outside the Ukrainian layout.
proof fn lemma_to_faroese_not_ukrainian(pending: Option<KeyStroke>, text: Seq<char>)
    ensures
        free_of(Layout::Ukrainian, to_faroese(pending, text)),
    decreases text.len(),
{
    lemma_fo_flush_not_ukrainian(pending);
    if text.len() > 0 {
        let rest = text.drop_first();
        if typeable(Layout::Ukrainian, text[0]) {
            let (out, next) = fo_run(pending, keys_for(Layout::Ukrainian, text[0]));
            lemma_fo_run_not_ukrainian(pending, keys_for(Layout::Ukrainian, text[0]));
            lemma_to_faroese_not_ukrainian(next, rest);
            lemma_free_of_concat(Layout::Ukrainian, out, to_faroese(next, rest));
        } else {
            lemma_to_faroese_not_ukrainian(None, rest);
            lemma_free_of_concat(Layout::Ukrainian, fo_flush(pending), seq![text[0]]);
            lemma_free_of_concat(
                Layout::Ukrainian,
                fo_flush(pending) + seq![text[0]],
                to_faroese(None, rest),
            );
        }
    }
}

proof fn lemma_ua_typing_not_faroese(keys: Seq<KeyStroke>)
    ensures
        free_of(Layout::Faroese, ua_typing(keys)),
    decreases keys.len(),
{
    if keys.len() > 0 {
        if let Some(c) = ua_char(keys[0]) {
            lemma_ua_output_not_faroese(keys[0], c);
        }
        lemma_ua_typing_not_faroese(keys.drop_first());
        lemma_free_of_concat(Layout::Faroese, typed(ua_char(keys[0])), ua_typing(keys.drop_first()));
    }
}

/// Everything the conversion to Ukrainian produces is outside the Faroese layout.
proof fn lemma_to_ukrainian_not_faroese(text: Seq<char>)
    ensures
        free_of(Layout::Faroese, to_ukrainian(text)),
    decreases text.len(),
{
    if text.len() > 0 {
        let c = text[0];
        if typeable(Layout::Faroese, c) {
            lemma_ua_typing_not_faroese(keys_for(Layout::Faroese, c));
        }
        lemma_to_ukrainian_not_faroese(text.drop_first());
        lemma_free_of_concat(Layout::Faroese, ukrainian_char(c), to_ukrainian(text.drop_first()));
    }
}

proof fn lemma_to_ukrainian_concat(a: Seq<char>, b: Seq<char>)
    ensures
        to_ukrainian(a + b) == to_ukrainian(a) + to_ukrainian(b),
    decreases a.len(),
{
    if a.len() == 0 {
        assert(a + b =~= b);
        assert(to_ukrainian(a) + to_ukrainian(b) =~= to_ukrainian(b));
    } else {
        assert((a + b)[0] == a[0]);
        assert((a + b).drop_first() =~= a.drop_first() + b);
        lemma_to_ukrainian_concat(a.drop_first(), b);
        assert(to_ukrainian(a + b) =~= to_ukrainian(a) + to_ukrainian(b));
    }
}

proof fn lemma_to_ukrainian_single(c: char)
    ensures
        to_ukrainian(seq![c]) == ukrainian_char(c),
{
    reveal_with_fuel(to_ukrainian, 2);
    assert(seq![c].drop_first() =~= Seq::<char>::empty());
    assert(to_ukrainian(seq![c]) =~= ukrainian_char(c));
}

proof fn lemma_single_key_spelling(layout: Layout, k: KeyStroke, c: char)
    requires
        spells(layout, seq![k], c),
    ensures
        typeable(layout, c),
        keys_for(layout, c) == seq![k],
{
    spelled_keys_are_keys_for(layout, seq![k], c);
}

proof fn lemma_ua_typing_one(k: KeyStroke)
    ensures
        ua_typing(seq![k]) == typed(ua_char(k)),
{
    reveal_with_fuel(ua_typing, 2);
    assert(seq![k].drop_first() =~= Seq::<KeyStroke>::empty());
    assert(ua_typing(seq![k]) =~= typed(ua_char(k)));
}

proof fn lemma_ua_typing_two(d: KeyStroke, b: KeyStroke)
    ensures
        ua_typing(seq![d, b]) == typed(ua_char(d)) + typed(ua_char(b)),
{
    reveal_with_fuel(ua_typing, 3);
    assert(seq![d, b].drop_first() =~= seq![b]);
    assert(seq![b].drop_first() =~= Seq::<KeyStroke>::empty());
    assert(ua_typing(seq![d, b]) =~= typed(ua_char(d)) + typed(ua_char(b)));
}

proof fn lemma_fo_run_one(pending: Option<KeyStroke>, k: KeyStroke)
    ensures
        fo_run(pending, seq![k]) == fo_press(pending, k),
{
    reveal_with_fuel(fo_run, 2);
    assert(seq![k].drop_first() =~= Seq::<KeyStroke>::empty());
    assert(fo_run(pending, seq![k]).0 =~= fo_press(pending, k).0);
}

/// The key of a Faroese character typed with one key, converted to Ukrainian:
/// the Ukrainian character on the same key.
proof fn lemma_faroese_single_key(k: KeyStroke, f: char)
    requires
        fo_char(k) == Some(f),
        k != acute_dead_key(),
    ensures
        typeable(Layout::Faroese, f),
        keys_for(Layout::Faroese, f) == seq![k],
        ukrainian_char(f) == typed(ua_char(k)),
        to_ukrainian(seq![f]) == typed(ua_char(k)),
{
    assert(spells(Layout::Faroese, seq![k], f));
    lemma_single_key_spelling(Layout::Faroese, k, f);
    lemma_ua_typing_one(k);
    lemma_to_ukrainian_single(f);
}

// ---- round trips

proof fn lemma_faroese_round_trip(pending: Option<KeyStroke>, text: Seq<char>)
    requires
        forall|i: int| 0 <= i < text.len() ==> plain_faroese(#[trigger] text[i]),
        no_dead_key_composes(text),
        pending matches Some(dead) ==> (text.len() > 0 && typeable(Layout::Faroese, text[0])
            ==> fo_compose(dead, keys_for(Layout::Faroese, text[0])[0]) is None),
    ensures
        to_faroese(pending, to_ukrainian(text)) == fo_flush(pending) + text,
    decreases text.len(),
{
    if text.len() == 0 {
        assert(to_ukrainian(text) =~= Seq::<char>::empty());
        assert(fo_flush(pending) + text =~= fo_flush(pending));
    } else {
        let c = text[0];
        let rest = text.drop_first();
        assert(plain_faroese(text[0]));
        assert forall|i: int| 0 <= i < rest.len() implies plain_faroese(#[trigger] rest[i]) by {
            assert(rest[i] == text[i + 1]);
        }
        assert forall|i: int, j: int|
            #![trigger rest[i], rest[j]]
            0 <= i && j == i + 1 && j < rest.len() && typeable(Layout::Faroese, rest[i])
                && typeable(Layout::Faroese, rest[j]) implies fo_compose(
            keys_for(Layout::Faroese, rest[i])[0],
            keys_for(Layout::Faroese, rest[j])[0],
        ) is None by {
            assert(rest[i] == text[i + 1]);
            assert(rest[j] == text[j + 1]);
        }
        let mid = to_ukrainian(text);
        let mid_rest = to_ukrainian(rest);
        if typeable(Layout::Faroese, c) {
            let keys = keys_for(Layout::Faroese, c);
            assert(spells(Layout::Faroese, keys, c));
            if keys.len() == 2 {
                assert(fo_compose(keys[0], keys[1]) == Some(c));
                assert(fo_accented(c));
            }
            let k = keys[0];
            assert(keys =~= seq![k]);
            lemma_faroese_key_is_ukrainian_key(k);
            let u = ua_char(k).unwrap();
            lemma_faroese_single_key(k, c);
            assert(mid =~= seq![u] + mid_rest);
            assert(mid[0] == u);
            assert(mid.drop_first() =~= mid_rest);
            assert(spells(Layout::Ukrainian, seq![k], u));
            lemma_single_key_spelling(Layout::Ukrainian, k, u);
            lemma_fo_run_one(pending, k);
            let (out, next) = fo_press(pending, k);
            if is_dead_key(k) {
                if rest.len() > 0 && typeable(Layout::Faroese, rest[0]) {
                    assert(text[0] == c && text[1] == rest[0]);
                }
                lemma_faroese_round_trip(Some(k), rest);
                assert(to_faroese(pending, mid) =~= fo_flush(pending) + text);
            } else {
                lemma_faroese_round_trip(None, rest);
                assert(to_faroese(pending, mid) =~= fo_flush(pending) + text);
            }
        } else {
            assert(ukrainian_char(c) == seq![c]);
            assert(mid =~= seq![c] + mid_rest);
            assert(mid[0] == c);
            assert(mid.drop_first() =~= mid_rest);
            lemma_faroese_round_trip(None, rest);
            assert(to_faroese(pending, mid) =~= fo_flush(pending) + text);
        }
    }
}

/// Converting Faroese text to Ukrainian and back gives the text back, when it
/// has no Ukrainian and no accented Faroese characters and no dead-key
/// character followed by a character whose key the dead key composes with:
/// what was fixed can be un-fixed.
pub proof fn faroese_round_trip(text: Seq<char>)
    requires
        forall|i: int| 0 <= i < text.len() ==> plain_faroese(#[trigger] text[i]),
        no_dead_key_composes(text),
    ensures
        translated(
            Direction::UkrainianToFaroese,
            translated(Direction::FaroeseToUkrainian, text),
        ) == text,
{
    lemma_faroese_round_trip(None, text);
    assert(fo_flush(None) + text =~= text);
}

/// What a waiting dead key stands for in Ukrainian: the character on its key.
pub open spec fn pending_ukrainian(pending: Option<KeyStroke>) -> Seq<char> {
    match pending {
        Some(dead) => typed(ua_char(dead)),
        None => Seq::empty(),
    }
}

proof fn lemma_ukrainian_round_trip(pending: Option<KeyStroke>, text: Seq<char>)
    requires
        forall|i: int| 0 <= i < text.len() ==> plain_ukrainian(#[trigger] text[i]),
        pending matches Some(dead) ==> ua_char(dead) is Some && fo_char(dead) is Some,
    ensures
        to_ukrainian(to_faroese(pending, text)) == pending_ukrainian(pending) + text,
    decreases text.len(),
{
    // the waiting dead key, typed on its own, converts back to its Ukrainian character
    if let Some(d) = pending {
        lemma_ukrainian_key_is_not_acute(d);
        lemma_faroese_single_key(d, fo_char(d).unwrap());
    } else {
        assert(to_ukrainian(fo_flush(pending)) =~= Seq::<char>::empty());
    }
    assert(to_ukrainian(fo_flush(pending)) == pending_ukrainian(pending));
    if text.len() == 0 {
        assert(pending_ukrainian(pending) + text =~= pending_ukrainian(pending));
    } else {
        let c = text[0];
        let rest = text.drop_first();
        assert(plain_ukrainian(text[0]));
        assert forall|i: int| 0 <= i < rest.len() implies plain_ukrainian(#[trigger] rest[i]) by {
            assert(rest[i] == text[i + 1]);
        }
        if typeable(Layout::Ukrainian, c) {
            let keys = keys_for(Layout::Ukrainian, c);
            assert(spells(Layout::Ukrainian, keys, c));
            let k = keys[0];
            assert(keys =~= seq![k]);
            assert(ua_char(k) == Some(c));
            let f = fo_char(k).unwrap();
            lemma_ukrainian_key_is_not_acute(k);
            lemma_fo_run_one(pending, k);
            let (out, next) = fo_press(pending, k);
            let composed = match pending {
                Some(d) => fo_compose(d, k),
                None => None,
            };
            if let Some(x) = composed {
                let d = pending.unwrap();
                assert(spells(Layout::Faroese, seq![d, k], x));
                spelled_keys_are_keys_for(Layout::Faroese, seq![d, k], x);
                lemma_ua_typing_two(d, k);
                lemma_to_ukrainian_single(x);
                lemma_ukrainian_round_trip(None, rest);
                lemma_to_ukrainian_concat(out, to_faroese(next, rest));
                assert(to_ukrainian(to_faroese(pending, text)) =~= pending_ukrainian(pending)
                    + text);
            } else if is_dead_key(k) {
                lemma_ukrainian_round_trip(Some(k), rest);
                lemma_to_ukrainian_concat(out, to_faroese(next, rest));
                assert(to_ukrainian(to_faroese(pending, text)) =~= pending_ukrainian(pending)
                    + text);
            } else {
                lemma_faroese_single_key(k, f);
                lemma_ukrainian_round_trip(None, rest);
                lemma_to_ukrainian_concat(fo_flush(pending), seq![f]);
                lemma_to_ukrainian_concat(out, to_faroese(next, rest));
                assert(to_ukrainian(to_faroese(pending, text)) =~= pending_ukrainian(pending)
                    + text);
            }
        } else {
            lemma_ukrainian_round_trip(None, rest);
            assert(ukrainian_char(c) == seq![c]);
            lemma_to_ukrainian_single(c);
            lemma_to_ukrainian_concat(fo_flush(pending), seq![c]);
            lemma_to_ukrainian_concat(fo_flush(pending) + seq![c], to_faroese(None, rest));
            assert(to_ukrainian(to_faroese(pending, text)) =~= pending_ukrainian(pending) + text);
        }
    }
}

/// Converting Ukrainian text to Faroese and back gives the text back, when it
/// has no Faroese characters and its Ukrainian letters all sit on keys that
/// also type a Faroese character (dead keys recompose on the way there and
/// decompose on the way back).
pub proof fn ukrainian_round_trip(text: Seq<char>)
    requires
        forall|i: int| 0 <= i < text.len() ==> plain_ukrainian(#[trigger] text[i]),
    ensures
        translated(
            Direction::FaroeseToUkrainian,
            translated(Direction::UkrainianToFaroese, text),
        ) == text,
{
    lemma_ukrainian_round_trip(None, text);
    assert(pending_ukrainian(None) + text =~= text);
}

// ---- text the source layout cannot type, and converting twice

proof fn lemma_to_ukrainian_foreign(text: Seq<char>)
    requires
        free_of(Layout::Faroese, text),
    ensures
        to_ukrainian(text) == text,
    decreases text.len(),
{
    if text.len() > 0 {
        assert(!typeable(Layout::Faroese, text[0]));
        let rest = text.drop_first();
        assert forall|i: int| 0 <= i < rest.len() implies !typeable(
            Layout::Faroese,
            #[trigger] rest[i],
        ) by {
            assert(rest[i] == text[i + 1]);
        }
        lemma_to_ukrainian_foreign(rest);
        assert(to_ukrainian(text) =~= text);
    } else {
        assert(to_ukrainian(text) =~= text);
    }
}

proof fn lemma_to_faroese_foreign(text: Seq<char>)
    requires
        free_of(Layout::Ukrainian, text),
    ensures
        to_faroese(None, text) == text,
    decreases text.len(),
{
    if text.len() > 0 {
        assert(!typeable(Layout::Ukrainian, text[0]));
        let rest = text.drop_first();
        assert forall|i: int| 0 <= i < rest.len() implies !typeable(
            Layout::Ukrainian,
            #[trigger] rest[i],
        ) by {
            assert(rest[i] == text[i + 1]);
        }
        lemma_to_faroese_foreign(rest);
        assert(to_faroese(None, text) =~= text);
    } else {
        assert(to_faroese(None, text) =~= text);
    }
}

/// Characters that the source layout cannot type are left as they are: text
/// made only of them is not changed at all.
pub proof fn foreign_text_is_unchanged(dir: Direction, text: Seq<char>)
    requires
        free_of(dir.source(), text),
    ensures
        translated(dir, text) == text,
{
    match dir {
        Direction::FaroeseToUkrainian => lemma_to_ukrainian_foreign(text),
        Direction::UkrainianToFaroese => lemma_to_faroese_foreign(text),
    }
}

/// Converted text has no characters left of the source layout.
pub proof fn conversion_leaves_no_source_characters(dir: Direction, text: Seq<char>)
    ensures
        free_of(dir.source(), translated(dir, text)),
{
    match dir {
        Direction::FaroeseToUkrainian => lemma_to_ukrainian_not_faroese(text),
        Direction::UkrainianToFaroese => lemma_to_faroese_not_ukrainian(None, text),
    }
}

/// Converting twice in the same direction is converting once.
pub proof fn conversion_is_idempotent(dir: Direction, text: Seq<char>)
    ensures
        translated(dir, translated(dir, text)) == translated(dir, text),
{
    conversion_leaves_no_source_characters(dir, text);
    foreign_text_is_unchanged(dir, translated(dir, text));
}

// ---- direction detection

proof fn lemma_count_concat(a: Seq<char>, b: Seq<char>, belongs: spec_fn(char) -> bool)
    ensures
        count_where(a + b, belongs) == count_where(a, belongs) + count_where(b, belongs),
    decreases b.len(),
{
    if b.len() == 0 {
        assert(a + b =~= a);
    } else {
        assert((a + b).drop_last() =~= a + b.drop_last());
        assert((a + b).last() == b.last());
        lemma_count_concat(a, b.drop_last(), belongs);
    }
}

proof fn lemma_count_zero(text: Seq<char>, belongs: spec_fn(char) -> bool)
    requires
        forall|i: int| 0 <= i < text.len() ==> !belongs(#[trigger] text[i]),
    ensures
        count_where(text, belongs) == 0,
    decreases text.len(),
{
    if text.len() > 0 {
        let init = text.drop_last();
        assert forall|i: int| 0 <= i < init.len() implies !belongs(#[trigger] init[i]) by {
            assert(init[i] == text[i]);
        }
        lemma_count_zero(init, belongs);
        assert(!belongs(text[text.len() - 1]));
    }
}

proof fn lemma_count_positive(text: Seq<char>, belongs: spec_fn(char) -> bool, i: int)
    requires
        0 <= i < text.len(),
        belongs(text[i]),
    ensures
        count_where(text, belongs) > 0,
    decreases text.len(),
{
    if i < text.len() - 1 {
        let init = text.drop_last();
        assert(init[i] == text[i]);
        lemma_count_positive(init, belongs, i);
    }
}

proof fn lemma_count_permutation(s: Seq<char>, t: Seq<char>, belongs: spec_fn(char) -> bool)
    requires
        s.to_multiset() == t.to_multiset(),
    ensures
        count_where(s, belongs) == count_where(t, belongs),
    decreases s.len(),
{
    vstd::seq_lib::to_multiset_len(s);
    vstd::seq_lib::to_multiset_len(t);
    if s.len() == 0 {
        assert(t =~= s);
    } else {
        let n = s.len() - 1;
        let x = s[n];
        vstd::seq_lib::to_multiset_contains(s, x);
        assert(s.contains(x));
        vstd::seq_lib::to_multiset_contains(t, x);
        let j = choose|j: int| 0 <= j < t.len() && t[j] == x;
        let s_rest = s.remove(n);
        let t_rest = t.remove(j);
        vstd::seq_lib::to_multiset_remove(s, n);
        vstd::seq_lib::to_multiset_remove(t, j);
        assert(s_rest =~= s.drop_last());
        lemma_count_permutation(s_rest, t_rest, belongs);
        let one = seq![x];
        reveal_with_fuel(count_where, 2);
        assert(one.drop_last() =~= Seq::<char>::empty());
        assert(count_where(one, belongs) == if belongs(x) {
            1nat
        } else {
            0nat
        });
        let front = t.take(j);
        let back = t.skip(j + 1);
        assert(t =~= front + one + back);
        assert(t_rest =~= front + back);
        lemma_count_concat(front + one, back, belongs);
        lemma_count_concat(front, one, belongs);
        lemma_count_concat(front, back, belongs);
    }
}

/// The direction depends only on which characters the text holds, not on
/// their order.
pub proof fn reordering_keeps_direction(s: Seq<char>, t: Seq<char>)
    requires
        s.to_multiset() == t.to_multiset(),
    ensures
        detected_direction(s) == detected_direction(t),
{
    lemma_count_permutation(s, t, |c: char| ua_vote(c));
    lemma_count_permutation(s, t, |c: char| fo_vote(c));
}

/// Text converted to Faroese is detected as Faroese text (to be converted to
/// Ukrainian).
pub proof fn converted_to_faroese_is_detected_faroese(text: Seq<char>)
    ensures
        detected_direction(translated(Direction::UkrainianToFaroese, text))
            == Direction::FaroeseToUkrainian,
{
    let out = translated(Direction::UkrainianToFaroese, text);
    conversion_leaves_no_source_characters(Direction::UkrainianToFaroese, text);
    assert forall|i: int| 0 <= i < out.len() implies !(|c: char| ua_vote(c))(
        #[trigger] out[i],
    ) by {
        assert(!typeable(Layout::Ukrainian, out[i]));
    }
    lemma_count_zero(out, |c: char| ua_vote(c));
}

/// Text holding a Faroese character, converted to Ukrainian, is detected as
/// Ukrainian text (to be converted to Faroese).
pub proof fn converted_to_ukrainian_is_detected_ukrainian(text: Seq<char>, i: int)
    requires
        0 <= i < text.len(),
        typeable(Layout::Faroese, text[i]),
    ensures
        detected_direction(translated(Direction::FaroeseToUkrainian, text))
            == Direction::UkrainianToFaroese,
{
    let out = translated(Direction::FaroeseToUkrainian, text);
    conversion_leaves_no_source_characters(Direction::FaroeseToUkrainian, text);
    assert forall|j: int| 0 <= j < out.len() implies !(|c: char| fo_vote(c))(
        #[trigger] out[j],
    ) by {
        assert(!typeable(Layout::Faroese, out[j]));
    }
    lemma_count_zero(out, |c: char| fo_vote(c));
    // the converted character holds a Ukrainian character
    let c = text[i];
    let keys = keys_for(Layout::Faroese, c);
    assert(spells(Layout::Faroese, keys, c));
    let k = if keys.len() == 1 {
        keys[0]
    } else {
        keys[1]
    };
    if keys.len() == 1 {
        lemma_faroese_key_is_ukrainian_key(k);
        lemma_ua_typing_one(k);
        assert(keys =~= seq![k]);
    } else {
        lemma_composed_base_is_ukrainian_key(keys[0], k);
        lemma_ua_typing_two(keys[0], k);
        assert(keys =~= seq![keys[0], k]);
    }
    let u = ua_char(k).unwrap();
    let piece = ukrainian_char(c);
    let at = piece.len() - 1;
    assert(piece[at] == u);
    assert(spells(Layout::Ukrainian, seq![k], u));
    assert(typeable(Layout::Ukrainian, u));
    // place it in the whole converted text
    let front = text.take(i);
    let back = text.skip(i + 1);
    assert(text =~= front + seq![c] + back);
    lemma_to_ukrainian_concat(front + seq![c], back);
    lemma_to_ukrainian_concat(front, seq![c]);
    lemma_to_ukrainian_single(c);
    let pos = to_ukrainian(front).len() + at;
    assert(out == to_ukrainian(front) + piece + to_ukrainian(back));
    assert(out[pos] == u);
    lemma_count_positive(out, |c: char| ua_vote(c), pos);
}


proof fn lemma_count_is_filter_len(text: Seq<char>, belongs: spec_fn(char) -> bool)
    ensures
        count_where(text, belongs) == text.filter(belongs).len(),
    decreases text.len(),
{
    reveal_with_fuel(Seq::filter, 1);
    if text.len() > 0 {
        lemma_count_is_filter_len(text.drop_last(), belongs);
    }
}

/// Characters that the Ukrainian layout types.
pub open spec fn ukrainian_characters(text: Seq<char>) -> Seq<char> {
    text.filter(|c: char| typeable(Layout::Ukrainian, c))
}

/// Characters that the Faroese layout types and the Ukrainian one does not.
pub open spec fn faroese_only_characters(text: Seq<char>) -> Seq<char> {
    text.filter(|c: char| !typeable(Layout::Ukrainian, c) && typeable(Layout::Faroese, c))
}

proof fn lemma_votes_are_character_counts(text: Seq<char>)
    ensures
        ua_votes(text) == ukrainian_characters(text).len(),
        fo_votes(text) == faroese_only_characters(text).len(),
{
    lemma_count_is_filter_len(text, |c: char| ua_vote(c));
    lemma_count_is_filter_len(text, |c: char| fo_vote(c));
    assert((|c: char| ua_vote(c)) =~= (|c: char| typeable(Layout::Ukrainian, c)));
    assert((|c: char| fo_vote(c)) =~= (|c: char|
        !typeable(Layout::Ukrainian, c) && typeable(Layout::Faroese, c)));
}

/// Detection is a plain majority vote: the text is converted from Ukrainian
/// exactly when it holds strictly more characters of the Ukrainian layout than
/// characters of the Faroese layout only; otherwise (a tie included) from
/// Faroese.
pub proof fn direction_is_plain_majority(text: Seq<char>)
    ensures
        detected_direction(text) == Direction::UkrainianToFaroese <==> ukrainian_characters(text).len()
            > faroese_only_characters(text).len(),
        detected_direction(text) == Direction::FaroeseToUkrainian <==> ukrainian_characters(text).len()
            <= faroese_only_characters(text).len(),
{
    lemma_votes_are_character_counts(text);
}

/// Adding one character to a text adds one vote to the side it belongs to and
/// nothing to the other.
pub proof fn one_more_character_counts_once(text: Seq<char>, c: char)
    ensures
        ukrainian_characters(text.push(c)).len() == ukrainian_characters(text).len() + if typeable(
            Layout::Ukrainian,
            c,
        ) {
            1int
        } else {
            0int
        },
        faroese_only_characters(text.push(c)).len() == faroese_only_characters(text).len() + if !typeable(
            Layout::Ukrainian,
            c,
        ) && typeable(Layout::Faroese, c) {
            1int
        } else {
            0int
        },
{
    reveal_with_fuel(Seq::filter, 1);
    assert(text.push(c).drop_last() =~= text);
    assert(text.push(c).last() == c);
}

/// A tied text is converted from Faroese, and one more Ukrainian character
/// tips it to Ukrainian; one more Faroese character keeps it Faroese.
pub proof fn one_character_breaks_a_tie(text: Seq<char>, c: char)
    requires
        ukrainian_characters(text).len() == faroese_only_characters(text).len(),
    ensures
        detected_direction(text) == Direction::FaroeseToUkrainian,
        typeable(Layout::Ukrainian, c) ==> detected_direction(text.push(c))
            == Direction::UkrainianToFaroese,
        !typeable(Layout::Ukrainian, c) ==> detected_direction(text.push(c))
            == Direction::FaroeseToUkrainian,
{
    direction_is_plain_majority(text);
    direction_is_plain_majority(text.push(c));
    one_more_character_counts_once(text, c);
}

} // verus!
