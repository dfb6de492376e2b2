use vstd::prelude::*;

use crate::layout::{
    char_to_fo_strokes, char_to_ua_strokes, compose_fo_accent, fo_flush, fo_press, fo_run,
    is_fo_accent_key, key_char, keys_for, spells, stroke_to_fo, stroke_to_ua, typeable, ua_typing,
    Layout,
};
use crate::stroke::{KeyStroke, StrokeSeq};

verus! {

/// Which way a text is converted.
#[derive(Debug, Clone, Copy, PartialEq, Eq, Structural)]
pub enum Direction {
    FaroeseToUkrainian,
    UkrainianToFaroese,
}

impl Direction {
    /// The layout the text was typed in.
    pub open spec fn source(self) -> Layout {
        match self {
            Direction::FaroeseToUkrainian => Layout::Faroese,
            Direction::UkrainianToFaroese => Layout::Ukrainian,
        }
    }

    /// The layout the text is converted to.
    pub open spec fn target(self) -> Layout {
        match self {
            Direction::FaroeseToUkrainian => Layout::Ukrainian,
            Direction::UkrainianToFaroese => Layout::Faroese,
        }
    }
}

/// Number of characters of `text` for which `belongs` holds.
pub open spec fn count_where(text: Seq<char>, belongs: spec_fn(char) -> bool) -> nat
    decreases text.len(),
{
    if text.len() == 0 {
        0
    } else {
        count_where(text.drop_last(), belongs) + if belongs(text.last()) {
            1nat
        } else {
            0nat
        }
    }
}

/// `c` counts for the Ukrainian layout.
pub open spec fn ua_vote(c: char) -> bool {
    typeable(Layout::Ukrainian, c)
}

/// `c` counts for the Faroese layout (and not for the Ukrainian one).
pub open spec fn fo_vote(c: char) -> bool {
    !typeable(Layout::Ukrainian, c) && typeable(Layout::Faroese, c)
}

/// Number of characters of `text` that belong to the Ukrainian layout.
pub open spec fn ua_votes(text: Seq<char>) -> nat {
    count_where(text, |c: char| ua_vote(c))
}

/// Number of characters of `text` that belong to the Faroese layout and not
/// to the Ukrainian one.
pub open spec fn fo_votes(text: Seq<char>) -> nat {
    count_where(text, |c: char| fo_vote(c))
}

/// The direction chosen for `text`: away from the layout most of its
/// characters belong to; a tie converts Faroese to Ukrainian.
pub open spec fn detected_direction(text: Seq<char>) -> Direction {
    if ua_votes(text) > fo_votes(text) {
        Direction::UkrainianToFaroese
    } else {
        Direction::FaroeseToUkrainian
    }
}

/// What a Faroese-layout character becomes in Ukrainian: its keys typed on the
/// Ukrainian layout; a character the Faroese layout cannot type stays.
pub open spec fn ukrainian_char(c: char) -> Seq<char> {
    if typeable(Layout::Faroese, c) {
        ua_typing(keys_for(Layout::Faroese, c))
    } else {
        seq![c]
    }
}

/// `text` converted from the Faroese to the Ukrainian layout, character by
/// character.
pub open spec fn to_ukrainian(text: Seq<char>) -> Seq<char>
    decreases text.len(),
{
    if text.len() == 0 {
        Seq::empty()
    } else {
        ukrainian_char(text[0]) + to_ukrainian(text.drop_first())
    }
}

/// `text` converted from the Ukrainian to the Faroese layout while the
/// Faroese dead key `pending` (if any) waits.  The keys of consecutive
/// Ukrainian characters are typed on the Faroese layout as one sequence, so a
/// dead key composes with the key of the next character; a waiting dead key
/// types itself before a character outside the Ukrainian layout (which stays
/// as it is) and at the end of the text.
pub open spec fn to_faroese(pending: Option<KeyStroke>, text: Seq<char>) -> Seq<char>
    decreases text.len(),
{
    if text.len() == 0 {
        fo_flush(pending)
    } else if typeable(Layout::Ukrainian, text[0]) {
        let (out, next) = fo_run(pending, keys_for(Layout::Ukrainian, text[0]));
        out + to_faroese(next, text.drop_first())
    } else {
        fo_flush(pending) + seq![text[0]] + to_faroese(None, text.drop_first())
    }
}

/// The conversion of `text` in direction `dir`.
pub open spec fn translated(dir: Direction, text: Seq<char>) -> Seq<char> {
    match dir {
        Direction::FaroeseToUkrainian => to_ukrainian(text),
        Direction::UkrainianToFaroese => to_faroese(None, text),
    }
}

/// What is still to be produced for the unconverted `rest` of a text, with
/// the dead key `pending` (if any) waiting.
pub open spec fn remaining_output(dir: Direction, pending: Option<KeyStroke>, rest: Seq<char>) -> Seq<
    char,
> {
    match dir {
        Direction::FaroeseToUkrainian => to_ukrainian(rest),
        Direction::UkrainianToFaroese => to_faroese(pending, rest),
    }
}

/// Trusted wrapper of std's `String::push`: appending `c` leaves the earlier
/// characters in place and adds `c` at the end, as std documents.
#[verifier::external_body]
fn push_char(s: &mut String, c: char)
    ensures
        final(s)@ == old(s)@.push(c),
{
    s.push(c);
}

/// Converts text between the Faroese and the Ukrainian keyboard layouts.
pub struct LayoutMapper;

impl LayoutMapper {
    /// Chooses the direction from the characters of `text` (see
    /// `detected_direction`).
    pub fn detect_direction(text: &str) -> (r: Direction)
        requires
            text@.len() <= u32::MAX,
        ensures
            r == detected_direction(text@),
    {
        let mut ukr_count: u32 = 0;
        let mut fo_count: u32 = 0;

        for char_item in it: text.chars()
            invariant
                it.seq() == text@,
                text@.len() <= u32::MAX,
                ukr_count == ua_votes(text@.take(it.index() as int)),
                fo_count == fo_votes(text@.take(it.index() as int)),
                ukr_count + fo_count <= it.index(),
        {
            let ghost i = it.index() as int;
            assert(text@.take(i + 1).drop_last() =~= text@.take(i));
            if char_to_ua_strokes(char_item).is_some() {
                ukr_count += 1;
            } else if char_to_fo_strokes(char_item).is_some() {
                fo_count += 1;
            }
        }
        assert(text@.take(text@.len() as int) =~= text@);

        if ukr_count > fo_count {
            Direction::UkrainianToFaroese
        } else {
            Direction::FaroeseToUkrainian
        }
    }

    /// The keys that type `char_item` on the source layout of `dir`.
    pub fn decompose(char_item: char, dir: Direction) -> (r: Option<StrokeSeq>)
        ensures
            r is Some <==> typeable(dir.source(), char_item),
            r matches Some(s) ==> s.wf() && spells(dir.source(), s@, char_item),
            r matches Some(s) ==> s@ == keys_for(dir.source(), char_item),
    {
        match dir {
            Direction::UkrainianToFaroese => char_to_ua_strokes(char_item),
            Direction::FaroeseToUkrainian => char_to_fo_strokes(char_item),
        }
    }

    /// What `stroke` types on the target layout of `dir`.
    pub fn synthesize(stroke: KeyStroke, dir: Direction) -> (r: Option<char>)
        ensures
            r == key_char(dir.target(), stroke),
    {
        match dir {
            Direction::UkrainianToFaroese => stroke_to_fo(stroke),
            Direction::FaroeseToUkrainian => stroke_to_ua(stroke),
        }
    }

    /// Converts `text` in direction `dir` (see `translated`).  From Ukrainian to
    /// Faroese, a Faroese dead key waiting after one character composes with the
    /// key of the next one.
    pub fn translate(text: &str, dir: Direction) -> (r: String)
        ensures
            r@ == translated(dir, text@),
    {
        let mut result = String::new();
        let mut pending_dead: Option<KeyStroke> = None;

        assert(text@.skip(0) =~= text@);
        for char_item in it: text.chars()
            invariant
                it.seq() == text@,
                dir == Direction::FaroeseToUkrainian ==> pending_dead is None,
                result@ + remaining_output(dir, pending_dead, text@.skip(it.index() as int))
                    == translated(dir, text@),
        {
            let ghost i = it.index() as int;
            let ghost rest = text@.skip(i);
            let ghost before = result@;
            let ghost pending_before = pending_dead;
            assert(rest[0] == char_item);
            assert(rest.drop_first() =~= text@.skip(i + 1));
            if let Some(seq) = Self::decompose(char_item, dir) {
                match dir {
                    Direction::FaroeseToUkrainian => {
                        let n = seq.len as usize;
                        assert(seq@.skip(0) =~= seq@);
                        for idx in 0..n
                            invariant
                                n == seq.len,
                                seq.wf(),
                                dir == Direction::FaroeseToUkrainian,
                                result@ + ua_typing(seq@.skip(idx as int)) == before + ua_typing(
                                    seq@,
                                ),
                        {
                            assert(seq@.skip(idx as int).drop_first() =~= seq@.skip(idx + 1));
                            if let Some(mapped) = Self::synthesize(seq.strokes[idx], dir) {
                                push_char(&mut result, mapped);
                            }
                            assert(result@ + ua_typing(seq@.skip(idx + 1)) =~= before
                                + ua_typing(seq@));
                        }
                        assert(seq@.skip(n as int) =~= Seq::<KeyStroke>::empty());
                        assert(result@ =~= before + ua_typing(seq@));
                    },
                    Direction::UkrainianToFaroese => {
                        let n = seq.len as usize;
                        assert(seq@.skip(0) =~= seq@);
                        for idx in 0..n
                            invariant
                                n == seq.len,
                                seq.wf(),
                                dir == Direction::UkrainianToFaroese,
                                result@ + fo_run(pending_dead, seq@.skip(idx as int)).0 == before
                                    + fo_run(pending_before, seq@).0,
                                fo_run(pending_dead, seq@.skip(idx as int)).1 == fo_run(
                                    pending_before,
                                    seq@,
                                ).1,
                        {
                            let stroke = seq.strokes[idx];
                            let ghost p = pending_dead;
                            let ghost res = result@;
                            assert(seq@.skip(idx as int).drop_first() =~= seq@.skip(idx + 1));
                            assert(seq@.skip(idx as int)[0] == stroke);
                            let mut composed_now = false;
                            if let Some(dead) = pending_dead.take() {
                                if let Some(composed) = compose_fo_accent(dead, stroke) {
                                    push_char(&mut result, composed);
                                    composed_now = true;
                                } else if let Some(mapped) = Self::synthesize(dead, dir) {
                                    push_char(&mut result, mapped);
                                }
                            }
                            if !composed_now {
                                if is_fo_accent_key(stroke) {
                                    pending_dead = Some(stroke);
                                } else if let Some(mapped) = Self::synthesize(stroke, dir) {
                                    push_char(&mut result, mapped);
                                }
                            }
                            assert(result@ =~= res + fo_press(p, stroke).0);
                            assert(pending_dead == fo_press(p, stroke).1);
                            assert(result@ + fo_run(pending_dead, seq@.skip(idx + 1)).0 =~= res
                                + fo_run(p, seq@.skip(idx as int)).0);
                        }
                        assert(seq@.skip(n as int) =~= Seq::<KeyStroke>::empty());
                        assert(result@ =~= before + fo_run(pending_before, seq@).0);
                    },
                }
            } else {
                if let Some(dead) = pending_dead.take() {
                    if let Some(mapped) = Self::synthesize(dead, dir) {
                        push_char(&mut result, mapped);
                    }
                }
                assert(result@ =~= before + fo_flush(pending_before));
                push_char(&mut result, char_item);
            }
            assert(result@ + remaining_output(dir, pending_dead, text@.skip(i + 1)) =~= before
                + remaining_output(dir, pending_before, rest));
        }
        let ghost before = result@;
        if let Some(dead) = pending_dead {
            if let Some(mapped) = Self::synthesize(dead, dir) {
                push_char(&mut result, mapped);
            }
        }
        assert(text@.skip(text@.len() as int) =~= Seq::<char>::empty());
        assert(result@ =~= translated(dir, text@));
        result
    }
}

} // verus!
