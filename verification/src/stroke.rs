use vstd::prelude::*;

verus! {

/// A key press: the evdev code of a physical key, and whether Shift is held.
#[derive(Clone, Copy, Debug, PartialEq, Eq, Structural)]
pub struct KeyStroke {
    pub code: u16,
    pub shift: bool,
}

/// The filler stroke that pads a one-key sequence.
pub open spec fn blank_stroke() -> KeyStroke {
    KeyStroke { code: 0, shift: false }
}

impl KeyStroke {
    pub fn new(code: u16, shift: bool) -> (r: Self)
        ensures
            r == (KeyStroke { code, shift }),
    {
        Self { code, shift }
    }
}

/// One or two key strokes that together type a single character
/// (two when a dead key precedes a base key).
#[derive(Clone, Copy, Debug)]
pub struct StrokeSeq {
    pub strokes: [KeyStroke; 2],
    pub len: u8,
}

impl View for StrokeSeq {
    type V = Seq<KeyStroke>;

    /// The strokes in use, in typing order.
    open spec fn view(&self) -> Seq<KeyStroke> {
        if self.len <= 2 {
            self.strokes@.take(self.len as int)
        } else {
            self.strokes@
        }
    }
}

impl StrokeSeq {
    /// A sequence holds one stroke (the second slot then holds the filler)
    /// or two strokes.
    pub open spec fn wf(&self) -> bool {
        ||| self.len == 1 && self.strokes@[1] == blank_stroke()
        ||| self.len == 2
    }

    pub fn single(stroke: KeyStroke) -> (r: Self)
        ensures
            r.wf(),
            r.len == 1,
            r.strokes@ == seq![stroke, blank_stroke()],
            r@ == seq![stroke],
    {
        let r = Self { strokes: [stroke, KeyStroke::new(0, false)], len: 1 };
        assert(r.strokes@ =~= seq![stroke, blank_stroke()]);
        assert(r@ =~= seq![stroke]);
        r
    }

    pub fn double(first: KeyStroke, second: KeyStroke) -> (r: Self)
        ensures
            r.wf(),
            r.len == 2,
            r.strokes@ == seq![first, second],
            r@ == seq![first, second],
    {
        let r = Self { strokes: [first, second], len: 2 };
        assert(r.strokes@ =~= seq![first, second]);
        assert(r@ =~= seq![first, second]);
        r
    }
}

} // verus!
