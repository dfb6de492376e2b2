use vstd::prelude::*;

use crate::mapper::{detected_direction, translated, Direction, LayoutMapper};

verus! {

/// The byte a client sends to the daemon to ask for a fix of the selection.
pub const FIX_REQUEST: u8 = 0x01;

/// Whether the byte read from a client asks for a fix.
pub fn is_fix_request(byte: u8) -> (r: bool)
    ensures
        r == (byte == FIX_REQUEST),
{
    byte == FIX_REQUEST
}

/// What to do with the text copied from the selection.
pub enum FixAction {
    /// Nothing was copied.
    EmptyClipboard,
    /// Converting in the detected direction changes nothing.
    Unchanged(Direction),
    /// Put the converted text on the clipboard and paste it.
    Replace(Direction, String),
}

/// Decides how to fix the copied `text`: detect the direction, convert, and
/// replace the selection only if the conversion changed something.
pub fn decide_fix(text: &str) -> (r: FixAction)
    requires
        text@.len() <= u32::MAX,
    ensures
        text@.len() == 0 <==> r is EmptyClipboard,
        r matches FixAction::Unchanged(dir) ==> dir == detected_direction(text@) && translated(
            dir,
            text@,
        ) == text@,
        r matches FixAction::Replace(dir, fixed) ==> dir == detected_direction(text@) && fixed@
            == translated(dir, text@) && fixed@ != text@,
{
    if text.is_empty() {
        return FixAction::EmptyClipboard;
    }
    let direction = LayoutMapper::detect_direction(text);
    let fixed = LayoutMapper::translate(text, direction);
    let original = text.to_owned();
    if fixed == original {
        return FixAction::Unchanged(direction);
    }
    FixAction::Replace(direction, fixed)
}

} // verus!
