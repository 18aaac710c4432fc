//! `clear`: the sequence that clears the terminal.

use vstd::prelude::*;
use crate::text::push_char;

verus! {

/// The sequence that clears the screen and puts the cursor in its first
/// row and column.
pub open spec fn clear_sequence() -> Seq<char> {
    seq!['\u{1b}', '[', '2', 'J', '\u{1b}', '[', '1', ';', '1', 'H']
}

/// What `clear` writes.
pub fn clear() -> (r: String)
    ensures
        r@ == clear_sequence(),
{
    let mut out = String::new();
    push_char(&mut out, '\u{1b}');
    push_char(&mut out, '[');
    push_char(&mut out, '2');
    push_char(&mut out, 'J');
    push_char(&mut out, '\u{1b}');
    push_char(&mut out, '[');
    push_char(&mut out, '1');
    push_char(&mut out, ';');
    push_char(&mut out, '1');
    push_char(&mut out, 'H');
    assert(out@ =~= clear_sequence());
    out
}

} // verus!
