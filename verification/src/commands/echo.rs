//! `echo`: its arguments, on one line.

use vstd::prelude::*;
use vstd::string::StringExecFns;
use crate::text::{joined, push_char, remove_char, texts, without};

verus! {

/// What `echo` prints: the arguments with one space between them,
/// without any double quote, and a newline.
pub open spec fn echoed(args: Seq<Seq<char>>) -> Seq<char> {
    without(joined(args, seq![' ']), '"').push('\n')
}

/// The line that `echo` prints for its arguments.
pub fn echo(args: &[&str]) -> (r: String)
    ensures
        r@ == echoed(texts(args@)),
{
    let mut line = String::new();
    let mut i: usize = 0;
    proof {
        reveal_strlit(" ");
        assert(" "@ =~= seq![' ']);
    }
    while i < args.len()
        invariant
            i <= args.len(),
            " "@ == seq![' '],
            line@ == joined(texts(args@).take(i as int), seq![' ']),
        decreases args.len() - i,
    {
        let ghost after = texts(args@).take(i as int + 1);
        assert(after.drop_last() =~= texts(args@).take(i as int));
        assert(after.last() == args@[i as int]@);
        if i > 0 {
            line.append(" ");
        }
        line.append(args[i]);
        assert(line@ =~= joined(after, seq![' ']));
        i += 1;
    }
    assert(texts(args@).take(args@.len() as int) =~= texts(args@));
    let mut out = remove_char(line.as_str(), '"');
    push_char(&mut out, '\n');
    out
}

} // verus!
