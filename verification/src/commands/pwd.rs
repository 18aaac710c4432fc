//! `pwd`: the working directory, on one line.

use vstd::prelude::*;
use vstd::string::StringExecFns;
use crate::text::push_char;

verus! {

/// The line that `pwd` prints for the working directory `cwd`: the
/// directory as it is, and a newline.
pub fn pwd(cwd: &str) -> (r: String)
    ensures
        r@ == cwd@ + seq!['\n'],
{
    let mut out = String::from_str(cwd);
    push_char(&mut out, '\n');
    assert(out@ =~= cwd@ + seq!['\n']);
    out
}

} // verus!
