//! `cat`: where the text to print comes from.

use vstd::prelude::*;
use crate::text::{owned, texts, views};

verus! {

/// What `cat` prints.
#[derive(Debug, PartialEq, Eq)]
pub enum CatSource {
    /// The lines of the standard input, one after the other.
    Stdin,
    /// The contents of these files, in this order.
    Files(Vec<String>),
}

/// The source of `cat`: the standard input if no file is named, else the
/// files named, in the order of the arguments.
pub fn cat(args: &[&str]) -> (r: CatSource)
    ensures
        match r {
            CatSource::Stdin => args@.len() == 0,
            CatSource::Files(paths) => args@.len() > 0 && views(paths@) == texts(args@),
        },
{
    if args.len() == 0 {
        CatSource::Stdin
    } else {
        CatSource::Files(owned(args))
    }
}

} // verus!
