//! Paths as the standard library reads them: final component, joining,
//! equality and quoting. Each is known here by a name only.

use std::path::Path;
use vstd::prelude::*;
use vstd::string::StringExecFns;
use crate::error::{ErrorView, ShellError};

verus! {

/// The final component of a path, as `Path::file_name` finds it.
pub uninterp spec fn file_name_of(path: Seq<char>) -> Option<Seq<char>>;

/// A path with another adjoined, as `Path::join` builds it.
pub uninterp spec fn path_joined(base: Seq<char>, tail: Seq<char>) -> Seq<char>;

/// Whether two texts are the same path to `Path`'s `==`, which compares
/// component by component.
pub uninterp spec fn paths_equal(a: Seq<char>, b: Seq<char>) -> bool;

/// A path between quotes and with its special characters escaped, as the
/// `Debug` of `Path::display` writes it.
pub uninterp spec fn quoted_path(path: Seq<char>) -> Seq<char>;

/// Whether two texts name the same path: equal texts do, and so do those
/// that `Path` holds equal.
pub open spec fn same_path(a: Seq<char>, b: Seq<char>) -> bool {
    a == b || paths_equal(a, b)
}

/// The final component of a path, through `Path::file_name`, which has
/// none for a path that ends in `..` or is a root. The component of a
/// path given as text is text again, so the conversion loses nothing.
#[verifier::external_body]
pub(crate) fn file_name(path: &str) -> (r: Option<String>)
    ensures
        match r {
            Some(name) => file_name_of(path@) == Some(name@),
            None => file_name_of(path@) is None,
        },
{
    match Path::new(path).file_name() {
        Some(name) => Some(name.to_string_lossy().into_owned()),
        None => None,
    }
}

/// Adjoins `tail` to `base`, through `Path::join`.
#[verifier::external_body]
pub(crate) fn join(base: &str, tail: &str) -> (r: String)
    ensures
        r@ == path_joined(base@, tail@),
{
    Path::new(base).join(tail).to_string_lossy().into_owned()
}

/// Compares two paths, through the `==` of `Path`, which is an
/// equivalence: a path equals itself.
#[verifier::external_body]
pub(crate) fn is_same_path(a: &str, b: &str) -> (r: bool)
    ensures
        r == paths_equal(a@, b@),
        a@ == b@ ==> r,
{
    Path::new(a) == Path::new(b)
}

/// Quotes a path, through the `Debug` of `Path::display`.
#[verifier::external_body]
pub(crate) fn quote(path: &str) -> (r: String)
    ensures
        r@ == quoted_path(path@),
{
    format!("{:?}", Path::new(path).display())
}

/// Where a source ends up when it is copied or moved to `dst`: under
/// its own name inside `dst` if that is a directory, else at `dst`
/// itself. A source without a final component cannot go into a
/// directory.
pub open spec fn destination_of(src: Seq<char>, dst: Seq<char>, dst_is_dir: bool) -> Result<
    Seq<char>,
    ErrorView,
> {
    if !dst_is_dir {
        Ok(dst)
    } else {
        match file_name_of(src) {
            Some(name) => Ok(path_joined(dst, name)),
            None => Err(ErrorView::NoFileName(src)),
        }
    }
}

/// Where `src` ends up when it is copied or moved to `dst`.
pub fn destination(src: &str, dst: &str, dst_is_dir: bool) -> (r: Result<String, ShellError>)
    ensures
        match r {
            Ok(to) => destination_of(src@, dst@, dst_is_dir) == Ok::<Seq<char>, ErrorView>(to@),
            Err(e) => destination_of(src@, dst@, dst_is_dir) == Err::<Seq<char>, ErrorView>(e@),
        },
{
    if !dst_is_dir {
        Ok(String::from_str(dst))
    } else {
        match file_name(src) {
            Some(name) => Ok(join(dst, name.as_str())),
            None => Err(ShellError::NoFileName(String::from_str(src))),
        }
    }
}

} // verus!
