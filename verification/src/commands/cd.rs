//! `cd`: where to go.

use vstd::prelude::*;
use vstd::string::StringExecFns;
use crate::error::{ErrorView, ShellError};
use crate::text::texts;

verus! {

/// Where `cd` goes.
#[derive(Debug, PartialEq, Eq)]
pub enum CdTarget {
    /// To the home directory, as the environment names it.
    Home,
    /// To this path.
    Path(String),
}

/// What `cd` does with its arguments, as a value or a failure.
pub ghost enum CdOutcome {
    Home,
    Path(Seq<char>),
    Fail(ErrorView),
}

/// What `cd` does: without an argument it goes home; with one it goes
/// there if the path exists and fails if it does not; with more it fails.
/// `exists` says whether the one path exists.
pub open spec fn cd_outcome(args: Seq<Seq<char>>, exists: bool) -> CdOutcome {
    if args.len() == 0 {
        CdOutcome::Home
    } else if args.len() > 1 {
        CdOutcome::Fail(ErrorView::CdTooManyArguments)
    } else if exists {
        CdOutcome::Path(args[0])
    } else {
        CdOutcome::Fail(ErrorView::CdNoSuchDirectory(args[0]))
    }
}

/// Decides where `cd` goes. `exists` says whether the path of a single
/// argument exists; it is not looked at otherwise. A failure leaves the
/// working directory as it is: there is then nothing to go to.
pub fn cd(args: &[&str], exists: bool) -> (r: Result<CdTarget, ShellError>)
    ensures
        match r {
            Ok(CdTarget::Home) => cd_outcome(texts(args@), exists) == CdOutcome::Home,
            Ok(CdTarget::Path(path)) => cd_outcome(texts(args@), exists) == CdOutcome::Path(
                path@,
            ),
            Err(e) => cd_outcome(texts(args@), exists) == CdOutcome::Fail(e@),
        },
{
    if args.len() == 0 {
        Ok(CdTarget::Home)
    } else if args.len() > 1 {
        Err(ShellError::CdTooManyArguments)
    } else if exists {
        Ok(CdTarget::Path(String::from_str(args[0])))
    } else {
        Err(ShellError::CdNoSuchDirectory(String::from_str(args[0])))
    }
}

/// Where home is: the directory that the environment names, as it
/// names it. Without one, going home fails, and the shell goes on.
pub fn home_target(home: Option<&str>) -> (r: Result<String, ShellError>)
    ensures
        match home {
            Some(h) => r matches Ok(s) && s@ == h@,
            None => r matches Err(e) && e@ == ErrorView::HomeNotSet,
        },
{
    match home {
        Some(h) => Ok(String::from_str(h)),
        None => Err(ShellError::HomeNotSet),
    }
}

} // verus!
