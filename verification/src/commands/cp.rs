//! `cp`: what to copy, and where to.

use vstd::prelude::*;
use vstd::string::StringExecFns;
use crate::error::{ErrorView, ShellError};
use crate::paths::{destination, destination_of};
use crate::text::texts;

verus! {

/// What `cp` does.
#[derive(Debug, PartialEq, Eq)]
pub enum CpPlan {
    /// Nothing: the source is no regular file.
    Nothing,
    /// Copy the file `from` to `to`.
    Copy { from: String, to: String },
}

/// The mathematical content of a `CpPlan`.
pub ghost enum CpPlanView {
    Nothing,
    Copy { from: Seq<char>, to: Seq<char> },
}

impl View for CpPlan {
    type V = CpPlanView;

    open spec fn view(&self) -> CpPlanView {
        match self {
            CpPlan::Nothing => CpPlanView::Nothing,
            CpPlan::Copy { from, to } => CpPlanView::Copy { from: from@, to: to@ },
        }
    }
}

/// What `cp` does with a source and a destination: the destination is
/// settled first, under the name of the source if it is a directory;
/// then a regular file is copied there, and anything else is left alone.
/// Other than two arguments are refused.
pub open spec fn cp_plan(args: Seq<Seq<char>>, src_is_file: bool, dst_is_dir: bool) -> Result<
    CpPlanView,
    ErrorView,
> {
    if args.len() != 2 {
        Err(ErrorView::CpWrongArguments)
    } else {
        match destination_of(args[0], args[1], dst_is_dir) {
            Err(e) => Err(e),
            Ok(to) => if src_is_file {
                Ok(CpPlanView::Copy { from: args[0], to })
            } else {
                Ok(CpPlanView::Nothing)
            },
        }
    }
}

/// Decides what `cp` does. `src_is_file` says whether the source is a
/// regular file, `dst_is_dir` whether the destination is a directory.
pub fn cp(args: &[&str], src_is_file: bool, dst_is_dir: bool) -> (r: Result<CpPlan, ShellError>)
    ensures
        match r {
            Ok(plan) => cp_plan(texts(args@), src_is_file, dst_is_dir) == Ok::<
                CpPlanView,
                ErrorView,
            >(plan@),
            Err(e) => cp_plan(texts(args@), src_is_file, dst_is_dir) == Err::<
                CpPlanView,
                ErrorView,
            >(e@),
        },
{
    if args.len() != 2 {
        return Err(ShellError::CpWrongArguments);
    }
    let to = match destination(args[0], args[1], dst_is_dir) {
        Ok(to) => to,
        Err(e) => {
            return Err(e);
        },
    };
    if src_is_file {
        Ok(CpPlan::Copy { from: String::from_str(args[0]), to })
    } else {
        Ok(CpPlan::Nothing)
    }
}

} // verus!
