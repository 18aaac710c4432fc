//! `mv`: what to move, how, and where to.

use vstd::prelude::*;
use vstd::string::StringExecFns;
use crate::error::{ErrorView, ShellError};
use crate::paths::{destination, destination_of, is_same_path, same_path};
use crate::text::texts;

verus! {

/// What `mv` does.
#[derive(Debug, PartialEq, Eq)]
pub enum MvPlan {
    /// Nothing: source and destination are the same path.
    Nothing,
    /// Move the directory `from` and all below it to `to`, then remove
    /// `from`.
    MoveDirectory { from: String, to: String },
    /// Rename `from` to `to`.
    Rename { from: String, to: String },
}

/// The mathematical content of an `MvPlan`.
pub ghost enum MvPlanView {
    Nothing,
    MoveDirectory { from: Seq<char>, to: Seq<char> },
    Rename { from: Seq<char>, to: Seq<char> },
}

impl View for MvPlan {
    type V = MvPlanView;

    open spec fn view(&self) -> MvPlanView {
        match self {
            MvPlan::Nothing => MvPlanView::Nothing,
            MvPlan::MoveDirectory { from, to } => MvPlanView::MoveDirectory {
                from: from@,
                to: to@,
            },
            MvPlan::Rename { from, to } => MvPlanView::Rename { from: from@, to: to@ },
        }
    }
}

/// How one path is moved to another: a directory with all below it,
/// anything else by renaming; into the destination, under its own name,
/// if that is a directory.
pub open spec fn move_plan(
    src: Seq<char>,
    dst: Seq<char>,
    src_is_dir: bool,
    dst_is_dir: bool,
) -> Result<MvPlanView, ErrorView> {
    match destination_of(src, dst, dst_is_dir) {
        Err(e) => Err(e),
        Ok(to) => if src_is_dir {
            Ok(MvPlanView::MoveDirectory { from: src, to })
        } else {
            Ok(MvPlanView::Rename { from: src, to })
        },
    }
}

/// What `mv` does with its arguments: without any, and with other than
/// two, it fails; a path moved to itself stays; any other is moved.
pub open spec fn mv_plan(args: Seq<Seq<char>>, src_is_dir: bool, dst_is_dir: bool) -> Result<
    MvPlanView,
    ErrorView,
> {
    if args.len() == 0 {
        Err(ErrorView::MvMissingArguments)
    } else if args.len() != 2 {
        Err(ErrorView::MvWrongArguments)
    } else if same_path(args[0], args[1]) {
        Ok(MvPlanView::Nothing)
    } else {
        move_plan(args[0], args[1], src_is_dir, dst_is_dir)
    }
}

/// Decides how `src` is moved to `dst`. `src_is_dir` and `dst_is_dir`
/// say which of the two is a directory. The children of a directory
/// that is moved are moved in the same way, into the new directory.
pub fn plan_move(src: &str, dst: &str, src_is_dir: bool, dst_is_dir: bool) -> (r: Result<
    MvPlan,
    ShellError,
>)
    ensures
        match r {
            Ok(plan) => move_plan(src@, dst@, src_is_dir, dst_is_dir) == Ok::<
                MvPlanView,
                ErrorView,
            >(plan@),
            Err(e) => move_plan(src@, dst@, src_is_dir, dst_is_dir) == Err::<
                MvPlanView,
                ErrorView,
            >(e@),
        },
{
    let to = match destination(src, dst, dst_is_dir) {
        Ok(to) => to,
        Err(e) => {
            return Err(e);
        },
    };
    if src_is_dir {
        Ok(MvPlan::MoveDirectory { from: String::from_str(src), to })
    } else {
        Ok(MvPlan::Rename { from: String::from_str(src), to })
    }
}

/// Decides what `mv` does. `src_is_dir` and `dst_is_dir` say which of
/// source and destination is a directory; they are not looked at where
/// the arguments are refused or name the same path.
pub fn mv(args: &[&str], src_is_dir: bool, dst_is_dir: bool) -> (r: Result<MvPlan, ShellError>)
    ensures
        match r {
            Ok(plan) => mv_plan(texts(args@), src_is_dir, dst_is_dir) == Ok::<
                MvPlanView,
                ErrorView,
            >(plan@),
            Err(e) => mv_plan(texts(args@), src_is_dir, dst_is_dir) == Err::<
                MvPlanView,
                ErrorView,
            >(e@),
        },
{
    if args.len() != 2 {
        if args.len() == 0 {
            return Err(ShellError::MvMissingArguments);
        } else {
            return Err(ShellError::MvWrongArguments);
        }
    }
    if is_same_path(args[0], args[1]) {
        return Ok(MvPlan::Nothing);
    }
    plan_move(args[0], args[1], src_is_dir, dst_is_dir)
}

/// Moving a path to itself does nothing and succeeds, whatever the path
/// is: so it can be repeated at will.
pub proof fn lemma_mv_to_itself(path: Seq<char>, src_is_dir: bool, dst_is_dir: bool)
    ensures
        mv_plan(seq![path, path], src_is_dir, dst_is_dir) == Ok::<MvPlanView, ErrorView>(
            MvPlanView::Nothing,
        ),
{
}

} // verus!
