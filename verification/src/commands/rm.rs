//! `rm`: what to remove, and how.

use vstd::prelude::*;
use vstd::string::StringExecFns;
use crate::error::{ErrorView, ShellError};
use crate::text::{same_text, texts, views};

verus! {

/// Whether an argument asks for removal of whole trees: `-r`, in either
/// case.
pub open spec fn is_recursive_flag(arg: Seq<char>) -> bool {
    arg == "-r"@ || arg == "-R"@
}

/// What `rm` removes: these paths, in this order, directories among them
/// only if `recursive`.
#[derive(Debug, PartialEq, Eq)]
pub struct RmPlan {
    pub recursive: bool,
    pub paths: Vec<String>,
}

/// What `rm` makes of its arguments: `-r` in first place makes it
/// recursive and is no path; every other argument is a path; without a
/// path it fails.
pub open spec fn rm_plan(args: Seq<Seq<char>>) -> Result<(bool, Seq<Seq<char>>), ErrorView> {
    if args.len() == 0 || (args.len() == 1 && is_recursive_flag(args[0])) {
        Err(ErrorView::RmMissingArguments)
    } else if is_recursive_flag(args[0]) {
        Ok((true, args.skip(1)))
    } else {
        Ok((false, args))
    }
}

fn is_recursive(arg: &str) -> (r: bool)
    ensures
        r == is_recursive_flag(arg@),
{
    same_text(arg, "-r") || same_text(arg, "-R")
}

/// Reads the arguments of `rm`.
pub fn rm(args: &[&str]) -> (r: Result<RmPlan, ShellError>)
    ensures
        match r {
            Ok(plan) => rm_plan(texts(args@)) == Ok::<(bool, Seq<Seq<char>>), ErrorView>(
                (plan.recursive, views(plan.paths@)),
            ),
            Err(e) => rm_plan(texts(args@)) == Err::<(bool, Seq<Seq<char>>), ErrorView>(e@),
        },
{
    if args.len() == 0 || (args.len() == 1 && is_recursive(args[0])) {
        return Err(ShellError::RmMissingArguments);
    }
    let recursive = is_recursive(args[0]);
    let mut paths: Vec<String> = Vec::new();
    let mut i: usize = if recursive { 1 } else { 0 };
    let ghost start = i as int;
    assert(views(paths@) =~= texts(args@).subrange(start, i as int));
    while i < args.len()
        invariant
            0 <= start <= i <= args.len(),
            views(paths@) == texts(args@).subrange(start, i as int),
        decreases args.len() - i,
    {
        let ghost before = views(paths@);
        paths.push(String::from_str(args[i]));
        assert(views(paths@) =~= before.push(args@[i as int]@));
        assert(texts(args@).subrange(start, i as int + 1) =~= texts(args@).subrange(
            start,
            i as int,
        ).push(args@[i as int]@));
        i += 1;
    }
    assert(texts(args@).subrange(start, args@.len() as int) =~= texts(args@).skip(start));
    assert(texts(args@).skip(0) =~= texts(args@));
    Ok(RmPlan { recursive, paths })
}

/// What the file system says of one path.
#[derive(Clone, Copy, Debug, PartialEq, Eq, Structural)]
pub struct PathProbe {
    pub exists: bool,
    pub is_dir: bool,
    pub is_file: bool,
    pub is_symlink: bool,
}

/// How a path is removed.
#[derive(Clone, Copy, Debug, PartialEq, Eq, Structural)]
pub enum Removal {
    /// The directory and all below it.
    Tree,
    /// The one file.
    File,
}

/// How one path is removed, if it is: a directory with all below it,
/// when `rm` is recursive; a file that is also a symbolic link, as a
/// file; nothing else.
pub open spec fn removal_of(recursive: bool, probe: PathProbe) -> Option<Removal> {
    if !probe.exists {
        None
    } else if probe.is_dir && recursive {
        Some(Removal::Tree)
    } else if probe.is_file && probe.is_symlink {
        Some(Removal::File)
    } else {
        None
    }
}

/// Decides how the path `p` is removed, from what the file system says
/// of it. A path that is not removed is reported as one that cannot be.
pub fn remove_path(p: &str, recursive: bool, probe: PathProbe) -> (r: Result<Removal, ShellError>)
    ensures
        match r {
            Ok(removal) => removal_of(recursive, probe) == Some(removal),
            Err(e) => removal_of(recursive, probe) is None && e@ == ErrorView::RmCannotRemove(
                p@,
            ),
        },
{
    if !probe.exists {
        Err(ShellError::RmCannotRemove(String::from_str(p)))
    } else if probe.is_dir && recursive {
        Ok(Removal::Tree)
    } else if probe.is_file && probe.is_symlink {
        Ok(Removal::File)
    } else {
        Err(ShellError::RmCannotRemove(String::from_str(p)))
    }
}

} // verus!
