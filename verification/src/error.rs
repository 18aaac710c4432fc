//! What can go wrong in a builtin, and how it is described to the user.

use vstd::prelude::*;
use vstd::string::StringExecFns;
use crate::commands::ls::moment::TimeFault;
use crate::paths::{quote, quoted_path};

verus! {

/// A failure of one command. The shell reports it and goes on.
#[derive(Debug, PartialEq, Eq)]
pub enum ShellError {
    /// No builtin has this name.
    CommandNotFound(String),
    /// `cd` was given more than one argument.
    CdTooManyArguments,
    /// `cd` was given a path that does not exist.
    CdNoSuchDirectory(String),
    /// `cd` was to go home, and the environment names no home.
    HomeNotSet,
    /// `cp` was not given exactly a source and a destination.
    CpWrongArguments,
    /// `mv` was given nothing.
    MvMissingArguments,
    /// `mv` was not given exactly a source and a destination.
    MvWrongArguments,
    /// `rm` was given no path.
    RmMissingArguments,
    /// `rm` cannot remove this path.
    RmCannotRemove(String),
    /// A path has no final component to copy or move it under.
    NoFileName(String),
    /// A modification time cannot be shown.
    Time(TimeFault),
    /// The blocks of a listing do not add up within 64 bits.
    BlockCountOverflow,
}

/// The mathematical content of a `ShellError`.
pub ghost enum ErrorView {
    CommandNotFound(Seq<char>),
    CdTooManyArguments,
    CdNoSuchDirectory(Seq<char>),
    HomeNotSet,
    CpWrongArguments,
    MvMissingArguments,
    MvWrongArguments,
    RmMissingArguments,
    RmCannotRemove(Seq<char>),
    NoFileName(Seq<char>),
    Time(TimeFault),
    BlockCountOverflow,
}

impl View for ShellError {
    type V = ErrorView;

    open spec fn view(&self) -> ErrorView {
        match self {
            ShellError::CommandNotFound(name) => ErrorView::CommandNotFound(name@),
            ShellError::CdTooManyArguments => ErrorView::CdTooManyArguments,
            ShellError::CdNoSuchDirectory(path) => ErrorView::CdNoSuchDirectory(path@),
            ShellError::HomeNotSet => ErrorView::HomeNotSet,
            ShellError::CpWrongArguments => ErrorView::CpWrongArguments,
            ShellError::MvMissingArguments => ErrorView::MvMissingArguments,
            ShellError::MvWrongArguments => ErrorView::MvWrongArguments,
            ShellError::RmMissingArguments => ErrorView::RmMissingArguments,
            ShellError::RmCannotRemove(path) => ErrorView::RmCannotRemove(path@),
            ShellError::NoFileName(path) => ErrorView::NoFileName(path@),
            ShellError::Time(fault) => ErrorView::Time(*fault),
            ShellError::BlockCountOverflow => ErrorView::BlockCountOverflow,
        }
    }
}

/// The description of a failure.
pub open spec fn message_of(e: ErrorView) -> Seq<char> {
    match e {
        ErrorView::CommandNotFound(name) => "Command '"@ + name + "' not found"@,
        ErrorView::CdTooManyArguments => "O-shell: cd: too many arguments"@,
        ErrorView::CdNoSuchDirectory(path) => "O-shell: cd: "@ + path
            + ": No such file or directory"@,
        ErrorView::HomeNotSet => "O-shell: cd: HOME not set"@,
        ErrorView::CpWrongArguments => "cp: takes two arguments source destination"@,
        ErrorView::MvMissingArguments => "mv: missing arguments"@,
        ErrorView::MvWrongArguments => "mv: takes two arguments source destination"@,
        ErrorView::RmMissingArguments => "rm: missing arguments"@,
        ErrorView::RmCannotRemove(path) => "rm: cannot remove "@ + quoted_path(path)
            + ": No such file or directory"@,
        ErrorView::NoFileName(path) => "'"@ + path + "': path has no file name"@,
        ErrorView::Time(TimeFault::BeforeEpoch) => "second time provided was later than self"@,
        ErrorView::Time(TimeFault::TooLate) => "modification time out of range"@,
        ErrorView::Time(TimeFault::OffsetOutOfRange) => "local time offset out of range"@,
        ErrorView::BlockCountOverflow => "block count out of range"@,
    }
}

/// `head`, `middle` and `tail` in one string.
fn framed(head: &str, middle: &str, tail: &str) -> (r: String)
    ensures
        r@ == head@ + middle@ + tail@,
{
    let mut out = String::new();
    out.append(head);
    out.append(middle);
    out.append(tail);
    assert(out@ =~= head@ + middle@ + tail@);
    out
}

impl ShellError {
    /// The description of this failure, as the shell prints it.
    pub fn message(&self) -> (r: String)
        ensures
            r@ == message_of(self@),
    {
        match self {
            ShellError::CommandNotFound(name) => framed("Command '", name.as_str(), "' not found"),
            ShellError::CdTooManyArguments => String::from_str("O-shell: cd: too many arguments"),
            ShellError::CdNoSuchDirectory(path) => framed(
                "O-shell: cd: ",
                path.as_str(),
                ": No such file or directory",
            ),
            ShellError::HomeNotSet => String::from_str("O-shell: cd: HOME not set"),
            ShellError::CpWrongArguments => String::from_str(
                "cp: takes two arguments source destination",
            ),
            ShellError::MvMissingArguments => String::from_str("mv: missing arguments"),
            ShellError::MvWrongArguments => String::from_str(
                "mv: takes two arguments source destination",
            ),
            ShellError::RmMissingArguments => String::from_str("rm: missing arguments"),
            ShellError::RmCannotRemove(path) => {
                let quoted = quote(path.as_str());
                framed("rm: cannot remove ", quoted.as_str(), ": No such file or directory")
            },
            ShellError::NoFileName(path) => framed("'", path.as_str(), "': path has no file name"),
            ShellError::Time(TimeFault::BeforeEpoch) => String::from_str(
                "second time provided was later than self",
            ),
            ShellError::Time(TimeFault::TooLate) => String::from_str(
                "modification time out of range",
            ),
            ShellError::Time(TimeFault::OffsetOutOfRange) => String::from_str(
                "local time offset out of range",
            ),
            ShellError::BlockCountOverflow => String::from_str("block count out of range"),
        }
    }
}

} // verus!
