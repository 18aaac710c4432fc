//! The arguments of `ls`: three flags, and paths.

use vstd::prelude::*;
use vstd::string::StringExecFns;
use crate::text::{same_text, texts, views};

verus! {

/// Whether an argument is one of the three flags.
pub open spec fn is_flag(arg: Seq<char>) -> bool {
    arg == "-l"@ || arg == "-a"@ || arg == "-F"@
}

/// The arguments that are no flags, in the order in which they stand.
pub open spec fn named_paths(args: Seq<Seq<char>>) -> Seq<Seq<char>>
    decreases args.len(),
{
    if args.len() == 0 {
        Seq::empty()
    } else if is_flag(args.last()) {
        named_paths(args.drop_last())
    } else {
        named_paths(args.drop_last()).push(args.last())
    }
}

/// The paths to list: those named, or the current directory if none is.
pub open spec fn paths_of(args: Seq<Seq<char>>) -> Seq<Seq<char>> {
    if named_paths(args).len() == 0 {
        seq!["."@]
    } else {
        named_paths(args)
    }
}

/// Reads the arguments of `ls`. Each flag is on exactly when it stands
/// among the arguments, wherever and however often; every other argument
/// is a path. The result is long format, show-all, classify, and the
/// paths to list.
pub fn parse_args(args: &[&str]) -> (r: (bool, bool, bool, Vec<String>))
    ensures
        r.0 == texts(args@).contains("-l"@),
        r.1 == texts(args@).contains("-a"@),
        r.2 == texts(args@).contains("-F"@),
        views(r.3@) == paths_of(texts(args@)),
{
    let mut long_format = false;
    let mut all_files = false;
    let mut classify = false;
    let mut paths: Vec<String> = Vec::new();
    let ghost given = texts(args@);
    let mut i: usize = 0;
    assert(views(paths@) =~= named_paths(given.take(0)));
    while i < args.len()
        invariant
            i <= args.len(),
            given == texts(args@),
            long_format == given.take(i as int).contains("-l"@),
            all_files == given.take(i as int).contains("-a"@),
            classify == given.take(i as int).contains("-F"@),
            views(paths@) == named_paths(given.take(i as int)),
        decreases args.len() - i,
    {
        let arg = args[i];
        let ghost before = given.take(i as int);
        let ghost after = given.take(i as int + 1);
        proof {
            assert(given[i as int] == arg@);
            assert(after =~= before.push(arg@));
            assert(after.drop_last() =~= before);
            assert forall|x: Seq<char>| after.contains(x) <==> before.contains(x) || x
                == arg@ by {
                if before.contains(x) {
                    let j = choose|j: int| 0 <= j < before.len() && before[j] == x;
                    assert(after[j] == x);
                }
                if x == arg@ {
                    assert(after[i as int] == x);
                }
            }
            reveal_strlit("-l");
            reveal_strlit("-a");
            reveal_strlit("-F");
            assert("-l"@ != "-a"@) by {
                assert("-l"@[1] != "-a"@[1]);
            }
            assert("-l"@ != "-F"@) by {
                assert("-l"@[1] != "-F"@[1]);
            }
            assert("-a"@ != "-F"@) by {
                assert("-a"@[1] != "-F"@[1]);
            }
        }
        if same_text(arg, "-l") {
            long_format = true;
        } else if same_text(arg, "-a") {
            all_files = true;
        } else if same_text(arg, "-F") {
            classify = true;
        } else {
            let ghost old_paths = views(paths@);
            let path = String::from_str(arg);
            paths.push(path);
            assert(views(paths@) =~= old_paths.push(arg@));
        }
        i += 1;
    }
    assert(given.take(args@.len() as int) =~= given);
    if paths.len() == 0 {
        paths.push(String::from_str("."));
        assert(views(paths@) =~= seq!["."@]);
    }
    (long_format, all_files, classify, paths)
}

} // verus!
