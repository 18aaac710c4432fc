//! The short format: names with two spaces between them.

use vstd::prelude::*;
use vstd::string::StringExecFns;
use crate::commands::ls::entry::{entry_views, DirectoryEntry, FileMetadata};
use crate::commands::ls::order::starts_with_dot;
use crate::commands::ls::perm::{classify_suffix, suffix};
use crate::commands::ls::select::{lemma_lines_step, line_of, lines, synthetic, Line};
use crate::commands::ls::names::colored_file_name_str;
use crate::style::{paint_bold_blue, set_off};
use crate::text::{join, joined, push_char, views};

verus! {

/// Whether `item` can stand for a line: the name, set off as the line
/// asks, followed by the suffix that classify gives it.
pub open spec fn item_ok(line: Line, classify: bool, item: Seq<char>) -> bool {
    exists|p: Seq<char>|
        #[trigger] set_off(line.name, line.emphasis, p) && item == p + suffix(
            line.metadata,
            classify,
        )
}

/// Whether `items` can stand for the lines, one for one and in order.
pub open spec fn items_ok(lines: Seq<Line>, classify: bool, items: Seq<Seq<char>>) -> bool {
    &&& items.len() == lines.len()
    &&& forall|i: int| 0 <= i < lines.len() ==> item_ok(lines[i], classify, #[trigger] items[i])
}

/// Metadata that says no more than "a directory".
pub open spec fn directory_like() -> FileMetadata {
    FileMetadata {
        is_dir: true,
        mode: 0,
        nlink: 0,
        uid: 0,
        gid: 0,
        size: 0,
        mtime: 0,
        utc_offset: 0,
        blocks: 0,
    }
}

/// The two spaces between the items of the short format.
pub open spec fn gap() -> Seq<char> {
    seq![' ', ' ']
}

/// The short format of items: nothing for none, else the items with two
/// spaces between them and a newline after the last.
pub open spec fn short_listing(items: Seq<Seq<char>>) -> Seq<char> {
    if items.len() == 0 {
        Seq::empty()
    } else {
        joined(items, gap()).push('\n')
    }
}

/// A name that was set off, followed by the suffix that classify gives
/// its metadata.
pub fn with_suffix(painted_name: String, metadata: &FileMetadata, classify: bool) -> (r: String)
    ensures
        r@ == painted_name@ + suffix(*metadata, classify),
{
    let mut out = painted_name;
    let tail = classify_suffix(metadata, classify);
    out.append(tail.as_str());
    out
}

/// Joins items into the short format.
pub fn join_short(items: &Vec<String>) -> (r: String)
    ensures
        r@ == short_listing(views(items@)),
{
    if items.len() == 0 {
        return String::new();
    }
    proof {
        reveal_strlit("  ");
        assert("  "@ =~= gap());
    }
    let mut out = join(items, "  ");
    push_char(&mut out, '\n');
    out
}

/// The short format of a directory. With show-all the directory itself
/// and its parent come first, and nothing is left out; without it the
/// hidden entries are. The entries stay in the order in which they were
/// given. Each name is set off by its kind and, with classify, followed
/// by its suffix.
pub fn display(entries: &Vec<DirectoryEntry>, all_files: bool, classify: bool) -> (r: String)
    ensures
        exists|items: Seq<Seq<char>>|
            #[trigger] items_ok(
                lines(entry_views(entries@), all_files, directory_like(), directory_like()),
                classify,
                items,
            ) && r@ == short_listing(items),
{
    let ghost given = entry_views(entries@);
    let ghost d = directory_like();
    let mut items: Vec<String> = Vec::new();
    if all_files {
        let like = FileMetadata {
            is_dir: true,
            mode: 0,
            nlink: 0,
            uid: 0,
            gid: 0,
            size: 0,
            mtime: 0,
            utc_offset: 0,
            blocks: 0,
        };
        proof {
            reveal_strlit(".");
            reveal_strlit("..");
        }
        let dot = paint_bold_blue(".");
        let parent = paint_bold_blue("..");
        assert("."@ =~= seq!['.']);
        assert(".."@ =~= seq!['.', '.']);
        let ghost painted_dot = dot@;
        let ghost painted_parent = parent@;
        let ghost line0 = synthetic(d, d)[0];
        let ghost line1 = synthetic(d, d)[1];
        let first = with_suffix(dot, &like, classify);
        let second = with_suffix(parent, &like, classify);
        assert(like == d);
        assert(set_off(line0.name, line0.emphasis, painted_dot));
        assert(first@ == painted_dot + suffix(line0.metadata, classify));
        assert(item_ok(line0, classify, first@));
        assert(set_off(line1.name, line1.emphasis, painted_parent));
        assert(second@ == painted_parent + suffix(line1.metadata, classify));
        assert(item_ok(line1, classify, second@));
        let ghost pair = seq![first@, second@];
        items.push(first);
        items.push(second);
        assert(views(items@) =~= pair);
    }
    assert(lines(given.take(0), all_files, d, d) =~= if all_files {
        synthetic(d, d)
    } else {
        Seq::empty()
    });
    assert(items_ok(lines(given.take(0), all_files, d, d), classify, views(items@)));
    let mut i: usize = 0;
    while i < entries.len()
        invariant
            i <= entries.len(),
            given == entry_views(entries@),
            d == directory_like(),
            items_ok(lines(given.take(i as int), all_files, d, d), classify, views(items@)),
        decreases entries.len() - i,
    {
        let entry = &entries[i];
        proof {
            lemma_lines_step(given, i as int, all_files, d, d);
        }
        if all_files || !starts_with_dot(entry.name.as_str()) {
            let ghost before = views(items@);
            assert(given[i as int] == entry@);
            let name = colored_file_name_str(entry.name.as_str(), &entry.metadata);
            let ghost p = name@;
            let ghost line = line_of(given[i as int]);
            let item = with_suffix(name, &entry.metadata, classify);
            assert(line.name == entry.name@);
            assert(line.emphasis == entry.metadata.is_dir);
            assert(line.metadata == entry.metadata);
            assert(set_off(line.name, line.emphasis, p));
            assert(item@ == p + suffix(line.metadata, classify));
            assert(item_ok(line, classify, item@));
            items.push(item);
            assert(views(items@) =~= before.push(item@));
        }
        i += 1;
    }
    assert(given.take(entries@.len() as int) =~= given);
    join_short(&items)
}

} // verus!
