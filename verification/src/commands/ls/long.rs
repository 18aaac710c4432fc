//! The long format: one row of seven columns for each line.

use vstd::prelude::*;
use crate::commands::ls::entry::{entry_views, DirectoryEntry, EntryView, FileMetadata};
use crate::commands::ls::identity::{display_name, get_user_group_names, Identities};
use crate::commands::ls::moment::{last_modified_time, modified_text, time_fault, TimeFault};
use crate::commands::ls::order::starts_with_dot;
use crate::commands::ls::perm::{get_file_permission, permission_string, suffix};
use crate::commands::ls::select::{lemma_lines_step, line_of, lines, synthetic, Line};
use crate::commands::ls::short::{item_ok, with_suffix};
use crate::commands::ls::names::colored_file_name_str;
use crate::style::{paint_bold_blue, set_off};
use crate::commands::ls::table::{
    long_format, render_rows, row_views, table_text, FormattedRow, RowView,
};
use crate::error::{ErrorView, ShellError};

verus! {

/// Whether `row` can stand for a line: permissions, link count, owner,
/// group and size are those of the metadata, the time is the
/// modification time on the local clock, the name is an item of the
/// line.
pub open spec fn row_ok(
    line: Line,
    classify: bool,
    users: Map<u32, Seq<char>>,
    groups: Map<u32, Seq<char>>,
    row: RowView,
) -> bool {
    &&& row.0 == permission_string(line.metadata.is_dir, line.metadata.mode)
    &&& row.1 == line.metadata.nlink
    &&& row.2 == display_name(users, line.metadata.uid)
    &&& row.3 == display_name(groups, line.metadata.gid)
    &&& row.4 == line.metadata.size
    &&& row.5 == modified_text(line.metadata.mtime, line.metadata.utc_offset)
    &&& item_ok(line, classify, row.6)
}

/// Whether `rows` can stand for the lines, one for one and in order.
pub open spec fn rows_ok(
    lines: Seq<Line>,
    classify: bool,
    users: Map<u32, Seq<char>>,
    groups: Map<u32, Seq<char>>,
    rows: Seq<RowView>,
) -> bool {
    &&& rows.len() == lines.len()
    &&& forall|i: int|
        0 <= i < lines.len() ==> row_ok(lines[i], classify, users, groups, #[trigger] rows[i])
}

/// The fault of the first line whose modification time cannot be shown.
pub open spec fn first_fault(lines: Seq<Line>) -> Option<TimeFault>
    decreases lines.len(),
{
    if lines.len() == 0 {
        None
    } else {
        match first_fault(lines.drop_last()) {
            Some(fault) => Some(fault),
            None => time_fault(lines.last().metadata.mtime, lines.last().metadata.utc_offset),
        }
    }
}

proof fn lemma_fault_push(lines: Seq<Line>, line: Line)
    ensures
        first_fault(lines.push(line)) == match first_fault(lines) {
            Some(fault) => Some(fault),
            None => time_fault(line.metadata.mtime, line.metadata.utc_offset),
        },
{
    assert(lines.push(line).drop_last() =~= lines);
}

proof fn lemma_fault_prefix(
    entries: Seq<EntryView>,
    k: int,
    all: bool,
    dot: FileMetadata,
    parent: FileMetadata,
)
    requires
        0 <= k <= entries.len(),
        first_fault(lines(entries.take(k), all, dot, parent)) is Some,
    ensures
        first_fault(lines(entries, all, dot, parent)) == first_fault(
            lines(entries.take(k), all, dot, parent),
        ),
    decreases entries.len() - k,
{
    if k == entries.len() {
        assert(entries.take(k) =~= entries);
    } else {
        lemma_lines_step(entries, k, all, dot, parent);
        lemma_fault_push(lines(entries.take(k), all, dot, parent), line_of(entries[k]));
        lemma_fault_prefix(entries, k + 1, all, dot, parent);
    }
}

/// The columns of the long format that come from the metadata:
/// permissions, link count, owner, group, size and modification time.
/// It fails where the modification time cannot be shown, with the fault.
pub fn extract_file_info(metadata: &FileMetadata, identities: &Identities) -> (r: Result<
    (String, u64, String, String, u64, String),
    TimeFault,
>)
    ensures
        match r {
            Ok(info) => {
                &&& time_fault(metadata.mtime, metadata.utc_offset) is None
                &&& info.0@ == permission_string(metadata.is_dir, metadata.mode)
                &&& info.1 == metadata.nlink
                &&& info.2@ == display_name(identities.users@, metadata.uid)
                &&& info.3@ == display_name(identities.groups@, metadata.gid)
                &&& info.4 == metadata.size
                &&& info.5@ == modified_text(metadata.mtime, metadata.utc_offset)
            },
            Err(fault) => time_fault(metadata.mtime, metadata.utc_offset) == Some(fault),
        },
{
    let (username, group) = get_user_group_names(identities, metadata.uid, metadata.gid);
    let perm = get_file_permission(metadata.is_dir, metadata.mode);
    match last_modified_time(metadata.mtime, metadata.utc_offset) {
        Ok(last_time) => Ok((perm, metadata.nlink, username, group, metadata.size, last_time)),
        Err(fault) => Err(fault),
    }
}

/// The row of a name that was set off already.
fn row_of(
    painted_name: String,
    metadata: &FileMetadata,
    classify: bool,
    identities: &Identities,
) -> (r: Result<FormattedRow, TimeFault>)
    ensures
        match r {
            Ok(row) => {
                &&& time_fault(metadata.mtime, metadata.utc_offset) is None
                &&& row@.0 == permission_string(metadata.is_dir, metadata.mode)
                &&& row@.1 == metadata.nlink
                &&& row@.2 == display_name(identities.users@, metadata.uid)
                &&& row@.3 == display_name(identities.groups@, metadata.gid)
                &&& row@.4 == metadata.size
                &&& row@.5 == modified_text(metadata.mtime, metadata.utc_offset)
                &&& row@.6 == painted_name@ + suffix(*metadata, classify)
            },
            Err(fault) => time_fault(metadata.mtime, metadata.utc_offset) == Some(fault),
        },
{
    let name = with_suffix(painted_name, metadata, classify);
    match extract_file_info(metadata, identities) {
        Ok((permissions, links, owner, group, size, modified)) => Ok(
            FormattedRow { permissions, links, owner, group, size, modified, name },
        ),
        Err(fault) => Err(fault),
    }
}

/// The rows of the long format of a directory, in the order of its
/// lines. It fails at the first line whose modification time cannot be
/// shown.
pub fn long_rows(
    entries: &Vec<DirectoryEntry>,
    all_files: bool,
    classify: bool,
    dot: &FileMetadata,
    parent: &FileMetadata,
    identities: &Identities,
) -> (r: Result<Vec<FormattedRow>, ShellError>)
    ensures
        match r {
            Ok(rows) => {
                &&& first_fault(lines(entry_views(entries@), all_files, *dot, *parent)) is None
                &&& rows_ok(
                    lines(entry_views(entries@), all_files, *dot, *parent),
                    classify,
                    identities.users@,
                    identities.groups@,
                    row_views(rows@),
                )
            },
            Err(e) => first_fault(lines(entry_views(entries@), all_files, *dot, *parent))
                matches Some(fault) && e@ == ErrorView::Time(fault),
        },
{
    let ghost given = entry_views(entries@);
    let ghost users = identities.users@;
    let ghost groups = identities.groups@;
    let mut rows: Vec<FormattedRow> = Vec::new();
    assert(lines(given.take(0), all_files, *dot, *parent) =~= if all_files {
        synthetic(*dot, *parent)
    } else {
        Seq::empty()
    });
    if all_files {
        let ghost line0 = synthetic(*dot, *parent)[0];
        let ghost line1 = synthetic(*dot, *parent)[1];
        proof {
            reveal_strlit(".");
            reveal_strlit("..");
            assert(synthetic(*dot, *parent) =~= Seq::<Line>::empty().push(line0).push(line1));
            lemma_fault_push(Seq::<Line>::empty(), line0);
            lemma_fault_push(Seq::<Line>::empty().push(line0), line1);
        }
        let here = paint_bold_blue(".");
        let ghost painted_dot = here@;
        assert("."@ =~= seq!['.']);
        let first = match row_of(here, dot, classify, identities) {
            Ok(row) => row,
            Err(fault) => {
                proof {
                    lemma_fault_prefix(given, 0, all_files, *dot, *parent);
                }
                return Err(ShellError::Time(fault));
            },
        };
        let above = paint_bold_blue("..");
        let ghost painted_parent = above@;
        assert(".."@ =~= seq!['.', '.']);
        let second = match row_of(above, parent, classify, identities) {
            Ok(row) => row,
            Err(fault) => {
                proof {
                    lemma_fault_prefix(given, 0, all_files, *dot, *parent);
                }
                return Err(ShellError::Time(fault));
            },
        };
        proof {
            assert(set_off(line0.name, line0.emphasis, painted_dot));
            assert(first@.6 == painted_dot + suffix(line0.metadata, classify));
            assert(row_ok(line0, classify, users, groups, first@));
            assert(set_off(line1.name, line1.emphasis, painted_parent));
            assert(second@.6 == painted_parent + suffix(line1.metadata, classify));
            assert(row_ok(line1, classify, users, groups, second@));
        }
        let ghost pair = seq![first@, second@];
        rows.push(first);
        rows.push(second);
        assert(row_views(rows@) =~= pair);
    }
    let mut i: usize = 0;
    while i < entries.len()
        invariant
            i <= entries.len(),
            given == entry_views(entries@),
            users == identities.users@,
            groups == identities.groups@,
            first_fault(lines(given.take(i as int), all_files, *dot, *parent)) is None,
            rows_ok(
                lines(given.take(i as int), all_files, *dot, *parent),
                classify,
                users,
                groups,
                row_views(rows@),
            ),
        decreases entries.len() - i,
    {
        let entry = &entries[i];
        proof {
            lemma_lines_step(given, i as int, all_files, *dot, *parent);
            assert(given[i as int] == entry@);
            lemma_fault_push(
                lines(given.take(i as int), all_files, *dot, *parent),
                line_of(given[i as int]),
            );
        }
        if all_files || !starts_with_dot(entry.name.as_str()) {
            let ghost before = row_views(rows@);
            let ghost line = line_of(given[i as int]);
            let name = colored_file_name_str(entry.name.as_str(), &entry.metadata);
            let ghost p = name@;
            let row = match row_of(name, &entry.metadata, classify, identities) {
                Ok(row) => row,
                Err(fault) => {
                    proof {
                        lemma_fault_prefix(given, i as int + 1, all_files, *dot, *parent);
                    }
                    return Err(ShellError::Time(fault));
                },
            };
            proof {
                assert(set_off(line.name, line.emphasis, p));
                assert(row@.6 == p + suffix(line.metadata, classify));
                assert(row_ok(line, classify, users, groups, row@));
            }
            rows.push(row);
            assert(row_views(rows@) =~= before.push(row@));
        }
        i += 1;
    }
    assert(given.take(entries@.len() as int) =~= given);
    Ok(rows)
}

/// The table of the long format of a directory: one row for each line,
/// laid out in seven columns. It fails at the first line whose
/// modification time cannot be shown.
pub fn format_long_output(
    entries: &Vec<DirectoryEntry>,
    all_files: bool,
    classify: bool,
    dot: &FileMetadata,
    parent: &FileMetadata,
    identities: &Identities,
) -> (r: Result<String, ShellError>)
    ensures
        match r {
            Ok(s) => {
                &&& first_fault(lines(entry_views(entries@), all_files, *dot, *parent)) is None
                &&& exists|rows: Seq<RowView>|
                    #[trigger] rows_ok(
                        lines(entry_views(entries@), all_files, *dot, *parent),
                        classify,
                        identities.users@,
                        identities.groups@,
                        rows,
                    ) && s@ == table_text(long_format(), rows)
            },
            Err(e) => first_fault(lines(entry_views(entries@), all_files, *dot, *parent))
                matches Some(fault) && e@ == ErrorView::Time(fault),
        },
{
    match long_rows(entries, all_files, classify, dot, parent, identities) {
        Ok(rows) => Ok(render_rows(&rows)),
        Err(e) => Err(e),
    }
}

} // verus!
