//! Directory listing: ordering, filtering and rendering of entries.

pub mod args;
pub mod blocks;
pub mod entry;
pub mod identity;
pub mod long;
pub mod moment;
pub mod names;
pub mod order;
pub mod perm;
pub mod select;
pub mod short;
pub mod table;

use vstd::prelude::*;
use vstd::string::StringExecFns;
use crate::commands::ls::blocks::{block_sum, calculate_total_blocks, BLOCKS_PER_UNIT};
use crate::commands::ls::entry::{entry_views, DirectoryEntry, EntryView, FileMetadata};
use crate::commands::ls::identity::{display_name, Identities};
use crate::commands::ls::long::{extract_file_info, first_fault, format_long_output, rows_ok};
use crate::commands::ls::moment::{modified_text, time_fault};
use crate::commands::ls::perm::permission_string;
use crate::commands::ls::select::lines;
use crate::commands::ls::short::{directory_like, display, items_ok, short_listing};
use crate::commands::ls::table::{long_format, table_text, RowView};
use crate::error::{ErrorView, ShellError};
use crate::text::{append_decimal, decimal, push_char};

verus! {

/// What a path argument of `ls` turned out to be.
#[derive(Debug)]
pub enum Target {
    /// A directory: its children in the order of a listing, and the
    /// metadata of the directory itself and of its parent.
    Directory { entries: Vec<DirectoryEntry>, dot: FileMetadata, parent: FileMetadata },
    /// Anything else: the path as it was given, and its metadata.
    File { path: String, metadata: FileMetadata },
}

/// The line that heads the long format of a directory.
pub open spec fn total_line(total: nat) -> Seq<char> {
    "total "@ + decimal(total) + seq!['\n']
}

/// The long format of a path that is no directory: the seven fields with
/// one space between them, and a newline.
pub open spec fn file_line(
    path: Seq<char>,
    metadata: FileMetadata,
    users: Map<u32, Seq<char>>,
    groups: Map<u32, Seq<char>>,
) -> Seq<char> {
    permission_string(metadata.is_dir, metadata.mode) + seq![' '] + decimal(metadata.nlink as nat)
        + seq![' '] + display_name(users, metadata.uid) + seq![' '] + display_name(
        groups,
        metadata.gid,
    ) + seq![' '] + decimal(metadata.size as nat) + seq![' '] + modified_text(
        metadata.mtime,
        metadata.utc_offset,
    ) + seq![' '] + path
        + seq!['\n']
}

/// Whether `r` is a listing of a directory in short format.
pub open spec fn short_directory_ok(
    entries: Seq<EntryView>,
    all_files: bool,
    classify: bool,
    r: Result<String, ShellError>,
) -> bool {
    r matches Ok(s) && exists|items: Seq<Seq<char>>|
        #[trigger] items_ok(
            lines(entries, all_files, directory_like(), directory_like()),
            classify,
            items,
        ) && s@ == short_listing(items)
}

/// Whether `r` is a listing of a directory in long format: the total
/// and the table, or the failure that comes first, the blocks that do not
/// add up before a time that cannot be shown.
pub open spec fn long_directory_ok(
    lines: Seq<crate::commands::ls::select::Line>,
    classify: bool,
    users: Map<u32, Seq<char>>,
    groups: Map<u32, Seq<char>>,
    r: Result<String, ShellError>,
) -> bool {
    match r {
        Ok(s) => {
            &&& block_sum(lines) <= u64::MAX
            &&& first_fault(lines) is None
            &&& exists|rows: Seq<RowView>|
                #[trigger] rows_ok(lines, classify, users, groups, rows) && s@ == total_line(
                    block_sum(lines) / (BLOCKS_PER_UNIT as nat),
                ) + table_text(long_format(), rows)
        },
        Err(e) => if block_sum(lines) > u64::MAX {
            e@ == ErrorView::BlockCountOverflow
        } else {
            first_fault(lines) matches Some(fault) && e@ == ErrorView::Time(fault)
        },
    }
}

/// Whether `r` is a listing of a path that is no directory: in short
/// format the path and a newline; in long format its seven fields, or
/// the fault of its modification time.
pub open spec fn file_ok(
    path: Seq<char>,
    metadata: FileMetadata,
    long_format: bool,
    users: Map<u32, Seq<char>>,
    groups: Map<u32, Seq<char>>,
    r: Result<String, ShellError>,
) -> bool {
    if !long_format {
        r matches Ok(s) && s@ == path + seq!['\n']
    } else {
        match r {
            Ok(s) => time_fault(metadata.mtime, metadata.utc_offset) is None && s@ == file_line(
                path,
                metadata,
                users,
                groups,
            ),
            Err(e) => time_fault(metadata.mtime, metadata.utc_offset) matches Some(fault) && e@
                == ErrorView::Time(fault),
        }
    }
}

/// Lists one path: what `ls` prints for it, or why it cannot.
///
/// A directory is listed by its children, which are shown in the order
/// in which they are given; anything else is listed as itself.
pub fn ls(
    long_format: bool,
    all_files: bool,
    classify: bool,
    target: &Target,
    identities: &Identities,
) -> (r: Result<String, ShellError>)
    ensures
        match *target {
            Target::Directory { entries, dot, parent } => if long_format {
                long_directory_ok(
                    lines(entry_views(entries@), all_files, dot, parent),
                    classify,
                    identities.users@,
                    identities.groups@,
                    r,
                )
            } else {
                short_directory_ok(entry_views(entries@), all_files, classify, r)
            },
            Target::File { path, metadata } => file_ok(
                path@,
                metadata,
                long_format,
                identities.users@,
                identities.groups@,
                r,
            ),
        },
{
    match target {
        Target::Directory { entries, dot, parent } => {
            if long_format {
                let total_blocks = match calculate_total_blocks(entries, all_files, dot, parent) {
                    Ok(total) => total,
                    Err(e) => {
                        return Err(e);
                    },
                };
                let table = match format_long_output(
                    entries,
                    all_files,
                    classify,
                    dot,
                    parent,
                    identities,
                ) {
                    Ok(table) => table,
                    Err(e) => {
                        return Err(e);
                    },
                };
                let mut out = String::from_str("total ");
                append_decimal(&mut out, total_blocks);
                push_char(&mut out, '\n');
                out.append(table.as_str());
                assert(out@ =~= total_line(total_blocks as nat) + table@);
                Ok(out)
            } else {
                Ok(display(entries, all_files, classify))
            }
        },
        Target::File { path, metadata } => {
            if long_format {
                let (perm, nlink, username, group, size, last_time) = match extract_file_info(
                    metadata,
                    identities,
                ) {
                    Ok(info) => info,
                    Err(fault) => {
                        return Err(ShellError::Time(fault));
                    },
                };
                let mut out = perm;
                push_char(&mut out, ' ');
                append_decimal(&mut out, nlink);
                push_char(&mut out, ' ');
                out.append(username.as_str());
                push_char(&mut out, ' ');
                out.append(group.as_str());
                push_char(&mut out, ' ');
                append_decimal(&mut out, size);
                push_char(&mut out, ' ');
                out.append(last_time.as_str());
                push_char(&mut out, ' ');
                out.append(path.as_str());
                push_char(&mut out, '\n');
                assert(out@ =~= file_line(
                    path@,
                    *metadata,
                    identities.users@,
                    identities.groups@,
                ));
                Ok(out)
            } else {
                let mut out = path.clone();
                push_char(&mut out, '\n');
                assert(out@ =~= path@ + seq!['\n']);
                Ok(out)
            }
        },
    }
}

} // verus!
