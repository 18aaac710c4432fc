//! The block count that heads the long format.

use vstd::prelude::*;
use crate::commands::ls::entry::{entry_views, DirectoryEntry, EntryView, FileMetadata};
use crate::commands::ls::order::starts_with_dot;
use crate::commands::ls::select::{lemma_lines_step, line_of, lines, synthetic, Line};
use crate::error::{ErrorView, ShellError};

verus! {

/// How many blocks, as the system counts them, make one of the units that
/// the listing shows: the system counts in 512 bytes, the listing in 1024.
pub const BLOCKS_PER_UNIT: u64 = 2;

/// The blocks of all lines together, as the system counts them.
pub open spec fn block_sum(lines: Seq<Line>) -> nat
    decreases lines.len(),
{
    if lines.len() == 0 {
        0
    } else {
        block_sum(lines.drop_last()) + lines.last().metadata.blocks as nat
    }
}

proof fn lemma_sum_push(lines: Seq<Line>, line: Line)
    ensures
        block_sum(lines.push(line)) == block_sum(lines) + line.metadata.blocks,
{
    assert(lines.push(line).drop_last() =~= lines);
}

proof fn lemma_sum_prefix(
    entries: Seq<EntryView>,
    k: int,
    all: bool,
    dot: FileMetadata,
    parent: FileMetadata,
)
    requires
        0 <= k <= entries.len(),
    ensures
        block_sum(lines(entries.take(k), all, dot, parent)) <= block_sum(
            lines(entries, all, dot, parent),
        ),
    decreases entries.len() - k,
{
    if k == entries.len() {
        assert(entries.take(k) =~= entries);
    } else {
        lemma_lines_step(entries, k, all, dot, parent);
        lemma_sum_push(lines(entries.take(k), all, dot, parent), line_of(entries[k]));
        lemma_sum_prefix(entries, k + 1, all, dot, parent);
    }
}

/// The total that heads the long format of a directory: the blocks of
/// all its lines, those of the directory itself and of its parent among
/// them with show-all, divided by `BLOCKS_PER_UNIT`. It fails where the
/// blocks do not add up within 64 bits.
pub fn calculate_total_blocks(
    entries: &Vec<DirectoryEntry>,
    for_hidden: bool,
    dot: &FileMetadata,
    parent: &FileMetadata,
) -> (r: Result<u64, ShellError>)
    ensures
        match r {
            Ok(total) => {
                &&& block_sum(lines(entry_views(entries@), for_hidden, *dot, *parent))
                    <= u64::MAX
                &&& total == block_sum(lines(entry_views(entries@), for_hidden, *dot, *parent))
                    / (BLOCKS_PER_UNIT as nat)
            },
            Err(e) => {
                &&& block_sum(lines(entry_views(entries@), for_hidden, *dot, *parent))
                    > u64::MAX
                &&& e@ == ErrorView::BlockCountOverflow
            },
        },
{
    let ghost given = entry_views(entries@);
    let mut total_blocks: u64 = 0;
    proof {
        assert(lines(given.take(0), for_hidden, *dot, *parent) =~= if for_hidden {
            synthetic(*dot, *parent)
        } else {
            Seq::empty()
        });
        let line0 = synthetic(*dot, *parent)[0];
        let line1 = synthetic(*dot, *parent)[1];
        assert(synthetic(*dot, *parent) =~= Seq::<Line>::empty().push(line0).push(line1));
        lemma_sum_push(Seq::<Line>::empty(), line0);
        lemma_sum_push(Seq::<Line>::empty().push(line0), line1);
        lemma_sum_prefix(given, 0, for_hidden, *dot, *parent);
    }
    if for_hidden {
        if parent.blocks > u64::MAX - dot.blocks {
            return Err(ShellError::BlockCountOverflow);
        }
        total_blocks = dot.blocks + parent.blocks;
    }
    let mut i: usize = 0;
    while i < entries.len()
        invariant
            i <= entries.len(),
            given == entry_views(entries@),
            total_blocks == block_sum(lines(given.take(i as int), for_hidden, *dot, *parent)),
        decreases entries.len() - i,
    {
        let entry = &entries[i];
        proof {
            lemma_lines_step(given, i as int, for_hidden, *dot, *parent);
            assert(given[i as int] == entry@);
            lemma_sum_push(
                lines(given.take(i as int), for_hidden, *dot, *parent),
                line_of(given[i as int]),
            );
            lemma_sum_prefix(given, i as int + 1, for_hidden, *dot, *parent);
        }
        if for_hidden || !starts_with_dot(entry.name.as_str()) {
            if entry.metadata.blocks > u64::MAX - total_blocks {
                return Err(ShellError::BlockCountOverflow);
            }
            total_blocks = total_blocks + entry.metadata.blocks;
        }
        i += 1;
    }
    assert(given.take(entries@.len() as int) =~= given);
    Ok(total_blocks / BLOCKS_PER_UNIT)
}

} // verus!
