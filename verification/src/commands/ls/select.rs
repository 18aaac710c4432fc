//! Which entries a listing shows, and in what order.

use vstd::prelude::*;
use crate::commands::ls::entry::{is_hidden, EntryView, FileMetadata};
use crate::commands::ls::order::{entry_le, is_sorted};

verus! {

/// One line of a listing: a name, whether it is shown with emphasis, and
/// the metadata that its columns and its suffix are taken from.
pub ghost struct Line {
    pub name: Seq<char>,
    pub emphasis: bool,
    pub metadata: FileMetadata,
}

/// The line of an entry: its name, with emphasis if it is a directory.
pub open spec fn line_of(e: EntryView) -> Line {
    Line { name: e.name, emphasis: e.metadata.is_dir, metadata: e.metadata }
}

/// Whether an entry is shown: always with show-all, else unless hidden.
pub open spec fn is_shown(e: EntryView, all: bool) -> bool {
    all || !is_hidden(e.name)
}

/// The entries that are shown, in the order in which they were given.
pub open spec fn visible(entries: Seq<EntryView>, all: bool) -> Seq<EntryView>
    decreases entries.len(),
{
    if entries.len() == 0 {
        Seq::empty()
    } else if is_shown(entries.last(), all) {
        visible(entries.drop_last(), all).push(entries.last())
    } else {
        visible(entries.drop_last(), all)
    }
}

/// The lines of the shown entries.
pub open spec fn shown(entries: Seq<EntryView>, all: bool) -> Seq<Line> {
    visible(entries, all).map_values(|e: EntryView| line_of(e))
}

/// The two lines that show-all puts first: the directory itself and its
/// parent, both with emphasis.
pub open spec fn synthetic(dot: FileMetadata, parent: FileMetadata) -> Seq<Line> {
    seq![
        Line { name: seq!['.'], emphasis: true, metadata: dot },
        Line { name: seq!['.', '.'], emphasis: true, metadata: parent },
    ]
}

/// All lines of a listing: with show-all the two synthetic ones, then the
/// shown entries.
pub open spec fn lines(
    entries: Seq<EntryView>,
    all: bool,
    dot: FileMetadata,
    parent: FileMetadata,
) -> Seq<Line> {
    if all {
        synthetic(dot, parent) + shown(entries, all)
    } else {
        shown(entries, all)
    }
}

/// What `lines` is after one more entry.
pub proof fn lemma_lines_step(
    entries: Seq<EntryView>,
    k: int,
    all: bool,
    dot: FileMetadata,
    parent: FileMetadata,
)
    requires
        0 <= k < entries.len(),
    ensures
        is_shown(entries[k], all) ==> lines(entries.take(k + 1), all, dot, parent) == lines(
            entries.take(k),
            all,
            dot,
            parent,
        ).push(line_of(entries[k])),
        !is_shown(entries[k], all) ==> lines(entries.take(k + 1), all, dot, parent) == lines(
            entries.take(k),
            all,
            dot,
            parent,
        ),
{
    let next = entries.take(k + 1);
    assert(next.drop_last() =~= entries.take(k));
    assert(next.last() == entries[k]);
    let before = visible(entries.take(k), all);
    if is_shown(entries[k], all) {
        assert(visible(next, all) == before.push(entries[k]));
        assert(shown(next, all) =~= shown(entries.take(k), all).push(line_of(entries[k])));
        assert(lines(next, all, dot, parent) =~= lines(entries.take(k), all, dot, parent).push(
            line_of(entries[k]),
        ));
    }
}

/// The shown entries are the given ones that show-all or their name lets
/// through: nothing else decides whether an entry is listed. They keep
/// the order in which they were given.
pub proof fn lemma_visible(entries: Seq<EntryView>, all: bool)
    ensures
        forall|e: EntryView|
            visible(entries, all).contains(e) <==> entries.contains(e) && is_shown(e, all),
        visible(entries, all) == entries.filter(|e: EntryView| is_shown(e, all)),
        all ==> visible(entries, all) == entries,
    decreases entries.len(),
{
    let pred = |e: EntryView| is_shown(e, all);
    if entries.len() == 0 {
        assert(entries.filter(pred) =~= Seq::<EntryView>::empty()) by {
            reveal(Seq::filter);
        }
        assert(visible(entries, all) =~= entries);
    } else {
        let rest = entries.drop_last();
        let last = entries.last();
        lemma_visible(rest, all);
        assert(entries =~= rest.push(last));
        assert(entries.filter(pred) == if pred(last) {
            rest.filter(pred).push(last)
        } else {
            rest.filter(pred)
        }) by {
            reveal(Seq::filter);
        }
        assert forall|e: EntryView|
            visible(entries, all).contains(e) <==> entries.contains(e) && is_shown(
                e,
                all,
            ) by {
            let v = visible(entries, all);
            let w = visible(rest, all);
            if v.contains(e) {
                let i = choose|i: int| 0 <= i < v.len() && v[i] == e;
                if is_shown(last, all) && i == v.len() - 1 {
                    assert(entries[entries.len() - 1] == e);
                } else {
                    assert(w[i] == e);
                    assert(w.contains(e));
                    let j = choose|j: int| 0 <= j < rest.len() && rest[j] == e;
                    assert(entries[j] == e);
                }
            }
            if entries.contains(e) && is_shown(e, all) {
                let j = choose|j: int| 0 <= j < entries.len() && entries[j] == e;
                if j == entries.len() - 1 {
                    assert(v[v.len() - 1] == e);
                } else {
                    assert(rest[j] == e);
                    assert(rest.contains(e));
                    let i = choose|i: int| 0 <= i < w.len() && w[i] == e;
                    assert(v[i] == e);
                }
            }
        }
        if all {
            assert(visible(entries, all) =~= entries);
        }
    }
}

/// The names of entries, in their order.
pub open spec fn names_of(entries: Seq<EntryView>) -> Seq<Seq<char>> {
    entries.map_values(|e: EntryView| e.name)
}

/// Leaving entries out does not disturb the order: of entries whose
/// names are sorted, those that are shown have their names sorted too.
pub proof fn lemma_visible_keeps_order(entries: Seq<EntryView>, all: bool)
    requires
        is_sorted(names_of(entries)),
    ensures
        is_sorted(names_of(visible(entries, all))),
    decreases entries.len(),
{
    if entries.len() > 0 {
        let rest = entries.drop_last();
        let last = entries.last();
        assert forall|i: int, j: int| 0 <= i < j < rest.len() implies entry_le(
            names_of(rest)[i],
            names_of(rest)[j],
        ) by {
            assert(entry_le(names_of(entries)[i], names_of(entries)[j]));
        }
        lemma_visible_keeps_order(rest, all);
        lemma_visible(rest, all);
        let kept = visible(rest, all);
        let now = visible(entries, all);
        assert forall|i: int, j: int| 0 <= i < j < now.len() implies entry_le(
            names_of(now)[i],
            names_of(now)[j],
        ) by {
            if j < kept.len() {
                assert(entry_le(names_of(kept)[i], names_of(kept)[j]));
            } else {
                assert(kept.contains(kept[i]));
                let k = choose|k: int| 0 <= k < rest.len() && rest[k] == kept[i];
                assert(entry_le(names_of(entries)[k], names_of(entries)[entries.len() - 1]));
            }
        }
    }
}

} // verus!
