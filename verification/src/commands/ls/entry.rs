//! What a listing is made from: entries and their metadata.

use vstd::prelude::*;

verus! {

/// A snapshot of what the system reports of one path.
#[derive(Clone, Copy, Debug, PartialEq, Eq, Structural)]
pub struct FileMetadata {
    /// Whether the path is a directory.
    pub is_dir: bool,
    /// The mode bits; the nine lowest are the permissions.
    pub mode: u32,
    /// The number of hard links.
    pub nlink: u64,
    /// The numeric owner.
    pub uid: u32,
    /// The numeric group.
    pub gid: u32,
    /// The size in bytes.
    pub size: u64,
    /// The time of the last modification, in seconds since the epoch.
    pub mtime: i64,
    /// The seconds by which the local clock is ahead of UTC at that time.
    pub utc_offset: i32,
    /// The number of 512-byte blocks allocated.
    pub blocks: u64,
}

/// A child of a directory, by name, with its metadata.
#[derive(Debug)]
pub struct DirectoryEntry {
    pub name: String,
    pub metadata: FileMetadata,
}

/// The mathematical content of a `DirectoryEntry`.
pub ghost struct EntryView {
    pub name: Seq<char>,
    pub metadata: FileMetadata,
}

impl View for DirectoryEntry {
    type V = EntryView;

    open spec fn view(&self) -> EntryView {
        EntryView { name: self.name@, metadata: self.metadata }
    }
}

/// The views of a sequence of entries, element by element.
pub open spec fn entry_views(entries: Seq<DirectoryEntry>) -> Seq<EntryView> {
    Seq::new(entries.len(), |i: int| entries[i]@)
}

/// A name is hidden when it starts with a dot.
pub open spec fn is_hidden(name: Seq<char>) -> bool {
    name.len() > 0 && name[0] == '.'
}

impl DirectoryEntry {
    pub fn new(name: String, metadata: FileMetadata) -> (e: DirectoryEntry)
        ensures
            e@ == (EntryView { name: name@, metadata }),
    {
        DirectoryEntry { name, metadata }
    }
}

} // verus!
