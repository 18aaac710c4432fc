//! The permission string of the long format and the classify suffix.

use vstd::prelude::*;
use crate::commands::ls::entry::FileMetadata;
use crate::text::push_char;

verus! {

/// `letter` where `mode` has a bit of `mask`, a dash where it has none.
pub open spec fn flag(mode: u32, mask: u32, letter: char) -> char {
    if mode & mask != 0 {
        letter
    } else {
        '-'
    }
}

/// The ten characters of the long format: `d` for a directory or a dash,
/// then read, write and execute for owner, group and others.
pub open spec fn permission_string(is_dir: bool, mode: u32) -> Seq<char> {
    seq![
        if is_dir { 'd' } else { '-' },
        flag(mode, 0o400, 'r'),
        flag(mode, 0o200, 'w'),
        flag(mode, 0o100, 'x'),
        flag(mode, 0o040, 'r'),
        flag(mode, 0o020, 'w'),
        flag(mode, 0o010, 'x'),
        flag(mode, 0o004, 'r'),
        flag(mode, 0o002, 'w'),
        flag(mode, 0o001, 'x'),
    ]
}

fn flag_of(mode: u32, mask: u32, letter: char) -> (c: char)
    ensures
        c == flag(mode, mask, letter),
{
    if mode & mask != 0 {
        letter
    } else {
        '-'
    }
}

/// Renders the type and the nine permission bits of `mode`.
pub fn get_file_permission(is_dir: bool, mode: u32) -> (r: String)
    ensures
        r@ == permission_string(is_dir, mode),
{
    let mut out = String::new();
    push_char(&mut out, if is_dir { 'd' } else { '-' });
    push_char(&mut out, flag_of(mode, 0o400, 'r'));
    push_char(&mut out, flag_of(mode, 0o200, 'w'));
    push_char(&mut out, flag_of(mode, 0o100, 'x'));
    push_char(&mut out, flag_of(mode, 0o040, 'r'));
    push_char(&mut out, flag_of(mode, 0o020, 'w'));
    push_char(&mut out, flag_of(mode, 0o010, 'x'));
    push_char(&mut out, flag_of(mode, 0o004, 'r'));
    push_char(&mut out, flag_of(mode, 0o002, 'w'));
    push_char(&mut out, flag_of(mode, 0o001, 'x'));
    assert(out@ =~= permission_string(is_dir, mode));
    out
}

/// Whether any of the three execute bits is set.
pub open spec fn is_executable(mode: u32) -> bool {
    mode & 0o111 != 0
}

/// What classify appends to a name: a slash to a directory, a star to
/// another entry that is executable, nothing otherwise or when classify
/// is off.
pub open spec fn suffix(metadata: FileMetadata, classify: bool) -> Seq<char> {
    if !classify {
        Seq::empty()
    } else if metadata.is_dir {
        seq!['/']
    } else if is_executable(metadata.mode) {
        seq!['*']
    } else {
        Seq::empty()
    }
}

/// The suffix that classify gives an entry with this metadata.
pub fn classify_suffix(metadata: &FileMetadata, classify: bool) -> (r: String)
    ensures
        r@ == suffix(*metadata, classify),
{
    let mut out = String::new();
    if classify {
        if metadata.is_dir {
            push_char(&mut out, '/');
        } else if metadata.mode & 0o111 != 0 {
            push_char(&mut out, '*');
        }
    }
    assert(out@ =~= suffix(*metadata, classify));
    out
}

/// With classify on, a directory always gets the slash, whatever its mode;
/// another entry gets the star exactly when it is executable; with
/// classify off nothing is appended.
pub proof fn lemma_suffix_cases(metadata: FileMetadata, classify: bool)
    ensures
        classify && metadata.is_dir ==> suffix(metadata, classify) == seq!['/'],
        classify && !metadata.is_dir && is_executable(metadata.mode) ==> suffix(
            metadata,
            classify,
        ) == seq!['*'],
        classify && !metadata.is_dir && !is_executable(metadata.mode) ==> suffix(
            metadata,
            classify,
        ).len() == 0,
        !classify ==> suffix(metadata, classify).len() == 0,
{
}

} // verus!
