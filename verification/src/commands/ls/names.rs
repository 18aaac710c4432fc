//! How names are set off in a listing: directories in bold blue.

use vstd::prelude::*;
use crate::commands::ls::entry::FileMetadata;
use crate::style::{paint_bold_blue, paint_normal, set_off};

verus! {

/// Sets a file name off by its kind: a directory in bold blue, anything
/// else plain.
pub fn colored_file_name_str(file_name: &str, metadata: &FileMetadata) -> (r: String)
    ensures
        set_off(file_name@, metadata.is_dir, r@),
{
    if metadata.is_dir {
        paint_bold_blue(file_name)
    } else {
        paint_normal(file_name)
    }
}

} // verus!
