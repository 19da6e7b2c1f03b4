//! The plain file reader.

use vstd::prelude::*;

verus! {

/// The text handed out in place of a file that could not be read.
pub open spec fn read_error_marker() -> Seq<char> {
    "Error reading file"@
}

/// The contents of a file as text, given what was read of it: the text
/// itself, or the error marker where the file could not be read. It never
/// fails.
pub fn read_file_content(read: Option<String>) -> (content: String)
    ensures
        content@ == match read {
            Some(text) => text@,
            None => read_error_marker(),
        },
{
    match read {
        Some(text) => text,
        None => "Error reading file".to_owned(),
    }
}

} // verus!
