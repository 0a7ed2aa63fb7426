//! Where the history of the interactive shell is kept.

use vstd::prelude::*;
use vstd::string::{StrSliceExecFns, StringExecFns};

verus! {

/// The name of the history file, in whatever directory it is kept.
pub open spec fn history_file_name() -> Seq<char> {
    ".crush_history"@
}

/// The path of the history file for a home directory `home`: the file in
/// that directory, or in the current directory where there is no home. A
/// separator is put between the two unless the directory brings it along.
pub open spec fn history_path(home: Option<Seq<char>>) -> Seq<char> {
    let directory = match home {
        Some(directory) => directory,
        None => "."@,
    };
    if directory.len() == 0 {
        history_file_name()
    } else if directory.last() == '/' {
        directory + history_file_name()
    } else {
        directory + "/"@ + history_file_name()
    }
}

pub fn crush_history_file(home: Option<String>) -> (path: String)
    ensures
        path@ == history_path(
            match home {
                Some(directory) => Some(directory@),
                None => None,
            },
        ),
{
    let directory = match home {
        Some(directory) => directory,
        None => String::from_str("."),
    };
    let length = directory.as_str().unicode_len();
    if length == 0 {
        String::from_str(".crush_history")
    } else if directory.as_str().get_char(length - 1) == '/' {
        directory.concat(".crush_history")
    } else {
        directory.concat("/").concat(".crush_history")
    }
}

} // verus!
