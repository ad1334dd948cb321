//! Outcomes of the caller's file-picking dialogs. The dialogs themselves are
//! presentation I/O; the caller reports what was picked and whether it
//! exists, and these functions decide the result the rest of the
//! application sees.

use vstd::prelude::*;
use vstd::string::StringExecFns;

use crate::error::Error;

verus! {

/// The detail text of the error for a picked file that is gone.
pub open spec fn picked_file_missing_detail() -> Seq<char> {
    "The file picked in the file selector does not exist!"@
}

/// Decides the outcome of the image picker: `picked` is the path the dialog
/// returned, `exists` whether a file is at it. A dismissed dialog fails with
/// `NoFileSelected`; a picked path with nothing behind it fails with
/// `FileNotFound`; otherwise the path is accepted for loading.
pub fn select_image(picked: Option<String>, exists: bool) -> (r: Result<String, Error>)
    ensures
        picked is None ==> (r matches Err(e) && e matches Error::NoFileSelected(u) && u is None),
        picked is Some && !exists ==> (r matches Err(e) && e matches Error::FileNotFound(u, p, d)
            && u is None && p == picked->0 && d@ == picked_file_missing_detail()),
        picked is Some && exists ==> r == Ok::<String, Error>(picked->0),
{
    match picked {
        None => Err(Error::NoFileSelected(None)),
        Some(path) => {
            if !exists {
                Err(
                    Error::FileNotFound(
                        None,
                        path,
                        String::from_str("The file picked in the file selector does not exist!"),
                    ),
                )
            } else {
                Ok(path)
            }
        },
    }
}

/// Decides the outcome of the output-folder picker: the picked folder, or
/// `NoFileSelected` when the dialog was dismissed.
pub fn save_folder(picked: Option<String>) -> (r: Result<String, Error>)
    ensures
        picked is None ==> (r matches Err(e) && e matches Error::NoFileSelected(u) && u is None),
        picked is Some ==> r == Ok::<String, Error>(picked->0),
{
    match picked {
        None => Err(Error::NoFileSelected(None)),
        Some(path) => Ok(path),
    }
}

} // verus!
